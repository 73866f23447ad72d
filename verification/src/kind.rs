use vstd::prelude::*;

verus! {

/// The closed set of element type codes the engine understands. Each code
/// that this crate can marshal maps one-to-one to a native element type (see
/// `Value`); the remaining codes exist so that engine-reported types can be
/// named in errors.
#[derive(Clone, Copy, Debug, PartialEq, Eq, Structural)]
pub enum Type {
    Bool,
    Half,
    Float,
    Double,
    Complex64,
    Complex128,
    Int8,
    Int16,
    Int32,
    Int64,
    QInt8,
    QInt16,
    QInt32,
    QUInt8,
    QUInt16,
    UInt8,
    UInt16,
    Text,
    BFloat16,
}

impl Type {
    /// The numeric code of each element type in the engine's wire convention.
    pub open spec fn spec_code(self) -> u32 {
        match self {
            Type::Float => 1,
            Type::Double => 2,
            Type::Int32 => 3,
            Type::UInt8 => 4,
            Type::Int16 => 5,
            Type::Int8 => 6,
            Type::Text => 7,
            Type::Complex64 => 8,
            Type::Int64 => 9,
            Type::Bool => 10,
            Type::QInt8 => 11,
            Type::QUInt8 => 12,
            Type::QInt32 => 13,
            Type::BFloat16 => 14,
            Type::QInt16 => 15,
            Type::QUInt16 => 16,
            Type::UInt16 => 17,
            Type::Complex128 => 18,
            Type::Half => 19,
        }
    }

    /// Encode this element type as the engine's numeric code.
    pub fn code(self) -> (c: u32)
        ensures
            c == self.spec_code(),
    {
        match self {
            Type::Float => 1,
            Type::Double => 2,
            Type::Int32 => 3,
            Type::UInt8 => 4,
            Type::Int16 => 5,
            Type::Int8 => 6,
            Type::Text => 7,
            Type::Complex64 => 8,
            Type::Int64 => 9,
            Type::Bool => 10,
            Type::QInt8 => 11,
            Type::QUInt8 => 12,
            Type::QInt32 => 13,
            Type::BFloat16 => 14,
            Type::QInt16 => 15,
            Type::QUInt16 => 16,
            Type::UInt16 => 17,
            Type::Complex128 => 18,
            Type::Half => 19,
        }
    }

    /// Decode an engine-reported numeric type code; `None` for numbers
    /// outside the closed set.
    pub fn from_code(c: u32) -> (t: Option<Type>)
        ensures
            t matches Some(k) ==> k.spec_code() == c,
            t is None ==> forall|k: Type| k.spec_code() != c,
    {
        match c {
            1 => Some(Type::Float),
            2 => Some(Type::Double),
            3 => Some(Type::Int32),
            4 => Some(Type::UInt8),
            5 => Some(Type::Int16),
            6 => Some(Type::Int8),
            7 => Some(Type::Text),
            8 => Some(Type::Complex64),
            9 => Some(Type::Int64),
            10 => Some(Type::Bool),
            11 => Some(Type::QInt8),
            12 => Some(Type::QUInt8),
            13 => Some(Type::QInt32),
            14 => Some(Type::BFloat16),
            15 => Some(Type::QInt16),
            16 => Some(Type::QUInt16),
            17 => Some(Type::UInt16),
            18 => Some(Type::Complex128),
            19 => Some(Type::Half),
            _ => None,
        }
    }
}

/// The numeric encoding is faithful: decoding an encoded type yields the
/// type itself, so no two types share a wire code.
pub proof fn lemma_type_code_injective(a: Type, b: Type)
    requires
        a.spec_code() == b.spec_code(),
    ensures
        a == b,
{
}

} // verus!
