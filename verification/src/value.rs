use vstd::prelude::*;

use crate::kind::Type;
use crate::tensor::{AnyTensor, Tensor};

verus! {

/// A 32-bit IEEE floating-point element, carried by its bit pattern. The
/// engine only ever sees tensor contents as raw storage, so the bits are all
/// that crosses the boundary; an embedder converts to and from its native
/// float representation at the edge.
#[derive(Clone, Copy, Debug, PartialEq, Eq, Structural)]
pub struct Float32 {
    pub bits: u32,
}

/// A 64-bit IEEE floating-point element, carried by its bit pattern.
#[derive(Clone, Copy, Debug, PartialEq, Eq, Structural)]
pub struct Float64 {
    pub bits: u64,
}

/// A homogeneous sequence of elements tagged with its element type: the form
/// in which tensor contents cross the engine boundary.
#[derive(Clone, Debug, PartialEq)]
pub enum Elements {
    Bool(Vec<bool>),
    Float(Vec<Float32>),
    Double(Vec<Float64>),
    Int8(Vec<i8>),
    Int16(Vec<i16>),
    Int32(Vec<i32>),
    Int64(Vec<i64>),
    UInt8(Vec<u8>),
    UInt16(Vec<u16>),
    Text(Vec<String>),
}

impl Elements {
    /// The element type this sequence is tagged with.
    pub open spec fn kind_spec(&self) -> Type {
        match self {
            Elements::Bool(_) => Type::Bool,
            Elements::Float(_) => Type::Float,
            Elements::Double(_) => Type::Double,
            Elements::Int8(_) => Type::Int8,
            Elements::Int16(_) => Type::Int16,
            Elements::Int32(_) => Type::Int32,
            Elements::Int64(_) => Type::Int64,
            Elements::UInt8(_) => Type::UInt8,
            Elements::UInt16(_) => Type::UInt16,
            Elements::Text(_) => Type::Text,
        }
    }

    /// The number of elements.
    pub open spec fn len_spec(&self) -> int {
        match self {
            Elements::Bool(v) => v@.len() as int,
            Elements::Float(v) => v@.len() as int,
            Elements::Double(v) => v@.len() as int,
            Elements::Int8(v) => v@.len() as int,
            Elements::Int16(v) => v@.len() as int,
            Elements::Int32(v) => v@.len() as int,
            Elements::Int64(v) => v@.len() as int,
            Elements::UInt8(v) => v@.len() as int,
            Elements::UInt16(v) => v@.len() as int,
            Elements::Text(v) => v@.len() as int,
        }
    }

    /// The element type this sequence is tagged with.
    pub fn kind(&self) -> (t: Type)
        ensures
            t == self.kind_spec(),
    {
        match self {
            Elements::Bool(_) => Type::Bool,
            Elements::Float(_) => Type::Float,
            Elements::Double(_) => Type::Double,
            Elements::Int8(_) => Type::Int8,
            Elements::Int16(_) => Type::Int16,
            Elements::Int32(_) => Type::Int32,
            Elements::Int64(_) => Type::Int64,
            Elements::UInt8(_) => Type::UInt8,
            Elements::UInt16(_) => Type::UInt16,
            Elements::Text(_) => Type::Text,
        }
    }

    /// The number of elements.
    pub fn len(&self) -> (n: usize)
        ensures
            n == self.len_spec(),
    {
        match self {
            Elements::Bool(v) => v.len(),
            Elements::Float(v) => v.len(),
            Elements::Double(v) => v.len(),
            Elements::Int8(v) => v.len(),
            Elements::Int16(v) => v.len(),
            Elements::Int32(v) => v.len(),
            Elements::Int64(v) => v.len(),
            Elements::UInt8(v) => v.len(),
            Elements::UInt16(v) => v.len(),
            Elements::Text(v) => v.len(),
        }
    }
}

/// A native element type that can be exchanged with the engine: it knows its
/// type code, can duplicate itself exactly, and can cross the boundary inside
/// a tagged [`Elements`] value.
pub trait Value: Sized {
    /// The engine type code this element type corresponds to.
    spec fn kind_spec() -> Type;

    /// The element sequence behind a tagged [`Elements`] value of this type
    /// (the empty sequence when the tag names some other type).
    spec fn seq_of(e: Elements) -> Seq<Self>;

    /// The type code, at run time.
    fn kind() -> (t: Type)
        ensures
            t == Self::kind_spec(),
    ;

    /// An exact duplicate of one element.
    fn dup(&self) -> (r: Self)
        ensures
            r == *self,
    ;

    /// Tag a vector of elements for the engine boundary.
    fn to_elements(v: Vec<Self>) -> (e: Elements)
        ensures
            e.kind_spec() == Self::kind_spec(),
            Self::seq_of(e) == v@,
            e.len_spec() == v@.len(),
    ;

    /// Untag a vector of elements coming back across the engine boundary;
    /// a value tagged with some other type is handed back untouched.
    fn from_elements(e: Elements) -> (r: Result<Vec<Self>, Elements>)
        ensures
            e.kind_spec() == Self::kind_spec() ==> (r matches Ok(v) && v@ == Self::seq_of(e)
                && v@.len() == e.len_spec()),
            e.kind_spec() != Self::kind_spec() ==> r == Err::<Vec<Self>, Elements>(e),
    ;

    /// The tagged form of a typed tensor.
    spec fn wrap_spec(t: Tensor<Self>) -> AnyTensor;

    /// Erase the element type, for storage inside an input slot.
    fn wrap(t: Tensor<Self>) -> (a: AnyTensor)
        ensures
            a == Self::wrap_spec(t),
            a.kind_spec() == Self::kind_spec(),
    ;

    /// Recover the typed tensor from its tagged form; a tensor of some other
    /// element type is handed back untouched, so an engine handle it may own
    /// is not lost.
    fn unwrap(a: AnyTensor) -> (r: Result<Tensor<Self>, AnyTensor>)
        ensures
            a.kind_spec() == Self::kind_spec() ==> (r matches Ok(t) && a == Self::wrap_spec(t)),
            a.kind_spec() != Self::kind_spec() ==> r == Err::<Tensor<Self>, AnyTensor>(a),
    ;
}

/// An exact copy of the first `n` elements of a vector.
pub(crate) fn dup_prefix<T: Value>(v: &Vec<T>, n: usize) -> (r: Vec<T>)
    requires
        n <= v@.len(),
    ensures
        r@ == v@.take(n as int),
{
    let mut r: Vec<T> = Vec::new();
    for i in 0..n
        invariant
            n <= v@.len(),
            r@ == v@.take(i as int),
    {
        r.push(v[i].dup());
        proof {
            assert(v@.take(i + 1 as int) =~= v@.take(i as int).push(v@[i as int]));
        }
    }
    r
}

/// An exact copy of a vector of elements.
pub(crate) fn dup_vec<T: Value>(v: &Vec<T>) -> (r: Vec<T>)
    ensures
        r@ == v@,
{
    let r = dup_prefix(v, v.len());
    proof {
        assert(v@.take(v@.len() as int) =~= v@);
    }
    r
}

impl Value for bool {
    open spec fn kind_spec() -> Type {
        Type::Bool
    }

    open spec fn seq_of(e: Elements) -> Seq<bool> {
        match e {
            Elements::Bool(v) => v@,
            _ => Seq::empty(),
        }
    }

    open spec fn wrap_spec(t: Tensor<bool>) -> AnyTensor {
        AnyTensor::Bool(t)
    }

    fn kind() -> (t: Type) {
        Type::Bool
    }

    fn dup(&self) -> (r: bool) {
        *self
    }

    fn to_elements(v: Vec<bool>) -> (e: Elements) {
        Elements::Bool(v)
    }

    fn from_elements(e: Elements) -> (r: Result<Vec<bool>, Elements>) {
        match e {
            Elements::Bool(v) => Ok(v),
            other => Err(other),
        }
    }

    fn wrap(t: Tensor<bool>) -> (a: AnyTensor) {
        AnyTensor::Bool(t)
    }

    fn unwrap(a: AnyTensor) -> (r: Result<Tensor<bool>, AnyTensor>) {
        match a {
            AnyTensor::Bool(t) => Ok(t),
            other => Err(other),
        }
    }
}

impl Value for Float32 {
    open spec fn kind_spec() -> Type {
        Type::Float
    }

    open spec fn seq_of(e: Elements) -> Seq<Float32> {
        match e {
            Elements::Float(v) => v@,
            _ => Seq::empty(),
        }
    }

    open spec fn wrap_spec(t: Tensor<Float32>) -> AnyTensor {
        AnyTensor::Float(t)
    }

    fn kind() -> (t: Type) {
        Type::Float
    }

    fn dup(&self) -> (r: Float32) {
        *self
    }

    fn to_elements(v: Vec<Float32>) -> (e: Elements) {
        Elements::Float(v)
    }

    fn from_elements(e: Elements) -> (r: Result<Vec<Float32>, Elements>) {
        match e {
            Elements::Float(v) => Ok(v),
            other => Err(other),
        }
    }

    fn wrap(t: Tensor<Float32>) -> (a: AnyTensor) {
        AnyTensor::Float(t)
    }

    fn unwrap(a: AnyTensor) -> (r: Result<Tensor<Float32>, AnyTensor>) {
        match a {
            AnyTensor::Float(t) => Ok(t),
            other => Err(other),
        }
    }
}

impl Value for Float64 {
    open spec fn kind_spec() -> Type {
        Type::Double
    }

    open spec fn seq_of(e: Elements) -> Seq<Float64> {
        match e {
            Elements::Double(v) => v@,
            _ => Seq::empty(),
        }
    }

    open spec fn wrap_spec(t: Tensor<Float64>) -> AnyTensor {
        AnyTensor::Double(t)
    }

    fn kind() -> (t: Type) {
        Type::Double
    }

    fn dup(&self) -> (r: Float64) {
        *self
    }

    fn to_elements(v: Vec<Float64>) -> (e: Elements) {
        Elements::Double(v)
    }

    fn from_elements(e: Elements) -> (r: Result<Vec<Float64>, Elements>) {
        match e {
            Elements::Double(v) => Ok(v),
            other => Err(other),
        }
    }

    fn wrap(t: Tensor<Float64>) -> (a: AnyTensor) {
        AnyTensor::Double(t)
    }

    fn unwrap(a: AnyTensor) -> (r: Result<Tensor<Float64>, AnyTensor>) {
        match a {
            AnyTensor::Double(t) => Ok(t),
            other => Err(other),
        }
    }
}

impl Value for i8 {
    open spec fn kind_spec() -> Type {
        Type::Int8
    }

    open spec fn seq_of(e: Elements) -> Seq<i8> {
        match e {
            Elements::Int8(v) => v@,
            _ => Seq::empty(),
        }
    }

    open spec fn wrap_spec(t: Tensor<i8>) -> AnyTensor {
        AnyTensor::Int8(t)
    }

    fn kind() -> (t: Type) {
        Type::Int8
    }

    fn dup(&self) -> (r: i8) {
        *self
    }

    fn to_elements(v: Vec<i8>) -> (e: Elements) {
        Elements::Int8(v)
    }

    fn from_elements(e: Elements) -> (r: Result<Vec<i8>, Elements>) {
        match e {
            Elements::Int8(v) => Ok(v),
            other => Err(other),
        }
    }

    fn wrap(t: Tensor<i8>) -> (a: AnyTensor) {
        AnyTensor::Int8(t)
    }

    fn unwrap(a: AnyTensor) -> (r: Result<Tensor<i8>, AnyTensor>) {
        match a {
            AnyTensor::Int8(t) => Ok(t),
            other => Err(other),
        }
    }
}

impl Value for i16 {
    open spec fn kind_spec() -> Type {
        Type::Int16
    }

    open spec fn seq_of(e: Elements) -> Seq<i16> {
        match e {
            Elements::Int16(v) => v@,
            _ => Seq::empty(),
        }
    }

    open spec fn wrap_spec(t: Tensor<i16>) -> AnyTensor {
        AnyTensor::Int16(t)
    }

    fn kind() -> (t: Type) {
        Type::Int16
    }

    fn dup(&self) -> (r: i16) {
        *self
    }

    fn to_elements(v: Vec<i16>) -> (e: Elements) {
        Elements::Int16(v)
    }

    fn from_elements(e: Elements) -> (r: Result<Vec<i16>, Elements>) {
        match e {
            Elements::Int16(v) => Ok(v),
            other => Err(other),
        }
    }

    fn wrap(t: Tensor<i16>) -> (a: AnyTensor) {
        AnyTensor::Int16(t)
    }

    fn unwrap(a: AnyTensor) -> (r: Result<Tensor<i16>, AnyTensor>) {
        match a {
            AnyTensor::Int16(t) => Ok(t),
            other => Err(other),
        }
    }
}

impl Value for i32 {
    open spec fn kind_spec() -> Type {
        Type::Int32
    }

    open spec fn seq_of(e: Elements) -> Seq<i32> {
        match e {
            Elements::Int32(v) => v@,
            _ => Seq::empty(),
        }
    }

    open spec fn wrap_spec(t: Tensor<i32>) -> AnyTensor {
        AnyTensor::Int32(t)
    }

    fn kind() -> (t: Type) {
        Type::Int32
    }

    fn dup(&self) -> (r: i32) {
        *self
    }

    fn to_elements(v: Vec<i32>) -> (e: Elements) {
        Elements::Int32(v)
    }

    fn from_elements(e: Elements) -> (r: Result<Vec<i32>, Elements>) {
        match e {
            Elements::Int32(v) => Ok(v),
            other => Err(other),
        }
    }

    fn wrap(t: Tensor<i32>) -> (a: AnyTensor) {
        AnyTensor::Int32(t)
    }

    fn unwrap(a: AnyTensor) -> (r: Result<Tensor<i32>, AnyTensor>) {
        match a {
            AnyTensor::Int32(t) => Ok(t),
            other => Err(other),
        }
    }
}

impl Value for i64 {
    open spec fn kind_spec() -> Type {
        Type::Int64
    }

    open spec fn seq_of(e: Elements) -> Seq<i64> {
        match e {
            Elements::Int64(v) => v@,
            _ => Seq::empty(),
        }
    }

    open spec fn wrap_spec(t: Tensor<i64>) -> AnyTensor {
        AnyTensor::Int64(t)
    }

    fn kind() -> (t: Type) {
        Type::Int64
    }

    fn dup(&self) -> (r: i64) {
        *self
    }

    fn to_elements(v: Vec<i64>) -> (e: Elements) {
        Elements::Int64(v)
    }

    fn from_elements(e: Elements) -> (r: Result<Vec<i64>, Elements>) {
        match e {
            Elements::Int64(v) => Ok(v),
            other => Err(other),
        }
    }

    fn wrap(t: Tensor<i64>) -> (a: AnyTensor) {
        AnyTensor::Int64(t)
    }

    fn unwrap(a: AnyTensor) -> (r: Result<Tensor<i64>, AnyTensor>) {
        match a {
            AnyTensor::Int64(t) => Ok(t),
            other => Err(other),
        }
    }
}

impl Value for u8 {
    open spec fn kind_spec() -> Type {
        Type::UInt8
    }

    open spec fn seq_of(e: Elements) -> Seq<u8> {
        match e {
            Elements::UInt8(v) => v@,
            _ => Seq::empty(),
        }
    }

    open spec fn wrap_spec(t: Tensor<u8>) -> AnyTensor {
        AnyTensor::UInt8(t)
    }

    fn kind() -> (t: Type) {
        Type::UInt8
    }

    fn dup(&self) -> (r: u8) {
        *self
    }

    fn to_elements(v: Vec<u8>) -> (e: Elements) {
        Elements::UInt8(v)
    }

    fn from_elements(e: Elements) -> (r: Result<Vec<u8>, Elements>) {
        match e {
            Elements::UInt8(v) => Ok(v),
            other => Err(other),
        }
    }

    fn wrap(t: Tensor<u8>) -> (a: AnyTensor) {
        AnyTensor::UInt8(t)
    }

    fn unwrap(a: AnyTensor) -> (r: Result<Tensor<u8>, AnyTensor>) {
        match a {
            AnyTensor::UInt8(t) => Ok(t),
            other => Err(other),
        }
    }
}

impl Value for u16 {
    open spec fn kind_spec() -> Type {
        Type::UInt16
    }

    open spec fn seq_of(e: Elements) -> Seq<u16> {
        match e {
            Elements::UInt16(v) => v@,
            _ => Seq::empty(),
        }
    }

    open spec fn wrap_spec(t: Tensor<u16>) -> AnyTensor {
        AnyTensor::UInt16(t)
    }

    fn kind() -> (t: Type) {
        Type::UInt16
    }

    fn dup(&self) -> (r: u16) {
        *self
    }

    fn to_elements(v: Vec<u16>) -> (e: Elements) {
        Elements::UInt16(v)
    }

    fn from_elements(e: Elements) -> (r: Result<Vec<u16>, Elements>) {
        match e {
            Elements::UInt16(v) => Ok(v),
            other => Err(other),
        }
    }

    fn wrap(t: Tensor<u16>) -> (a: AnyTensor) {
        AnyTensor::UInt16(t)
    }

    fn unwrap(a: AnyTensor) -> (r: Result<Tensor<u16>, AnyTensor>) {
        match a {
            AnyTensor::UInt16(t) => Ok(t),
            other => Err(other),
        }
    }
}

impl Value for String {
    open spec fn kind_spec() -> Type {
        Type::Text
    }

    open spec fn seq_of(e: Elements) -> Seq<String> {
        match e {
            Elements::Text(v) => v@,
            _ => Seq::empty(),
        }
    }

    open spec fn wrap_spec(t: Tensor<String>) -> AnyTensor {
        AnyTensor::Text(t)
    }

    fn kind() -> (t: Type) {
        Type::Text
    }

    fn dup(&self) -> (r: String) {
        self.clone()
    }

    fn to_elements(v: Vec<String>) -> (e: Elements) {
        Elements::Text(v)
    }

    fn from_elements(e: Elements) -> (r: Result<Vec<String>, Elements>) {
        match e {
            Elements::Text(v) => Ok(v),
            other => Err(other),
        }
    }

    fn wrap(t: Tensor<String>) -> (a: AnyTensor) {
        AnyTensor::Text(t)
    }

    fn unwrap(a: AnyTensor) -> (r: Result<Tensor<String>, AnyTensor>) {
        match a {
            AnyTensor::Text(t) => Ok(t),
            other => Err(other),
        }
    }
}

} // verus!
