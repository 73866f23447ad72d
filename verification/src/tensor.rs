use vstd::prelude::*;

use crate::engine::{spec_raw_count, Handle, RawTensor, TensorContent};
use crate::error::Error;
use crate::kind::Type;
use crate::memory::Memory;
use crate::value::{dup_prefix, dup_vec, Float32, Float64, Value};

verus! {

/// The element count a dimension list declares at construction time: the
/// product of its entries, with the empty list (a scalar) declaring one
/// element.
pub open spec fn spec_product(dims: Seq<usize>) -> int
    decreases dims.len(),
{
    if dims.len() == 0 {
        1
    } else {
        spec_product(dims.drop_last()) * (dims.last() as int)
    }
}

/// The element count reported when a construction is refused: the declared
/// product, saturated to the machine's address range.
pub open spec fn spec_needed(dims: Seq<usize>) -> usize {
    if spec_product(dims) > usize::MAX {
        usize::MAX
    } else {
        spec_product(dims) as usize
    }
}

/// A positive factor can only grow a product that is already over a bound.
proof fn lemma_factor_grows(p: int, d: int, bound: int)
    by (nonlinear_arith)
    requires
        p > bound,
        d >= 1,
        bound >= 0,
    ensures
        p * d > bound,
{
}

/// A typed, dimensioned, contiguous array: the unit exchanged with the
/// engine. The dimensions are kept in the engine's signed 64-bit convention;
/// the declared element count never exceeds the backing storage, so callers
/// may supply slack data that is truncated when the tensor is presented to
/// the engine. A tensor reconstructed from an engine handle keeps that
/// handle, to be released exactly once.
#[derive(Debug)]
pub struct Tensor<T> {
    dimensions: Vec<i64>,
    count: usize,
    memory: Memory<T>,
    handle: Option<Handle>,
}

impl<T> Tensor<T> {
    #[verifier::type_invariant]
    spec fn wf(self) -> bool {
        &&& forall|i: int| 0 <= i < self.dimensions@.len() ==> self.dimensions@[i] >= 0
        &&& self.count <= self.memory@.len()
    }

    /// The dimension list, in the engine's signed convention.
    pub closed spec fn spec_dims(&self) -> Seq<i64> {
        self.dimensions@
    }

    /// The number of elements the dimensions declare.
    pub closed spec fn spec_count(&self) -> int {
        self.count as int
    }

    /// The elements of the backing storage.
    pub closed spec fn spec_data(&self) -> Seq<T> {
        self.memory@
    }

    /// Whether the backing storage is owned by this side.
    pub closed spec fn spec_owned(&self) -> bool {
        self.memory.spec_owned()
    }

    /// The engine handle this tensor owns, if it was adopted from one.
    pub closed spec fn spec_handle(&self) -> Option<Handle> {
        self.handle
    }

    /// The dimensions, converted back to sizes.
    pub fn dimensions(&self) -> (d: Vec<usize>)
        ensures
            d@ == self.spec_dims().map_values(|x: i64| x as usize),
    {
        let n = self.dimensions.len();
        let mut d: Vec<usize> = Vec::new();
        for i in 0..n
            invariant
                n == self.dimensions@.len(),
                d@ == self.spec_dims().take(i as int).map_values(|x: i64| x as usize),
        {
            d.push(self.dimensions[i] as usize);
            proof {
                assert(self.spec_dims().take(i + 1 as int).map_values(|x: i64| x as usize) =~= self
                    .spec_dims().take(i as int).map_values(|x: i64| x as usize).push(
                    self.spec_dims()[i as int] as usize,
                ));
            }
        }
        proof {
            assert(self.spec_dims().take(n as int) =~= self.spec_dims());
        }
        d
    }

    /// The number of elements the dimensions declare.
    pub fn count(&self) -> (n: usize)
        ensures
            n == self.spec_count(),
    {
        self.count
    }

    /// Read access to the elements.
    pub fn data(&self) -> (v: &Vec<T>)
        ensures
            v@ == self.spec_data(),
    {
        self.memory.as_vec()
    }

    /// Whether this tensor owns an engine handle.
    pub fn has_handle(&self) -> (b: bool)
        ensures
            b == (self.spec_handle() is Some),
    {
        self.handle.is_some()
    }

    /// Give the tensor up, keeping only its engine handle (if it owns one)
    /// for the embedder to release. The backing storage, if caller-owned, is
    /// freed normally; foreign storage stays with the engine.
    pub fn release(self) -> (h: Option<Handle>)
        ensures
            h == self.spec_handle(),
    {
        let Tensor { dimensions: _, count: _, memory: _, handle } = self;
        handle
    }
}

impl<T: Value> Tensor<T> {
    /// Build a tensor over caller-owned data. The dimensions may declare
    /// fewer elements than `data` supplies — the slack is kept but never
    /// shown to the engine — but declaring more is refused, and the error
    /// reports both counts. Succeeds exactly when the declared product fits
    /// the data.
    pub fn new(data: Vec<T>, dimensions: &[usize]) -> (r: Result<Tensor<T>, Error>)
        requires
            forall|i: int| 0 <= i < dimensions@.len() ==> dimensions@[i] <= i64::MAX,
        ensures
            spec_product(dimensions@) <= data@.len() ==> (r matches Ok(t) && t.spec_dims()
                == dimensions@.map_values(|d: usize| d as i64) && t.spec_count() == spec_product(
                dimensions@,
            ) && t.spec_data() == data@ && t.spec_owned() && t.spec_handle() is None),
            spec_product(dimensions@) > data@.len() ==> r == Err::<Tensor<T>, Error>(
                Error::InsufficientData {
                    needed: spec_needed(dimensions@),
                    given: data@.len() as usize,
                },
            ),
    {
        let n = dimensions.len();
        let mut dims: Vec<i64> = Vec::new();
        let mut needed: usize = 1;
        let mut overflow: bool = false;
        let mut i: usize = 0;
        while i < n
            invariant
                i <= n,
                n == dimensions@.len(),
                forall|j: int| 0 <= j < n ==> dimensions@[j] <= i64::MAX,
                dims@ == dimensions@.take(i as int).map_values(|d: usize| d as i64),
                !overflow ==> needed == spec_product(dimensions@.take(i as int)),
                overflow ==> spec_product(dimensions@.take(i as int)) > usize::MAX,
            decreases n - i,
        {
            let d = dimensions[i];
            dims.push(d as i64);
            proof {
                assert(dimensions@.take(i + 1 as int).drop_last() =~= dimensions@.take(i as int));
                assert(dimensions@.take(i + 1 as int).last() == d);
                assert(spec_product(dimensions@.take(i + 1 as int)) == spec_product(
                    dimensions@.take(i as int),
                ) * (d as int));
                assert(dimensions@.take(i + 1 as int).map_values(|x: usize| x as i64) =~= dims@);
            }
            if d == 0 {
                needed = 0;
                overflow = false;
                proof {
                    assert(spec_product(dimensions@.take(i + 1 as int)) == 0) by (nonlinear_arith)
                        requires
                            spec_product(dimensions@.take(i + 1 as int)) == spec_product(
                                dimensions@.take(i as int),
                            ) * (d as int),
                            d == 0,
                    ;
                }
            } else if !overflow {
                match needed.checked_mul(d) {
                    Some(m) => {
                        needed = m;
                    },
                    None => {
                        overflow = true;
                    },
                }
            } else {
                proof {
                    lemma_factor_grows(
                        spec_product(dimensions@.take(i as int)),
                        d as int,
                        usize::MAX as int,
                    );
                }
            }
            i = i + 1;
        }
        proof {
            assert(dimensions@.take(n as int) =~= dimensions@);
        }
        if overflow {
            return Err(Error::InsufficientData { needed: usize::MAX, given: data.len() });
        }
        if needed > data.len() {
            return Err(Error::InsufficientData { needed, given: data.len() });
        }
        Ok(Tensor { dimensions: dims, count: needed, memory: Memory::new(data), handle: None })
    }

    /// Duplicate this tensor's content for the engine: the dimension list
    /// and exactly the declared number of elements, tagged with the element
    /// type. This is what feeding the tensor into a run hands across the
    /// boundary; the tensor itself is untouched and stays with the caller.
    pub fn copy_raw(&self) -> (c: TensorContent)
        ensures
            c.dimensions@ == self.spec_dims(),
            c.elements.kind_spec() == T::kind_spec(),
            T::seq_of(c.elements) == self.spec_data().take(self.spec_count()),
            c.elements.len_spec() == self.spec_count(),
    {
        proof {
            use_type_invariant(&*self);
        }
        let prefix = dup_prefix(self.memory.as_vec(), self.count);
        TensorContent {
            dimensions: dup_vec(&self.dimensions),
            elements: T::to_elements(prefix),
        }
    }

    /// Adopt an engine tensor as a typed one: the data becomes foreign
    /// memory and the handle is kept, to be released exactly once when the
    /// tensor is. A tensor of some other element type is not consumed: it
    /// comes back beside the error so its handle is not lost.
    pub fn from_raw(raw: RawTensor) -> (r: Result<Tensor<T>, (RawTensor, Error)>)
        ensures
            raw.kind_spec() == T::kind_spec() ==> (r matches Ok(t) && t.spec_dims()
                == raw.spec_dims() && t.spec_count() == raw.spec_count() && t.spec_data()
                == T::seq_of(raw.spec_elements()) && !t.spec_owned() && t.spec_handle() == Some(
                raw.spec_handle(),
            )),
            raw.kind_spec() != T::kind_spec() ==> (r matches Err(p) && p.0 == raw && p.1
                == Error::TypeMismatch { expected: T::kind_spec(), actual: raw.kind_spec() }),
    {
        match raw.split_typed::<T>() {
            Ok((handle, dimensions, count, data)) => Ok(
                Tensor { dimensions, count, memory: Memory::adopt(data), handle: Some(handle) },
            ),
            Err(unconsumed) => {
                let actual = unconsumed.kind();
                Err((unconsumed, Error::TypeMismatch { expected: T::kind(), actual }))
            },
        }
    }

    /// Take the elements out, together with the engine handle (if any) for
    /// the embedder to release. Caller-owned contents move; foreign contents
    /// are copied, since the engine's storage cannot be kept once the handle
    /// is gone.
    pub fn into_data(self) -> (r: (Vec<T>, Option<Handle>))
        ensures
            r.0@ == self.spec_data(),
            r.1 == self.spec_handle(),
    {
        let Tensor { dimensions: _, count: _, memory, handle } = self;
        let mut memory = memory;
        let data = memory.empty();
        (data, handle)
    }
}

/// A tensor of any supported element type: the form in which an input slot
/// stores one. The element type is a tag, not an open-ended trait object,
/// because the set of types the engine understands is closed.
#[derive(Debug)]
pub enum AnyTensor {
    Bool(Tensor<bool>),
    Float(Tensor<Float32>),
    Double(Tensor<Float64>),
    Int8(Tensor<i8>),
    Int16(Tensor<i16>),
    Int32(Tensor<i32>),
    Int64(Tensor<i64>),
    UInt8(Tensor<u8>),
    UInt16(Tensor<u16>),
    Text(Tensor<String>),
}

/// Whether `c` is exactly what presenting `t` to the engine produces: the
/// same dimension list, and the declared prefix of the data under the
/// element type's tag.
pub open spec fn spec_content_of<T: Value>(t: Tensor<T>, c: TensorContent) -> bool {
    &&& c.dimensions@ == t.spec_dims()
    &&& c.elements.kind_spec() == T::kind_spec()
    &&& T::seq_of(c.elements) == t.spec_data().take(t.spec_count())
    &&& c.elements.len_spec() == t.spec_count()
}

impl AnyTensor {
    /// The element type of the tensor inside.
    pub open spec fn kind_spec(&self) -> Type {
        match self {
            AnyTensor::Bool(_) => Type::Bool,
            AnyTensor::Float(_) => Type::Float,
            AnyTensor::Double(_) => Type::Double,
            AnyTensor::Int8(_) => Type::Int8,
            AnyTensor::Int16(_) => Type::Int16,
            AnyTensor::Int32(_) => Type::Int32,
            AnyTensor::Int64(_) => Type::Int64,
            AnyTensor::UInt8(_) => Type::UInt8,
            AnyTensor::UInt16(_) => Type::UInt16,
            AnyTensor::Text(_) => Type::Text,
        }
    }

    /// Whether `c` is exactly the content this tensor presents to the
    /// engine.
    pub open spec fn matches_content(&self, c: TensorContent) -> bool {
        match *self {
            AnyTensor::Bool(t) => spec_content_of::<bool>(t, c),
            AnyTensor::Float(t) => spec_content_of::<Float32>(t, c),
            AnyTensor::Double(t) => spec_content_of::<Float64>(t, c),
            AnyTensor::Int8(t) => spec_content_of::<i8>(t, c),
            AnyTensor::Int16(t) => spec_content_of::<i16>(t, c),
            AnyTensor::Int32(t) => spec_content_of::<i32>(t, c),
            AnyTensor::Int64(t) => spec_content_of::<i64>(t, c),
            AnyTensor::UInt8(t) => spec_content_of::<u8>(t, c),
            AnyTensor::UInt16(t) => spec_content_of::<u16>(t, c),
            AnyTensor::Text(t) => spec_content_of::<String>(t, c),
        }
    }

    /// The element type of the tensor inside.
    pub fn kind(&self) -> (t: Type)
        ensures
            t == self.kind_spec(),
    {
        match self {
            AnyTensor::Bool(_) => Type::Bool,
            AnyTensor::Float(_) => Type::Float,
            AnyTensor::Double(_) => Type::Double,
            AnyTensor::Int8(_) => Type::Int8,
            AnyTensor::Int16(_) => Type::Int16,
            AnyTensor::Int32(_) => Type::Int32,
            AnyTensor::Int64(_) => Type::Int64,
            AnyTensor::UInt8(_) => Type::UInt8,
            AnyTensor::UInt16(_) => Type::UInt16,
            AnyTensor::Text(_) => Type::Text,
        }
    }

    /// Duplicate the content for the engine, whatever the element type.
    pub fn copy_raw(&self) -> (c: TensorContent)
        ensures
            self.matches_content(c),
    {
        match self {
            AnyTensor::Bool(t) => t.copy_raw(),
            AnyTensor::Float(t) => t.copy_raw(),
            AnyTensor::Double(t) => t.copy_raw(),
            AnyTensor::Int8(t) => t.copy_raw(),
            AnyTensor::Int16(t) => t.copy_raw(),
            AnyTensor::Int32(t) => t.copy_raw(),
            AnyTensor::Int64(t) => t.copy_raw(),
            AnyTensor::UInt8(t) => t.copy_raw(),
            AnyTensor::UInt16(t) => t.copy_raw(),
            AnyTensor::Text(t) => t.copy_raw(),
        }
    }

    /// Give the tensor up, keeping only its engine handle (if it owns one).
    pub fn release(self) -> (h: Option<Handle>)
        ensures
            h == self.spec_handle(),
    {
        match self {
            AnyTensor::Bool(t) => t.release(),
            AnyTensor::Float(t) => t.release(),
            AnyTensor::Double(t) => t.release(),
            AnyTensor::Int8(t) => t.release(),
            AnyTensor::Int16(t) => t.release(),
            AnyTensor::Int32(t) => t.release(),
            AnyTensor::Int64(t) => t.release(),
            AnyTensor::UInt8(t) => t.release(),
            AnyTensor::UInt16(t) => t.release(),
            AnyTensor::Text(t) => t.release(),
        }
    }

    /// The engine handle of the tensor inside, if it owns one.
    pub open spec fn spec_handle(&self) -> Option<Handle> {
        match *self {
            AnyTensor::Bool(t) => t.spec_handle(),
            AnyTensor::Float(t) => t.spec_handle(),
            AnyTensor::Double(t) => t.spec_handle(),
            AnyTensor::Int8(t) => t.spec_handle(),
            AnyTensor::Int16(t) => t.spec_handle(),
            AnyTensor::Int32(t) => t.spec_handle(),
            AnyTensor::Int64(t) => t.spec_handle(),
            AnyTensor::UInt8(t) => t.spec_handle(),
            AnyTensor::UInt16(t) => t.spec_handle(),
            AnyTensor::Text(t) => t.spec_handle(),
        }
    }
}

} // verus!
