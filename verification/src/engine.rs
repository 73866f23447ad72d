use vstd::prelude::*;

use crate::value::{Elements, Value};
use crate::kind::Type;

verus! {

/// The element count a dimension list declares: the product of its entries,
/// with the empty list declaring one element.
pub open spec fn spec_product_i64(dims: Seq<i64>) -> int
    decreases dims.len(),
{
    if dims.len() == 0 {
        1
    } else {
        spec_product_i64(dims.drop_last()) * (dims.last() as int)
    }
}

/// The element count behind a tensor handle adopted from the engine. A handle
/// with an empty dimension list (a scalar) is treated as holding no
/// extractable elements: this crate resolves the scalar convention towards
/// zero, so scalar results adopt cleanly but carry no data.
pub open spec fn spec_raw_count(dims: Seq<i64>) -> int {
    if dims.len() == 0 {
        0
    } else {
        spec_product_i64(dims)
    }
}

/// A move-only token for one engine tensor handle. The embedder mints one
/// per foreign allocation; this crate moves it around and finally hands it
/// back exactly once, either to the engine's own consumption path or to an
/// explicit release list. It cannot be copied, so no proof can release it
/// twice.
#[derive(Debug)]
pub struct Handle {
    id: u64,
}

impl Handle {
    /// The number the embedder associated with the foreign handle.
    pub closed spec fn spec_id(&self) -> u64 {
        self.id
    }

    /// Record a freshly allocated foreign handle under the given number.
    pub fn new(id: u64) -> (h: Handle)
        ensures
            h.spec_id() == id,
    {
        Handle { id }
    }

    /// The number the embedder associated with the foreign handle.
    pub fn id(&self) -> (i: u64)
        ensures
            i == self.spec_id(),
    {
        self.id
    }
}

/// What the engine receives to materialise one tensor: the dimension list in
/// the engine's signed convention, and the elements. One of these is produced
/// for every bound input of a run call.
#[derive(Clone, Debug, PartialEq)]
pub struct TensorContent {
    pub dimensions: Vec<i64>,
    pub elements: Elements,
}

/// A live engine-owned tensor: its handle together with the contents this
/// side can observe through it. Constructed by the embedder from what the
/// engine reports; adopted into an [`crate::Output`] by a successful run.
///
/// Well-formedness is enforced at construction: the dimensions are
/// non-negative and declare exactly as many elements as the value carries,
/// an empty dimension list declaring zero (see [`spec_raw_count`]).
#[derive(Debug)]
pub struct RawTensor {
    handle: Handle,
    dimensions: Vec<i64>,
    count: usize,
    elements: Elements,
}

impl RawTensor {
    #[verifier::type_invariant]
    spec fn wf(self) -> bool {
        &&& forall|i: int| 0 <= i < self.dimensions@.len() ==> self.dimensions@[i] >= 0
        &&& self.count == spec_raw_count(self.dimensions@)
        &&& self.count == self.elements.len_spec()
    }

    /// The handle the engine knows this tensor by.
    pub closed spec fn spec_handle(&self) -> Handle {
        self.handle
    }

    /// The dimension list the engine reported.
    pub closed spec fn spec_dims(&self) -> Seq<i64> {
        self.dimensions@
    }

    /// The number of elements behind the handle.
    pub closed spec fn spec_count(&self) -> int {
        self.count as int
    }

    /// The tagged contents behind the handle.
    pub closed spec fn spec_elements(&self) -> Elements {
        self.elements
    }

    /// The engine-reported element type.
    pub open spec fn kind_spec(&self) -> Type {
        self.spec_elements().kind_spec()
    }

    /// Whether a dimension list and an element value fit together as one
    /// engine tensor.
    pub open spec fn spec_valid(dims: Seq<i64>, elements: Elements) -> bool {
        &&& forall|i: int| 0 <= i < dims.len() ==> dims[i] >= 0
        &&& spec_raw_count(dims) == elements.len_spec()
    }

    /// Assemble an engine tensor from what the engine reported: its handle,
    /// its dimension list and its contents. `None` if the report does not
    /// describe a tensor: a negative dimension, or a dimension product that
    /// does not match the element count.
    pub fn new(handle: Handle, dimensions: Vec<i64>, elements: Elements) -> (r: Option<
        RawTensor,
    >)
        ensures
            r is Some <==> Self::spec_valid(dimensions@, elements),
            r matches Some(t) ==> t.spec_handle() == handle && t.spec_dims() == dimensions@
                && t.spec_elements() == elements,
    {
        let n = dimensions.len();
        let given = elements.len();
        let mut count: usize = 1;
        let mut overflow: bool = false;
        let mut i: usize = 0;
        while i < n
            invariant
                i <= n,
                n == dimensions@.len(),
                forall|j: int| 0 <= j < i ==> dimensions@[j] >= 0,
                !overflow ==> count == spec_product_i64(dimensions@.take(i as int)),
                overflow ==> spec_product_i64(dimensions@.take(i as int)) > usize::MAX,
            decreases n - i,
        {
            let d = dimensions[i];
            if d < 0 {
                return None;
            }
            proof {
                assert(dimensions@.take(i + 1 as int).drop_last() =~= dimensions@.take(i as int));
                assert(dimensions@.take(i + 1 as int).last() == d);
                assert(spec_product_i64(dimensions@.take(i + 1 as int)) == spec_product_i64(
                    dimensions@.take(i as int),
                ) * (d as int));
            }
            if d == 0 {
                count = 0;
                overflow = false;
                proof {
                    lemma_zero_product(
                        spec_product_i64(dimensions@.take(i + 1 as int)),
                        spec_product_i64(dimensions@.take(i as int)),
                        d as int,
                    );
                }
            } else if !overflow {
                if count == 0 {
                    // the declared product is already zero and stays zero
                    proof {
                        lemma_zero_product(
                            spec_product_i64(dimensions@.take(i + 1 as int)),
                            spec_product_i64(dimensions@.take(i as int)),
                            d as int,
                        );
                    }
                } else if d as u64 > usize::MAX as u64 {
                    proof {
                        lemma_big_factor(count as int, d as int, usize::MAX as int);
                    }
                    overflow = true;
                } else {
                    match count.checked_mul(d as usize) {
                        Some(m) => {
                            count = m;
                        },
                        None => {
                            overflow = true;
                        },
                    }
                }
            } else {
                proof {
                    lemma_product_grows(
                        spec_product_i64(dimensions@.take(i as int)),
                        d as int,
                        usize::MAX as int,
                    );
                }
            }
            i = i + 1;
        }
        proof {
            assert(dimensions@.take(n as int) =~= dimensions@);
        }
        if overflow {
            // the declared product exceeds any representable element count
            proof {
                assert(given as int == elements.len_spec());
            }
            return None;
        }
        let count = if n == 0 {
            0
        } else {
            count
        };
        if given != count {
            return None;
        }
        Some(RawTensor { handle, dimensions, count, elements })
    }

    /// The engine-reported element type.
    pub fn kind(&self) -> (t: Type)
        ensures
            t == self.kind_spec(),
    {
        self.elements.kind()
    }

    /// The dimension list the engine reported.
    pub fn dims(&self) -> (d: &Vec<i64>)
        ensures
            d@ == self.spec_dims(),
    {
        &self.dimensions
    }

    /// The number of elements behind the handle.
    pub fn count(&self) -> (n: usize)
        ensures
            n == self.spec_count(),
    {
        self.count
    }

    /// The tagged contents behind the handle.
    pub fn elements(&self) -> (e: &Elements)
        ensures
            *e == self.spec_elements(),
    {
        &self.elements
    }

    /// Give up the tensor, keeping only the handle, so the embedder can
    /// release the foreign resource.
    pub fn release(self) -> (h: Handle)
        ensures
            h == self.spec_handle(),
    {
        let RawTensor { handle, dimensions: _, count: _, elements: _ } = self;
        handle
    }

    /// Take the tensor apart for typed adoption. On a type match this yields
    /// the handle, the dimension list, the element count and the typed
    /// elements, with the count guarantees of construction; on a mismatch
    /// the tensor comes back untouched.
    pub fn split_typed<T: Value>(self) -> (r: Result<(Handle, Vec<i64>, usize, Vec<T>), RawTensor>)
        ensures
            self.kind_spec() == T::kind_spec() ==> (r matches Ok(p) && p.0 == self.spec_handle()
                && p.1@ == self.spec_dims() && p.2 == self.spec_count() && p.3@ == T::seq_of(
                self.spec_elements(),
            ) && p.2 == p.3@.len() && p.2 == spec_raw_count(p.1@) && (forall|i: int|
                0 <= i < p.1@.len() ==> p.1@[i] >= 0)),
            self.kind_spec() != T::kind_spec() ==> r == Err::<(Handle, Vec<i64>, usize, Vec<T>),
                RawTensor,
            >(self),
    {
        proof {
            use_type_invariant(&self);
        }
        let RawTensor { handle, dimensions, count, elements } = self;
        match T::from_elements(elements) {
            Ok(v) => Ok((handle, dimensions, count, v)),
            Err(e) => Err(RawTensor { handle, dimensions, count, elements: e }),
        }
    }
}

/// A positive factor can only grow a product that is already over a bound.
proof fn lemma_product_grows(p: int, d: int, bound: int)
    by (nonlinear_arith)
    requires
        p > bound,
        d >= 1,
        bound >= 0,
    ensures
        p * d > bound,
{
}

/// A product with a zero factor is zero, whichever side the zero is on.
proof fn lemma_zero_product(q: int, p: int, d: int)
    by (nonlinear_arith)
    requires
        q == p * d,
        p == 0 || d == 0,
    ensures
        q == 0,
{
}

/// A factor over a bound pushes any positive product over that bound.
proof fn lemma_big_factor(p: int, d: int, bound: int)
    by (nonlinear_arith)
    requires
        p >= 1,
        d > bound,
        bound >= 0,
    ensures
        p * d > bound,
{
}

/// The engine's reply to the one batch-execute call of a run: either every
/// requested output as a live engine tensor plus the metadata the engine
/// wrote, or the failure it recorded in the status slot.
#[derive(Debug)]
pub enum RunReply {
    Success { outputs: Vec<RawTensor>, metadata: Option<Vec<u8>> },
    Failure(crate::status::EngineStatus),
}

} // verus!
