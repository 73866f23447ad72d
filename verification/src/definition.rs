use vstd::prelude::*;

verus! {

/// A serialized graph definition: an opaque byte payload whose schema belongs
/// to the engine. This crate never interprets it; `Session::extend` passes it
/// through verbatim. An embedder that loads one from a file hands the bytes
/// in here.
#[derive(Clone, Debug, PartialEq)]
pub struct Definition {
    data: Vec<u8>,
}

impl Definition {
    /// The serialized bytes.
    pub closed spec fn spec_bytes(&self) -> Seq<u8> {
        self.data@
    }

    /// Wrap serialized graph bytes.
    pub fn new(data: Vec<u8>) -> (d: Definition)
        ensures
            d.spec_bytes() == data@,
    {
        Definition { data }
    }

    /// The serialized bytes.
    pub fn as_bytes(&self) -> (b: &Vec<u8>)
        ensures
            b@ == self.spec_bytes(),
    {
        &self.data
    }

    /// Take the serialized bytes back out.
    pub fn into_bytes(self) -> (b: Vec<u8>)
        ensures
            b@ == self.spec_bytes(),
    {
        self.data
    }
}

} // verus!
