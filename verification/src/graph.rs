use vstd::prelude::*;

verus! {

/// A serialized graph, kept as the opaque byte payload the engine understands.
/// An embedder that loads one from a file hands the bytes in here.
#[derive(Clone, Debug, PartialEq)]
pub struct Graph {
    data: Vec<u8>,
}

impl Graph {
    /// The serialized bytes.
    pub closed spec fn spec_bytes(&self) -> Seq<u8> {
        self.data@
    }

    /// Wrap serialized graph bytes.
    pub fn new(data: Vec<u8>) -> (g: Graph)
        ensures
            g.spec_bytes() == data@,
    {
        Graph { data }
    }

    /// The serialized bytes.
    pub fn as_bytes(&self) -> (b: &Vec<u8>)
        ensures
            b@ == self.spec_bytes(),
    {
        &self.data
    }

    /// Take the serialized bytes back out.
    pub fn into_bytes(self) -> (b: Vec<u8>)
        ensures
            b@ == self.spec_bytes(),
    {
        self.data
    }
}

} // verus!
