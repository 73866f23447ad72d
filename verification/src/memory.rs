use vstd::prelude::*;

use crate::value::Value;

verus! {

/// Where the backing storage of a buffer lives.
#[derive(Debug)]
enum Store<T> {
    /// The storage belongs to this side and is freed under normal allocation
    /// rules when the buffer is destroyed.
    Owned(Vec<T>),
    /// The storage belongs to the engine. This side may read it but must
    /// never free it; the elements recorded here are the region's contents.
    Foreign(Vec<T>),
}

/// A dual-mode element buffer: the contiguous storage behind a tensor or a
/// byte payload, tagged with who owns it. Extraction ([`Memory::empty`])
/// copies engine-owned contents instead of stealing them, and flips the
/// buffer to caller-owned, so engine storage is never freed from this side.
#[derive(Debug)]
pub struct Memory<T> {
    store: Store<T>,
}

impl<T> View for Memory<T> {
    type V = Seq<T>;

    closed spec fn view(&self) -> Seq<T> {
        match self.store {
            Store::Owned(v) => v@,
            Store::Foreign(v) => v@,
        }
    }
}

impl<T> Memory<T> {
    /// Whether the backing storage is owned by this side.
    pub closed spec fn spec_owned(&self) -> bool {
        self.store is Owned
    }

    /// Wrap a freshly allocated sequence as caller-owned storage.
    pub fn new(data: Vec<T>) -> (m: Memory<T>)
        ensures
            m@ == data@,
            m.spec_owned(),
    {
        Memory { store: Store::Owned(data) }
    }

    /// Adopt a region reported by the engine: the given elements are its
    /// contents, and the engine keeps ownership of the storage.
    pub fn adopt(data: Vec<T>) -> (m: Memory<T>)
        ensures
            m@ == data@,
            !m.spec_owned(),
    {
        Memory { store: Store::Foreign(data) }
    }

    /// Whether the backing storage is owned by this side.
    pub fn is_owned(&self) -> (b: bool)
        ensures
            b == self.spec_owned(),
    {
        match &self.store {
            Store::Owned(_) => true,
            Store::Foreign(_) => false,
        }
    }

    /// The number of elements.
    pub fn len(&self) -> (n: usize)
        ensures
            n == self@.len(),
    {
        match &self.store {
            Store::Owned(v) => v.len(),
            Store::Foreign(v) => v.len(),
        }
    }

    /// Read access to the elements.
    pub fn as_vec(&self) -> (v: &Vec<T>)
        ensures
            v@ == self@,
    {
        match &self.store {
            Store::Owned(v) => v,
            Store::Foreign(v) => v,
        }
    }

    /// Read one element.
    pub fn get(&self, i: usize) -> (x: &T)
        requires
            i < self@.len(),
        ensures
            *x == self@[i as int],
    {
        match &self.store {
            Store::Owned(v) => &v[i],
            Store::Foreign(v) => &v[i],
        }
    }

    /// Overwrite one element in place. Ownership of the storage does not
    /// change: writing into an engine-owned region is the engine's business
    /// to allow, not ours to decide.
    pub fn set(&mut self, i: usize, x: T)
        requires
            i < old(self)@.len(),
        ensures
            final(self)@ == old(self)@.update(i as int, x),
            final(self).spec_owned() == old(self).spec_owned(),
    {
        match &mut self.store {
            Store::Owned(v) => {
                v.set(i, x);
            },
            Store::Foreign(v) => {
                v.set(i, x);
            },
        }
    }
}

impl<T: Value> Memory<T> {
    /// Take the elements out. Caller-owned contents move; engine-owned
    /// contents are copied, because the engine's storage cannot outlive the
    /// handle that owns it. Either way the buffer is left empty and
    /// caller-owned, so a later destruction frees nothing foreign.
    pub fn empty(&mut self) -> (v: Vec<T>)
        ensures
            v@ == old(self)@,
            final(self)@ == Seq::<T>::empty(),
            final(self).spec_owned(),
    {
        let mut taken = Memory { store: Store::Owned(Vec::new()) };
        core::mem::swap(self, &mut taken);
        match taken.store {
            Store::Owned(v) => v,
            Store::Foreign(v) => crate::value::dup_vec(&v),
        }
    }
}

} // verus!
