use vstd::prelude::*;

verus! {

/// A size in bytes of an object.
#[derive(Debug, Clone, Copy, PartialEq, Eq, Hash)]
pub struct Size {
    size: usize,
}

impl Size {
    /// The number of bytes.
    pub closed spec fn bytes(&self) -> nat {
        self.size as nat
    }

    pub fn new(size: usize) -> (r: Self)
        ensures
            r.bytes() == size,
    {
        Self { size }
    }

    /// The size of a Rust type `T`.
    pub fn of<T: Sized>() -> (r: Self)
        ensures
            r.bytes() == vstd::layout::size_of::<T>(),
    {
        Self { size: core::mem::size_of::<T>() }
    }

    pub fn size(&self) -> (r: usize)
        ensures
            r == self.bytes(),
    {
        self.size
    }
}

/// The four widths of a machine integer.
#[derive(Debug, Clone, Copy)]
pub enum SizeEnum {
    Size8,
    Size16,
    Size32,
    Size64,
}

} // verus!
