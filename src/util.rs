use vstd::prelude::*;
use vstd::string::*;

use crate::stringify::Stringify;

verus! {

/// A list of items, written `{ items... }`.
#[derive(Debug, PartialEq)]
pub struct List<T> {
    pub inner: Vec<T>,
}

impl<T> View for List<T> {
    type V = Seq<T>;

    open spec fn view(&self) -> Seq<T> {
        self.inner@
    }
}

impl<T> List<T> {
    pub fn from_vec(vec: Vec<T>) -> (r: Self)
        ensures
            r@ == vec@,
    {
        Self { inner: vec }
    }

    pub fn new() -> (r: Self)
        ensures
            r@ == Seq::<T>::empty(),
    {
        Self { inner: Vec::new() }
    }

    pub fn push(&mut self, item: T)
        ensures
            final(self)@ == old(self)@.push(item),
    {
        self.inner.push(item);
    }

    pub fn pop(&mut self) -> (r: Option<T>)
        ensures
            old(self)@.len() == 0 ==> r is None && final(self)@ == old(self)@,
            old(self)@.len() > 0 ==> r == Some(old(self)@.last()) && final(self)@ == old(self)@.drop_last(),
    {
        self.inner.pop()
    }

    pub fn len(&self) -> (r: usize)
        ensures
            r == self@.len(),
    {
        self.inner.len()
    }

    /// The items, in order.
    pub fn iter(&self) -> (r: &[T])
        ensures
            r@ == self@,
    {
        self.inner.as_slice()
    }
}

impl<T: Stringify> Stringify for List<T> {
    fn to_string(&self) -> (r: String) {
        let mut items = String::from_str("{");
        let mut i: usize = 0;
        while i < self.inner.len()
            invariant
                i <= self.inner@.len(),
            decreases self.inner@.len() - i,
        {
            if i > 0 {
                items.append(",");
            }
            items.append(self.inner[i].to_string().as_str());
            i = i + 1;
        }
        items.append("}");
        items
    }
}

} // verus!
