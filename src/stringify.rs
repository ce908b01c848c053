use vstd::prelude::*;

verus! {

/// Renders an IR item as text.
pub trait Stringify {
    fn to_string(&self) -> String;
}

} // verus!
