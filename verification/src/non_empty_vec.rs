//! A vector that holds at least one element.

use vstd::prelude::*;

verus! {

/// A vector with at least one element.
#[derive(Debug, PartialEq)]
pub struct NonEmptyVec<T>(Vec<T>);

impl<T> View for NonEmptyVec<T> {
    type V = Seq<T>;

    closed spec fn view(&self) -> Seq<T> {
        self.0@
    }
}

impl<T> NonEmptyVec<T> {
    #[verifier::type_invariant]
    spec fn holds_an_element(self) -> bool {
        self.0.len() > 0
    }

    /// The vector as a non-empty one, or `None` when it is empty.
    pub fn new(vec: Vec<T>) -> (r: Option<Self>)
        ensures
            r is None <==> vec@.len() == 0,
            r matches Some(v) ==> v@ == vec@,
    {
        if vec.is_empty() {
            None
        } else {
            Some(NonEmptyVec(vec))
        }
    }

    /// The elements, in order; there is at least one.
    pub fn as_slice(&self) -> (s: &[T])
        ensures
            s@ == self@,
            s@.len() > 0,
    {
        proof {
            use_type_invariant(self);
        }
        self.0.as_slice()
    }
}

} // verus!
