//! What a stored record has to offer so that requests can change it.
use vstd::prelude::*;

verus! {

/// A record that can take over the fields that an update provides.
pub trait Updateable<T>: Sized {
    /// This record with the fields of `e` merged in.
    fn update_with(&self, e: &T) -> Self;
}

} // verus!
