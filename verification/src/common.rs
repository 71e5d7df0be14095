//! Responses shared by the routes.
use vstd::prelude::*;

use crate::text::owned;

verus! {

/// A `201 Created` response: a body and the location of what was created.
pub struct Created<T> {
    pub inner: T,
    pub location: String,
}

impl<T> Created<T> {
    /// The created resource `inner`, found at `location`.
    pub fn new(inner: T, location: &str) -> (c: Self)
        ensures
            c.inner == inner,
            c.location@ == location@,
    {
        Created { inner, location: owned(location) }
    }
}

} // verus!
