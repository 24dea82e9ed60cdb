//! Request extractors whose rejections are answered as API errors.

use vstd::prelude::*;

verus! {

/// Query parameters of a request.
#[derive(Debug, Clone, PartialEq, Eq)]
pub struct ApiQuery<T>(pub T);

/// A JSON request body.
#[derive(Debug, Clone, PartialEq, Eq)]
pub struct ApiJson<T>(pub T);

/// Parameters taken from a request path.
#[derive(Debug, Clone, PartialEq, Eq)]
pub struct ApiPath<T>(pub T);

impl<T> ApiQuery<T> {
    /// The parameters.
    pub fn into_inner(self) -> (v: T)
        ensures
            v == self.0,
    {
        self.0
    }
}

impl<T> ApiJson<T> {
    /// The body.
    pub fn into_inner(self) -> (v: T)
        ensures
            v == self.0,
    {
        self.0
    }
}

impl<T> ApiPath<T> {
    /// The parameters.
    pub fn into_inner(self) -> (v: T)
        ensures
            v == self.0,
    {
        self.0
    }
}

} // verus!
