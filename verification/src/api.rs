//! What the platform answers to a call.

use vstd::prelude::*;

verus! {

/// HTTP status code by which the platform says that the object addressed does
/// not exist.
pub const NOT_FOUND: u16 = 404;

/// A call that did not succeed.
#[derive(Clone, Debug, PartialEq, Eq)]
pub struct Failure<E> {
    /// HTTP status code of the platform's answer; `None` where the call failed
    /// before the platform answered.
    pub status: Option<u16>,
    /// The failure as the client reported it. The controller hands it on as it is.
    pub source: E,
}

/// The outcome of a call. What the platform sends back on success is not read.
pub type Reply<E> = Result<(), Failure<E>>;

impl<E> Failure<E> {
    /// The platform answered that the object addressed does not exist.
    pub open spec fn not_found(self) -> bool {
        self.status == Some(NOT_FOUND)
    }

    /// Whether the platform answered that the object addressed does not exist.
    pub fn is_not_found(&self) -> (absent: bool)
        ensures
            absent == self.not_found(),
    {
        match self.status {
            Some(status) => status == NOT_FOUND,
            None => false,
        }
    }
}

} // verus!
