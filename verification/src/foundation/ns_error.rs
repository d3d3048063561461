//! Errors of the foreign runtime, and how to recover from them.
pub mod recovery_attempting;

pub use recovery_attempting::NSErrorRecoveryAttempting;

use crate::objc::NSObject;
use vstd::prelude::*;

verus! {

/// Information about an error condition, held by the foreign runtime.
#[derive(Debug)]
pub struct NSError<'a>(NSObject<'a>);

impl<'a> AsRef<NSObject<'a>> for NSError<'a> {
    fn as_ref(&self) -> (object: &NSObject<'a>)
        ensures
            object.address() == self.address(),
    {
        &self.0
    }
}

impl<'a> NSError<'a> {
    /// The object's address.
    pub closed spec fn address(&self) -> usize {
        self.0.address()
    }

    /// Looks at an object as an error.
    pub fn from_object(object: NSObject<'a>) -> (error: NSError<'a>)
        ensures
            error.address() == object.address(),
    {
        NSError(object)
    }
}

} // verus!
