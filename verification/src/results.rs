//! A small convenience for fallible operations whose success value is
//! irrelevant: keep whether they succeeded, and the error when they did not.

use vstd::prelude::*;

verus! {

/// Discarding a result's success value.
pub trait ResultHelper<E>: Sized {
    /// Whether the operation succeeded.
    spec fn ok_spec(self) -> bool;

    /// The error, when the operation failed.
    spec fn err_spec(self) -> E;

    /// Drops the success value, keeping only success or the error.
    fn ignore(self) -> (r: Result<(), E>)
        ensures
            r is Ok <==> self.ok_spec(),
            r matches Err(e) ==> e == self.err_spec(),
    ;
}

impl<T, E> ResultHelper<E> for Result<T, E> {
    open spec fn ok_spec(self) -> bool {
        self is Ok
    }

    open spec fn err_spec(self) -> E {
        self->Err_0
    }

    fn ignore(self) -> (r: Result<(), E>) {
        match self {
            Ok(_) => Ok(()),
            Err(e) => Err(e),
        }
    }
}

} // verus!
