//! Taking a value out of an `Option` or a `Result` that is known to hold one.

use vstd::pervasive::unreached;
use vstd::prelude::*;

verus! {

/// A container that holds either a value or the lack of one.
pub trait Unwrap<T>: Sized {
    /// The value that the container holds, if it holds one.
    spec fn inner(&self) -> Option<T>;

    /// Takes the value out. The container has to hold one: there is nothing
    /// to hand out otherwise.
    fn unwrap_abort(self) -> (item: T)
        requires
            self.inner().is_some(),
        ensures
            Some(item) == self.inner(),
    ;
}

impl<T> Unwrap<T> for Option<T> {
    open spec fn inner(&self) -> Option<T> {
        *self
    }

    fn unwrap_abort(self) -> (item: T) {
        assert(self.inner() == self);
        match self {
            Some(item) => item,
            None => unreached(),
        }
    }
}

impl<T, E> Unwrap<T> for Result<T, E> {
    open spec fn inner(&self) -> Option<T> {
        match *self {
            Ok(item) => Some(item),
            Err(_) => None,
        }
    }

    fn unwrap_abort(self) -> (item: T) {
        assert(self.inner().is_some() == self.is_ok());
        match self {
            Ok(item) => item,
            Err(_) => unreached(),
        }
    }
}

} // verus!
