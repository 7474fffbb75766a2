//! Small conveniences on std types.
use vstd::prelude::*;

verus! {

/// Falls back to a given value when there is none.
pub trait OptOrExt<T>: Sized {
    spec fn or_value(self, new_value: T) -> T;

    /// The held value, or `new_value` if there is none.
    fn if_none(self, new_value: T) -> (r: T)
        ensures
            r == self.or_value(new_value),
    ;
}

impl<T> OptOrExt<T> for Option<T> {
    open spec fn or_value(self, new_value: T) -> T {
        match self {
            Some(a) => a,
            None => new_value,
        }
    }

    fn if_none(self, new_value: T) -> (r: T) {
        match self {
            Some(a) => a,
            None => new_value,
        }
    }
}

} // verus!
