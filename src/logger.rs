//! A service layer that reports each request before passing it on.
use vstd::prelude::*;

verus! {

pub struct Logger<S> {
    pub inner: S,
}

impl<S> Logger<S> {
    pub fn new(inner: S) -> (r: Self)
        ensures
            r.inner == inner,
    {
        Logger { inner }
    }
}

} // verus!
