//! Runners that run a node by calling a callback.

use vstd::prelude::*;

verus! {

/// Runs each node by calling (a clone of) its callback.
pub struct CallbackRunner<C> {
    pub callback: C,
}

impl<C> CallbackRunner<C> {
    /// Creates a runner that calls `callback`.
    pub fn new(callback: C) -> (r: Self)
        ensures
            r.callback == callback,
    {
        Self { callback }
    }
}

/// Runs a single node by calling its callback once; later nodes end at once.
pub struct CallbackOnceRunner<C> {
    callback: Option<C>,
}

impl<C> CallbackOnceRunner<C> {
    /// The callback, if it was not taken yet.
    pub closed spec fn pending(self) -> Option<C> {
        self.callback
    }

    /// Creates a runner that calls `callback` once.
    pub fn new(callback: C) -> (r: Self)
        ensures
            r.pending() == Some(callback),
    {
        Self { callback: Some(callback) }
    }

    /// Takes the callback for the run that is starting: the first run gets it, every
    /// later run gets `None`.
    pub fn take_callback(&mut self) -> (c: Option<C>)
        ensures
            c == old(self).pending(),
            final(self).pending() is None,
    {
        self.callback.take()
    }
}

} // verus!
