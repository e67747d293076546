//! The one capability a cache consumes: producing a value, later.

use vstd::prelude::*;
use std::future::Future;

verus! {

/// A source of values. `refresh` starts one computation and hands back the
/// deferred result; it takes no arguments and may be invoked any number of
/// times. An implementor says with `yields` which deferred results its
/// source hands back, and `refresh` is held to that.
pub trait Refresh {
    type Value;

    type Output: Future<Output = Self::Value> + Sync + Send;

    /// Whether the source may be invoked in its current state.
    spec fn ready(&self) -> bool;

    /// Whether `out` is a deferred result that one invocation of the source
    /// hands back.
    spec fn yields(&self, out: Self::Output) -> bool;

    fn refresh(&self) -> (out: Self::Output)
        requires
            self.ready(),
        ensures
            self.yields(out),
    ;
}

/// Every function of no arguments that returns a future is a source: one
/// that is ready where the function may be called, and that yields what a
/// call of the function returns.
impl<F, V, E> Refresh for F where
    V: Sync + Send,
    E: Future<Output = V> + Sync + Send,
    F: Fn() -> E,
 {
    type Value = V;

    type Output = E;

    open spec fn ready(&self) -> bool {
        call_requires::<(), F>(*self, ())
    }

    open spec fn yields(&self, out: E) -> bool {
        call_ensures::<(), F>(*self, (), out)
    }

    fn refresh(&self) -> (out: E) {
        let f: &F = self;
        f()
    }
}

} // verus!
