//! Handlers: what a caller supplies to gate or observe a state change.
use crate::BangBangError;
use vstd::prelude::*;

verus! {

/// handler method to be called on a state change
///
/// A handler belongs to one direction of transition, which is why it is told
/// nothing when it is called. Every closure that takes no argument and returns
/// `Result<(), BangBangError>` is a handler.
pub trait StateChangeHandler: Sync + Send {
    /// Whether the handler may be called as it is now.
    spec fn ready(&self) -> bool;

    /// Whether the handler, as it is now, may answer a call with `outcome`,
    /// now or at any later call: a call may rule answers out for the calls
    /// that follow, and never adds one.
    spec fn admits(&self, outcome: Result<(), BangBangError>) -> bool;

    /// Performs the handler's side effect and says whether the state change
    /// may go ahead.
    fn handle(&mut self) -> (outcome: Result<(), BangBangError>)
        requires
            old(self).ready(),
        ensures
            old(self).admits(outcome),
            final(self).ready(),
            forall|later: Result<(), BangBangError>| #[trigger]
                final(self).admits(later) ==> old(self).admits(later),
    ;
}

impl<F: FnMut() -> Result<(), BangBangError> + Sync + Send> StateChangeHandler for F {
    open spec fn ready(&self) -> bool {
        call_requires(*self, ())
    }

    open spec fn admits(&self, outcome: Result<(), BangBangError>) -> bool {
        call_ensures(*self, (), outcome)
    }

    fn handle(&mut self) -> (outcome: Result<(), BangBangError>) {
        self()
    }
}

} // verus!
