//! An abstraction of a bang-bang controller, a machine that flips between
//! exactly two mutually exclusive states, together with a simple on/off
//! controller whose transitions are gated by optional handlers.
//!
//! Every function of the crate carries a contract that Verus proves against
//! its body; the contracts are stated over the mathematical state of a
//! controller, [`BangBang::current`].
use vstd::prelude::*;
use vstd::std_specs::convert::FromSpecImpl;

pub mod handler;
pub mod laws;
pub mod on_off;
pub mod prelude;

pub use self::handler::StateChangeHandler;
pub use self::on_off::OnOff;

verus! {

/// bang-bang controller errors
#[derive(Clone, Copy, Debug, PartialEq, Eq, Structural, PartialOrd, Ord, Hash)]
pub enum BangBangError {
    /// an unexpected error occurred during state change
    StateChangeFailedUnexpectedly {
        /// failed to change from state
        from: BangBangState,
        /// failed to change to state
        to: BangBangState,
        /// error code provided by the underlying implementation
        code: u8,
    },
    /// state change has been temporarily constrained by the implementation
    StateChangeTemporarilyConstrained {
        /// failed to change from state
        from: BangBangState,
        /// failed to change to state
        to: BangBangState,
        /// error code provided by the underlying implementation
        code: u8,
    },
    /// custom state change handler failed
    StateChangeHandlerFailed {
        /// failed to change from state
        from: BangBangState,
        /// failed to change to state
        to: BangBangState,
        /// error code provided by the underlying implementation
        code: u8,
    },
    /// implementation handler unexpected error
    ImplementationHandlerUnexpectedError {},
}

/// bang-bang controller states
#[derive(Clone, Copy, Debug, PartialEq, Eq, Structural, PartialOrd, Ord, Hash)]
pub enum BangBangState {
    /// one of the two states the controller can be in
    A,
    /// one of the two states the controller can be in
    B,
}

impl BangBangState {
    /// The other of the two states.
    pub open spec fn spec_flipped(self) -> BangBangState {
        match self {
            BangBangState::A => BangBangState::B,
            BangBangState::B => BangBangState::A,
        }
    }

    /// The other of the two states: what a toggle asks for.
    #[verifier::when_used_as_spec(spec_flipped)]
    pub fn flipped(self) -> (other: BangBangState)
        ensures
            other == self.spec_flipped(),
    {
        match self {
            BangBangState::A => BangBangState::B,
            BangBangState::B => BangBangState::A,
        }
    }

    /// The boolean that stands for the state: `true` for `B`.
    pub open spec fn as_bool(self) -> bool {
        self == BangBangState::B
    }

    /// The state that a boolean stands for: `false` is `A`, `true` is `B`.
    pub open spec fn of_bool(value: bool) -> BangBangState {
        if value {
            BangBangState::B
        } else {
            BangBangState::A
        }
    }
}

impl FromSpecImpl<bool> for BangBangState {
    open spec fn obeys_from_spec() -> bool {
        true
    }

    open spec fn from_spec(value: bool) -> BangBangState {
        BangBangState::of_bool(value)
    }
}

impl From<bool> for BangBangState {
    fn from(value: bool) -> (state: BangBangState) {
        if value {
            BangBangState::B
        } else {
            BangBangState::A
        }
    }
}

impl FromSpecImpl<BangBangState> for bool {
    open spec fn obeys_from_spec() -> bool {
        true
    }

    open spec fn from_spec(state: BangBangState) -> bool {
        state.as_bool()
    }
}

impl From<BangBangState> for bool {
    fn from(state: BangBangState) -> (value: bool) {
        match state {
            BangBangState::A => false,
            BangBangState::B => true,
        }
    }
}

/// The state a controller is in once a requested transition has been decided:
/// the requested state where the transition was granted, the state it had
/// where it was refused.
pub open spec fn settled(
    current: BangBangState,
    requested: BangBangState,
    outcome: Result<(), BangBangError>,
) -> BangBangState {
    if outcome is Ok {
        requested
    } else {
        current
    }
}

/// Decides what a controller in state `current` moves to when a transition to
/// `requested` ended in `outcome`: a transition is all or nothing.
pub fn settle(
    current: BangBangState,
    requested: BangBangState,
    outcome: &Result<(), BangBangError>,
) -> (next: BangBangState)
    ensures
        next == settled(current, requested, *outcome),
{
    match outcome {
        Ok(_) => requested,
        Err(_) => current,
    }
}

/// abstraction of a bang-bang controller
pub trait BangBang {
    /// The state the controller is in, as a mathematical value.
    spec fn current(&self) -> BangBangState;

    /// Whether the controller is fit to be asked for a transition: what an
    /// implementation needs to hold of itself before [`BangBang::set`], and
    /// keeps whatever the outcome.
    ///
    /// An implementation that needs nothing leaves this as it is.
    open spec fn valid(&self) -> bool {
        true
    }

    /// What this controller promises of a call of [`BangBang::set`]: whether a
    /// controller that is `self` before the call, asked for `new_state`, may
    /// answer `result` and be `after` when the call returns.
    ///
    /// This is where an implementation says when it grants a transition and
    /// what else a call changes. One that promises no more than every
    /// controller does leaves this as it is.
    open spec fn set_yields(
        &self,
        new_state: BangBangState,
        result: Result<(), BangBangError>,
        after: &Self,
    ) -> bool {
        true
    }

    /// returns the current state of the controller
    fn state(&self) -> (state: BangBangState)
        ensures
            state == self.current(),
    ;

    /// updates the current state of the controller
    ///
    /// Whatever the implementation decides, the change is all or nothing: on
    /// success the controller is in `new_state`, on failure it is in the state
    /// it was in.
    fn set(&mut self, new_state: BangBangState) -> (result: Result<(), BangBangError>)
        requires
            old(self).valid(),
        ensures
            final(self).valid(),
            final(self).current() == settled(old(self).current(), new_state, result),
            old(self).set_yields(new_state, result, final(self)),
    ;

    /// toggles the controller between states
    ///
    /// This is `set` with the opposite of the current state, and returns what
    /// `set` returns.
    fn bang(&mut self) -> (result: Result<(), BangBangError>)
        requires
            old(self).valid(),
        ensures
            final(self).valid(),
            final(self).current() == settled(
                old(self).current(),
                old(self).current().flipped(),
                result,
            ),
            old(self).set_yields(old(self).current().flipped(), result, final(self)),
    {
        let current_state = self.state();

        let new_state = current_state.flipped();

        self.set(new_state)?;

        Ok(())
    }
}

} // verus!
