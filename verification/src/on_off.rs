//! The on/off controller.
use crate::handler::StateChangeHandler;
use crate::{settle, settled, BangBang, BangBangError, BangBangState};
use vstd::prelude::*;

verus! {

/// simple on/off bang-bang controller
///
/// `On` is [`BangBangState::B`] and `Off` is [`BangBangState::A`]. A change of
/// state is gated by the handler registered for the state asked for, if there
/// is one: it is called once, and the change is made only if it succeeds.
pub struct OnOff<'a> {
    on: bool,
    handle_on: Option<&'a mut dyn StateChangeHandler>,
    handle_off: Option<&'a mut dyn StateChangeHandler>,
    invoked: Ghost<Seq<BangBangState>>,
}

impl<'a> OnOff<'a> {
    /// Whether the controller is on.
    pub closed spec fn spec_is_on(&self) -> bool {
        self.on
    }

    /// Whether the controller is off.
    pub open spec fn spec_is_off(&self) -> bool {
        !self.spec_is_on()
    }

    /// The handler registered for transitions to `target`, if there is one.
    pub closed spec fn handler(&self, target: BangBangState) -> Option<
        &'a mut dyn StateChangeHandler,
    > {
        match target {
            BangBangState::A => self.handle_off,
            BangBangState::B => self.handle_on,
        }
    }

    /// Whether a handler is registered for transitions to `target`.
    pub open spec fn gated(&self, target: BangBangState) -> bool {
        self.handler(target) is Some
    }

    /// Whether a request for `target` may be answered with `outcome`: what the
    /// handler for `target` may answer or, where none is registered, success.
    pub open spec fn admits(
        &self,
        target: BangBangState,
        outcome: Result<(), BangBangError>,
    ) -> bool {
        match self.handler(target) {
            Some(h) => h.admits(outcome),
            None => outcome is Ok,
        }
    }

    /// Whether no request can be refused: no handler that is registered may
    /// answer with a failure.
    pub open spec fn unobstructed(&self) -> bool {
        forall|target: BangBangState, outcome: Result<(), BangBangError>| #[trigger]
            self.admits(target, outcome) ==> outcome is Ok
    }

    /// The handler calls made so far, oldest first, each given as the state
    /// that its handler guards.
    pub closed spec fn invocations(&self) -> Seq<BangBangState> {
        self.invoked@
    }

    /// creates a new on/off controller with optional notification handlers for each state transition
    pub fn new(
        on: bool,
        handle_on: Option<&'a mut dyn StateChangeHandler>,
        handle_off: Option<&'a mut dyn StateChangeHandler>,
    ) -> (controller: Self)
        requires
            handle_on matches Some(h) ==> h.ready(),
            handle_off matches Some(h) ==> h.ready(),
        ensures
            controller.valid(),
            controller.is_on() == on,
            controller.handler(BangBangState::B) == handle_on,
            controller.handler(BangBangState::A) == handle_off,
            controller.invocations() == Seq::<BangBangState>::empty(),
    {
        Self { on, handle_on, handle_off, invoked: Ghost(Seq::empty()) }
    }

    /// convenience method for checking if the controller is in the `on` state
    #[verifier::when_used_as_spec(spec_is_on)]
    pub fn is_on(&self) -> (on: bool)
        ensures
            on == self.spec_is_on(),
    {
        self.on
    }

    /// convenience method for checking if the controller is in the `off` state
    #[verifier::when_used_as_spec(spec_is_off)]
    pub fn is_off(&self) -> (off: bool)
        ensures
            off == self.spec_is_off(),
    {
        !self.on
    }
}

impl Default for OnOff<'_> {
    /// A controller that is off and has no handlers.
    fn default() -> (controller: Self)
        ensures
            controller.valid(),
            !controller.is_on(),
            controller.handler(BangBangState::A) is None,
            controller.handler(BangBangState::B) is None,
            controller.invocations() == Seq::<BangBangState>::empty(),
    {
        Self { on: false, handle_on: None, handle_off: None, invoked: Ghost(Seq::empty()) }
    }
}

impl BangBang for OnOff<'_> {
    /// Each handler that is registered may be called.
    open spec fn valid(&self) -> bool {
        &&& self.handler(BangBangState::A) matches Some(h) ==> h.ready()
        &&& self.handler(BangBangState::B) matches Some(h) ==> h.ready()
    }

    open spec fn current(&self) -> BangBangState {
        BangBangState::of_bool(self.is_on())
    }

    open spec fn set_yields(
        &self,
        new_state: BangBangState,
        result: Result<(), BangBangError>,
        after: &Self,
    ) -> bool {
        &&& self.admits(new_state, result)
        &&& after.current() == settled(self.current(), new_state, result)
        &&& after.gated(new_state) == self.gated(new_state)
        &&& forall|later: Result<(), BangBangError>| #[trigger]
            after.admits(new_state, later) ==> self.admits(new_state, later)
        &&& after.handler(new_state.flipped()) == self.handler(new_state.flipped())
        &&& after.invocations() == if self.gated(new_state) {
            self.invocations().push(new_state)
        } else {
            self.invocations()
        }
    }

    fn state(&self) -> (state: BangBangState) {
        self.on.into()
    }

    fn set(&mut self, new_state: BangBangState) -> (result: Result<(), BangBangError>) {
        let result = match new_state {
            BangBangState::A => {
                if let Some(handler) = &mut self.handle_off {
                    proof {
                        self.invoked@ = self.invoked@.push(new_state);
                    }
                    handler.handle()
                } else {
                    Ok(())
                }
            },
            BangBangState::B => {
                if let Some(handler) = &mut self.handle_on {
                    proof {
                        self.invoked@ = self.invoked@.push(new_state);
                    }
                    handler.handle()
                } else {
                    Ok(())
                }
            },
        };
        self.on = settle(self.on.into(), new_state, &result).into();
        result
    }
}

} // verus!
