//! The AudioServerPlugin device lifecycle state machine.
//!
//! ```text
//!  Uninitialized ──Initialize──▶ Initialized ──StartIO──▶ Running
//!                                    ▲                       │
//!                                    └────────StopIO─────────┘
//! ```
//!
//! The realtime `IOProc` callbacks are callable only while the state
//! is [`State::Running`]. Every transition checks the state it
//! starts from, and a bad transition surfaces as a
//! [`TransitionError`] rather than silently corrupting state.

use vstd::prelude::*;

verus! {

/// AudioServerPlugin device lifecycle state.
#[derive(Copy, Clone, PartialEq, Eq, Hash, Debug, Structural)]
pub enum State {
    /// The object exists but the HAL has not yet called
    /// `Initialize`.
    Uninitialized,
    /// `Initialize` has succeeded; `StartIO` has not been called
    /// (or has been undone by `StopIO`).
    Initialized,
    /// `StartIO` has succeeded; the realtime callbacks are callable.
    Running,
}

impl State {
    /// `true` iff the realtime `IOProc` callbacks are legal in this
    /// state.
    pub fn allows_io(self) -> (r: bool)
        ensures
            r == (self == State::Running),
    {
        match self {
            State::Running => true,
            _ => false,
        }
    }
}

/// The outcome of a failed transition.
#[derive(Copy, Clone, PartialEq, Eq, Hash, Debug, Structural)]
pub struct TransitionError {
    /// The state the caller assumed the cell was in.
    pub expected: State,
    /// The state the caller tried to transition into.
    pub attempted: State,
    /// The state actually observed in the cell.
    pub actual: State,
}

/// The result of attempting `from → to` while the cell holds
/// `current`.
pub open spec fn transition_result(current: State, from: State, to: State) -> Result<(), TransitionError> {
    if current == from {
        Ok(())
    } else {
        Err(TransitionError { expected: from, attempted: to, actual: current })
    }
}

/// The state after attempting `from → to` while the cell holds
/// `current`: `to` if the cell held `from`, unchanged otherwise.
pub open spec fn transition_state(current: State, from: State, to: State) -> State {
    if current == from {
        to
    } else {
        current
    }
}

/// Carrier for the current [`State`]; every transition checks the
/// state it starts from.
#[derive(Debug)]
pub struct StateCell {
    state: State,
}

impl View for StateCell {
    type V = State;

    closed spec fn view(&self) -> State {
        self.state
    }
}

impl StateCell {
    /// A fresh cell in [`State::Uninitialized`].
    pub fn new() -> (r: Self)
        ensures
            r@ == State::Uninitialized,
    {
        StateCell { state: State::Uninitialized }
    }

    /// The current state.
    pub fn load(&self) -> (r: State)
        ensures
            r == self@,
    {
        self.state
    }

    /// `true` iff the current state is [`State::Running`].
    pub fn is_running(&self) -> (r: bool)
        ensures
            r == (self@ == State::Running),
    {
        self.state.allows_io()
    }

    /// Transition `Uninitialized → Initialized` (the HAL's
    /// `Initialize`).
    pub fn initialize(&mut self) -> (r: Result<(), TransitionError>)
        ensures
            r == transition_result(old(self)@, State::Uninitialized, State::Initialized),
            final(self)@ == transition_state(old(self)@, State::Uninitialized, State::Initialized),
    {
        self.transition(State::Uninitialized, State::Initialized)
    }

    /// Transition `Initialized → Running` (the HAL's `StartIO`).
    pub fn start(&mut self) -> (r: Result<(), TransitionError>)
        ensures
            r == transition_result(old(self)@, State::Initialized, State::Running),
            final(self)@ == transition_state(old(self)@, State::Initialized, State::Running),
    {
        self.transition(State::Initialized, State::Running)
    }

    /// Transition `Running → Initialized` (the HAL's `StopIO`).
    pub fn stop(&mut self) -> (r: Result<(), TransitionError>)
        ensures
            r == transition_result(old(self)@, State::Running, State::Initialized),
            final(self)@ == transition_state(old(self)@, State::Running, State::Initialized),
    {
        self.transition(State::Running, State::Initialized)
    }

    /// Unconditional reset to [`State::Uninitialized`]. Returns the
    /// state observed before the reset.
    pub fn reset(&mut self) -> (r: State)
        ensures
            r == old(self)@,
            final(self)@ == State::Uninitialized,
    {
        let prior = self.state;
        self.state = State::Uninitialized;
        prior
    }

    fn transition(&mut self, from: State, to: State) -> (r: Result<(), TransitionError>)
        ensures
            r == transition_result(old(self)@, from, to),
            final(self)@ == transition_state(old(self)@, from, to),
    {
        if self.state == from {
            self.state = to;
            Ok(())
        } else {
            Err(TransitionError { expected: from, attempted: to, actual: self.state })
        }
    }
}

impl Default for StateCell {
    fn default() -> (r: Self)
        ensures
            r@ == State::Uninitialized,
    {
        StateCell::new()
    }
}

/// Starting and then stopping a running-capable device returns it to
/// `Initialized`; a successful transition lands in its target state;
/// and a failed transition leaves the state untouched.
pub proof fn lemma_lifecycle(s: State, from: State, to: State)
    ensures
        transition_state(
            transition_state(State::Initialized, State::Initialized, State::Running),
            State::Running,
            State::Initialized,
        ) == State::Initialized,
        transition_result(s, from, to) is Ok ==> transition_state(s, from, to) == to,
        transition_result(s, from, to) is Err ==> transition_state(s, from, to) == s,
        transition_result(s, from, to) matches Err(e) ==> e.actual == s && e.actual != e.expected,
{
}

} // verus!
