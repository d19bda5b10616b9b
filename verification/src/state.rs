//! Daemon state machine with explicit states and transition rules.
//!
//! Transitions are a pure function of the current state and an incoming
//! event; every pair the function accepts is a row of the transition table,
//! and every other pair is a no-op.

use vstd::prelude::*;

verus! {

/// The daemon's operational states.
#[derive(Clone, Copy, Debug, PartialEq, Eq, Structural)]
pub enum State {
    Idle,
    Recording,
    Streaming,
    Transcribing,
    Injecting,
    RecoveringSession,
}

/// Events that trigger state transitions.
#[derive(Clone, Copy, Debug, PartialEq, Eq, Structural)]
pub enum Event {
    Activated,
    Deactivated,
    TranscriptReady,
    InjectionDone,
    Error,
    Recovered,
}

/// The transition table: `from` under `event` moves to `to`.
/// An `Error` event is accepted in every state.
pub open spec fn in_transition_table(from: State, event: Event, to: State) -> bool {
    ||| (from == State::Idle && event == Event::Activated && to == State::Recording)
    ||| (from == State::Recording && event == Event::Deactivated && to == State::Transcribing)
    ||| (from == State::Streaming && event == Event::Deactivated && to == State::Transcribing)
    ||| (from == State::Transcribing && event == Event::TranscriptReady && to == State::Injecting)
    ||| (from == State::Injecting && event == Event::InjectionDone && to == State::Idle)
    ||| (from == State::Transcribing && event == Event::InjectionDone && to == State::Idle)
    ||| (from == State::Streaming && event == Event::InjectionDone && to == State::Idle)
    ||| (from == State::Injecting && event == Event::Activated && to == State::Recording)
    ||| (event == Event::Error && to == State::RecoveringSession)
    ||| (from == State::RecoveringSession && event == Event::Recovered && to == State::Idle)
}

impl State {
    /// What `transition` returns, as a spec-level function.
    pub open spec fn spec_transition(self, event: Event) -> Option<State> {
        match (self, event) {
            (State::Idle, Event::Activated) => Some(State::Recording),
            (State::Recording, Event::Deactivated) => Some(State::Transcribing),
            (State::Streaming, Event::Deactivated) => Some(State::Transcribing),
            (State::Transcribing, Event::TranscriptReady) => Some(State::Injecting),
            (State::Injecting, Event::InjectionDone) => Some(State::Idle),
            (State::Transcribing, Event::InjectionDone) => Some(State::Idle),
            (State::Streaming, Event::InjectionDone) => Some(State::Idle),
            (State::Injecting, Event::Activated) => Some(State::Recording),
            (_, Event::Error) => Some(State::RecoveringSession),
            (State::RecoveringSession, Event::Recovered) => Some(State::Idle),
            _ => None,
        }
    }

    /// Attempt a state transition. Returns the new state if the transition
    /// is valid, or None if the event should be ignored in the current state.
    pub fn transition(self, event: &Event) -> (r: Option<State>)
        ensures
            r == self.spec_transition(*event),
    {
        match (self, event) {
            (State::Idle, Event::Activated) => Some(State::Recording),
            (State::Recording, Event::Deactivated) => Some(State::Transcribing),
            (State::Streaming, Event::Deactivated) => Some(State::Transcribing),
            (State::Transcribing, Event::TranscriptReady) => Some(State::Injecting),
            (State::Injecting, Event::InjectionDone) => Some(State::Idle),
            (State::Transcribing, Event::InjectionDone) => Some(State::Idle),
            (State::Streaming, Event::InjectionDone) => Some(State::Idle),
            (State::Injecting, Event::Activated) => Some(State::Recording),
            (_, Event::Error) => Some(State::RecoveringSession),
            (State::RecoveringSession, Event::Recovered) => Some(State::Idle),
            _ => None,
        }
    }

    /// The state's name, as shown on the control surface.
    pub open spec fn spec_label(self) -> Seq<char> {
        match self {
            State::Idle => "Idle"@,
            State::Recording => "Recording"@,
            State::Streaming => "Streaming"@,
            State::Transcribing => "Transcribing"@,
            State::Injecting => "Injecting"@,
            State::RecoveringSession => "RecoveringSession"@,
        }
    }

    /// The state's name as an owned string.
    pub fn label(&self) -> (r: String)
        ensures
            r@ == self.spec_label(),
    {
        match self {
            State::Idle => String::from_str("Idle"),
            State::Recording => String::from_str("Recording"),
            State::Streaming => String::from_str("Streaming"),
            State::Transcribing => String::from_str("Transcribing"),
            State::Injecting => String::from_str("Injecting"),
            State::RecoveringSession => String::from_str("RecoveringSession"),
        }
    }
}

/// Every transition the machine produces is a row of the transition table,
/// and every row of the table is produced: the table is exactly the graph of
/// `transition` restricted to accepted events.
pub proof fn lemma_transition_matches_table(from: State, event: Event)
    ensures
        forall|to: State| from.spec_transition(event) == Some(to) <==> in_transition_table(
            from,
            event,
            to,
        ),
{
}

} // verus!
