//! The life of a capture pipeline, as a state machine over the events of its
//! event channel.
//!
//! The owner of a pipeline feeds each event to [`step`] and carries out the
//! action that comes back. The machine only ever moves forward:
//! `Uninitialized`, `Playing`, then `Eos` or `Error`, then `Null`.

use crate::error::FrameError;
use vstd::prelude::*;

verus! {

/// Where a pipeline is in its life.
#[derive(Clone, Copy, Debug, PartialEq, Eq, Structural)]
pub enum PipelineState {
    /// Not built yet.
    Uninitialized,
    /// Built, formats agreed, and delivering samples.
    Playing,
    /// An element reported an error; the pipeline is about to be stopped.
    Error,
    /// The stream ended; the pipeline is about to be stopped.
    Eos,
    /// Stopped for good. No sample is delivered in this state.
    Null,
}

/// An error that an element of the pipeline reported.
#[derive(Clone, Debug, PartialEq, Eq)]
pub struct ErrorMessage {
    /// The element that reported the error, or `"None"` if it is not known.
    pub src: String,
    /// The error's text.
    pub error: String,
    /// Further detail for debugging, if the element gave any.
    pub debug: Option<String>,
}

/// What the event channel can tell the owner of a pipeline.
#[derive(Clone, Debug, PartialEq, Eq)]
pub enum PipelineEvent {
    /// The chain was built, the formats were agreed, and playing began.
    Started,
    /// The stream ended.
    EndOfStream,
    /// An element reported an error it cannot recover from.
    Fault(ErrorMessage),
    /// Any other message; it means nothing to the life of the pipeline.
    Other,
    /// The pipeline was set to its terminated state.
    Stopped,
}

/// What the owner has to do after an event.
#[derive(Clone, Debug, PartialEq, Eq)]
pub enum PipelineAction {
    /// Nothing: wait for the next event.
    Wait,
    /// Set the pipeline to its terminated state, then report `Stopped`.
    Stop,
    /// As `Stop`, and hand the error to whoever owns the pipeline.
    StopAndReport(ErrorMessage),
    /// The pipeline is terminated: stop listening.
    Done,
}

/// The state that follows `state` on `event`. An event that has no meaning in
/// a state leaves the state alone.
pub open spec fn next_state(state: PipelineState, event: PipelineEvent) -> PipelineState {
    match (state, event) {
        (PipelineState::Uninitialized, PipelineEvent::Started) => PipelineState::Playing,
        (PipelineState::Playing, PipelineEvent::EndOfStream) => PipelineState::Eos,
        (PipelineState::Playing, PipelineEvent::Fault(_)) => PipelineState::Error,
        (PipelineState::Eos, PipelineEvent::Stopped) => PipelineState::Null,
        (PipelineState::Error, PipelineEvent::Stopped) => PipelineState::Null,
        _ => state,
    }
}

/// The action that `event` asks for in `state`.
pub open spec fn action_for(state: PipelineState, event: PipelineEvent) -> PipelineAction {
    match (state, event) {
        (PipelineState::Playing, PipelineEvent::EndOfStream) => PipelineAction::Stop,
        (PipelineState::Playing, PipelineEvent::Fault(message)) => PipelineAction::StopAndReport(
            message,
        ),
        (PipelineState::Eos, PipelineEvent::Stopped) => PipelineAction::Done,
        (PipelineState::Error, PipelineEvent::Stopped) => PipelineAction::Done,
        (PipelineState::Null, _) => PipelineAction::Done,
        _ => PipelineAction::Wait,
    }
}

/// The state after a run of events, first to last.
pub open spec fn state_after(state: PipelineState, events: Seq<PipelineEvent>) -> PipelineState
    decreases events.len(),
{
    if events.len() == 0 {
        state
    } else {
        next_state(state_after(state, events.drop_last()), events.last())
    }
}

impl PipelineState {
    /// How far along its life a pipeline is: `Eos` and `Error` are equally far.
    pub open spec fn rank(self) -> nat {
        match self {
            PipelineState::Uninitialized => 0,
            PipelineState::Playing => 1,
            PipelineState::Error => 2,
            PipelineState::Eos => 2,
            PipelineState::Null => 3,
        }
    }

    /// Samples are delivered in this state and in no other.
    pub open spec fn spec_delivers_samples(self) -> bool {
        self == PipelineState::Playing
    }

    /// The pipeline is past `Playing`: it is `Eos`, `Error` or `Null`.
    pub open spec fn spec_has_ended(self) -> bool {
        self.rank() >= 2
    }

    /// Whether the pipeline is past `Playing`.
    #[verifier::when_used_as_spec(spec_has_ended)]
    pub fn has_ended(self) -> (r: bool)
        ensures
            r == self.has_ended(),
    {
        match self {
            PipelineState::Uninitialized | PipelineState::Playing => false,
            _ => true,
        }
    }

    /// Whether samples are delivered in this state.
    #[verifier::when_used_as_spec(spec_delivers_samples)]
    pub fn delivers_samples(self) -> (r: bool)
        ensures
            r == self.delivers_samples(),
    {
        match self {
            PipelineState::Playing => true,
            _ => false,
        }
    }
}

impl ErrorMessage {
    /// The report of an error, with `"None"` for a source that is not known.
    pub fn new(src: Option<String>, error: String, debug: Option<String>) -> (r: ErrorMessage)
        ensures
            r.src@ == (match src {
                Some(name) => name@,
                None => "None"@,
            }),
            r.error == error,
            r.debug == debug,
    {
        let src = match src {
            Some(name) => name,
            None => "None".to_owned(),
        };
        ErrorMessage { src, error, debug }
    }

    /// The kind of error that a report from an element stands for: a fault of
    /// the pipeline, which ends it.
    pub fn kind(&self) -> (r: FrameError)
        ensures
            r == FrameError::PipelineFault,
            r.is_terminal(),
    {
        FrameError::PipelineFault
    }
}

/// Takes one event: gives the state that follows and what the owner has to do.
pub fn step(state: PipelineState, event: PipelineEvent) -> (r: (PipelineState, PipelineAction))
    ensures
        r.0 == next_state(state, event),
        r.1 == action_for(state, event),
{
    match state {
        PipelineState::Uninitialized => match event {
            PipelineEvent::Started => (PipelineState::Playing, PipelineAction::Wait),
            _ => (state, PipelineAction::Wait),
        },
        PipelineState::Playing => match event {
            PipelineEvent::EndOfStream => (PipelineState::Eos, PipelineAction::Stop),
            PipelineEvent::Fault(message) => (
                PipelineState::Error,
                PipelineAction::StopAndReport(message),
            ),
            _ => (state, PipelineAction::Wait),
        },
        PipelineState::Eos | PipelineState::Error => match event {
            PipelineEvent::Stopped => (PipelineState::Null, PipelineAction::Done),
            _ => (state, PipelineAction::Wait),
        },
        PipelineState::Null => (PipelineState::Null, PipelineAction::Done),
    }
}

/// No event moves a pipeline back, and none moves it sideways between `Eos`
/// and `Error`: a step either keeps the state or reaches one further along.
pub proof fn lemma_step_moves_forward(state: PipelineState, event: PipelineEvent)
    ensures
        next_state(state, event) == state || next_state(state, event).rank() == state.rank() + 1,
{
}

/// `Null` is terminal: whatever events follow, the state stays `Null`.
pub proof fn lemma_null_is_terminal(events: Seq<PipelineEvent>)
    ensures
        state_after(PipelineState::Null, events) == PipelineState::Null,
    decreases events.len(),
{
    if events.len() > 0 {
        lemma_null_is_terminal(events.drop_last());
    }
}

/// Once a pipeline has left `Playing` it never delivers samples again,
/// whatever events follow.
pub proof fn lemma_no_return_to_playing(state: PipelineState, events: Seq<PipelineEvent>)
    requires
        state.has_ended(),
    ensures
        state_after(state, events).has_ended(),
        !state_after(state, events).delivers_samples(),
    decreases events.len(),
{
    if events.len() > 0 {
        lemma_no_return_to_playing(state, events.drop_last());
        lemma_step_moves_forward(state_after(state, events.drop_last()), events.last());
    }
}

/// A fault while playing ends in `Null` as soon as the pipeline is stopped, and
/// the error is handed to the owner on the way.
pub proof fn lemma_fault_leads_to_null(message: ErrorMessage)
    ensures
        next_state(PipelineState::Playing, PipelineEvent::Fault(message)) == PipelineState::Error,
        action_for(PipelineState::Playing, PipelineEvent::Fault(message))
            == PipelineAction::StopAndReport(message),
        next_state(PipelineState::Error, PipelineEvent::Stopped) == PipelineState::Null,
        state_after(
            PipelineState::Playing,
            seq![PipelineEvent::Fault(message), PipelineEvent::Stopped],
        ) == PipelineState::Null,
{
    let events = seq![PipelineEvent::Fault(message), PipelineEvent::Stopped];
    let first = events.drop_last();
    assert(first.len() == 1);
    assert(first.last() == PipelineEvent::Fault(message));
    assert(state_after(PipelineState::Playing, first.drop_last()) == PipelineState::Playing);
    assert(state_after(PipelineState::Playing, first) == PipelineState::Error);
}

} // verus!
