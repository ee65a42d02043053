//! The kinds of failure that the hand-off path reports.

use vstd::prelude::*;

verus! {

/// What can go wrong between capture and display.
#[derive(Clone, Copy, Debug, PartialEq, Eq, Structural)]
pub enum FrameError {
    /// A capture, decode or sink component is unavailable at construction.
    MissingCapability,
    /// The source cannot deliver the format that the sink asks for.
    CapabilityMismatch,
    /// A delivered sample has no payload.
    DataAcquisitionFailure,
    /// A sample's payload cannot be read.
    BufferAccessFailure,
    /// A sample's payload is not a run of whole three-byte pixels.
    FormatInterpretationFailure,
    /// An element of the running pipeline reported an error.
    PipelineFault,
    /// The shared state was left behind by a holder that crashed. The lock of
    /// this library is never poisoned, so nothing here reports this kind; it is
    /// for an owner that finds the state abandoned and restarts the pipeline.
    PoisonedSharedState,
}

impl FrameError {
    /// Construction errors stop startup; they are handed to the caller at once.
    pub open spec fn spec_aborts_startup(self) -> bool {
        self == FrameError::MissingCapability || self == FrameError::CapabilityMismatch
    }

    /// Per-sample errors drop the sample and leave the pipeline running.
    pub open spec fn spec_drops_sample(self) -> bool {
        self == FrameError::DataAcquisitionFailure || self == FrameError::BufferAccessFailure
            || self == FrameError::FormatInterpretationFailure
    }

    /// Terminal errors end the pipeline; only a restart recovers.
    pub open spec fn spec_is_terminal(self) -> bool {
        self == FrameError::PipelineFault || self == FrameError::PoisonedSharedState
    }

    /// Whether this error stops startup.
    #[verifier::when_used_as_spec(spec_aborts_startup)]
    pub fn aborts_startup(self) -> (r: bool)
        ensures
            r == self.spec_aborts_startup(),
    {
        match self {
            FrameError::MissingCapability | FrameError::CapabilityMismatch => true,
            _ => false,
        }
    }

    /// Whether this error drops one sample and nothing more.
    #[verifier::when_used_as_spec(spec_drops_sample)]
    pub fn drops_sample(self) -> (r: bool)
        ensures
            r == self.spec_drops_sample(),
    {
        match self {
            FrameError::DataAcquisitionFailure
            | FrameError::BufferAccessFailure
            | FrameError::FormatInterpretationFailure => true,
            _ => false,
        }
    }

    /// Whether this error ends the pipeline.
    #[verifier::when_used_as_spec(spec_is_terminal)]
    pub fn is_terminal(self) -> (r: bool)
        ensures
            r == self.spec_is_terminal(),
    {
        match self {
            FrameError::PipelineFault | FrameError::PoisonedSharedState => true,
            _ => false,
        }
    }
}

/// Every error is of exactly one class: it stops startup, drops a sample, or
/// ends the pipeline.
pub proof fn lemma_error_classes_partition(e: FrameError)
    ensures
        e.aborts_startup() || e.drops_sample() || e.is_terminal(),
        !(e.aborts_startup() && e.drops_sample()),
        !(e.aborts_startup() && e.is_terminal()),
        !(e.drops_sample() && e.is_terminal()),
{
}

} // verus!
