//! The stream transcoder's per-run control state.
//!
//! One driving loop pulls records from the input codec, transforms each
//! one's quality bytes, and pushes it to the output codec, preserving
//! order and holding one in-flight record at a time. The codecs do the
//! I/O; this module holds the run's state machine, so that the loop's
//! fail-fast policy — abort on the first setup failure, malformed
//! record or write failure, with no retry and no skip — is decided
//! here and merely executed by the driver.

use vstd::prelude::*;

verus! {

/// Where a run stands.
#[derive(Clone, Copy, Debug, PartialEq, Eq, Structural)]
pub enum StreamState {
    /// Nothing opened yet.
    Init,
    /// The containers and the reference are being opened and attached.
    Opening,
    /// Records are flowing, one at a time.
    Streaming,
    /// The input was exhausted and every record was written.
    Completed,
    /// A fatal error ended the run early.
    Aborted,
}

/// What the outside world reported to the driving loop.
#[derive(Clone, Copy, Debug, PartialEq, Eq, Structural)]
pub enum StreamEvent {
    /// Preflight passed; begin opening the containers.
    Begin,
    /// Input and output are open and the reference is attached.
    OpenOk,
    /// The input format was unrecognized, the reference could not be
    /// attached, or the output could not be created.
    OpenFailed,
    /// One record was read, transformed and written.
    RecordWritten,
    /// A record failed to parse from the input stream.
    RecordMalformed,
    /// The output codec refused a write.
    WriteFailed,
    /// The input stream ended normally.
    InputExhausted,
}

/// A state is terminal when no event leads out of it.
pub open spec fn is_terminal(s: StreamState) -> bool {
    s == StreamState::Completed || s == StreamState::Aborted
}

/// The run's transition function as a mathematical map: fail-fast, no
/// retry, and no way out of a terminal state.
pub open spec fn step_spec(s: StreamState, e: StreamEvent) -> StreamState {
    match (s, e) {
        (StreamState::Init, StreamEvent::Begin) => StreamState::Opening,
        (StreamState::Opening, StreamEvent::OpenOk) => StreamState::Streaming,
        (StreamState::Opening, StreamEvent::OpenFailed) => StreamState::Aborted,
        (StreamState::Streaming, StreamEvent::RecordWritten) => StreamState::Streaming,
        (StreamState::Streaming, StreamEvent::RecordMalformed) => StreamState::Aborted,
        (StreamState::Streaming, StreamEvent::WriteFailed) => StreamState::Aborted,
        (StreamState::Streaming, StreamEvent::InputExhausted) => StreamState::Completed,
        (_, _) => s,
    }
}

/// Advance the run's state by one reported event.
pub fn stream_step(s: StreamState, e: StreamEvent) -> (next: StreamState)
    ensures
        next == step_spec(s, e),
{
    match (s, e) {
        (StreamState::Init, StreamEvent::Begin) => StreamState::Opening,
        (StreamState::Opening, StreamEvent::OpenOk) => StreamState::Streaming,
        (StreamState::Opening, StreamEvent::OpenFailed) => StreamState::Aborted,
        (StreamState::Streaming, StreamEvent::RecordWritten) => StreamState::Streaming,
        (StreamState::Streaming, StreamEvent::RecordMalformed) => StreamState::Aborted,
        (StreamState::Streaming, StreamEvent::WriteFailed) => StreamState::Aborted,
        (StreamState::Streaming, StreamEvent::InputExhausted) => StreamState::Completed,
        (s2, _) => s2,
    }
}

/// Terminal states absorb every event: there is no transition back from
/// a completed or aborted run.
pub proof fn lemma_terminal_absorbs(s: StreamState, e: StreamEvent)
    requires
        is_terminal(s),
    ensures
        step_spec(s, e) == s,
{
}

} // verus!
