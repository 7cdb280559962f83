//! The stream loop's halt/continue decisions.
//!
//! The loop itself performs blocking reads and writes and so lives outside
//! the library; the decision it takes after each read is pure and lives here.
//! On end of stream the loop halts only when configured to, otherwise it
//! keeps reading (the source may be a live, growing device); on a read error
//! it halts only when configured to, otherwise it retries without processing.

use vstd::prelude::*;

verus! {

/// The configured halt conditions of the stream loop.
#[derive(Clone, Copy, PartialEq, Eq, Structural, Debug)]
pub struct LoopPolicy {
    /// Halt when a read returns zero bytes.
    pub terminate_on_eof: bool,
    /// Halt when a read fails.
    pub terminate_on_err: bool,
}

/// What one read of the line source yielded.
#[derive(Clone, Copy, PartialEq, Eq, Structural, Debug)]
pub enum ReadEvent {
    /// A successful read of one (possibly empty) line.
    Line,
    /// A successful read of zero bytes: end of stream.
    Eof,
    /// A failed read.
    ReadError,
}

/// What the loop does next.
#[derive(Clone, Copy, PartialEq, Eq, Structural, Debug)]
pub enum LoopAction {
    /// End the run.
    Halt,
    /// Hand the buffer to the engine, then read again.
    Process,
    /// Read again without processing.
    Retry,
}

/// The loop's decision: a line is processed; end of stream halts only under
/// `terminate_on_eof`, else the (empty) buffer is still processed; a read
/// error halts only under `terminate_on_err`, else the read is retried.
pub open spec fn spec_loop_step(policy: LoopPolicy, event: ReadEvent) -> LoopAction {
    match event {
        ReadEvent::Line => LoopAction::Process,
        ReadEvent::Eof => if policy.terminate_on_eof {
            LoopAction::Halt
        } else {
            LoopAction::Process
        },
        ReadEvent::ReadError => if policy.terminate_on_err {
            LoopAction::Halt
        } else {
            LoopAction::Retry
        },
    }
}

/// Decides what the loop does after one read.
pub fn loop_step(policy: LoopPolicy, event: ReadEvent) -> (r: LoopAction)
    ensures
        r == spec_loop_step(policy, event),
{
    match event {
        ReadEvent::Line => LoopAction::Process,
        ReadEvent::Eof => if policy.terminate_on_eof {
            LoopAction::Halt
        } else {
            LoopAction::Process
        },
        ReadEvent::ReadError => if policy.terminate_on_err {
            LoopAction::Halt
        } else {
            LoopAction::Retry
        },
    }
}

} // verus!
