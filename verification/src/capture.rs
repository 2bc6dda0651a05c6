//! Watching a device for failures while a step of the effect runs.
//!
//! Left to itself, `wgpu` hands a refused request to a handler that by
//! default panics. Every step of the effect that asks something of the
//! device runs under a capture instead, and ends by asking the device what
//! it refused.

use vstd::prelude::*;
use crate::error::{judge, GlowError};
use crate::gpu::{buffer_accepted, end_capture, Capture, Ended, PendingBuffer};

verus! {

/// Ends a capture under which no buffer was created, and returns the error
/// that the step ends with if the device did not answer that all is clear.
pub(crate) fn close(capture: Capture<'_>) -> (error: Option<GlowError>)
    ensures
        error matches Some(e) ==> e@ is Device || e@ is Unanswered,
{
    let ended = end_capture(capture);
    judge(ended.reports)
}

/// Ends a capture under which a buffer was created. Where the device
/// answers that all is clear it accepted the buffer, which is handed out to
/// be filled; else the buffer is dropped and the step ends with the error.
pub(crate) fn close_buffer(capture: Capture<'_>) -> (result: Result<PendingBuffer, GlowError>)
    requires
        capture.pending() is Some,
    ensures
        result matches Ok(pending) ==> {
            &&& Some(pending.buffer()) == capture.pending()
            &&& pending.device() == capture.device()
            &&& buffer_accepted(pending.buffer())
        },
        result matches Err(e) ==> e@ is Device || e@ is Unanswered,
{
    let Ended { reports, pending } = end_capture(capture);
    match judge(reports) {
        Some(error) => Err(error),
        None => Ok(pending.unwrap()),
    }
}

} // verus!
