//! The bounded channel between the sink and the window.
//!
//! The channel is the standard library's synchronous channel. Verus sees its
//! two halves as opaque values, so the functions here are trusted, and they
//! promise nothing of what the channel holds: another thread may fill or
//! drain it between any two calls.

use vstd::prelude::*;
use std::sync::mpsc::{Receiver, SyncSender};
use crate::record::LogLine;

verus! {

/// `std::sync::mpsc::SyncSender`, the sending half, as an opaque type.
#[verifier::external_type_specification]
#[verifier::external_body]
#[verifier::reject_recursive_types(T)]
pub struct ExSyncSender<T>(SyncSender<T>);

/// `std::sync::mpsc::Receiver`, the receiving half, as an opaque type.
#[verifier::external_type_specification]
#[verifier::external_body]
#[verifier::reject_recursive_types(T)]
pub struct ExReceiver<T>(Receiver<T>);

/// How many lines the channel between a sink and its window can hold.
pub const CAPACITY: usize = 128;

/// The number of lines that the channel behind a sending half was made to
/// buffer.
pub uninterp spec fn bound_of(channel: SyncSender<LogLine>) -> nat;

/// Calls `std::sync::mpsc::sync_channel`: a new channel that buffers up to
/// `capacity` lines. Of the two halves only that bound is claimed.
#[verifier::external_body]
pub(crate) fn bounded(capacity: usize) -> (halves: (SyncSender<LogLine>, Receiver<LogLine>))
    ensures
        bound_of(halves.0) == capacity,
{
    std::sync::mpsc::sync_channel(capacity)
}

/// Calls `SyncSender::try_send`, which returns at once. The line is either
/// queued or, where the channel is full or its receiver is gone, dropped;
/// the caller is not told which.
#[verifier::external_body]
pub(crate) fn offer(channel: &SyncSender<LogLine>, line: LogLine) {
    let _ = channel.try_send(line);
}

/// Calls `Receiver::try_recv`, which returns at once: a line that was
/// queued, or `None` where none is at hand. Nothing is claimed of which.
#[verifier::external_body]
pub(crate) fn take(channel: &Receiver<LogLine>) -> (line: Option<LogLine>) {
    channel.try_recv().ok()
}

} // verus!
