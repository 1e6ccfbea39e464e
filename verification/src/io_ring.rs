//! The worker of an I/O ring: how each request is carried out and who learns of
//! its outcome.
use vstd::prelude::*;

use crate::failure;
use crate::failure::Failure;
use crate::launch_config::TimeSpan;
use crate::text;

verus! {

/// The size of the table of registered buffers of a ring.
pub const NR_SPARSE_BUFFER: u32 = 4096;

/// The number of requests that a ring takes at one time.
pub const SQE_ENTRIES: u32 = 2048;

/// The number of completions that a ring holds.
pub const CQE_ENTRIES: u32 = 4096;

/// A request to a worker, without what travels along with it.
#[derive(Debug, Clone, Copy, PartialEq, Eq, Structural)]
pub enum RingRequest {
    Io,
    OccupySparseBuffer,
    /// Gives an index of the buffer table back.
    ReleaseSparseBuffer { idx: u32 },
    RegisterBuffer,
    /// Gives an index back without waiting for the outcome.
    ReleaseSparseBufferFire { idx: u32 },
    /// Unregisters a buffer without waiting for the outcome.
    UnregisterBuffer { idx: u32 },
}

/// What a worker does with its ring.
#[derive(Debug, Clone, Copy, PartialEq, Eq, Structural)]
pub enum RingOperation {
    /// Submit the entry and wait for its completion, beside other requests.
    SubmitAside,
    OccupyIndex,
    ReleaseIndex(u32),
    RegisterBuffer,
    UnregisterBuffer(u32),
}

/// Who learns of the outcome.
#[derive(Debug, Clone, Copy, PartialEq, Eq, Structural)]
pub enum RingReply {
    Sender,
    /// The sender, who also gets the buffer back.
    SenderWithBuffer,
    /// Nobody; a failure is logged.
    Log,
}

pub open spec fn operation_of(request: RingRequest) -> RingOperation {
    match request {
        RingRequest::Io => RingOperation::SubmitAside,
        RingRequest::OccupySparseBuffer => RingOperation::OccupyIndex,
        RingRequest::ReleaseSparseBuffer { idx } => RingOperation::ReleaseIndex(idx),
        RingRequest::RegisterBuffer => RingOperation::RegisterBuffer,
        RingRequest::ReleaseSparseBufferFire { idx } => RingOperation::ReleaseIndex(idx),
        RingRequest::UnregisterBuffer { idx } => RingOperation::UnregisterBuffer(idx),
    }
}

pub open spec fn reply_of(request: RingRequest) -> RingReply {
    match request {
        RingRequest::Io | RingRequest::OccupySparseBuffer
        | RingRequest::ReleaseSparseBuffer { .. } => RingReply::Sender,
        RingRequest::RegisterBuffer => RingReply::SenderWithBuffer,
        RingRequest::ReleaseSparseBufferFire { .. } | RingRequest::UnregisterBuffer { .. } =>
        RingReply::Log,
    }
}

/// Decides how a request is carried out.
pub fn dispatch(request: RingRequest) -> (r: (RingOperation, RingReply))
    ensures
        r == (operation_of(request), reply_of(request)),
{
    match request {
        RingRequest::Io => (RingOperation::SubmitAside, RingReply::Sender),
        RingRequest::OccupySparseBuffer => (RingOperation::OccupyIndex, RingReply::Sender),
        RingRequest::ReleaseSparseBuffer { idx } => (
            RingOperation::ReleaseIndex(idx),
            RingReply::Sender,
        ),
        RingRequest::RegisterBuffer => (
            RingOperation::RegisterBuffer,
            RingReply::SenderWithBuffer,
        ),
        RingRequest::ReleaseSparseBufferFire { idx } => (
            RingOperation::ReleaseIndex(idx),
            RingReply::Log,
        ),
        RingRequest::UnregisterBuffer { idx } => (
            RingOperation::UnregisterBuffer(idx),
            RingReply::Log,
        ),
    }
}

/// Giving an index back does the same to the ring whether its outcome is awaited
/// or not; only who learns of the outcome differs.
pub proof fn both_ways_of_releasing_an_index_are_alike(idx: u32)
    ensures
        operation_of(RingRequest::ReleaseSparseBuffer { idx }) == operation_of(
            RingRequest::ReleaseSparseBufferFire { idx },
        ),
        reply_of(RingRequest::ReleaseSparseBuffer { idx }) != reply_of(
            RingRequest::ReleaseSparseBufferFire { idx },
        ),
{
}

/// What is said where a request cannot be handed to a worker.
pub const SEND_CONTEXT: &'static str = "send request over IoRingHandle channel";

/// What is said where a worker does not answer a request; nothing where the
/// cause speaks for itself or no answer is awaited.
pub fn response_context(request: RingRequest) -> (r: Option<&'static str>)
    ensures
        match request {
            RingRequest::OccupySparseBuffer => r is Some && r->0@
                == "wait for occupy_sparse_buffer_index response"@,
            RingRequest::ReleaseSparseBuffer { .. } => r is Some && r->0@
                == "wait for release_sparse_buffer_index response"@,
            RingRequest::RegisterBuffer => r is Some && r->0@
                == "wait for register_buffer response"@,
            _ => r is None,
        },
{
    match request {
        RingRequest::OccupySparseBuffer => Some(
            "wait for occupy_sparse_buffer_index response",
        ),
        RingRequest::ReleaseSparseBuffer { .. } => Some(
            "wait for release_sparse_buffer_index response",
        ),
        RingRequest::RegisterBuffer => Some("wait for register_buffer response"),
        _ => None,
    }
}

/// What is logged where a request fails that nobody waits for.
pub fn log_message(request: RingRequest) -> (r: Option<&'static str>)
    ensures
        r is Some <==> reply_of(request) == RingReply::Log,
        match request {
            RingRequest::ReleaseSparseBufferFire { .. } => r is Some && r->0@
                == "release_sparse_buffer_index failed"@,
            RingRequest::UnregisterBuffer { .. } => r is Some && r->0@
                == "unregister_buffer failed"@,
            _ => r is None,
        },
{
    match request {
        RingRequest::ReleaseSparseBufferFire { .. } => Some("release_sparse_buffer_index failed"),
        RingRequest::UnregisterBuffer { .. } => Some("unregister_buffer failed"),
        _ => None,
    }
}

/// The answer to the registration of a buffer: the buffer comes back with its
/// index, where it was registered.
pub fn registered<B, E>(outcome: Result<u32, E>, buf: B) -> (r: Result<(u32, B), E>)
    ensures
        r == (match outcome {
            Ok(idx) => Ok::<(u32, B), E>((idx, buf)),
            Err(e) => Err::<(u32, B), E>(e),
        }),
{
    match outcome {
        Ok(idx) => Ok((idx, buf)),
        Err(e) => Err(e),
    }
}

/// How long the handling of completions waits before it starts anew: not at all
/// where it ended in order.
pub fn completion_restart_delay(failed: bool) -> (r: Option<TimeSpan>)
    ensures
        r == (if failed {
            Some(TimeSpan::seconds(1))
        } else {
            None
        }),
{
    if failed {
        Some(TimeSpan::from_secs(1))
    } else {
        None
    }
}

/// Decides whether a worker can use its ring: it must have been created, and the
/// thread must not have one already.
pub fn worker_ring_outcome(worker_id: usize, created: bool, already_initialized: bool) -> (r: Result<
    (),
    Failure,
>)
    ensures
        failure::reports(
            r,
            if !created {
                Some("create io uring for worker "@ + text::decimal(worker_id as nat))
            } else {
                failure::fault_if(
                    already_initialized,
                    "uring for worker "@ + text::decimal(worker_id as nat)
                        + " has already been initialized"@,
                )
            },
        ),
{
    let number = text::decimal_of(worker_id as u64);
    if !created {
        return Err(
            Failure::new(text::concat("create io uring for worker ", number.as_str())),
        );
    }
    if already_initialized {
        return Err(
            Failure::new(
                text::concat3(
                    "uring for worker ",
                    number.as_str(),
                    " has already been initialized",
                ),
            ),
        );
    }
    Ok(())
}

} // verus!
