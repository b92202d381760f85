//! The exchange with the native interface that builds a native object: what
//! is asked of it, what it answers, and where the exchange stands.

use vstd::prelude::*;

verus! {

/// Where the building of a native object stands. A shader is compiling, and a
/// program is linking, from `Requested` to `Collecting`.
#[derive(Clone, Copy, Debug)]
pub enum Phase {
    /// Nothing was asked yet.
    Uninitialized,
    /// The native object was asked for.
    Requested,
    /// The object `id` was given its input and built; its status was asked.
    Submitted { id: u32 },
    /// The build of `id` failed; the length of its log was asked.
    Measuring { id: u32 },
    /// The log of `id` was asked.
    Collecting { id: u32 },
    /// The object `id` is built.
    Ready { id: u32 },
    /// The build failed and its log was handed on.
    Failed,
}

/// What the native interface answered, or the word to begin.
pub enum NativeEvent {
    /// Nothing was answered: the exchange is to begin.
    Begin,
    /// The native object that was created.
    Object(u32),
    /// The status of the build: zero where it failed.
    Status(i32),
    /// The length of the log.
    LogLength(i32),
    /// The text of the log.
    Log(String),
}

/// The native delete call that the end of an owner asks for, and whether the
/// native context goes with it.
#[derive(Clone, Copy, Debug)]
pub struct Deletion {
    /// The native object to delete.
    pub id: u32,
    /// This owner held the last share: the context is torn down after the
    /// delete call.
    pub teardown: bool,
}

/// Where the exchange stands after `event` came in `phase`. An answer that
/// was not asked for changes nothing.
pub open spec fn spec_next(phase: Phase, event: NativeEvent) -> Phase {
    match (phase, event) {
        (Phase::Uninitialized, NativeEvent::Begin) => Phase::Requested,
        (Phase::Requested, NativeEvent::Object(id)) => Phase::Submitted { id },
        (Phase::Submitted { id }, NativeEvent::Status(status)) => if status == 0 {
            Phase::Measuring { id }
        } else {
            Phase::Ready { id }
        },
        (Phase::Measuring { id }, NativeEvent::LogLength(_)) => Phase::Collecting { id },
        (Phase::Collecting { id }, NativeEvent::Log(_)) => Phase::Failed,
        _ => phase,
    }
}

/// The exchange is over: the object is built, or the build failed.
pub open spec fn is_over(phase: Phase) -> bool {
    phase is Ready || phase is Failed
}

/// Once the exchange is over, nothing that comes in moves it.
pub proof fn lemma_over_stays_over(phase: Phase, event: NativeEvent)
    requires
        is_over(phase),
    ensures
        spec_next(phase, event) == phase,
{
}

/// A build whose status is not zero ends with the object that was created,
/// after three steps, without any question about a log.
pub proof fn lemma_success_path(id: u32, status: i32)
    requires
        status != 0,
    ensures
        spec_next(
            spec_next(spec_next(Phase::Uninitialized, NativeEvent::Begin), NativeEvent::Object(id)),
            NativeEvent::Status(status),
        ) == (Phase::Ready { id }),
{
}

/// A build whose status is zero ends as failed, once the length of the log
/// and then the log were answered, and not before.
pub proof fn lemma_failure_path(id: u32, len: i32, log: String)
    ensures
        ({
            let submitted = spec_next(
                spec_next(Phase::Uninitialized, NativeEvent::Begin),
                NativeEvent::Object(id),
            );
            let measuring = spec_next(submitted, NativeEvent::Status(0));
            let collecting = spec_next(measuring, NativeEvent::LogLength(len));
            &&& measuring == (Phase::Measuring { id })
            &&& collecting == (Phase::Collecting { id })
            &&& spec_next(collecting, NativeEvent::Log(log)) == Phase::Failed
            &&& !is_over(submitted) && !is_over(measuring) && !is_over(collecting)
        }),
{
}

/// How many bytes the buffer for a log of length `len` has.
pub open spec fn log_buffer_len(len: i32) -> nat {
    if len < 0 {
        0
    } else {
        len as nat
    }
}

/// The buffer that receives a log of length `len`.
pub open spec fn is_log_buffer(buffer: Seq<u8>, len: i32) -> bool {
    &&& buffer.len() == log_buffer_len(len)
    &&& forall|i: int| 0 <= i < buffer.len() ==> buffer[i] == 32u8
}

/// Allocates the buffer that receives a log of length `len`.
pub fn log_buffer(len: i32) -> (buffer: Vec<u8>)
    ensures
        is_log_buffer(buffer@, len),
{
    if len < 0 {
        crate::util::alloc_cstring_len(0)
    } else {
        crate::util::alloc_cstring_len(len as usize)
    }
}

} // verus!
