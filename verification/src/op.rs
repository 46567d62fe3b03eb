//! The operations of a poller that need no event buffer, each as a state
//! machine over system calls.

use vstd::prelude::*;
use crate::abi::{ENOENT, EPIPE, EVFILT_WRITE, EV_ERROR, O_NONBLOCK};
use crate::call::{Call, OsError, Reply};
use crate::changes::Changes;
use crate::kevent::{check_receipts, lemma_first_refusal, verdict, KEvent};

verus! {

/// An operation under way: what it waits for, or how it ended.
///
/// The driver makes the call that [`Op::call`] names, hands the kernel's
/// answer to [`Op::step`], and goes on with the operation that comes back,
/// until [`Op::result`] holds the outcome.
#[derive(Clone, Copy, Debug, PartialEq, Eq)]
pub enum Op {
    /// Registering interest: the batch is to be submitted, and fails on the
    /// first receipt that reports an error other than a missing registration
    /// or a broken pipe under the write filter.
    Register { queue: i32, changes: Changes },
    /// Removing a descriptor: the batch is to be submitted, and fails on the
    /// first receipt that reports an error other than a missing registration.
    Unregister { queue: i32, changes: Changes },
    /// Making a descriptor non-blocking: its status flags are to be fetched.
    FetchFlags { fd: i32 },
    /// Making a descriptor non-blocking: its status flags are to be set.
    StoreFlags { fd: i32, flags: i32 },
    /// Waking a waiter: a byte is to be written to the wake channel.
    Wake { fd: i32 },
    /// Tearing down: the wake channel is to leave the queue, whatever comes
    /// of it.
    Detach { queue: i32, changes: Changes },
    /// Tearing down: the queue is to be closed, whatever comes of it.
    Close { fd: i32 },
    /// The operation is over, with this outcome.
    Done(Result<(), OsError>),
}

/// The outcome of a submitted batch: the error of the call if it failed,
/// else what the receipts in the reply say. With `pipe_race`, a broken pipe
/// under the write filter counts as no error.
pub open spec fn settled(reply: Reply, pipe_race: bool) -> Result<(), OsError> {
    match reply.error() {
        Some(e) => Err(e),
        None => verdict(reply.records(), pipe_race),
    }
}

/// Gives the outcome of a submitted batch.
pub fn settle(reply: Reply, pipe_race: bool) -> (r: Result<(), OsError>)
    ensures
        r == settled(reply, pipe_race),
{
    match reply {
        Reply::Failed(e) => Err(e),
        Reply::Returned(_) => Ok(()),
        Reply::Records(list) => check_receipts(&list, pipe_race),
    }
}

impl Op {
    /// The system call that the operation waits for; none once it is over.
    pub open spec fn spec_call(&self) -> Option<Call> {
        match *self {
            Op::Register { queue, changes } => Some(Call::Submit { queue, changes }),
            Op::Unregister { queue, changes } => Some(Call::Submit { queue, changes }),
            Op::FetchFlags { fd } => Some(Call::GetFlags { fd }),
            Op::StoreFlags { fd, flags } => Some(Call::SetFlags { fd, flags }),
            Op::Wake { fd } => Some(Call::Write { fd }),
            Op::Detach { queue, changes } => Some(Call::Submit { queue, changes }),
            Op::Close { fd } => Some(Call::Close { fd }),
            Op::Done(_) => None,
        }
    }

    /// Names the system call that the driver is to make next, if the
    /// operation is not over.
    #[verifier::when_used_as_spec(spec_call)]
    pub fn call(&self) -> (c: Option<Call>)
        ensures
            c == self.spec_call(),
    {
        match *self {
            Op::Register { queue, changes } => Some(Call::Submit { queue, changes }),
            Op::Unregister { queue, changes } => Some(Call::Submit { queue, changes }),
            Op::FetchFlags { fd } => Some(Call::GetFlags { fd }),
            Op::StoreFlags { fd, flags } => Some(Call::SetFlags { fd, flags }),
            Op::Wake { fd } => Some(Call::Write { fd }),
            Op::Detach { queue, changes } => Some(Call::Submit { queue, changes }),
            Op::Close { fd } => Some(Call::Close { fd }),
            Op::Done(_) => None,
        }
    }

    /// The outcome of the operation; none while it is under way.
    pub open spec fn spec_result(&self) -> Option<Result<(), OsError>> {
        match *self {
            Op::Done(r) => Some(r),
            _ => None,
        }
    }

    /// Gives the outcome of the operation, once it is over.
    #[verifier::when_used_as_spec(spec_result)]
    pub fn result(&self) -> (r: Option<Result<(), OsError>>)
        ensures
            r == self.spec_result(),
            r is None <==> self.spec_call() is Some,
    {
        match *self {
            Op::Done(r) => Some(r),
            _ => None,
        }
    }

    /// The operation after the kernel has answered `reply` to its call.
    ///
    /// - A batch of changes ends the operation with the call's error, or else
    ///   with what its receipts say.
    /// - Fetched status flags are set again with [`O_NONBLOCK`] added; a failure
    ///   of either call ends the operation with that error.
    /// - A wake-up has succeeded however the write went: a byte that did not
    ///   fit means that one is waiting to be read already.
    /// - Tearing down goes on to close the queue and succeeds, whatever the
    ///   kernel answers.
    /// - An operation that is over stays as it is.
    pub open spec fn spec_step(self, reply: Reply) -> Op {
        match self {
            Op::Register { .. } => Op::Done(settled(reply, true)),
            Op::Unregister { .. } => Op::Done(settled(reply, false)),
            Op::FetchFlags { fd } => match reply.error() {
                Some(e) => Op::Done(Err(e)),
                None => Op::StoreFlags { fd, flags: reply.value() | O_NONBLOCK },
            },
            Op::StoreFlags { .. } => match reply.error() {
                Some(e) => Op::Done(Err(e)),
                None => Op::Done(Ok(())),
            },
            Op::Wake { .. } => Op::Done(Ok(())),
            Op::Detach { queue, .. } => Op::Close { fd: queue },
            Op::Close { .. } => Op::Done(Ok(())),
            Op::Done(r) => Op::Done(r),
        }
    }

    /// Takes the kernel's answer to the pending call and moves the operation
    /// on.
    #[verifier::when_used_as_spec(spec_step)]
    pub fn step(self, reply: Reply) -> (next: Op)
        ensures
            next == self.spec_step(reply),
    {
        match self {
            Op::Register { .. } => Op::Done(settle(reply, true)),
            Op::Unregister { .. } => Op::Done(settle(reply, false)),
            Op::FetchFlags { fd } => match reply {
                Reply::Failed(e) => Op::Done(Err(e)),
                Reply::Returned(flags) => Op::StoreFlags { fd, flags: flags | O_NONBLOCK },
                Reply::Records(_) => Op::StoreFlags { fd, flags: 0 | O_NONBLOCK },
            },
            Op::StoreFlags { .. } => match reply {
                Reply::Failed(e) => Op::Done(Err(e)),
                _ => Op::Done(Ok(())),
            },
            Op::Wake { .. } => Op::Done(Ok(())),
            Op::Detach { queue, .. } => Op::Close { fd: queue },
            Op::Close { .. } => Op::Done(Ok(())),
            Op::Done(r) => Op::Done(r),
        }
    }
}

/// Whether a record, read as a receipt, reports no error or else that there
/// is no such registration.
pub open spec fn clean_or_missing(receipt: KEvent) -> bool {
    receipt.flags & EV_ERROR == 0 || receipt.data == 0 || receipt.data == ENOENT
}

/// Removing a descriptor succeeds where the kernel takes the batch and finds
/// nothing worse than that a registration is not there: because it never
/// was, or because it has lapsed, or because the descriptor is closed.
pub proof fn lemma_remove_tolerates_missing(queue: i32, changes: Changes, reply: Reply)
    requires
        reply.error() is None,
        forall|i: int|
            0 <= i < reply.records().len() ==> clean_or_missing(#[trigger] reply.records()[i]),
    ensures
        (Op::Unregister { queue, changes }).spec_step(reply) == Op::Done(Ok(())),
{
    lemma_first_refusal(reply.records(), false);
}

/// Registering interest succeeds where the kernel takes the batch and finds
/// nothing worse than a missing registration or, under the write filter, a
/// broken pipe. It fails with the error of the call where the call fails, and
/// with the error of the first other receipt where there is one.
pub proof fn lemma_interest_outcome(queue: i32, changes: Changes, reply: Reply)
    ensures
        reply.error() matches Some(e) ==> (Op::Register { queue, changes }).spec_step(reply)
            == Op::Done(Err(e)),
        reply.error() is None && (forall|i: int|
            0 <= i < reply.records().len() ==> {
                ||| clean_or_missing(#[trigger] reply.records()[i])
                ||| reply.records()[i].filter == EVFILT_WRITE && reply.records()[i].data == EPIPE
            }) ==> (Op::Register { queue, changes }).spec_step(reply) == Op::Done(Ok(())),
        reply.error() is None && (exists|i: int|
            0 <= i < reply.records().len() && (#[trigger] reply.records()[i]).refuses(true))
            ==> (Op::Register { queue, changes }).spec_step(reply).spec_result() matches Some(
            Err(_),
        ),
{
    lemma_first_refusal(reply.records(), true);
}

/// Making a descriptor non-blocking sets its status flags to what they were,
/// with [`O_NONBLOCK`] set and every other flag as it was; the operation then
/// succeeds if setting them does. If the flags cannot be fetched, nothing is
/// set and the operation fails with that error.
pub proof fn lemma_insert_adds_nonblock(fd: i32, fetched: Reply, stored: Reply)
    ensures
        fetched.error() matches Some(e) ==> (Op::FetchFlags { fd }).spec_step(fetched) == Op::Done(
            Err(e),
        ),
        fetched.error() is None ==> ({
            let flags = fetched.value();
            let next = (Op::FetchFlags { fd }).spec_step(fetched);
            &&& next == Op::StoreFlags { fd, flags: flags | O_NONBLOCK }
            &&& (flags | O_NONBLOCK) & O_NONBLOCK == O_NONBLOCK
            &&& (flags | O_NONBLOCK) & !O_NONBLOCK == flags & !O_NONBLOCK
            &&& next.spec_step(stored) == Op::Done(
                match stored.error() {
                    Some(e) => Err(e),
                    None => Ok(()),
                },
            )
        }),
{
    let flags = fetched.value();
    assert((flags | 0x4i32) & 0x4i32 == 0x4i32 && (flags | 0x4i32) & !0x4i32 == flags & !0x4i32)
        by (bit_vector);
}

/// A wake-up never fails, whatever becomes of the byte: if it did not fit,
/// another one is waiting to be read and will wake the waiter as well.
pub proof fn lemma_notify_never_fails(fd: i32, reply: Reply)
    ensures
        (Op::Wake { fd }).spec_step(reply) == Op::Done(Ok(())),
{
}

/// Tearing down takes the wake channel from the queue, then closes the
/// queue, and succeeds whatever the kernel answers to either.
pub proof fn lemma_teardown_never_fails(
    queue: i32,
    changes: Changes,
    detached: Reply,
    closed: Reply,
)
    ensures
        (Op::Detach { queue, changes }).spec_step(detached).spec_call() == Some(
            Call::Close { fd: queue },
        ),
        (Op::Detach { queue, changes }).spec_step(detached).spec_step(closed) == Op::Done(Ok(())),
{
}

} // verus!
