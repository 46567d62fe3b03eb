//! Waiting for events, as a state machine over system calls.

use vstd::prelude::*;
use crate::abi::EAGAIN;
use crate::call::{Call, OsError, Reply, Timespec};
use crate::changes::Changes;
use crate::event::{Event, NOTIFY_KEY};
use crate::events::{events_of, Events};
use crate::kevent::KEvent;
use crate::op::{settle, settled};
use crate::poller::Poller;

verus! {

/// A wait under way: what it waits for, or how it ended.
///
/// It is driven like an [`crate::op::Op`], but with the buffer that it fills
/// at hand.
#[derive(Clone, Copy, Debug, PartialEq, Eq)]
pub enum Wait {
    /// The queue is to be polled for at most `capacity` records.
    Polling { poller: Poller, capacity: usize, timeout: Option<Timespec> },
    /// `count` records are in the buffer; the wake channel is to be read
    /// until it has run dry.
    Draining { poller: Poller, count: usize },
    /// `count` records are in the buffer; the read side of the wake channel is
    /// to be registered again, since a wake-up has used its registration up.
    Rearming { poller: Poller, count: usize },
    /// The wait is over: it failed, or this many events are in the buffer.
    Done(Result<usize, OsError>),
}

/// The number of bytes that one read takes from the wake channel.
pub const DRAIN_CHUNK: usize = 64;

/// The number of records that a buffer of `capacity` slots takes from
/// `records`: all of them, if they fit.
pub open spec fn taken(records: Seq<KEvent>, capacity: usize) -> usize {
    if records.len() <= capacity {
        records.len() as usize
    } else {
        capacity
    }
}

impl Wait {
    /// The system call that the wait is waiting for; none once it is over.
    pub open spec fn spec_call(&self) -> Option<Call> {
        match *self {
            Wait::Polling { poller, capacity, timeout } => Some(
                Call::Poll { queue: poller.kqueue_fd, capacity, timeout },
            ),
            Wait::Draining { poller, .. } => Some(
                Call::Read { fd: poller.read_fd, len: DRAIN_CHUNK },
            ),
            Wait::Rearming { poller, .. } => Some(
                Call::Submit {
                    queue: poller.kqueue_fd,
                    changes: Changes::spec_interest(poller.read_fd, Event::spec_wake()),
                },
            ),
            Wait::Done(_) => None,
        }
    }

    /// Names the system call that the driver is to make next, if the wait is
    /// not over.
    #[verifier::when_used_as_spec(spec_call)]
    pub fn call(&self) -> (c: Option<Call>)
        ensures
            c == self.spec_call(),
    {
        match *self {
            Wait::Polling { poller, capacity, timeout } => Some(
                Call::Poll { queue: poller.kqueue_fd, capacity, timeout },
            ),
            Wait::Draining { poller, .. } => Some(
                Call::Read { fd: poller.read_fd, len: DRAIN_CHUNK },
            ),
            Wait::Rearming { poller, .. } => Some(
                Call::Submit {
                    queue: poller.kqueue_fd,
                    changes: Changes::interest(poller.read_fd, Event::wake()),
                },
            ),
            Wait::Done(_) => None,
        }
    }

    /// The outcome of the wait; none while it is under way.
    pub open spec fn spec_result(&self) -> Option<Result<usize, OsError>> {
        match *self {
            Wait::Done(r) => Some(r),
            _ => None,
        }
    }

    /// Gives the outcome of the wait, once it is over: the number of events
    /// in the buffer, or the error.
    #[verifier::when_used_as_spec(spec_result)]
    pub fn result(&self) -> (r: Option<Result<usize, OsError>>)
        ensures
            r == self.spec_result(),
            r is None <==> self.spec_call() is Some,
    {
        match *self {
            Wait::Done(r) => Some(r),
            _ => None,
        }
    }

    /// The records in a buffer of `capacity` slots after the kernel has
    /// answered `reply`, where the buffer held the records `before`.
    ///
    /// A poll that has succeeded leaves the records of `reply` there, as many
    /// as there are slots for, and nothing of `before`. Any other step leaves
    /// the buffer alone.
    pub open spec fn buffer_after(
        self,
        reply: Reply,
        capacity: usize,
        before: Seq<KEvent>,
    ) -> Seq<KEvent> {
        if self is Polling && reply.error() is None {
            reply.records().take(taken(reply.records(), capacity) as int)
        } else {
            before
        }
    }

    /// The wait after the kernel has answered `reply` to its call, with a
    /// buffer of `capacity` slots at hand.
    ///
    /// - A poll that fails ends the wait with that error. One that succeeds
    ///   has its records put into the buffer, and the wake channel is read
    ///   next.
    /// - The wake channel is read again for as long as reading succeeds. When
    ///   reading would block, the channel has run dry, and its read side is
    ///   registered again under [`crate::event::NOTIFY_KEY`]. Any other
    ///   failure to read ends the wait with that error.
    /// - If that registration fails, as [`settled`] says, so does the wait,
    ///   with the same error. If not, the wait ends with the number of records
    ///   in the buffer.
    /// - A wait that is over stays as it is.
    pub open spec fn spec_step(self, reply: Reply, capacity: usize) -> Wait {
        match self {
            Wait::Polling { poller, .. } => match reply.error() {
                Some(e) => Wait::Done(Err(e)),
                None => Wait::Draining { poller, count: taken(reply.records(), capacity) },
            },
            Wait::Draining { poller, count } => match reply.error() {
                None => Wait::Draining { poller, count },
                Some(e) => if e.code == EAGAIN {
                    Wait::Rearming { poller, count }
                } else {
                    Wait::Done(Err(e))
                },
            },
            Wait::Rearming { count, .. } => match settled(reply, true) {
                Ok(()) => Wait::Done(Ok(count)),
                Err(e) => Wait::Done(Err(e)),
            },
            Wait::Done(r) => Wait::Done(r),
        }
    }

    /// Takes the kernel's answer to the pending call and moves the wait on.
    ///
    /// The buffer keeps its number of slots, and holds afterwards what
    /// [`Wait::buffer_after`] says.
    pub fn step(self, reply: Reply, events: &mut Events) -> (next: Wait)
        ensures
            next == self.spec_step(reply, old(events).spec_capacity()),
            final(events).spec_capacity() == old(events).spec_capacity(),
            final(events).records() == self.buffer_after(
                reply,
                old(events).spec_capacity(),
                old(events).records(),
            ),
    {
        match self {
            Wait::Polling { poller, .. } => match reply {
                Reply::Failed(e) => Wait::Done(Err(e)),
                Reply::Returned(_) => {
                    let count = events.refill(&Vec::new());
                    Wait::Draining { poller, count }
                },
                Reply::Records(list) => {
                    let count = events.refill(&list);
                    Wait::Draining { poller, count }
                },
            },
            Wait::Draining { poller, count } => match reply {
                Reply::Failed(e) => if e.code == EAGAIN {
                    Wait::Rearming { poller, count }
                } else {
                    Wait::Done(Err(e))
                },
                _ => Wait::Draining { poller, count },
            },
            Wait::Rearming { count, .. } => match settle(reply, true) {
                Ok(()) => Wait::Done(Ok(count)),
                Err(e) => Wait::Done(Err(e)),
            },
            Wait::Done(r) => Wait::Done(r),
        }
    }

    /// The wait after the kernel has given the answers `replies`, one after
    /// the other, with a buffer of `capacity` slots at hand.
    pub open spec fn run(self, replies: Seq<Reply>, capacity: usize) -> Wait
        decreases replies.len(),
    {
        if replies.len() == 0 {
            self
        } else {
            self.spec_step(replies.first(), capacity).run(replies.drop_first(), capacity)
        }
    }
}

/// Answers given in two parts come to the same as given in one.
pub proof fn lemma_run_split(wait: Wait, first: Seq<Reply>, then: Seq<Reply>, capacity: usize)
    ensures
        wait.run(first + then, capacity) == wait.run(first, capacity).run(then, capacity),
    decreases first.len(),
{
    if first.len() == 0 {
        assert(first + then =~= then);
    } else {
        assert((first + then).first() == first.first());
        assert((first + then).drop_first() =~= first.drop_first() + then);
        lemma_run_split(
            wait.spec_step(first.first(), capacity),
            first.drop_first(),
            then,
            capacity,
        );
    }
}

/// While reading the wake channel succeeds, the wait goes on reading it.
pub proof fn lemma_drain_goes_on(
    poller: Poller,
    count: usize,
    reads: Seq<Reply>,
    capacity: usize,
)
    requires
        forall|i: int| 0 <= i < reads.len() ==> (#[trigger] reads[i]).error() is None,
    ensures
        (Wait::Draining { poller, count }).run(reads, capacity) == (Wait::Draining {
            poller,
            count,
        }),
    decreases reads.len(),
{
    if reads.len() > 0 {
        assert(reads[0].error() is None);
        let rest = reads.drop_first();
        assert forall|i: int| 0 <= i < rest.len() implies (#[trigger] rest[i]).error() is None by {
            assert(rest[i] == reads[i + 1]);
        }
        lemma_drain_goes_on(poller, count, rest, capacity);
    }
}

/// A poll that fails ends the wait at once, with the poll's error, and leaves
/// the buffer alone.
pub proof fn lemma_wait_fails_with_poll(
    poller: Poller,
    capacity: usize,
    timeout: Option<Timespec>,
    error: OsError,
    before: Seq<KEvent>,
)
    ensures
        (Wait::Polling { poller, capacity, timeout }).spec_step(Reply::Failed(error), capacity)
            == Wait::Done(Err(error)),
        (Wait::Polling { poller, capacity, timeout }).buffer_after(
            Reply::Failed(error),
            capacity,
            before,
        ) == before,
{
}

/// A read of the wake channel that fails, but not because it would block,
/// ends the wait with that error: the failure is not passed over.
pub proof fn lemma_wait_fails_with_read(
    poller: Poller,
    count: usize,
    error: OsError,
    capacity: usize,
)
    requires
        error.code != EAGAIN,
    ensures
        (Wait::Draining { poller, count }).spec_step(Reply::Failed(error), capacity) == Wait::Done(
            Err(error),
        ),
{
}

/// A wait whose poll succeeds reads the wake channel until that would
/// block, registers the channel's read side again, and ends with the number
/// of records that the buffer took, or else with the error of that
/// registration.
///
/// Here `polled` answers the poll, `reads` are the answers to the reads that
/// succeed, `dry` is the answer to the read that would block, and `rearmed`
/// answers the registration.
pub proof fn lemma_wait_outcome(
    poller: Poller,
    capacity: usize,
    timeout: Option<Timespec>,
    polled: Reply,
    reads: Seq<Reply>,
    dry: Reply,
    rearmed: Reply,
)
    requires
        polled.error() is None,
        forall|i: int| 0 <= i < reads.len() ==> (#[trigger] reads[i]).error() is None,
        dry.error() == Some(OsError { code: EAGAIN }),
    ensures
        (Wait::Polling { poller, capacity, timeout }).run(
            seq![polled] + reads + seq![dry, rearmed],
            capacity,
        ) == Wait::Done(
            match settled(rearmed, true) {
                Ok(()) => Ok(taken(polled.records(), capacity)),
                Err(e) => Err(e),
            },
        ),
{
    let start = Wait::Polling { poller, capacity, timeout };
    let count = taken(polled.records(), capacity);
    let draining = Wait::Draining { poller, count };
    let last = seq![dry, rearmed];
    lemma_run_split(start, seq![polled] + reads, last, capacity);
    lemma_run_split(start, seq![polled], reads, capacity);
    assert(start.run(seq![polled], capacity) == draining) by {
        assert(seq![polled].drop_first() =~= Seq::<Reply>::empty());
        assert(draining.run(Seq::<Reply>::empty(), capacity) == draining);
    }
    lemma_drain_goes_on(poller, count, reads, capacity);
    let rearming = draining.spec_step(dry, capacity);
    assert(draining.run(last, capacity) == rearming.spec_step(rearmed, capacity)) by {
        assert(last.first() == dry);
        assert(last.drop_first() =~= seq![rearmed]);
        assert(seq![rearmed].drop_first() =~= Seq::<Reply>::empty());
        let end = rearming.spec_step(rearmed, capacity);
        assert(end.run(Seq::<Reply>::empty(), capacity) == end);
        assert(rearming.run(seq![rearmed], capacity) == end);
    }
}

/// Once the wake channel has run dry, a wait registers its read side again:
/// for reading, under [`crate::event::NOTIFY_KEY`], with the poller's queue.
/// So the registration that a wake-up has used up is there again before the
/// wait ends.
pub proof fn lemma_wait_rearms(poller: Poller, count: usize, dry: Reply, capacity: usize)
    requires
        dry.error() == Some(OsError { code: EAGAIN }),
    ensures
        (Wait::Draining { poller, count }).spec_step(dry, capacity).spec_call() == Some(
            Call::Submit {
                queue: poller.kqueue_fd,
                changes: Changes::spec_interest(
                    poller.read_fd,
                    Event { key: NOTIFY_KEY, readable: true, writable: false },
                ),
            },
        ),
{
}

/// A poll that succeeds with no more records than the buffer has slots puts
/// all of them into the buffer, in the kernel's order, so that the buffer
/// shows one event for each; nothing of what the buffer held before is left.
pub proof fn lemma_wait_reports_all(
    poller: Poller,
    capacity: usize,
    timeout: Option<Timespec>,
    polled: Reply,
    before: Seq<KEvent>,
)
    requires
        polled.error() is None,
        polled.records().len() <= capacity,
    ensures
        (Wait::Polling { poller, capacity, timeout }).buffer_after(polled, capacity, before)
            == polled.records(),
        (Wait::Polling { poller, capacity, timeout }).spec_step(polled, capacity)
            == (Wait::Draining { poller, count: polled.records().len() as usize }),
        events_of(polled.records()).len() == polled.records().len(),
        forall|i: int|
            0 <= i < polled.records().len() ==> events_of(polled.records())[i]
                == (#[trigger] polled.records()[i]).event(),
{
    assert(polled.records().take(polled.records().len() as int) =~= polled.records());
}

/// However many records a poll brings, the buffer never shows more events
/// than it has slots.
pub proof fn lemma_buffer_bounded(
    wait: Wait,
    reply: Reply,
    capacity: usize,
    before: Seq<KEvent>,
)
    requires
        before.len() <= capacity,
    ensures
        events_of(wait.buffer_after(reply, capacity, before)).len() <= capacity,
{
}

} // verus!
