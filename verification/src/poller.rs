//! The poller: which operation each request of a caller starts.

use vstd::prelude::*;
use std::time::Duration;
use crate::call::Timespec;
use crate::changes::Changes;
use crate::event::Event;
use crate::events::Events;
use crate::op::Op;
use crate::time::{nanoseconds_of, seconds_of};
use crate::wait::Wait;

verus! {

/// The descriptors that a poller works with.
///
/// The read side of the wake channel is registered with the queue under
/// [`crate::event::NOTIFY_KEY`] from the start, and again after every wait;
/// the write side is never registered.
#[derive(Clone, Copy, Debug, PartialEq, Eq)]
pub struct Poller {
    /// The kernel event queue.
    pub kqueue_fd: i32,
    /// The read side of the wake channel.
    pub read_fd: i32,
    /// The write side of the wake channel.
    pub write_fd: i32,
}

/// The bound on a wait that a duration stands for: its whole seconds and the
/// nanoseconds on top.
pub open spec fn timespec_of(d: Duration) -> Timespec {
    Timespec::spec_from_parts(seconds_of(d), nanoseconds_of(d))
}

/// The bound on a wait that an optional duration stands for: none where
/// there is no duration.
pub open spec fn bound_of(timeout: Option<Duration>) -> Option<Timespec> {
    match timeout {
        Some(d) => Some(timespec_of(d)),
        None => None,
    }
}

impl Poller {
    /// Creates a poller over event queue `kqueue_fd`, with the wake channel
    /// whose sides are `read_fd` and `write_fd`, and starts the operation that
    /// registers the channel's read side. The driver carries that operation
    /// out before any other; if it fails, there is no poller.
    pub fn new(kqueue_fd: i32, read_fd: i32, write_fd: i32) -> (made: (Poller, Op))
        ensures
            made.0 == (Poller { kqueue_fd, read_fd, write_fd }),
            made.1 == made.0.spec_interest(read_fd, Event::wake()),
    {
        let poller = Poller { kqueue_fd, read_fd, write_fd };
        (poller, poller.interest(read_fd, Event::wake()))
    }

    /// Starts the operation that makes descriptor `fd` non-blocking. It
    /// registers nothing.
    pub fn insert(&self, fd: i32) -> (op: Op)
        ensures
            op == (Op::FetchFlags { fd }),
    {
        Op::FetchFlags { fd }
    }

    /// The operation that makes the registrations of `fd` what `ev` asks for.
    pub open spec fn spec_interest(&self, fd: i32, ev: Event) -> Op {
        Op::Register { queue: self.kqueue_fd, changes: Changes::spec_interest(fd, ev) }
    }

    /// Starts the operation that makes the registrations of descriptor `fd`
    /// what `ev` asks for: under each of the two filters a registration with
    /// the key of `ev` that lapses once reported, if `ev` has the filter's
    /// flag, and no registration if not.
    #[verifier::when_used_as_spec(spec_interest)]
    pub fn interest(&self, fd: i32, ev: Event) -> (op: Op)
        ensures
            op == self.spec_interest(fd, ev),
    {
        Op::Register { queue: self.kqueue_fd, changes: Changes::interest(fd, ev) }
    }

    /// Starts the operation that deletes both registrations of descriptor
    /// `fd`.
    pub fn remove(&self, fd: i32) -> (op: Op)
        ensures
            op == (Op::Unregister { queue: self.kqueue_fd, changes: Changes::spec_removal(fd) }),
    {
        Op::Unregister { queue: self.kqueue_fd, changes: Changes::removal(fd) }
    }

    /// Starts a wait that fills `events` and blocks no longer than `timeout`;
    /// forever, if there is none. The bound that the kernel gets has less
    /// than a second's worth of nanoseconds.
    pub fn wait(&self, events: &Events, timeout: Option<Duration>) -> (wait: Wait)
        ensures
            wait == (Wait::Polling {
                poller: *self,
                capacity: events.spec_capacity(),
                timeout: bound_of(timeout),
            }),
            bound_of(timeout) matches Some(bound) ==> 0 <= bound.tv_nsec < 1_000_000_000,
    {
        let bound = match timeout {
            Some(d) => Some(Timespec::from_parts(d.as_secs(), d.subsec_nanos())),
            None => None,
        };
        self.wait_within(events, bound)
    }

    /// Starts a wait that fills `events` and blocks no longer than `bound`;
    /// forever, if there is none.
    pub fn wait_within(&self, events: &Events, bound: Option<Timespec>) -> (wait: Wait)
        ensures
            wait == (Wait::Polling {
                poller: *self,
                capacity: events.spec_capacity(),
                timeout: bound,
            }),
    {
        Wait::Polling { poller: *self, capacity: events.capacity(), timeout: bound }
    }

    /// Starts the operation that wakes up the wait under way, or else the
    /// next one.
    pub fn notify(&self) -> (op: Op)
        ensures
            op == (Op::Wake { fd: self.write_fd }),
    {
        Op::Wake { fd: self.write_fd }
    }

    /// Starts the operation that ends the poller: the wake channel leaves
    /// the queue, and the queue is closed.
    pub fn close(&self) -> (op: Op)
        ensures
            op == (Op::Detach {
                queue: self.kqueue_fd,
                changes: Changes::spec_removal(self.read_fd),
            }),
    {
        Op::Detach { queue: self.kqueue_fd, changes: Changes::removal(self.read_fd) }
    }
}

} // verus!
