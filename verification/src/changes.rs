//! The changes that a poller asks the kernel to make to its registrations.

use vstd::prelude::*;
use crate::abi::{EVFILT_READ, EVFILT_WRITE, EV_ADD, EV_DELETE, EV_ONESHOT, EV_RECEIPT};
use crate::event::Event;
use crate::kevent::KEvent;

verus! {

/// The two changes of one batch: the one under the read filter and the one
/// under the write filter, in the order in which the kernel gets them.
#[derive(Clone, Copy, Debug, PartialEq, Eq)]
pub struct Changes {
    /// The change under the read filter.
    pub read: KEvent,
    /// The change under the write filter.
    pub write: KEvent,
}

/// The flags of the change that a caller's interest asks for under one
/// filter: a registration that lapses once reported where the caller is
/// interested, a deletion where not; with a receipt either way.
pub open spec fn interest_flags(wanted: bool) -> u16 {
    if wanted {
        EV_ONESHOT | EV_RECEIPT | EV_ADD
    } else {
        EV_ONESHOT | EV_RECEIPT | EV_DELETE
    }
}

/// The flags of a change that deletes a registration and asks for a receipt.
pub open spec fn removal_flags() -> u16 {
    EV_DELETE | EV_RECEIPT
}

/// The flags of the changes, as numbers.
pub proof fn lemma_change_flags()
    ensures
        interest_flags(true) == 0x51,
        interest_flags(false) == 0x52,
        removal_flags() == 0x42,
{
    assert(0x10u16 | 0x40u16 | 0x1u16 == 0x51u16) by (bit_vector);
    assert(0x10u16 | 0x40u16 | 0x2u16 == 0x52u16) by (bit_vector);
    assert(0x2u16 | 0x40u16 == 0x42u16) by (bit_vector);
}

/// A change made for a caller's interest adds the registration exactly if the
/// caller is interested, and deletes it exactly if not. Either way the
/// registration lapses once reported, and the kernel answers with a receipt.
pub proof fn lemma_interest_flags(wanted: bool)
    ensures
        interest_flags(wanted) & EV_ADD != 0 <==> wanted,
        interest_flags(wanted) & EV_DELETE != 0 <==> !wanted,
        interest_flags(wanted) & EV_ONESHOT != 0,
        interest_flags(wanted) & EV_RECEIPT != 0,
{
    assert(0x51u16 & 0x1u16 != 0 && 0x51u16 & 0x2u16 == 0 && 0x51u16 & 0x10u16 != 0 && 0x51u16
        & 0x40u16 != 0) by (bit_vector);
    assert(0x52u16 & 0x1u16 == 0 && 0x52u16 & 0x2u16 != 0 && 0x52u16 & 0x10u16 != 0 && 0x52u16
        & 0x40u16 != 0) by (bit_vector);
    lemma_change_flags();
}

/// A change made for a removal deletes the registration, adds none, and has
/// the kernel answer with a receipt.
pub proof fn lemma_removal_flags()
    ensures
        removal_flags() & EV_DELETE != 0,
        removal_flags() & EV_ADD == 0,
        removal_flags() & EV_RECEIPT != 0,
{
    assert(0x42u16 & 0x2u16 != 0 && 0x42u16 & 0x1u16 == 0 && 0x42u16 & 0x40u16 != 0)
        by (bit_vector);
    lemma_change_flags();
}

impl Changes {
    /// The batch that makes the registrations of descriptor `fd` what `ev`
    /// asks for, each under the key of `ev`.
    pub open spec fn spec_interest(fd: i32, ev: Event) -> Changes {
        Changes {
            read: KEvent::spec_change(fd, EVFILT_READ, interest_flags(ev.readable), ev.key),
            write: KEvent::spec_change(fd, EVFILT_WRITE, interest_flags(ev.writable), ev.key),
        }
    }

    /// Builds the batch that makes the registrations of descriptor `fd` what
    /// `ev` asks for.
    #[verifier::when_used_as_spec(spec_interest)]
    pub fn interest(fd: i32, ev: Event) -> (c: Changes)
        ensures
            c == Self::spec_interest(fd, ev),
    {
        let mut read_flags: u16 = EV_ONESHOT | EV_RECEIPT;
        let mut write_flags: u16 = EV_ONESHOT | EV_RECEIPT;
        if ev.readable {
            read_flags |= EV_ADD;
        } else {
            read_flags |= EV_DELETE;
        }
        if ev.writable {
            write_flags |= EV_ADD;
        } else {
            write_flags |= EV_DELETE;
        }
        Changes {
            read: KEvent::change(fd, EVFILT_READ, read_flags, ev.key),
            write: KEvent::change(fd, EVFILT_WRITE, write_flags, ev.key),
        }
    }

    /// The batch that deletes both registrations of descriptor `fd`.
    pub open spec fn spec_removal(fd: i32) -> Changes {
        Changes {
            read: KEvent::spec_change(fd, EVFILT_READ, removal_flags(), 0),
            write: KEvent::spec_change(fd, EVFILT_WRITE, removal_flags(), 0),
        }
    }

    /// Builds the batch that deletes both registrations of descriptor `fd`.
    #[verifier::when_used_as_spec(spec_removal)]
    pub fn removal(fd: i32) -> (c: Changes)
        ensures
            c == Self::spec_removal(fd),
    {
        Changes {
            read: KEvent::change(fd, EVFILT_READ, EV_DELETE | EV_RECEIPT, 0),
            write: KEvent::change(fd, EVFILT_WRITE, EV_DELETE | EV_RECEIPT, 0),
        }
    }
}

/// The batch for a caller's interest holds, for the descriptor and under the
/// caller's key, one change under the read filter and one under the write
/// filter. Each adds a registration that lapses once reported if the caller
/// wants that kind of event, and deletes the registration if not.
pub proof fn lemma_interest_changes(fd: i32, ev: Event)
    ensures
        ({
            let c = Changes::spec_interest(fd, ev);
            &&& c.read.filter == EVFILT_READ
            &&& c.write.filter == EVFILT_WRITE
            &&& c.read.ident == c.write.ident == fd as usize
            &&& c.read.udata == c.write.udata == ev.key
            &&& (c.read.flags & EV_ADD != 0 <==> ev.readable)
            &&& (c.read.flags & EV_DELETE != 0 <==> !ev.readable)
            &&& (c.write.flags & EV_ADD != 0 <==> ev.writable)
            &&& (c.write.flags & EV_DELETE != 0 <==> !ev.writable)
            &&& c.read.flags & EV_ONESHOT != 0
            &&& c.write.flags & EV_ONESHOT != 0
        }),
{
    lemma_interest_flags(ev.readable);
    lemma_interest_flags(ev.writable);
}

/// The batch for a removal holds, for the descriptor, one deletion under the
/// read filter and one under the write filter, and adds nothing.
pub proof fn lemma_removal_changes(fd: i32)
    ensures
        ({
            let c = Changes::spec_removal(fd);
            &&& c.read.filter == EVFILT_READ
            &&& c.write.filter == EVFILT_WRITE
            &&& c.read.ident == c.write.ident == fd as usize
            &&& c.read.flags & EV_DELETE != 0
            &&& c.write.flags & EV_DELETE != 0
            &&& c.read.flags & EV_ADD == 0
            &&& c.write.flags & EV_ADD == 0
        }),
{
    lemma_removal_flags();
}

} // verus!
