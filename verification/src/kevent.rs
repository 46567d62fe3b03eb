//! Raw records of the kernel event queue, as plain values.

use vstd::prelude::*;
use crate::abi::{ENOENT, EPIPE, EVFILT_READ, EVFILT_WRITE, EV_EOF, EV_ERROR};
use crate::call::OsError;
use crate::event::Event;

verus! {

/// One record of the kernel event queue: a change handed to the kernel, a
/// receipt for a change, or a readiness notification.
#[derive(Clone, Copy, Debug, PartialEq, Eq)]
pub struct KEvent {
    /// What the record is about: here always a descriptor.
    pub ident: usize,
    /// The kernel filter that the record belongs to.
    pub filter: i16,
    /// Action and status flags.
    pub flags: u16,
    /// Flags of the filter.
    pub fflags: u32,
    /// Data of the filter; in a receipt, the error code.
    pub data: i64,
    /// The caller's tag, handed back untouched by the kernel.
    pub udata: usize,
}

impl KEvent {
    /// The readiness event that this record stands for.
    ///
    /// A read record that carries [`EV_EOF`] counts as writable too: some
    /// kernels report a closed peer only in this way.
    pub open spec fn event(self) -> Event {
        Event {
            key: self.udata,
            readable: self.filter == EVFILT_READ,
            writable: self.filter == EVFILT_WRITE || (self.filter == EVFILT_READ && self.flags
                & EV_EOF != 0),
        }
    }

    /// Translates the record into the readiness event it stands for.
    pub fn to_event(&self) -> (ev: Event)
        ensures
            ev == self.event(),
    {
        Event {
            key: self.udata,
            readable: self.filter == EVFILT_READ,
            writable: self.filter == EVFILT_WRITE || (self.filter == EVFILT_READ && (self.flags
                & EV_EOF) != 0),
        }
    }

    /// The change that applies `flags` to the registration of descriptor `fd`
    /// under `filter`, tagged with `key`.
    pub open spec fn spec_change(fd: i32, filter: i16, flags: u16, key: usize) -> KEvent {
        KEvent { ident: fd as usize, filter, flags, fflags: 0, data: 0, udata: key }
    }

    /// Builds the change that applies `flags` to the registration of
    /// descriptor `fd` under `filter`, tagged with `key`.
    #[verifier::when_used_as_spec(spec_change)]
    pub fn change(fd: i32, filter: i16, flags: u16, key: usize) -> (c: KEvent)
        ensures
            c == Self::spec_change(fd, filter, flags, key),
            fd >= 0 ==> c.ident == fd,
    {
        KEvent { ident: fd as usize, filter, flags, fflags: 0, data: 0, udata: key }
    }

    /// Whether the record, read as the receipt for a change, reports an error
    /// that fails the operation.
    ///
    /// A receipt reports an error when it carries [`EV_ERROR`] and a code
    /// other than zero. Of these, [`ENOENT`] never fails an operation: the
    /// registration that was to go is not there. Where `pipe_race` is set,
    /// [`EPIPE`] for the write filter does not either: the kernel may find the
    /// peer gone while the registration is being made.
    pub open spec fn refuses(self, pipe_race: bool) -> bool {
        &&& self.flags & EV_ERROR != 0
        &&& self.data != 0
        &&& self.data != ENOENT
        &&& !(pipe_race && self.filter == EVFILT_WRITE && self.data == EPIPE)
    }

    /// Tells whether the record, read as the receipt for a change, reports an
    /// error that fails the operation.
    pub fn is_refusal(&self, pipe_race: bool) -> (r: bool)
        ensures
            r == self.refuses(pipe_race),
    {
        (self.flags & EV_ERROR) != 0 && self.data != 0 && self.data != ENOENT as i64 && !(pipe_race
            && self.filter == EVFILT_WRITE && self.data == EPIPE as i64)
    }

    /// The error that the record reports as a receipt: its `data`, cut to the
    /// width of an error code.
    pub open spec fn reported(self) -> OsError {
        OsError { code: self.data as i32 }
    }

    /// Reads the error that the record reports as a receipt.
    pub fn reported_error(&self) -> (e: OsError)
        ensures
            e == self.reported(),
            i32::MIN <= self.data <= i32::MAX ==> e.code == self.data,
    {
        OsError { code: self.data as i32 }
    }
}

/// A read record that carries [`EV_EOF`] is reported as readable and as
/// writable, under the key that the registration was made with, whether or
/// not anyone asked for writability.
pub proof fn lemma_half_closed(record: KEvent)
    requires
        record.filter == EVFILT_READ,
        record.flags & EV_EOF != 0,
    ensures
        record.event() == (Event { key: record.udata, readable: true, writable: true }),
{
}

/// A record is reported as readable exactly if it is a read record, and as
/// writable without being readable exactly if it is a write record.
pub proof fn lemma_event_of_filter(record: KEvent)
    ensures
        record.event().key == record.udata,
        record.event().readable <==> record.filter == EVFILT_READ,
        record.event().writable && !record.event().readable <==> record.filter == EVFILT_WRITE,
        record.filter != EVFILT_READ && record.filter != EVFILT_WRITE ==> !record.event().readable
            && !record.event().writable,
{
}

/// The error of the first receipt that fails the operation, if any does.
pub open spec fn first_refusal(receipts: Seq<KEvent>, pipe_race: bool) -> Option<OsError>
    decreases receipts.len(),
{
    if receipts.len() == 0 {
        None
    } else if receipts.first().refuses(pipe_race) {
        Some(receipts.first().reported())
    } else {
        first_refusal(receipts.drop_first(), pipe_race)
    }
}

/// The outcome of a batch of changes, given the receipts for it: the error of
/// the first receipt that fails the operation, or success.
pub open spec fn verdict(receipts: Seq<KEvent>, pipe_race: bool) -> Result<(), OsError> {
    match first_refusal(receipts, pipe_race) {
        Some(e) => Err(e),
        None => Ok(()),
    }
}

/// A batch fails exactly if one of its receipts does, and then with the error
/// of the first such receipt.
pub proof fn lemma_first_refusal(receipts: Seq<KEvent>, pipe_race: bool)
    ensures
        first_refusal(receipts, pipe_race) is None <==> forall|i: int|
            0 <= i < receipts.len() ==> !(#[trigger] receipts[i]).refuses(pipe_race),
        first_refusal(receipts, pipe_race) matches Some(e) ==> exists|i: int|
            {
                &&& 0 <= i < receipts.len()
                &&& (#[trigger] receipts[i]).refuses(pipe_race)
                &&& e == receipts[i].reported()
                &&& forall|j: int| 0 <= j < i ==> !(#[trigger] receipts[j]).refuses(pipe_race)
            },
    decreases receipts.len(),
{
    if receipts.len() > 0 {
        let rest = receipts.drop_first();
        lemma_first_refusal(rest, pipe_race);
        assert(forall|i: int| 0 <= i < rest.len() ==> rest[i] == receipts[i + 1]);
        if receipts.first().refuses(pipe_race) {
            assert(receipts[0].refuses(pipe_race));
        } else if first_refusal(rest, pipe_race) is None {
            assert forall|i: int| 0 <= i < receipts.len() implies !(#[trigger] receipts[i]).refuses(
                pipe_race,
            ) by {
                if i > 0 {
                    assert(rest[i - 1] == receipts[i]);
                }
            }
        } else {
            let k = choose|k: int|
                {
                    &&& 0 <= k < rest.len()
                    &&& (#[trigger] rest[k]).refuses(pipe_race)
                    &&& first_refusal(rest, pipe_race) == Some(rest[k].reported())
                    &&& forall|j: int| 0 <= j < k ==> !(#[trigger] rest[j]).refuses(pipe_race)
                };
            assert(receipts[k + 1] == rest[k]);
            assert forall|j: int| 0 <= j < k + 1 implies !(#[trigger] receipts[j]).refuses(
                pipe_race,
            ) by {
                if j > 0 {
                    assert(rest[j - 1] == receipts[j]);
                }
            }
            assert(receipts[k + 1].refuses(pipe_race));
        }
    }
}

/// Goes through the receipts for a batch of changes, in order, and gives the
/// outcome of the batch.
pub fn check_receipts(receipts: &Vec<KEvent>, pipe_race: bool) -> (r: Result<(), OsError>)
    ensures
        r == verdict(receipts@, pipe_race),
{
    let mut i: usize = 0;
    proof {
        assert(receipts@.skip(0) =~= receipts@);
    }
    while i < receipts.len()
        invariant
            i <= receipts.len(),
            first_refusal(receipts@, pipe_race) == first_refusal(
                receipts@.skip(i as int),
                pipe_race,
            ),
        decreases receipts.len() - i,
    {
        let receipt = &receipts[i];
        proof {
            let rest = receipts@.skip(i as int);
            assert(rest.first() == receipts@[i as int]);
            assert(rest.drop_first() =~= receipts@.skip(i + 1));
        }
        if receipt.is_refusal(pipe_race) {
            return Err(receipt.reported_error());
        }
        i += 1;
    }
    proof {
        assert(receipts@.skip(i as int).len() == 0);
    }
    Ok(())
}

} // verus!
