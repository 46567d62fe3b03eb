//! The buffer that a wait fills with what the kernel reports.

use vstd::prelude::*;
use crate::event::Event;
use crate::kevent::KEvent;

verus! {

/// The number of records that a buffer made by [`Events::new`] has room for.
pub const CAPACITY: usize = 1000;

/// The events that a sequence of records stands for, one for one.
pub open spec fn events_of(records: Seq<KEvent>) -> Seq<Event> {
    Seq::new(records.len(), |i: int| records[i].event())
}

/// A buffer of kernel records with a fixed number of slots, of which the
/// first few are in use: the records of the latest wait.
///
/// Its view is the sequence of events that these records stand for. What the
/// other slots hold is left over from earlier waits and never shown.
pub struct Events {
    list: Vec<KEvent>,
    len: usize,
}

impl View for Events {
    type V = Seq<Event>;

    open spec fn view(&self) -> Seq<Event> {
        events_of(self.records())
    }
}

impl Events {
    #[verifier::type_invariant]
    spec fn inv(&self) -> bool {
        self.len <= self.list.len()
    }

    /// The records in use, as the kernel reported them.
    pub closed spec fn records(&self) -> Seq<KEvent> {
        self.list@.take(self.len as int)
    }

    /// The number of slots.
    pub closed spec fn spec_capacity(&self) -> usize {
        self.list.len()
    }

    /// The number of events in the buffer.
    pub closed spec fn spec_len(&self) -> usize {
        self.len
    }

    /// Creates a buffer of [`CAPACITY`] slots that holds no events.
    pub fn new() -> (events: Events)
        ensures
            events@ == Seq::<Event>::empty(),
            events.records() == Seq::<KEvent>::empty(),
            events.spec_capacity() == CAPACITY,
    {
        let blank = KEvent { ident: 0, filter: 0, flags: 0, fflags: 0, data: 0, udata: 0 };
        let list = vec![blank; CAPACITY];
        let events = Events { list, len: 0 };
        assert(events.records() =~= Seq::<KEvent>::empty());
        assert(events@ =~= Seq::<Event>::empty());
        events
    }

    /// Gives the number of slots: the most that one wait can report.
    #[verifier::when_used_as_spec(spec_capacity)]
    pub fn capacity(&self) -> (n: usize)
        ensures
            n == self.spec_capacity(),
            self@.len() <= n,
    {
        proof {
            use_type_invariant(self);
        }
        self.list.len()
    }

    /// Gives the number of events in the buffer.
    #[verifier::when_used_as_spec(spec_len)]
    pub fn len(&self) -> (n: usize)
        ensures
            n == self.spec_len(),
            n == self@.len(),
            n == self.records().len(),
            n <= self.spec_capacity(),
    {
        proof {
            use_type_invariant(self);
        }
        self.len
    }

    /// Gives the events in the buffer, in the order in which the kernel
    /// reported them.
    pub fn iter(&self) -> (events: Vec<Event>)
        ensures
            events@ == self@,
    {
        proof {
            use_type_invariant(self);
        }
        let mut events: Vec<Event> = Vec::with_capacity(self.len);
        let mut i: usize = 0;
        while i < self.len
            invariant
                i <= self.len <= self.list.len(),
                events@ == events_of(self.list@.take(i as int)),
            decreases self.len - i,
        {
            events.push(self.list[i].to_event());
            i += 1;
        }
        events
    }

    /// Overwrites the buffer with the records of one wait: as many of
    /// `records`, from the first on, as there are slots. Gives their number.
    pub fn refill(&mut self, records: &Vec<KEvent>) -> (n: usize)
        ensures
            final(self).spec_capacity() == old(self).spec_capacity(),
            n == if records.len() <= old(self).spec_capacity() {
                records.len()
            } else {
                old(self).spec_capacity()
            },
            final(self).records() == records@.take(n as int),
            final(self)@ == events_of(records@.take(n as int)),
            final(self).spec_len() == n,
    {
        proof {
            use_type_invariant(&*self);
        }
        let n = if records.len() <= self.list.len() {
            records.len()
        } else {
            self.list.len()
        };
        let mut i: usize = 0;
        while i < n
            invariant
                i <= n <= records.len(),
                n <= self.list.len(),
                self.list.len() == old(self).list.len(),
                self.len <= self.list.len(),
                self.list@.take(i as int) == records@.take(i as int),
            decreases n - i,
        {
            self.list[i] = records[i];
            i += 1;
        }
        self.len = n;
        n
    }
}

} // verus!
