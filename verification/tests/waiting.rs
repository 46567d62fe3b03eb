use std::time::Duration;

use kqueue_poller::abi::{EAGAIN, ENOENT, EPIPE, EVFILT_READ, EVFILT_WRITE, EV_EOF, EV_ERROR};
use kqueue_poller::call::{Call, OsError, Reply, Timespec};
use kqueue_poller::changes::Changes;
use kqueue_poller::event::{Event, NOTIFY_KEY};
use kqueue_poller::events::{Events, CAPACITY};
use kqueue_poller::kevent::KEvent;
use kqueue_poller::poller::Poller;
use kqueue_poller::wait::{Wait, DRAIN_CHUNK};

fn poller() -> Poller {
    Poller::new(3, 4, 5).0
}

fn record(filter: i16, flags: u16, key: usize) -> KEvent {
    KEvent { ident: 7, filter, flags, fflags: 0, data: 0, udata: key }
}

fn would_block() -> Reply {
    Reply::Failed(OsError { code: EAGAIN })
}

fn clean_receipts() -> Reply {
    Reply::Records(vec![
        KEvent { ident: 4, filter: EVFILT_READ, flags: EV_ERROR, fflags: 0, data: 0, udata: NOTIFY_KEY },
        KEvent {
            ident: 4,
            filter: EVFILT_WRITE,
            flags: EV_ERROR,
            fflags: 0,
            data: ENOENT as i64,
            udata: NOTIFY_KEY,
        },
    ])
}

/// Drives a whole wait in which the poll brings `records` and a wake-up byte
/// is read `reads` times before the channel has run dry.
fn wait_for(events: &mut Events, records: Vec<KEvent>, reads: usize) -> Result<usize, OsError> {
    let poller = poller();
    let mut wait = poller.wait(events, None);
    assert_eq!(wait.call(), Some(Call::Poll { queue: 3, capacity: CAPACITY, timeout: None }));
    wait = wait.step(Reply::Records(records), events);
    for _ in 0..reads {
        assert_eq!(wait.call(), Some(Call::Read { fd: 4, len: DRAIN_CHUNK }));
        wait = wait.step(Reply::Returned(1), events);
    }
    assert_eq!(wait.call(), Some(Call::Read { fd: 4, len: DRAIN_CHUNK }));
    wait = wait.step(would_block(), events);
    assert_eq!(wait.call(), poller.interest(4, Event::wake()).call());
    assert_eq!(wait.result(), None);
    wait = wait.step(clean_receipts(), events);
    assert_eq!(wait.call(), None);
    wait.result().unwrap()
}

#[test]
fn a_new_buffer_is_empty_and_has_a_thousand_slots() {
    let events = Events::new();
    assert_eq!(CAPACITY, 1000);
    assert_eq!(events.capacity(), 1000);
    assert_eq!(events.len(), 0);
    assert_eq!(events.iter(), Vec::new());
}

#[test]
fn readiness_after_registration() {
    let mut events = Events::new();
    let got = wait_for(&mut events, vec![record(EVFILT_READ, 0, 42)], 0);
    assert_eq!(got, Ok(1));
    assert_eq!(events.len(), 1);
    assert_eq!(events.iter(), vec![Event { key: 42, readable: true, writable: false }]);
}

#[test]
fn a_write_record_is_writable_only() {
    let mut events = Events::new();
    assert_eq!(wait_for(&mut events, vec![record(EVFILT_WRITE, EV_EOF, 42)], 0), Ok(1));
    assert_eq!(events.iter(), vec![Event { key: 42, readable: false, writable: true }]);
}

#[test]
fn a_record_of_another_filter_is_neither() {
    assert_eq!(
        record(-7, EV_EOF, 42).to_event(),
        Event { key: 42, readable: false, writable: false }
    );
}

#[test]
fn one_shot_consumption() {
    let mut events = Events::new();
    assert_eq!(wait_for(&mut events, vec![record(EVFILT_READ, 0, 42)], 0), Ok(1));
    assert_eq!(events.iter().len(), 1);
    assert_eq!(wait_for(&mut events, Vec::new(), 0), Ok(0));
    assert_eq!(events.len(), 0);
    assert_eq!(events.iter(), Vec::new());
}

#[test]
fn timeout_with_no_activity() {
    let poller = poller();
    let mut events = Events::new();
    let mut wait = poller.wait(&events, Some(Duration::from_millis(100)));
    let timeout = Some(Timespec { tv_sec: 0, tv_nsec: 100_000_000 });
    assert_eq!(wait, Wait::Polling { poller, capacity: 1000, timeout });
    assert_eq!(wait.call(), Some(Call::Poll { queue: 3, capacity: 1000, timeout }));
    wait = wait.step(Reply::Records(Vec::new()), &mut events);
    wait = wait.step(would_block(), &mut events);
    wait = wait.step(clean_receipts(), &mut events);
    assert_eq!(wait.result(), Some(Ok(0)));
    assert_eq!(events.iter(), Vec::new());
}

#[test]
fn a_duration_is_split_into_seconds_and_nanoseconds() {
    let poller = poller();
    let events = Events::new();
    let wait = poller.wait(&events, Some(Duration::new(1, 500_000_000)));
    let timeout = Some(Timespec { tv_sec: 1, tv_nsec: 500_000_000 });
    assert_eq!(wait, Wait::Polling { poller, capacity: 1000, timeout });
    let wait = poller.wait(&events, Some(Duration::new(86_400, 7)));
    let timeout = Some(Timespec { tv_sec: 86_400, tv_nsec: 7 });
    assert_eq!(wait, Wait::Polling { poller, capacity: 1000, timeout });
    let wait = poller.wait(&events, Some(Duration::from_secs(0)));
    let timeout = Some(Timespec { tv_sec: 0, tv_nsec: 0 });
    assert_eq!(wait, Wait::Polling { poller, capacity: 1000, timeout });
    assert_eq!(poller.wait(&events, None), poller.wait_within(&events, None));
}

#[test]
fn a_bound_is_made_of_its_parts() {
    assert_eq!(Timespec::from_parts(3, 999_999_999), Timespec { tv_sec: 3, tv_nsec: 999_999_999 });
    assert_eq!(Timespec::from_parts(u64::MAX, 0), Timespec { tv_sec: -1, tv_nsec: 0 });
    assert_eq!(
        Timespec::from_parts(1 << 63, u32::MAX),
        Timespec { tv_sec: i64::MIN, tv_nsec: 4_294_967_295 }
    );
    let poller = poller();
    let events = Events::new();
    let bound = Some(Timespec { tv_sec: 2, tv_nsec: 5 });
    assert_eq!(
        poller.wait_within(&events, bound).call(),
        Some(Call::Poll { queue: 3, capacity: 1000, timeout: bound })
    );
}

#[test]
fn cross_thread_wake() {
    let mut events = Events::new();
    let got = wait_for(&mut events, vec![record(EVFILT_READ, 0, NOTIFY_KEY)], 2);
    assert_eq!(got, Ok(1));
    let reported = events.iter();
    assert!(reported.iter().any(|ev| ev.key == usize::MAX));
    assert_eq!(reported, vec![Event { key: NOTIFY_KEY, readable: true, writable: false }]);
}

#[test]
fn the_wake_channel_is_registered_again_after_every_wait() {
    let poller = poller();
    let mut events = Events::new();
    let mut wait = poller.wait(&events, None);
    wait = wait.step(Reply::Records(Vec::new()), &mut events);
    assert_eq!(wait, Wait::Draining { poller, count: 0 });
    wait = wait.step(would_block(), &mut events);
    assert_eq!(wait, Wait::Rearming { poller, count: 0 });
    let op = poller.interest(4, Event { key: NOTIFY_KEY, readable: true, writable: false });
    assert_eq!(wait.call(), op.call());
    let expected = Changes {
        read: KEvent { ident: 4, filter: -1, flags: 0x51, fflags: 0, data: 0, udata: usize::MAX },
        write: KEvent { ident: 4, filter: -2, flags: 0x52, fflags: 0, data: 0, udata: usize::MAX },
    };
    assert_eq!(wait.call(), Some(Call::Submit { queue: 3, changes: expected }));
    assert_eq!(wait.result(), None);
}

#[test]
fn half_closed_detection() {
    let mut events = Events::new();
    assert_eq!(wait_for(&mut events, vec![record(EVFILT_READ, EV_EOF, 42)], 0), Ok(1));
    assert_eq!(events.iter(), vec![Event { key: 42, readable: true, writable: true }]);
    assert_eq!(
        record(EVFILT_READ, EV_EOF | 0x11, 9).to_event(),
        Event { key: 9, readable: true, writable: true }
    );
}

#[test]
fn round_trip_capacity() {
    let mut events = Events::new();
    let records: Vec<KEvent> = (0..CAPACITY).map(|key| record(EVFILT_READ, 0, key)).collect();
    assert_eq!(wait_for(&mut events, records, 0), Ok(1000));
    let reported = events.iter();
    assert_eq!(reported.len(), 1000);
    for (key, ev) in reported.iter().enumerate() {
        assert_eq!(*ev, Event { key, readable: true, writable: false });
    }
    assert_eq!(wait_for(&mut events, vec![record(EVFILT_WRITE, 0, 5)], 0), Ok(1));
    assert_eq!(events.iter(), vec![Event { key: 5, readable: false, writable: true }]);
}

#[test]
fn records_beyond_the_capacity_are_left_out() {
    let mut events = Events::new();
    let records: Vec<KEvent> = (0..CAPACITY + 3).map(|key| record(EVFILT_WRITE, 0, key)).collect();
    assert_eq!(wait_for(&mut events, records, 0), Ok(1000));
    assert_eq!(events.len(), 1000);
    assert_eq!(events.capacity(), 1000);
    let reported = events.iter();
    assert_eq!(reported.len(), 1000);
    assert_eq!(reported[999], Event { key: 999, readable: false, writable: true });
}

#[test]
fn refill_overwrites_what_was_there() {
    let mut events = Events::new();
    let first = vec![record(EVFILT_READ, 0, 1), record(EVFILT_READ, 0, 2), record(EVFILT_READ, 0, 3)];
    assert_eq!(events.refill(&first), 3);
    assert_eq!(events.len(), 3);
    assert_eq!(events.refill(&vec![record(EVFILT_WRITE, 0, 9)]), 1);
    assert_eq!(events.iter(), vec![Event { key: 9, readable: false, writable: true }]);
    assert_eq!(events.refill(&Vec::new()), 0);
    assert_eq!(events.iter(), Vec::new());
    assert_eq!(events.capacity(), 1000);
}

#[test]
fn a_failed_poll_fails_the_wait_and_leaves_the_buffer_alone() {
    let poller = poller();
    let mut events = Events::new();
    assert_eq!(wait_for(&mut events, vec![record(EVFILT_READ, 0, 42)], 0), Ok(1));
    let wait = poller.wait(&events, None).step(Reply::Failed(OsError { code: 4 }), &mut events);
    assert_eq!(wait, Wait::Done(Err(OsError { code: 4 })));
    assert_eq!(wait.call(), None);
    assert_eq!(wait.result(), Some(Err(OsError { code: 4 })));
    assert_eq!(events.iter(), vec![Event { key: 42, readable: true, writable: false }]);
}

#[test]
fn the_wake_channel_is_read_until_it_would_block() {
    let poller = poller();
    let mut events = Events::new();
    let mut wait = poller.wait(&events, None).step(Reply::Records(Vec::new()), &mut events);
    for _ in 0..5 {
        wait = wait.step(Reply::Returned(64), &mut events);
        assert_eq!(wait, Wait::Draining { poller, count: 0 });
        assert_eq!(wait.call(), Some(Call::Read { fd: 4, len: 64 }));
    }
    wait = wait.step(would_block(), &mut events);
    assert!(matches!(wait, Wait::Rearming { count: 0, .. }));
}

#[test]
fn a_read_that_fails_otherwise_fails_the_wait() {
    let poller = poller();
    let mut events = Events::new();
    let mut wait = poller.wait(&events, None);
    wait = wait.step(Reply::Records(vec![record(EVFILT_READ, 0, 42)]), &mut events);
    wait = wait.step(Reply::Failed(OsError { code: 9 }), &mut events);
    assert_eq!(wait, Wait::Done(Err(OsError { code: 9 })));
    assert_eq!(events.len(), 1);
}

#[test]
fn a_failed_registration_fails_the_wait() {
    let poller = poller();
    let mut events = Events::new();
    let mut wait = poller.wait(&events, None);
    wait = wait.step(Reply::Records(vec![record(EVFILT_READ, 0, 42)]), &mut events);
    wait = wait.step(would_block(), &mut events);
    let refused = KEvent {
        ident: 4,
        filter: EVFILT_READ,
        flags: EV_ERROR,
        fflags: 0,
        data: 9,
        udata: NOTIFY_KEY,
    };
    let failed = wait.step(Reply::Records(vec![refused]), &mut events);
    assert_eq!(failed, Wait::Done(Err(OsError { code: 9 })));
    let failed = wait.step(Reply::Failed(OsError { code: 12 }), &mut events);
    assert_eq!(failed, Wait::Done(Err(OsError { code: 12 })));
    assert_eq!(events.iter(), vec![Event { key: 42, readable: true, writable: false }]);
}

#[test]
fn a_registration_with_a_broken_pipe_under_the_write_filter_does_not_fail_the_wait() {
    let poller = poller();
    let mut events = Events::new();
    let mut wait = poller.wait(&events, None);
    wait = wait.step(Reply::Records(vec![record(EVFILT_READ, 0, 42)]), &mut events);
    wait = wait.step(would_block(), &mut events);
    let receipt = KEvent {
        ident: 4,
        filter: EVFILT_WRITE,
        flags: EV_ERROR,
        fflags: 0,
        data: EPIPE as i64,
        udata: NOTIFY_KEY,
    };
    assert_eq!(wait.step(Reply::Records(vec![receipt]), &mut events), Wait::Done(Ok(1)));
}

#[test]
fn a_wait_that_is_over_stays_over() {
    let mut events = Events::new();
    let done = Wait::Done(Ok(3));
    assert_eq!(done.step(Reply::Records(vec![record(EVFILT_READ, 0, 1)]), &mut events), done);
    assert_eq!(events.len(), 0);
    assert_eq!(done.result(), Some(Ok(3)));
}

#[test]
fn a_poll_answered_without_records_reports_none() {
    let poller = poller();
    let mut events = Events::new();
    assert_eq!(events.refill(&vec![record(EVFILT_READ, 0, 1)]), 1);
    let wait = poller.wait(&events, None).step(Reply::Returned(0), &mut events);
    assert_eq!(wait, Wait::Draining { poller, count: 0 });
    assert_eq!(events.len(), 0);
}
