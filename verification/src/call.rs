//! What passes between the poller's decisions and the driver that talks to
//! the kernel: system calls one way, their outcomes the other.

use vstd::prelude::*;
use crate::changes::Changes;
use crate::kevent::KEvent;

verus! {

/// An error of the operating system, known by its raw code.
#[derive(Clone, Copy, Debug, PartialEq, Eq)]
pub struct OsError {
    /// The raw error code.
    pub code: i32,
}

/// A bound on how long a wait may block.
#[derive(Clone, Copy, Debug, PartialEq, Eq)]
pub struct Timespec {
    /// Whole seconds.
    pub tv_sec: i64,
    /// Nanoseconds on top of the seconds.
    pub tv_nsec: i64,
}

impl Timespec {
    /// The bound of `secs` seconds and `nanos` nanoseconds.
    ///
    /// A count of seconds above `i64::MAX` wraps around, as a cast does.
    pub open spec fn spec_from_parts(secs: u64, nanos: u32) -> Timespec {
        Timespec { tv_sec: secs as i64, tv_nsec: nanos as i64 }
    }

    /// Builds the bound of `secs` seconds and `nanos` nanoseconds.
    #[verifier::when_used_as_spec(spec_from_parts)]
    pub fn from_parts(secs: u64, nanos: u32) -> (t: Timespec)
        ensures
            t == Self::spec_from_parts(secs, nanos),
            secs <= i64::MAX ==> t.tv_sec == secs,
            t.tv_nsec == nanos,
    {
        Timespec { tv_sec: secs as i64, tv_nsec: nanos as i64 }
    }
}

/// One system call that the driver makes on behalf of an operation.
#[derive(Clone, Copy, Debug, PartialEq, Eq)]
pub enum Call {
    /// Hand both `changes` to event queue `queue` as one batch, with room for
    /// a receipt for each and without waiting. The reply holds the event list
    /// that the kernel left.
    Submit { queue: i32, changes: Changes },
    /// Wait on event queue `queue`, with no changes, for at most `capacity`
    /// records and no longer than `timeout` (forever if there is none). The
    /// reply holds the records that the kernel filled in.
    Poll { queue: i32, capacity: usize, timeout: Option<Timespec> },
    /// Read up to `len` bytes from descriptor `fd`, without blocking, and
    /// throw them away.
    Read { fd: i32, len: usize },
    /// Write one byte to descriptor `fd`, without blocking.
    Write { fd: i32 },
    /// Fetch the status flags of descriptor `fd`. The reply holds them.
    GetFlags { fd: i32 },
    /// Set the status flags of descriptor `fd` to `flags`.
    SetFlags { fd: i32, flags: i32 },
    /// Close descriptor `fd`.
    Close { fd: i32 },
}

/// What the kernel said to one [`Call`].
///
/// Every reply can be read as an answer to every call, through [`Reply::error`],
/// [`Reply::value`] and [`Reply::records`], so no operation is ever stuck with
/// a reply of the wrong shape.
#[derive(Debug, PartialEq, Eq)]
pub enum Reply {
    /// The call failed with this error.
    Failed(OsError),
    /// The call succeeded and returned this number.
    Returned(i32),
    /// The call succeeded and left these records in the event list.
    Records(Vec<KEvent>),
}

impl Reply {
    /// Reads the return value of a system call: the call has failed if it
    /// returned -1, and then `errno` is the error code that the kernel has
    /// left behind; any other value is what the call has to say.
    pub fn from_return(res: i32, errno: i32) -> (reply: Reply)
        ensures
            res == -1 ==> reply == Reply::Failed(OsError { code: errno }),
            res != -1 ==> reply == Reply::Returned(res),
    {
        if res == -1 {
            Reply::Failed(OsError { code: errno })
        } else {
            Reply::Returned(res)
        }
    }

    /// Reads the return value of a system call that works on an event list:
    /// the call has failed if it returned -1, and then `errno` is the error
    /// code that the kernel has left behind; if not, `list` holds the records
    /// that the call has left.
    pub fn from_records(res: i32, errno: i32, list: Vec<KEvent>) -> (reply: Reply)
        ensures
            res == -1 ==> reply == Reply::Failed(OsError { code: errno }),
            res != -1 ==> reply == Reply::Records(list),
    {
        if res == -1 {
            Reply::Failed(OsError { code: errno })
        } else {
            Reply::Records(list)
        }
    }

    /// The error with which the call failed, if it did.
    pub open spec fn error(&self) -> Option<OsError> {
        match self {
            Reply::Failed(e) => Some(*e),
            _ => None,
        }
    }

    /// The number that the call returned; 0 where it returned none.
    pub open spec fn value(&self) -> i32 {
        match self {
            Reply::Returned(v) => *v,
            _ => 0,
        }
    }

    /// The records that the call left; none where it left none.
    pub open spec fn records(&self) -> Seq<KEvent> {
        match self {
            Reply::Records(list) => list@,
            _ => Seq::empty(),
        }
    }
}

} // verus!
