//! Numbers fixed by the kernel's interface: filters, flags and error codes,
//! as macOS, iOS, FreeBSD, OpenBSD and DragonFly BSD define them.
//!
//! NetBSD has the same flags and error codes but numbers its filters
//! otherwise; a driver there puts the kernel's numbers in place of
//! [`EVFILT_READ`] and [`EVFILT_WRITE`], and back.

use vstd::prelude::*;

verus! {

/// Filter of a record that concerns reading.
pub const EVFILT_READ: i16 = -1;

/// Filter of a record that concerns writing.
pub const EVFILT_WRITE: i16 = -2;

/// Flag of a change: add the registration.
pub const EV_ADD: u16 = 0x1;

/// Flag of a change: delete the registration.
pub const EV_DELETE: u16 = 0x2;

/// Flag of a change: the registration lapses once it has been reported.
pub const EV_ONESHOT: u16 = 0x10;

/// Flag of a change: answer with a receipt, whether it succeeded or not.
pub const EV_RECEIPT: u16 = 0x40;

/// Flag of a record: `data` holds an error code.
pub const EV_ERROR: u16 = 0x4000;

/// Flag of a record: the peer has shut down its side.
pub const EV_EOF: u16 = 0x8000;

/// Error code: there is no such registration.
pub const ENOENT: i32 = 2;

/// Error code: the call would have had to block.
pub const EAGAIN: i32 = 35;

/// Error code: the pipe is broken.
pub const EPIPE: i32 = 32;

/// Status flag of a descriptor: calls on it do not block.
pub const O_NONBLOCK: i32 = 0x4;

} // verus!
