//! The decisions of a readiness poller over a BSD kernel event queue, kept
//! apart from the system calls that carry them out.
//!
//! Nothing here touches the kernel. Every operation of a [`Poller`] is a small
//! state machine: it names the next system call as a [`Call`], the driver makes
//! that call and hands back what the kernel said as a [`Reply`], and the
//! machine moves on until it is done. What is registered, which kernel errors
//! are tolerated, what a wait reports and how raw kernel records become
//! [`Event`]s is decided, and proved, here.

pub mod abi;
pub mod call;
pub mod changes;
pub mod event;
pub mod events;
pub mod kevent;
pub mod op;
pub mod poller;
pub mod time;
pub mod wait;

pub use call::{Call, OsError, Reply, Timespec};
pub use changes::Changes;
pub use event::{Event, NOTIFY_KEY};
pub use events::Events;
pub use kevent::KEvent;
pub use op::Op;
pub use poller::Poller;
pub use wait::Wait;
