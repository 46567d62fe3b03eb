//! Readiness events as callers see them.

use vstd::prelude::*;

verus! {

/// The key under which a wake-up is reported.
///
/// It is reserved: callers must not register a descriptor under it.
pub const NOTIFY_KEY: usize = usize::MAX;

/// Interest in, or readiness of, one registered descriptor.
#[derive(Clone, Copy, Debug, PartialEq, Eq)]
pub struct Event {
    /// The key chosen by the caller when the descriptor was registered.
    pub key: usize,
    /// The descriptor can be read from.
    pub readable: bool,
    /// The descriptor can be written to.
    pub writable: bool,
}

impl Event {
    /// Interest in reading, and in nothing else, under [`NOTIFY_KEY`]: what
    /// the read side of the wake channel is registered with.
    pub open spec fn spec_wake() -> Event {
        Event { key: NOTIFY_KEY, readable: true, writable: false }
    }

    /// Gives the interest that the read side of the wake channel is
    /// registered with.
    #[verifier::when_used_as_spec(spec_wake)]
    pub fn wake() -> (ev: Event)
        ensures
            ev == Self::spec_wake(),
    {
        Event { key: NOTIFY_KEY, readable: true, writable: false }
    }
}

} // verus!
