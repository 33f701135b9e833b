//! Fleet-wide connection tally.
//!
//! The server increments the counter just before a session is installed and
//! decrements it in exactly one place when a session terminates, so at API
//! boundaries the count always equals the number of live sessions.
use vstd::prelude::*;

verus! {

/// Counts currently live connections.
///
/// The count never goes negative: decrementing demands a positive count,
/// which the session registry guarantees by pairing every decrement with an
/// earlier increment.
#[derive(Debug, Clone, Copy)]
pub struct ConnectionCounter {
    count: u64,
}

impl ConnectionCounter {
    /// The current tally, for use in contracts.
    pub closed spec fn spec_count(&self) -> u64 {
        self.count
    }

    /// A fresh counter starts at zero.
    pub fn new() -> (r: Self)
        ensures
            r.spec_count() == 0,
    {
        ConnectionCounter { count: 0 }
    }

    /// Record one accepted connection.
    pub fn increment(&mut self)
        requires
            old(self).spec_count() < u64::MAX,
        ensures
            final(self).spec_count() == old(self).spec_count() + 1,
    {
        self.count = self.count + 1;
    }

    /// Record one terminated connection.
    pub fn decrement(&mut self)
        requires
            old(self).spec_count() > 0,
        ensures
            final(self).spec_count() == old(self).spec_count() - 1,
    {
        self.count = self.count - 1;
    }

    /// Read the current tally.
    pub fn load(&self) -> (r: u64)
        ensures
            r == self.spec_count(),
    {
        self.count
    }
}

} // verus!
