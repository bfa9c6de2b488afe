//! Counters of a session's traffic and the shutdown flag.

use vstd::prelude::*;

verus! {

/// A session counts as stalled once this many seconds have passed since its
/// last chunk.
pub const RECENT_SECONDS: u64 = 30;

/// Counters of a session: messages handled, bytes received, errors met, and
/// the time of the last chunk in seconds since the Unix epoch.
#[derive(Debug, Clone, Copy, PartialEq, Eq, Structural)]
pub struct MetricsTracker {
    pub messages: u64,
    pub bytes: u64,
    pub errors: u64,
    pub last_msg: Option<u64>,
}

/// `a + b`, held at the largest 64-bit number.
pub open spec fn spec_saturating_add(a: u64, b: int) -> u64 {
    if a + b > u64::MAX {
        u64::MAX
    } else {
        (a + b) as u64
    }
}

/// `n`, or one if `n` is zero.
pub open spec fn spec_at_least_one(n: int) -> int {
    if n == 0 {
        1
    } else {
        n
    }
}

impl MetricsTracker {
    /// Counters at zero.
    pub fn new() -> (m: Self)
        ensures
            m == (MetricsTracker { messages: 0, bytes: 0, errors: 0, last_msg: None }),
    {
        MetricsTracker { messages: 0, bytes: 0, errors: 0, last_msg: None }
    }

    /// Counts a chunk of `len` bytes received at `now`, in seconds since the
    /// Unix epoch. The count stays at its largest value once it is reached.
    pub fn record_bytes(&mut self, len: usize, now: u64)
        ensures
            *final(self) == (MetricsTracker {
                bytes: spec_saturating_add(old(self).bytes, len as int),
                last_msg: Some(now),
                ..*old(self)
            }),
    {
        let len: u64 = if len as u128 > u64::MAX as u128 {
            u64::MAX
        } else {
            len as u64
        };
        self.bytes = if self.bytes > u64::MAX - len {
            u64::MAX
        } else {
            self.bytes + len
        };
        self.last_msg = Some(now);
    }

    /// Counts a message handled.
    pub fn record_message(&mut self)
        ensures
            *final(self) == (MetricsTracker {
                messages: spec_saturating_add(old(self).messages, 1),
                ..*old(self)
            }),
    {
        if self.messages < u64::MAX {
            self.messages = self.messages + 1;
        }
    }

    /// Counts an error.
    pub fn record_error(&mut self)
        ensures
            *final(self) == (MetricsTracker {
                errors: spec_saturating_add(old(self).errors, 1),
                ..*old(self)
            }),
    {
        if self.errors < u64::MAX {
            self.errors = self.errors + 1;
        }
    }

    /// Whether the connection should be looked at: whether the driver had
    /// nothing to hand over `threshold` times in a row or more.
    pub fn should_validate(&self, no_data_cycles: usize, threshold: usize) -> (b: bool)
        ensures
            b == (no_data_cycles >= threshold),
    {
        no_data_cycles >= threshold
    }

    /// Whether the session is healthy at `now`.
    pub open spec fn spec_is_healthy(self, now: u64) -> bool {
        &&& self.last_msg matches Some(last)
        &&& last <= now
        &&& now - last < RECENT_SECONDS
        &&& self.errors * 100 < spec_at_least_one(self.messages + self.errors)
    }

    /// Whether the session is healthy at `now`, in seconds since the Unix
    /// epoch: whether a chunk arrived less than thirty seconds ago, by a
    /// clock that did not run backwards, and fewer than one in a hundred of
    /// the messages met an error.
    pub fn is_healthy(&self, now: u64) -> (healthy: bool)
        ensures
            healthy == self.spec_is_healthy(now),
    {
        let recent = match self.last_msg {
            Some(last) => last <= now && now - last < RECENT_SECONDS,
            None => false,
        };
        let total: u128 = (self.messages as u128) + (self.errors as u128);
        let total: u128 = if total == 0 {
            1
        } else {
            total
        };
        recent && (self.errors as u128) * 100 < total
    }
}

impl Default for MetricsTracker {
    fn default() -> (m: Self)
        ensures
            m == (MetricsTracker { messages: 0, bytes: 0, errors: 0, last_msg: None }),
    {
        MetricsTracker::new()
    }
}

/// Flag that asks a session to stop.
#[derive(Debug, Clone, Copy, PartialEq, Eq, Structural)]
pub struct ShutdownFlag(pub bool);

impl ShutdownFlag {
    /// A flag that is not raised.
    pub fn new() -> (f: Self)
        ensures
            !f.0,
    {
        ShutdownFlag(false)
    }

    /// Raises the flag.
    pub fn request(&mut self)
        ensures
            final(self).0,
    {
        self.0 = true;
    }

    /// Whether the flag is raised.
    pub fn is_requested(&self) -> (b: bool)
        ensures
            b == self.0,
    {
        self.0
    }

    /// Lowers the flag.
    pub fn reset(&mut self)
        ensures
            !final(self).0,
    {
        self.0 = false;
    }
}

impl Default for ShutdownFlag {
    fn default() -> (f: Self)
        ensures
            !f.0,
    {
        ShutdownFlag::new()
    }
}

/// Counters of a session as they are reported.
#[derive(Debug, Clone, Copy, PartialEq, Eq, Structural)]
pub struct ReplicationMetrics {
    pub messages_processed: u64,
    pub bytes_received: u64,
    pub errors_count: u64,
    pub last_message_time: Option<u64>,
    pub connection_attempts: u32,
}

} // verus!
