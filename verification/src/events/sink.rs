//! What every sink shares: its retry policy, its counters, and the verdicts
//! that a delivery can end in.

use vstd::prelude::*;
use crate::metrics::spec_saturating_add;

verus! {

/// How often and how patiently a sink tries again.
#[derive(Debug, Clone, Copy, PartialEq, Eq, Structural)]
pub struct RetryConfig {
    /// Most attempts made for one event, the first included.
    pub max_attempts: u32,
    /// Delay before the second attempt, in seconds.
    pub initial_delay_secs: u64,
    /// Factor by which the delay grows from one attempt to the next.
    pub backoff_multiplier: u32,
    /// Longest delay, in seconds.
    pub max_delay_secs: u64,
}

/// The lesser of two numbers.
pub open spec fn spec_min(a: int, b: int) -> int {
    if a <= b {
        a
    } else {
        b
    }
}

/// `base` to the power `exponent`.
pub open spec fn spec_pow(base: int, exponent: nat) -> int
    decreases exponent,
{
    if exponent == 0 {
        1
    } else {
        base * spec_pow(base, (exponent - 1) as nat)
    }
}

impl RetryConfig {
    /// The policy of a sink that was given none: three attempts, one second
    /// at first, doubled each time, thirty seconds at most.
    pub open spec fn spec_default() -> RetryConfig {
        RetryConfig {
            max_attempts: 3,
            initial_delay_secs: 1,
            backoff_multiplier: 2,
            max_delay_secs: 30,
        }
    }

    /// The policy for deliveries over the network: five attempts, one second
    /// at first, doubled each time, thirty seconds at most.
    pub open spec fn spec_delivery() -> RetryConfig {
        RetryConfig {
            max_attempts: 5,
            initial_delay_secs: 1,
            backoff_multiplier: 2,
            max_delay_secs: 30,
        }
    }

    /// The policy for deliveries over the network: five attempts, one second
    /// at first, doubled each time, thirty seconds at most.
    pub fn delivery() -> (c: Self)
        ensures
            c == Self::spec_delivery(),
    {
        RetryConfig {
            max_attempts: 5,
            initial_delay_secs: 1,
            backoff_multiplier: 2,
            max_delay_secs: 30,
        }
    }

    /// The delay after `retries` failed attempts, in seconds: the initial
    /// delay times the multiplier to the power `retries`, but no more than
    /// the longest delay.
    pub open spec fn spec_delay_secs(self, retries: nat) -> int {
        spec_min(
            self.initial_delay_secs * spec_pow(self.backoff_multiplier as int, retries),
            self.max_delay_secs as int,
        )
    }

    /// The delay that follows the delay `delay`: `delay` times the
    /// multiplier, but no more than the longest delay.
    pub open spec fn spec_next_delay_secs(self, delay: u64) -> int {
        spec_min(delay * self.backoff_multiplier, self.max_delay_secs as int)
    }

    /// The delay that follows the delay `delay`, in seconds.
    pub fn next_delay_secs(&self, delay: u64) -> (next: u64)
        ensures
            next == self.spec_next_delay_secs(delay),
    {
        assert(delay * self.backoff_multiplier <= 0xFFFF_FFFF_FFFF_FFFF * 0xFFFF_FFFF)
            by (nonlinear_arith)
            requires
                0 <= delay <= 0xFFFF_FFFF_FFFF_FFFF,
                0 <= self.backoff_multiplier <= 0xFFFF_FFFF,
        ;
        let grown: u128 = (delay as u128) * (self.backoff_multiplier as u128);
        if grown <= self.max_delay_secs as u128 {
            grown as u64
        } else {
            self.max_delay_secs
        }
    }

    /// The delay after `retries` failed attempts, in seconds.
    pub fn delay_secs(&self, retries: u32) -> (delay: u64)
        ensures
            delay == self.spec_delay_secs(retries as nat),
    {
        if self.initial_delay_secs >= self.max_delay_secs {
            proof {
                lemma_pow_grows(self.backoff_multiplier as int, retries as nat);
                if self.backoff_multiplier == 0 && retries > 0 {
                    assert(self.initial_delay_secs * spec_pow(0, retries as nat) == 0)
                        by (nonlinear_arith)
                        requires
                            spec_pow(0, retries as nat) == 0,
                    ;
                } else {
                    assert(self.initial_delay_secs * spec_pow(
                        self.backoff_multiplier as int,
                        retries as nat,
                    ) >= self.initial_delay_secs) by (nonlinear_arith)
                        requires
                            spec_pow(self.backoff_multiplier as int, retries as nat) >= 1,
                            self.initial_delay_secs >= 0,
                    ;
                }
            }
            if self.backoff_multiplier == 0 && retries > 0 {
                return 0;
            }
            return self.max_delay_secs;
        }
        let mut delay: u64 = self.initial_delay_secs;
        let mut i: u32 = 0;
        proof {
            assert(self.initial_delay_secs * spec_pow(self.backoff_multiplier as int, 0)
                == self.initial_delay_secs) by (nonlinear_arith)
                requires
                    spec_pow(self.backoff_multiplier as int, 0) == 1,
            ;
        }
        while i < retries
            invariant
                i <= retries,
                delay == self.spec_delay_secs(i as nat),
            decreases retries - i,
        {
            let ghost before = delay;
            let ghost exact = self.initial_delay_secs * spec_pow(
                self.backoff_multiplier as int,
                i as nat,
            );
            delay = self.next_delay_secs(delay);
            proof {
                let m = self.backoff_multiplier as int;
                let cap = self.max_delay_secs as int;
                let next_exact = self.initial_delay_secs * spec_pow(m, (i + 1) as nat);
                assert(next_exact == exact * m) by (nonlinear_arith)
                    requires
                        next_exact == self.initial_delay_secs * (m * spec_pow(m, i as nat)),
                        exact == self.initial_delay_secs * spec_pow(m, i as nat),
                ;
                if exact > cap {
                    // The delay stood at the cap; one more factor leaves it there
                    // unless the multiplier is zero.
                    assert(before == cap);
                    if m >= 1 {
                        assert(exact * m >= exact) by (nonlinear_arith)
                            requires
                                m >= 1,
                                exact >= 0,
                        ;
                        assert(cap * m >= cap) by (nonlinear_arith)
                            requires
                                m >= 1,
                                cap >= 0,
                        ;
                    } else {
                        assert(exact * m == 0) by (nonlinear_arith)
                            requires
                                m == 0,
                        ;
                        assert(cap * m == 0) by (nonlinear_arith)
                            requires
                                m == 0,
                        ;
                    }
                }
            }
            i += 1;
        }
        delay
    }

    /// The delay after `retries` failed attempts, in milliseconds, held at
    /// the largest 64-bit number.
    pub open spec fn spec_delay_millis(self, retries: nat) -> int {
        spec_min(self.spec_delay_secs(retries) * 1000, u64::MAX as int)
    }

    /// The delay after `retries` failed attempts, in milliseconds.
    pub fn delay_millis(&self, retries: u32) -> (delay: u64)
        ensures
            delay == self.spec_delay_millis(retries as nat),
    {
        let secs = self.delay_secs(retries);
        if secs > u64::MAX / 1000 {
            u64::MAX
        } else {
            secs * 1000
        }
    }
}

/// A power of a number that is at least one is at least one; a power of zero
/// with an exponent above zero is zero.
pub proof fn lemma_pow_grows(base: int, exponent: nat)
    requires
        base >= 0,
    ensures
        base >= 1 ==> spec_pow(base, exponent) >= 1,
        base == 0 && exponent > 0 ==> spec_pow(base, exponent) == 0,
        spec_pow(base, exponent) >= 0,
    decreases exponent,
{
    if exponent > 0 {
        lemma_pow_grows(base, (exponent - 1) as nat);
        assert(base * spec_pow(base, (exponent - 1) as nat) >= 0) by (nonlinear_arith)
            requires
                base >= 0,
                spec_pow(base, (exponent - 1) as nat) >= 0,
        ;
        if base >= 1 {
            assert(base * spec_pow(base, (exponent - 1) as nat) >= 1) by (nonlinear_arith)
                requires
                    base >= 1,
                    spec_pow(base, (exponent - 1) as nat) >= 1,
            ;
        }
    }
}

impl Default for RetryConfig {
    fn default() -> (c: Self)
        ensures
            c == RetryConfig::spec_default(),
    {
        RetryConfig {
            max_attempts: 3,
            initial_delay_secs: 1,
            backoff_multiplier: 2,
            max_delay_secs: 30,
        }
    }
}

/// With the delivery policy the delays are 1, 2, 4, 8, 16 and then 30
/// seconds, and never more than 30.
pub proof fn lemma_delivery_delays(retries: nat)
    ensures
        RetryConfig::spec_delivery().spec_delay_secs(0) == 1,
        RetryConfig::spec_delivery().spec_delay_secs(1) == 2,
        RetryConfig::spec_delivery().spec_delay_secs(2) == 4,
        RetryConfig::spec_delivery().spec_delay_secs(3) == 8,
        RetryConfig::spec_delivery().spec_delay_secs(4) == 16,
        RetryConfig::spec_delivery().spec_delay_secs(5) == 30,
        RetryConfig::spec_delivery().spec_delay_secs(retries) <= 30,
{
    reveal_with_fuel(spec_pow, 7);
}

/// How one attempt to deliver ended, as far as the retry policy cares.
#[derive(Debug, Clone, Copy, PartialEq, Eq, Structural)]
pub enum AttemptOutcome {
    /// The event was accepted.
    Accepted,
    /// The attempt failed in a way that may pass: a network error, a failure
    /// of the service, too many requests.
    Transient,
    /// The attempt failed in a way that will not pass.
    Permanent,
}

/// What to do after an attempt.
#[derive(Debug, Clone, Copy, PartialEq, Eq, Structural)]
pub enum RetryVerdict {
    /// The event is delivered.
    Done,
    /// Wait for `delay_millis`, then try again.
    Retry { delay_millis: u64 },
    /// Give the event up.
    GiveUp,
}

/// The attempts made for one event so far.
#[derive(Debug, Clone, Copy, PartialEq, Eq, Structural)]
pub struct RetryState {
    /// Attempts made, the failed ones.
    pub attempts: u32,
}

impl RetryState {
    /// No attempt made.
    pub fn new() -> (s: Self)
        ensures
            s.attempts == 0,
    {
        RetryState { attempts: 0 }
    }

    /// The verdict on an attempt that was the `attempts + 1`-th and ended in
    /// `outcome`: an accepted event is done; a permanent failure is given up;
    /// a transient failure is tried again after the delay of the policy,
    /// unless it was the last attempt that the policy allows.
    pub open spec fn spec_verdict(self, config: RetryConfig, outcome: AttemptOutcome) -> RetryVerdict {
        match outcome {
            AttemptOutcome::Accepted => RetryVerdict::Done,
            AttemptOutcome::Permanent => RetryVerdict::GiveUp,
            AttemptOutcome::Transient => if self.attempts + 1 >= config.max_attempts {
                RetryVerdict::GiveUp
            } else {
                RetryVerdict::Retry {
                    delay_millis: config.spec_delay_millis(self.attempts as nat) as u64,
                }
            },
        }
    }

    /// Takes the outcome of an attempt and gives the verdict. A failed
    /// attempt is counted.
    pub fn record(&mut self, config: &RetryConfig, outcome: AttemptOutcome) -> (verdict:
        RetryVerdict)
        ensures
            verdict == old(self).spec_verdict(*config, outcome),
            final(self).attempts == (if outcome == AttemptOutcome::Accepted {
                old(self).attempts
            } else {
                spec_saturating_count(old(self).attempts)
            }),
    {
        match outcome {
            AttemptOutcome::Accepted => RetryVerdict::Done,
            AttemptOutcome::Permanent => {
                self.count();
                RetryVerdict::GiveUp
            },
            AttemptOutcome::Transient => {
                let made = self.attempts;
                self.count();
                if made >= config.max_attempts || made + 1 >= config.max_attempts {
                    RetryVerdict::GiveUp
                } else {
                    RetryVerdict::Retry { delay_millis: config.delay_millis(made) }
                }
            },
        }
    }

    /// Counts an attempt.
    fn count(&mut self)
        ensures
            final(self).attempts == spec_saturating_count(old(self).attempts),
    {
        if self.attempts < u32::MAX {
            self.attempts = self.attempts + 1;
        }
    }
}

/// `n + 1`, held at the largest 32-bit number.
pub open spec fn spec_saturating_count(n: u32) -> u32 {
    if n == u32::MAX {
        n
    } else {
        (n + 1) as u32
    }
}

/// A sink never makes more attempts than its policy allows: a verdict to try
/// again is only given while fewer attempts were made than the policy's
/// most, and the delay it names is no longer than the policy's longest.
pub proof fn lemma_retries_are_bounded(state: RetryState, config: RetryConfig, outcome: AttemptOutcome)
    ensures
        state.spec_verdict(config, outcome) matches RetryVerdict::Retry { delay_millis } ==> {
            &&& state.attempts + 1 < config.max_attempts
            &&& outcome == AttemptOutcome::Transient
            &&& (config.max_delay_secs <= u64::MAX / 1000 ==> delay_millis
                <= config.max_delay_secs * 1000)
        },
{
    lemma_pow_grows(config.backoff_multiplier as int, state.attempts as nat);
    assert(config.initial_delay_secs * spec_pow(
        config.backoff_multiplier as int,
        state.attempts as nat,
    ) >= 0) by (nonlinear_arith)
        requires
            config.initial_delay_secs >= 0,
            spec_pow(config.backoff_multiplier as int, state.attempts as nat) >= 0,
    ;
}

/// Counters of a sink. Times are in seconds since the Unix epoch.
#[derive(Debug, Clone, Copy, PartialEq, Eq, Structural)]
pub struct SinkMetrics {
    pub events_sent: u64,
    pub events_failed: u64,
    pub bytes_sent: u64,
    pub last_success_time: Option<u64>,
    pub last_error_time: Option<u64>,
    pub current_retry_count: u32,
}

impl SinkMetrics {
    /// Counters at zero.
    pub open spec fn spec_default() -> SinkMetrics {
        SinkMetrics {
            events_sent: 0,
            events_failed: 0,
            bytes_sent: 0,
            last_success_time: None,
            last_error_time: None,
            current_retry_count: 0,
        }
    }
}

impl Default for SinkMetrics {
    fn default() -> (m: Self)
        ensures
            m == SinkMetrics::spec_default(),
    {
        SinkMetrics {
            events_sent: 0,
            events_failed: 0,
            bytes_sent: 0,
            last_success_time: None,
            last_error_time: None,
            current_retry_count: 0,
        }
    }
}

/// Settings of a sink: its kind, its parameters by name, whether it is in
/// use, and its retry policy.
#[derive(Debug, Clone)]
pub struct SinkConfig {
    pub sink_type: String,
    pub parameters: Vec<(String, String)>,
    pub enabled: bool,
    pub retry_config: RetryConfig,
}

/// What sinks have in common: settings, counters, and whether the sink was
/// made ready.
#[derive(Debug)]
pub struct BaseEventSink {
    config: SinkConfig,
    metrics: SinkMetrics,
    is_initialized: bool,
}

impl BaseEventSink {
    /// The counters of the sink.
    pub closed spec fn metrics(&self) -> SinkMetrics {
        self.metrics
    }

    /// The retry policy of the sink.
    pub closed spec fn retry_config(&self) -> RetryConfig {
        self.config.retry_config
    }

    /// Whether the sink was made ready.
    pub closed spec fn initialized(&self) -> bool {
        self.is_initialized
    }

    /// A sink with the settings `config`, its counters at zero, not ready
    /// yet.
    pub fn new(config: SinkConfig) -> (s: Self)
        ensures
            s.metrics() == SinkMetrics::spec_default(),
            s.retry_config() == config.retry_config,
            !s.initialized(),
    {
        Self { config, metrics: SinkMetrics::default(), is_initialized: false }
    }

    /// The settings of the sink.
    pub fn config(&self) -> (c: &SinkConfig)
        ensures
            c.retry_config == self.retry_config(),
    {
        &self.config
    }

    /// Counts an event of `bytes_sent` bytes sent at `now`; the retries made
    /// for it are forgotten.
    pub fn record_success(&mut self, bytes_sent: usize, now: u64)
        ensures
            final(self).metrics() == (SinkMetrics {
                events_sent: spec_saturating_add(old(self).metrics().events_sent, 1),
                bytes_sent: spec_saturating_add(old(self).metrics().bytes_sent, bytes_sent as int),
                last_success_time: Some(now),
                current_retry_count: 0,
                ..old(self).metrics()
            }),
            final(self).retry_config() == old(self).retry_config(),
            final(self).initialized() == old(self).initialized(),
    {
        if self.metrics.events_sent < u64::MAX {
            self.metrics.events_sent = self.metrics.events_sent + 1;
        }
        let sent: u64 = if bytes_sent as u128 > u64::MAX as u128 {
            u64::MAX
        } else {
            bytes_sent as u64
        };
        self.metrics.bytes_sent = if self.metrics.bytes_sent > u64::MAX - sent {
            u64::MAX
        } else {
            self.metrics.bytes_sent + sent
        };
        self.metrics.last_success_time = Some(now);
        self.metrics.current_retry_count = 0;
    }

    /// Counts an event that failed at `now`.
    pub fn record_failure(&mut self, now: u64)
        ensures
            final(self).metrics() == (SinkMetrics {
                events_failed: spec_saturating_add(old(self).metrics().events_failed, 1),
                last_error_time: Some(now),
                ..old(self).metrics()
            }),
            final(self).retry_config() == old(self).retry_config(),
            final(self).initialized() == old(self).initialized(),
    {
        if self.metrics.events_failed < u64::MAX {
            self.metrics.events_failed = self.metrics.events_failed + 1;
        }
        self.metrics.last_error_time = Some(now);
    }

    /// Counts a retry.
    pub fn increment_retry(&mut self)
        ensures
            final(self).metrics() == (SinkMetrics {
                current_retry_count: spec_saturating_count(
                    old(self).metrics().current_retry_count,
                ),
                ..old(self).metrics()
            }),
            final(self).retry_config() == old(self).retry_config(),
            final(self).initialized() == old(self).initialized(),
    {
        if self.metrics.current_retry_count < u32::MAX {
            self.metrics.current_retry_count = self.metrics.current_retry_count + 1;
        }
    }

    /// Whether the policy allows another attempt.
    pub fn should_retry(&self) -> (b: bool)
        ensures
            b == (self.metrics().current_retry_count < self.retry_config().max_attempts),
    {
        self.metrics.current_retry_count < self.config.retry_config.max_attempts
    }

    /// The delay before the next attempt, in seconds.
    pub fn get_retry_delay(&self) -> (secs: u64)
        ensures
            secs == self.retry_config().spec_delay_secs(self.metrics().current_retry_count as nat),
    {
        self.config.retry_config.delay_secs(self.metrics.current_retry_count)
    }

    /// Notes whether the sink was made ready.
    pub fn set_initialized(&mut self, initialized: bool)
        ensures
            final(self).initialized() == initialized,
            final(self).metrics() == old(self).metrics(),
            final(self).retry_config() == old(self).retry_config(),
    {
        self.is_initialized = initialized;
    }

    /// Whether the sink was made ready.
    pub fn is_initialized(&self) -> (b: bool)
        ensures
            b == self.initialized(),
    {
        self.is_initialized
    }

    /// The counters of the sink.
    pub fn get_metrics(&self) -> (m: &SinkMetrics)
        ensures
            *m == self.metrics(),
    {
        &self.metrics
    }
}

} // verus!
