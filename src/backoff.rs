use vstd::prelude::*;

verus! {

/// How bad a connection failure was.
#[derive(Debug, Clone, Copy, PartialEq, Eq, Structural)]
pub enum BackoffKind {
    /// A failure that is likely transient, such as a single timeout.
    Low,
    /// A failure that may repeat.
    Medium,
    /// A failure that points to a pattern, such as repeated failed handshakes.
    High,
}

impl BackoffKind {
    /// Whether a failure of this kind counts towards the escalation of the exclusion window.
    pub open spec fn spec_is_severe(self) -> bool {
        self is Medium || self is High
    }

    /// Returns `true` for the kinds that escalate the exclusion window.
    pub fn is_severe(&self) -> (r: bool)
        ensures
            r == self.spec_is_severe(),
    {
        matches!(self, BackoffKind::Medium | BackoffKind::High)
    }
}

/// The configured exclusion windows, in seconds.
#[derive(Debug, Clone, Copy, PartialEq, Eq, Structural)]
pub struct PeerBackoffDurations {
    /// Base window after a [`BackoffKind::Low`] failure.
    pub low: u64,
    /// Base window after a [`BackoffKind::Medium`] failure.
    pub medium: u64,
    /// Base window after a [`BackoffKind::High`] failure.
    pub high: u64,
    /// The longest window.
    pub max: u64,
}

impl Default for PeerBackoffDurations {
    fn default() -> (r: Self)
        ensures
            r.low == 30,
            r.medium == 180,
            r.high == 900,
            r.max == 3600,
    {
        PeerBackoffDurations { low: 30, medium: 180, high: 900, max: 3600 }
    }
}

impl PeerBackoffDurations {
    /// The base window of a kind.
    pub open spec fn spec_base(&self, kind: BackoffKind) -> u64 {
        match kind {
            BackoffKind::Low => self.low,
            BackoffKind::Medium => self.medium,
            BackoffKind::High => self.high,
        }
    }

    /// The window after a failure of `kind` on a peer that has failed severely `counter`
    /// times before: the base window once more for each earlier severe failure, at most
    /// `max`.
    pub open spec fn spec_window(&self, kind: BackoffKind, counter: u8) -> int {
        let grown = self.spec_base(kind) as int * (1 + counter as int);
        if grown < self.max as int {
            grown
        } else {
            self.max as int
        }
    }

    /// Returns the base window of a kind.
    pub fn backoff(&self, kind: BackoffKind) -> (r: u64)
        ensures
            r == self.spec_base(kind),
    {
        match kind {
            BackoffKind::Low => self.low,
            BackoffKind::Medium => self.medium,
            BackoffKind::High => self.high,
        }
    }

    /// Returns how many seconds a peer stays excluded after a failure of `kind`, given its
    /// count of earlier severe failures.
    pub fn backoff_window(&self, kind: BackoffKind, counter: u8) -> (r: u64)
        ensures
            r == self.spec_window(kind, counter),
    {
        let base = self.backoff(kind) as u128;
        let factor = 1u128 + counter as u128;
        proof {
            assert(base * factor <= 0xffff_ffff_ffff_ffffu128 * 256u128) by (nonlinear_arith)
                requires
                    base <= 0xffff_ffff_ffff_ffffu128,
                    factor <= 256,
            ;
        }
        let grown = base * factor;
        if grown < self.max as u128 {
            grown as u64
        } else {
            self.max
        }
    }
}

/// More severe failures never shorten the exclusion window.
pub proof fn lemma_window_grows_with_counter(
    durations: PeerBackoffDurations,
    kind: BackoffKind,
    fewer: u8,
    more: u8,
)
    requires
        fewer <= more,
    ensures
        durations.spec_window(kind, fewer) <= durations.spec_window(kind, more),
{
    let base = durations.spec_base(kind) as int;
    assert(base * (1 + fewer as int) <= base * (1 + more as int)) by (nonlinear_arith)
        requires
            base >= 0,
            fewer <= more,
    ;
}

} // verus!
