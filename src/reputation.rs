use vstd::prelude::*;

verus! {

/// A reputation score. Higher is better.
pub type Reputation = i32;

/// The smallest step of a reputation change; negative, so that a positive multiple is a
/// penalty.
pub const REPUTATION_UNIT: i32 = -1024;

/// Reputation of a peer that has no history yet.
pub const DEFAULT_REPUTATION: Reputation = 0;

/// Reputation below which a peer counts as banned.
pub const BANNED_REPUTATION: i32 = -51200;

/// Whether a score lies below the ban threshold.
pub open spec fn spec_is_banned_reputation(reputation: int) -> bool {
    reputation < BANNED_REPUTATION as int
}

/// Returns `true` if the given reputation is below the ban threshold.
pub fn is_banned_reputation(reputation: i32) -> (r: bool)
    ensures
        r == spec_is_banned_reputation(reputation as int),
{
    reputation < BANNED_REPUTATION
}

/// The sum of two scores, held to the range of `i32`.
pub open spec fn saturating_sum(a: int, b: int) -> int {
    if a + b > i32::MAX as int {
        i32::MAX as int
    } else if a + b < i32::MIN as int {
        i32::MIN as int
    } else {
        a + b
    }
}

/// Adds a change to a score, held to the range of `i32` instead of wrapping.
pub fn saturating_sum_i32(a: i32, b: i32) -> (r: i32)
    ensures
        r == saturating_sum(a as int, b as int),
{
    let sum = a as i64 + b as i64;
    if sum > i32::MAX as i64 {
        i32::MAX
    } else if sum < i32::MIN as i64 {
        i32::MIN
    } else {
        sum as i32
    }
}

/// What the caller has to do after a reputation change.
#[derive(Debug, Clone, Copy, PartialEq, Eq, Structural)]
pub enum ReputationChangeOutcome {
    /// Nothing to do.
    NoAction,
    /// The peer crossed the threshold and is not connected: record the ban.
    Ban,
    /// The peer crossed back to or above the threshold: lift the ban.
    Unban,
    /// The peer is connected and below the threshold: drop the session and record the ban.
    DisconnectAndBan,
}

/// The signals that change a peer's reputation.
#[derive(Debug, Clone, Copy, PartialEq, Eq, Structural)]
pub enum ReputationChangeKind {
    /// The peer sent a bad message.
    BadMessage,
    /// The peer sent a bad block.
    BadBlock,
    /// The peer sent bad transactions.
    BadTransactions,
    /// The peer sent a transaction that it had sent before.
    AlreadySeenTransaction,
    /// A dial to the peer failed.
    FailedToConnect,
    /// The peer dropped the connection.
    Dropped,
    /// The peer did not answer in time.
    Timeout,
    /// The peer broke the protocol.
    BadProtocol,
    /// The peer announced something invalid.
    BadAnnouncement,
    /// Reset the reputation to the default.
    Reset,
    /// A change of the given size.
    Other(Reputation),
}

impl ReputationChangeKind {
    /// Whether this signal resets the score.
    pub fn is_reset(&self) -> (r: bool)
        ensures
            r == (*self is Reset),
    {
        matches!(self, ReputationChangeKind::Reset)
    }
}

/// A signed change of a reputation score.
#[derive(Debug, Clone, Copy, PartialEq, Eq, Structural)]
pub struct ReputationChange(pub Reputation);

impl ReputationChange {
    /// The size of the change.
    pub fn as_i32(self) -> (r: i32)
        ensures
            r == self.0,
    {
        self.0
    }
}

/// The configured penalty of each signal.
#[derive(Debug, Clone, Copy, PartialEq, Eq, Structural)]
pub struct ReputationChangeWeights {
    /// Weight of [`ReputationChangeKind::BadMessage`].
    pub bad_message: Reputation,
    /// Weight of [`ReputationChangeKind::BadBlock`].
    pub bad_block: Reputation,
    /// Weight of [`ReputationChangeKind::BadTransactions`].
    pub bad_transactions: Reputation,
    /// Weight of [`ReputationChangeKind::AlreadySeenTransaction`].
    pub already_seen_transactions: Reputation,
    /// Weight of [`ReputationChangeKind::Timeout`].
    pub timeout: Reputation,
    /// Weight of [`ReputationChangeKind::BadProtocol`].
    pub bad_protocol: Reputation,
    /// Weight of [`ReputationChangeKind::FailedToConnect`].
    pub failed_to_connect: Reputation,
    /// Weight of [`ReputationChangeKind::Dropped`].
    pub dropped: Reputation,
    /// Weight of [`ReputationChangeKind::BadAnnouncement`].
    pub bad_announcement: Reputation,
}

impl ReputationChangeWeights {
    /// The change that a signal stands for under these weights.
    pub open spec fn spec_change(&self, kind: ReputationChangeKind) -> Reputation {
        match kind {
            ReputationChangeKind::BadMessage => self.bad_message,
            ReputationChangeKind::BadBlock => self.bad_block,
            ReputationChangeKind::BadTransactions => self.bad_transactions,
            ReputationChangeKind::AlreadySeenTransaction => self.already_seen_transactions,
            ReputationChangeKind::FailedToConnect => self.failed_to_connect,
            ReputationChangeKind::Dropped => self.dropped,
            ReputationChangeKind::Timeout => self.timeout,
            ReputationChangeKind::BadProtocol => self.bad_protocol,
            ReputationChangeKind::BadAnnouncement => self.bad_announcement,
            ReputationChangeKind::Reset => DEFAULT_REPUTATION,
            ReputationChangeKind::Other(v) => v,
        }
    }

    /// Returns the reputation change for the given signal.
    pub fn change(&self, kind: ReputationChangeKind) -> (r: ReputationChange)
        ensures
            r.0 == self.spec_change(kind),
    {
        let v = match kind {
            ReputationChangeKind::BadMessage => self.bad_message,
            ReputationChangeKind::BadBlock => self.bad_block,
            ReputationChangeKind::BadTransactions => self.bad_transactions,
            ReputationChangeKind::AlreadySeenTransaction => self.already_seen_transactions,
            ReputationChangeKind::FailedToConnect => self.failed_to_connect,
            ReputationChangeKind::Dropped => self.dropped,
            ReputationChangeKind::Timeout => self.timeout,
            ReputationChangeKind::BadProtocol => self.bad_protocol,
            ReputationChangeKind::BadAnnouncement => self.bad_announcement,
            ReputationChangeKind::Reset => DEFAULT_REPUTATION,
            ReputationChangeKind::Other(v) => v,
        };
        ReputationChange(v)
    }
}

impl Default for ReputationChangeWeights {
    fn default() -> (r: Self)
        ensures
            r.bad_message == 16 * REPUTATION_UNIT,
            r.bad_block == 16 * REPUTATION_UNIT,
            r.bad_transactions == 16 * REPUTATION_UNIT,
            r.already_seen_transactions == 0,
            r.timeout == 4 * REPUTATION_UNIT,
            r.bad_protocol == i32::MIN,
            r.failed_to_connect == 25 * REPUTATION_UNIT,
            r.dropped == 4 * REPUTATION_UNIT,
            r.bad_announcement == REPUTATION_UNIT,
    {
        ReputationChangeWeights {
            bad_message: 16 * REPUTATION_UNIT,
            bad_block: 16 * REPUTATION_UNIT,
            bad_transactions: 16 * REPUTATION_UNIT,
            already_seen_transactions: 0,
            timeout: 4 * REPUTATION_UNIT,
            bad_protocol: i32::MIN,
            failed_to_connect: 25 * REPUTATION_UNIT,
            dropped: 4 * REPUTATION_UNIT,
            bad_announcement: REPUTATION_UNIT,
        }
    }
}

} // verus!
