use vstd::prelude::*;

use alloy_eip2124::ForkId;

use crate::addr::PeerAddr;
use crate::backoff::BackoffKind;
use crate::kind::PeerKind;
use crate::reputation::{
    is_banned_reputation, saturating_sum, saturating_sum_i32, spec_is_banned_reputation, ReputationChangeKind,
    ReputationChangeOutcome, DEFAULT_REPUTATION,
};
use crate::state::PeerConnectionState;

verus! {

/// Tracks info about a single peer.
#[derive(Debug, Clone)]
pub struct Peer {
    /// Where to reach the peer.
    pub addr: PeerAddr,
    /// Reputation of the peer.
    pub reputation: i32,
    /// The state of the connection, if any.
    pub state: PeerConnectionState,
    /// The [`ForkId`] that the peer announced via discovery.
    pub fork_id: Option<Box<ForkId>>,
    /// Whether the entry should be removed after an existing session was terminated.
    pub remove_after_disconnect: bool,
    /// The kind of peer.
    pub kind: PeerKind,
    /// Whether the peer is currently backed off.
    pub backed_off: bool,
    /// Counts the severe failures that backed the peer off since its last success.
    pub severe_backoff_counter: u8,
}

/// The outcome of a change that moves a score from `previous` to `current` while the peer
/// is in `state`.
pub open spec fn spec_outcome(
    state: PeerConnectionState,
    previous: int,
    current: int,
) -> ReputationChangeOutcome {
    if state is Connected && spec_is_banned_reputation(current) {
        ReputationChangeOutcome::DisconnectAndBan
    } else if spec_is_banned_reputation(current) && !spec_is_banned_reputation(previous) {
        ReputationChangeOutcome::Ban
    } else if !spec_is_banned_reputation(current) && spec_is_banned_reputation(previous) {
        ReputationChangeOutcome::Unban
    } else {
        ReputationChangeOutcome::NoAction
    }
}

impl Peer {
    /// A fresh peer at `addr` of the given kind and state: default reputation, no fork
    /// announcement, no backoff.
    pub open spec fn spec_fresh(&self, addr: PeerAddr, kind: PeerKind, state: PeerConnectionState) -> bool {
        &&& self.addr == addr
        &&& self.reputation == DEFAULT_REPUTATION
        &&& self.state == state
        &&& self.fork_id is None
        &&& !self.remove_after_disconnect
        &&& self.kind == kind
        &&& !self.backed_off
        &&& self.severe_backoff_counter == 0
    }

    /// The score after a change of `delta`.
    pub open spec fn spec_next_reputation(self, delta: i32) -> i32 {
        saturating_sum(self.reputation as int, delta as int) as i32
    }

    /// What a change of `delta` reports.
    pub open spec fn spec_reputation_outcome(self, delta: i32) -> ReputationChangeOutcome {
        spec_outcome(self.state, self.reputation as int, self.spec_next_reputation(delta) as int)
    }

    /// The peer after a change of `delta`.
    pub open spec fn spec_apply_reputation(self, delta: i32) -> Peer {
        Peer {
            reputation: self.spec_next_reputation(delta),
            state: if self.spec_reputation_outcome(delta) is DisconnectAndBan {
                PeerConnectionState::Disconnecting
            } else {
                self.state
            },
            ..self
        }
    }

    /// Whether the score lies below the ban threshold.
    pub open spec fn spec_is_banned(self) -> bool {
        spec_is_banned_reputation(self.reputation as int)
    }

    /// Returns a new peer for given [`PeerAddr`].
    pub fn new(addr: PeerAddr) -> (r: Self)
        ensures
            r.spec_fresh(addr, PeerKind::Basic, PeerConnectionState::Idle),
    {
        Self::with_state(addr, PeerConnectionState::Idle)
    }

    /// Returns a new trusted peer for given [`PeerAddr`].
    pub fn trusted(addr: PeerAddr) -> (r: Self)
        ensures
            r.spec_fresh(addr, PeerKind::Trusted, PeerConnectionState::Idle),
    {
        Self::with_kind(addr, PeerKind::Trusted)
    }

    /// Returns the reputation of the peer.
    pub fn reputation(&self) -> (r: i32)
        ensures
            r == self.reputation,
    {
        self.reputation
    }

    /// Returns a new peer for given [`PeerAddr`] and [`PeerConnectionState`].
    pub fn with_state(addr: PeerAddr, state: PeerConnectionState) -> (r: Self)
        ensures
            r.spec_fresh(addr, PeerKind::Basic, state),
    {
        Peer {
            addr,
            state,
            reputation: DEFAULT_REPUTATION,
            fork_id: None,
            remove_after_disconnect: false,
            kind: PeerKind::Basic,
            backed_off: false,
            severe_backoff_counter: 0,
        }
    }

    /// Returns a new peer for given [`PeerAddr`] and [`PeerKind`].
    pub fn with_kind(addr: PeerAddr, kind: PeerKind) -> (r: Self)
        ensures
            r.spec_fresh(addr, kind, PeerConnectionState::Idle),
    {
        let mut peer = Self::new(addr);
        peer.kind = kind;
        peer
    }

    /// Resets the reputation of the peer to the default value. This always returns
    /// [`ReputationChangeOutcome::NoAction`].
    pub fn reset_reputation(&mut self) -> (r: ReputationChangeOutcome)
        ensures
            r is NoAction,
            *final(self) == (Peer { reputation: DEFAULT_REPUTATION, ..*old(self) }),
    {
        self.reputation = DEFAULT_REPUTATION;
        ReputationChangeOutcome::NoAction
    }

    /// Applies a reputation change to the peer and returns what action should be taken.
    ///
    /// The score saturates at the bounds of `i32`. A connected peer that ends below the
    /// threshold is moved to disconnecting in the same step.
    pub fn apply_reputation(&mut self, reputation: i32, kind: ReputationChangeKind) -> (r:
        ReputationChangeOutcome)
        ensures
            r == old(self).spec_reputation_outcome(reputation),
            *final(self) == old(self).spec_apply_reputation(reputation),
    {
        let previous = self.reputation;
        // a negative change lowers the score
        self.reputation = saturating_sum_i32(previous, reputation);

        if self.state.is_connected() && self.is_banned() {
            self.state.disconnect();
            return ReputationChangeOutcome::DisconnectAndBan;
        }
        if self.is_banned() && !is_banned_reputation(previous) {
            return ReputationChangeOutcome::Ban;
        }
        if !self.is_banned() && is_banned_reputation(previous) {
            return ReputationChangeOutcome::Unban;
        }
        ReputationChangeOutcome::NoAction
    }

    /// Returns true if the peer's reputation is below the banned threshold.
    pub fn is_banned(&self) -> (r: bool)
        ensures
            r == self.spec_is_banned(),
    {
        is_banned_reputation(self.reputation)
    }

    /// Returns `true` if the peer is backed off.
    pub fn is_backed_off(&self) -> (r: bool)
        ensures
            r == self.backed_off,
    {
        self.backed_off
    }

    /// Unbans the peer: resets its reputation and clears its backoff. The connection state
    /// is left as it is.
    pub fn unban(&mut self) -> (r: ReputationChangeOutcome)
        ensures
            r is NoAction,
            *final(self) == (Peer {
                reputation: DEFAULT_REPUTATION,
                backed_off: false,
                severe_backoff_counter: 0,
                ..*old(self)
            }),
    {
        self.reputation = DEFAULT_REPUTATION;
        self.backed_off = false;
        self.severe_backoff_counter = 0;
        ReputationChangeOutcome::NoAction
    }

    /// Returns whether this peer is trusted.
    pub fn is_trusted(&self) -> (r: bool)
        ensures
            r == (self.kind is Trusted),
    {
        self.kind.is_trusted()
    }

    /// Returns whether this peer is static.
    pub fn is_static(&self) -> (r: bool)
        ensures
            r == (self.kind is Static),
    {
        self.kind.is_static()
    }

    /// The outcome that the peer table acts on. Trusted peers are exempt from bans driven
    /// by reputation: for them a ban is not acted on, though the score keeps its history.
    pub fn outcome_to_act_on(&self, outcome: ReputationChangeOutcome) -> (r: ReputationChangeOutcome)
        ensures
            self.kind is Trusted && (outcome is Ban || outcome is DisconnectAndBan) ==> r is NoAction,
            !(self.kind is Trusted && (outcome is Ban || outcome is DisconnectAndBan)) ==> r == outcome,
    {
        if self.is_trusted() {
            match outcome {
                ReputationChangeOutcome::Ban | ReputationChangeOutcome::DisconnectAndBan => {
                    ReputationChangeOutcome::NoAction
                },
                _ => outcome,
            }
        } else {
            outcome
        }
    }

    /// Records a failed connection: the peer is backed off, and a severe failure raises the
    /// counter that lengthens the exclusion window (it stops at its largest value).
    pub fn backoff(&mut self, kind: BackoffKind)
        ensures
            *final(self) == (Peer {
                backed_off: true,
                severe_backoff_counter: if kind.spec_is_severe() {
                    if old(self).severe_backoff_counter < 255 {
                        (old(self).severe_backoff_counter + 1) as u8
                    } else {
                        255u8
                    }
                } else {
                    old(self).severe_backoff_counter
                },
                ..*old(self)
            }),
    {
        self.backed_off = true;
        if kind.is_severe() {
            self.severe_backoff_counter = self.severe_backoff_counter.saturating_add(1);
        }
    }

    /// Records a successful handshake: the session is established and the backoff is
    /// cleared.
    pub fn on_connected(&mut self)
        ensures
            *final(self) == (Peer {
                state: if old(self).state.spec_is_connecting() {
                    PeerConnectionState::Connected
                } else {
                    old(self).state
                },
                backed_off: false,
                severe_backoff_counter: 0,
                ..*old(self)
            }),
    {
        self.state.establish();
        self.backed_off = false;
        self.severe_backoff_counter = 0;
    }
}

/// The peer after the changes `deltas`, applied in order.
pub open spec fn spec_apply_all(peer: Peer, deltas: Seq<i32>) -> Peer
    decreases deltas.len(),
{
    if deltas.len() == 0 {
        peer
    } else {
        spec_apply_all(peer.spec_apply_reputation(deltas[0]), deltas.drop_first())
    }
}

/// The outcomes that the changes `deltas`, applied in order, report.
pub open spec fn spec_outcomes(peer: Peer, deltas: Seq<i32>) -> Seq<ReputationChangeOutcome>
    decreases deltas.len(),
{
    if deltas.len() == 0 {
        Seq::empty()
    } else {
        seq![peer.spec_reputation_outcome(deltas[0])]
            + spec_outcomes(peer.spec_apply_reputation(deltas[0]), deltas.drop_first())
    }
}

/// Whether the score is, after each of the changes `deltas`, below the threshold when
/// `banned` holds and at or above it otherwise.
pub open spec fn spec_stays(peer: Peer, deltas: Seq<i32>, banned: bool) -> bool
    decreases deltas.len(),
{
    if deltas.len() == 0 {
        true
    } else {
        let next = peer.spec_apply_reputation(deltas[0]);
        next.spec_is_banned() == banned && spec_stays(next, deltas.drop_first(), banned)
    }
}

/// A change never wraps: a penalty never raises the score and a reward never lowers it, and
/// the score moves by exactly `delta` unless a bound of `i32` stops it.
pub proof fn lemma_reputation_saturates(peer: Peer, delta: i32)
    ensures
        delta <= 0 ==> peer.spec_next_reputation(delta) <= peer.reputation,
        delta >= 0 ==> peer.spec_next_reputation(delta) >= peer.reputation,
        i32::MIN <= peer.reputation + delta <= i32::MAX ==> peer.spec_next_reputation(delta)
            == peer.reputation + delta,
{
}

/// A score after the changes `deltas`, each added with saturation, computed over integers.
pub open spec fn spec_saturating_fold(score: int, deltas: Seq<i32>) -> int
    decreases deltas.len(),
{
    if deltas.len() == 0 {
        score
    } else {
        spec_saturating_fold(saturating_sum(score, deltas[0] as int), deltas.drop_first())
    }
}

/// Over any sequence of changes the score is the saturating sum of the changes, computed
/// over integers, and stays within the bounds of `i32`: it never wraps around.
pub proof fn lemma_reputation_stays_in_range(peer: Peer, deltas: Seq<i32>)
    ensures
        spec_apply_all(peer, deltas).reputation as int == spec_saturating_fold(peer.reputation as int, deltas),
        i32::MIN <= spec_saturating_fold(peer.reputation as int, deltas) <= i32::MAX,
    decreases deltas.len(),
{
    if deltas.len() > 0 {
        lemma_reputation_stays_in_range(peer.spec_apply_reputation(deltas[0]), deltas.drop_first());
    }
}

/// While the score stays on one side of the threshold, every change reports nothing,
/// provided the peer is not connected if that side is below the threshold.
pub proof fn lemma_quiet_on_one_side(peer: Peer, deltas: Seq<i32>, banned: bool)
    requires
        peer.spec_is_banned() == banned,
        banned ==> !(peer.state is Connected),
        spec_stays(peer, deltas, banned),
    ensures
        spec_outcomes(peer, deltas).len() == deltas.len(),
        forall|i: int| 0 <= i < deltas.len() ==> #[trigger] spec_outcomes(peer, deltas)[i] is NoAction,
    decreases deltas.len(),
{
    if deltas.len() > 0 {
        let next = peer.spec_apply_reputation(deltas[0]);
        lemma_quiet_on_one_side(next, deltas.drop_first(), banned);
        let tail = spec_outcomes(next, deltas.drop_first());
        assert forall|i: int| 0 <= i < deltas.len() implies #[trigger] spec_outcomes(peer, deltas)[i] is NoAction by {
            if i > 0 {
                assert(spec_outcomes(peer, deltas)[i] == tail[i - 1]);
            }
        }
    }
}

/// A ban is reported once: the change that takes the score below the threshold reports
/// `Ban` or `DisconnectAndBan`, and later changes that keep it below report nothing.
pub proof fn lemma_ban_reported_once(peer: Peer, delta: i32, rest: Seq<i32>)
    requires
        !peer.spec_is_banned(),
        peer.spec_apply_reputation(delta).spec_is_banned(),
        spec_stays(peer.spec_apply_reputation(delta), rest, true),
    ensures
        peer.spec_reputation_outcome(delta) is Ban || peer.spec_reputation_outcome(delta) is DisconnectAndBan,
        spec_outcomes(peer, seq![delta] + rest)[0] == peer.spec_reputation_outcome(delta),
        forall|i: int| 1 <= i <= rest.len() ==> #[trigger] spec_outcomes(peer, seq![delta] + rest)[i] is NoAction,
{
    let all = seq![delta] + rest;
    assert(all[0] == delta);
    assert(all.drop_first() =~= rest);
    let next = peer.spec_apply_reputation(delta);
    lemma_quiet_on_one_side(next, rest, true);
    assert forall|i: int| 1 <= i <= rest.len() implies #[trigger] spec_outcomes(peer, all)[i] is NoAction by {
        assert(spec_outcomes(peer, all)[i] == spec_outcomes(next, rest)[i - 1]);
    }
}

/// An unban is reported once: the change that takes the score from below the threshold to
/// at or above it reports `Unban`, and later changes that keep it there report nothing.
pub proof fn lemma_unban_reported_once(peer: Peer, delta: i32, rest: Seq<i32>)
    requires
        peer.spec_is_banned(),
        !peer.spec_apply_reputation(delta).spec_is_banned(),
        spec_stays(peer.spec_apply_reputation(delta), rest, false),
    ensures
        peer.spec_reputation_outcome(delta) is Unban,
        spec_outcomes(peer, seq![delta] + rest)[0] is Unban,
        forall|i: int| 1 <= i <= rest.len() ==> #[trigger] spec_outcomes(peer, seq![delta] + rest)[i] is NoAction,
{
    let all = seq![delta] + rest;
    assert(all[0] == delta);
    assert(all.drop_first() =~= rest);
    let next = peer.spec_apply_reputation(delta);
    lemma_quiet_on_one_side(next, rest, false);
    assert forall|i: int| 1 <= i <= rest.len() implies #[trigger] spec_outcomes(peer, all)[i] is NoAction by {
        assert(spec_outcomes(peer, all)[i] == spec_outcomes(next, rest)[i - 1]);
    }
}

} // verus!
