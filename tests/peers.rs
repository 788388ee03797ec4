use alloy_eip2124::{ForkHash, ForkId};
use reth_peers::addr::{IpAddress, NodeRecord, PeerAddr, PeerId, SocketAddress};
use reth_peers::backoff::{BackoffKind, PeerBackoffDurations};
use reth_peers::kind::PeerKind;
use reth_peers::peer::Peer;
use reth_peers::persisted::PersistedPeerInfo;
use reth_peers::reputation::{
    is_banned_reputation, saturating_sum_i32, ReputationChange, ReputationChangeKind,
    ReputationChangeOutcome, ReputationChangeWeights, BANNED_REPUTATION, DEFAULT_REPUTATION,
    REPUTATION_UNIT,
};
use reth_peers::state::PeerConnectionState;

fn addr() -> PeerAddr {
    PeerAddr::from_tcp(SocketAddress { ip: IpAddress::V4(0x7f00_0001), port: 30303 })
}

fn connected_peer() -> Peer {
    Peer::with_state(addr(), PeerConnectionState::Connected)
}

#[test]
fn new_peer_has_defaults() {
    let peer = Peer::new(addr());
    assert_eq!(peer.reputation(), DEFAULT_REPUTATION);
    assert_eq!(peer.state, PeerConnectionState::Idle);
    assert!(peer.fork_id.is_none());
    assert!(!peer.remove_after_disconnect);
    assert_eq!(peer.kind, PeerKind::Basic);
    assert!(!peer.is_backed_off());
    assert_eq!(peer.severe_backoff_counter, 0);
    assert!(Peer::trusted(addr()).is_trusted());
    assert!(Peer::with_kind(addr(), PeerKind::Static).is_static());
    assert!(!Peer::new(addr()).is_static());
}

#[test]
fn connected_peer_falling_below_threshold_is_disconnected_and_banned() {
    let mut peer = connected_peer();
    let outcome = peer.apply_reputation(60 * REPUTATION_UNIT, ReputationChangeKind::BadMessage);
    assert_eq!(outcome, ReputationChangeOutcome::DisconnectAndBan);
    assert!(!peer.state.is_connected());
    assert_eq!(peer.state, PeerConnectionState::Disconnecting);
    assert!(peer.is_banned());
    assert_eq!(peer.reputation(), -61440);
}

#[test]
fn banned_peer_unban_resets_reputation_and_keeps_state() {
    let mut peer = connected_peer();
    peer.apply_reputation(60 * REPUTATION_UNIT, ReputationChangeKind::BadMessage);
    assert!(peer.is_banned());
    let state = peer.state;
    assert_eq!(peer.unban(), ReputationChangeOutcome::NoAction);
    assert_eq!(peer.reputation(), 0);
    assert!(!peer.is_banned());
    assert_eq!(peer.state, state);
}

#[test]
fn ban_is_reported_once() {
    let mut peer = Peer::new(addr());
    assert_eq!(
        peer.apply_reputation(49 * REPUTATION_UNIT, ReputationChangeKind::Timeout),
        ReputationChangeOutcome::NoAction
    );
    assert_eq!(
        peer.apply_reputation(2 * REPUTATION_UNIT, ReputationChangeKind::Timeout),
        ReputationChangeOutcome::Ban
    );
    for _ in 0..3 {
        assert_eq!(
            peer.apply_reputation(REPUTATION_UNIT, ReputationChangeKind::Timeout),
            ReputationChangeOutcome::NoAction
        );
    }
    assert!(peer.is_banned());
}

#[test]
fn unban_is_reported_once_on_reaching_threshold() {
    let mut peer = Peer::new(addr());
    peer.apply_reputation(BANNED_REPUTATION - 10, ReputationChangeKind::Other(0));
    assert!(peer.is_banned());
    assert_eq!(
        peer.apply_reputation(10, ReputationChangeKind::Other(10)),
        ReputationChangeOutcome::Unban
    );
    assert_eq!(peer.reputation(), BANNED_REPUTATION);
    assert!(!peer.is_banned());
    assert_eq!(
        peer.apply_reputation(5, ReputationChangeKind::Other(5)),
        ReputationChangeOutcome::NoAction
    );
}

#[test]
fn reset_reputation_restores_default() {
    let mut peer = Peer::new(addr());
    peer.apply_reputation(i32::MIN, ReputationChangeKind::BadProtocol);
    assert_eq!(peer.reset_reputation(), ReputationChangeOutcome::NoAction);
    assert_eq!(peer.reputation(), DEFAULT_REPUTATION);
}

#[test]
fn reputation_saturates_at_bounds() {
    let mut peer = Peer::new(addr());
    peer.apply_reputation(i32::MIN, ReputationChangeKind::BadProtocol);
    peer.apply_reputation(i32::MIN, ReputationChangeKind::BadProtocol);
    assert_eq!(peer.reputation(), i32::MIN);
    peer.apply_reputation(i32::MAX, ReputationChangeKind::Other(i32::MAX));
    assert_eq!(peer.reputation(), -1);
    peer.apply_reputation(i32::MAX, ReputationChangeKind::Other(i32::MAX));
    peer.apply_reputation(i32::MAX, ReputationChangeKind::Other(i32::MAX));
    assert_eq!(peer.reputation(), i32::MAX);
    assert_eq!(saturating_sum_i32(i32::MAX, 1), i32::MAX);
    assert_eq!(saturating_sum_i32(-5, 3), -2);
}

#[test]
fn threshold_is_strict() {
    assert!(!is_banned_reputation(BANNED_REPUTATION));
    assert!(is_banned_reputation(BANNED_REPUTATION - 1));
    assert_eq!(BANNED_REPUTATION, 50 * REPUTATION_UNIT);
}

#[test]
fn disconnect_is_idempotent() {
    for state in [
        PeerConnectionState::Idle,
        PeerConnectionState::ConnectingOutbound,
        PeerConnectionState::ConnectingInbound,
        PeerConnectionState::Disconnecting,
    ] {
        let mut s = state;
        s.disconnect();
        assert_eq!(s, state);
    }
    let mut s = PeerConnectionState::Connected;
    s.disconnect();
    assert_eq!(s, PeerConnectionState::Disconnecting);
    s.disconnect();
    assert_eq!(s, PeerConnectionState::Disconnecting);
}

#[test]
fn connection_lifecycle() {
    let mut s = PeerConnectionState::default();
    assert!(s.is_idle());
    s.establish();
    assert_eq!(s, PeerConnectionState::Idle);
    s.dial();
    assert_eq!(s, PeerConnectionState::ConnectingOutbound);
    s.accept_inbound();
    assert_eq!(s, PeerConnectionState::ConnectingOutbound);
    s.handshake_failed();
    assert_eq!(s, PeerConnectionState::Idle);
    s.accept_inbound();
    assert!(s.is_connecting());
    s.establish();
    assert!(s.is_connected());
    s.closed();
    assert!(s.is_connected());
    s.disconnect();
    s.closed();
    assert!(s.is_idle());
}

#[test]
fn severe_failures_escalate_and_success_clears() {
    let mut peer = Peer::new(addr());
    peer.state.dial();
    for _ in 0..3 {
        peer.backoff(BackoffKind::High);
    }
    assert_eq!(peer.severe_backoff_counter, 3);
    assert!(peer.is_backed_off());
    peer.backoff(BackoffKind::Low);
    assert_eq!(peer.severe_backoff_counter, 3);
    peer.on_connected();
    assert_eq!(peer.severe_backoff_counter, 0);
    assert!(!peer.is_backed_off());
    assert!(peer.state.is_connected());
}

#[test]
fn backoff_counter_stops_at_its_largest_value() {
    let mut peer = Peer::new(addr());
    for _ in 0..300 {
        peer.backoff(BackoffKind::Medium);
    }
    assert_eq!(peer.severe_backoff_counter, 255);
}

#[test]
fn backoff_window_grows_up_to_max() {
    let durations = PeerBackoffDurations::default();
    assert_eq!(durations.backoff(BackoffKind::Medium), 180);
    assert_eq!(durations.backoff_window(BackoffKind::Low, 0), 30);
    assert_eq!(durations.backoff_window(BackoffKind::Medium, 2), 540);
    assert_eq!(durations.backoff_window(BackoffKind::High, 3), 3600);
    let wide = PeerBackoffDurations { low: u64::MAX, medium: 1, high: 1, max: u64::MAX - 1 };
    assert_eq!(wide.backoff_window(BackoffKind::Low, 255), u64::MAX - 1);
    assert!(!BackoffKind::Low.is_severe());
    assert!(BackoffKind::High.is_severe());
}

#[test]
fn trusted_peer_below_threshold_still_reports_banned() {
    let mut peer = Peer::trusted(addr());
    let outcome = peer.apply_reputation(60 * REPUTATION_UNIT, ReputationChangeKind::BadBlock);
    assert_eq!(outcome, ReputationChangeOutcome::Ban);
    assert!(peer.is_banned());
    assert!(peer.is_trusted());
}

#[test]
fn weights_give_each_signal_its_change() {
    let weights = ReputationChangeWeights::default();
    assert_eq!(weights.change(ReputationChangeKind::BadMessage), ReputationChange(-16384));
    assert_eq!(weights.change(ReputationChangeKind::FailedToConnect).as_i32(), -25600);
    assert_eq!(weights.change(ReputationChangeKind::BadProtocol).as_i32(), i32::MIN);
    assert_eq!(weights.change(ReputationChangeKind::Reset).as_i32(), DEFAULT_REPUTATION);
    assert_eq!(weights.change(ReputationChangeKind::Other(7)).as_i32(), 7);
    let custom = ReputationChangeWeights { timeout: -1, ..weights };
    assert_eq!(custom.change(ReputationChangeKind::Timeout).as_i32(), -1);
    assert!(ReputationChangeKind::Reset.is_reset());
}

#[test]
fn persisted_round_trip_keeps_kind_reputation_and_fork() {
    let mut peer = Peer::with_kind(
        PeerAddr::new(
            SocketAddress { ip: IpAddress::V6(1), port: 30303 },
            Some(SocketAddress { ip: IpAddress::V6(1), port: 30304 }),
        ),
        PeerKind::Static,
    );
    peer.reputation = -300;
    peer.fork_id = Some(Box::new(ForkId { hash: ForkHash([1, 2, 3, 4]), next: 99 }));
    peer.state = PeerConnectionState::Connected;
    peer.remove_after_disconnect = true;
    peer.backed_off = true;
    peer.severe_backoff_counter = 4;
    let id = PeerId([7u8; 64]);
    let info = PersistedPeerInfo::from_peer(id, &peer);
    assert_eq!(info.peer_id(), id);
    assert_eq!(info.record.udp_port, 30304);
    let seeded = info.to_peer();
    assert_eq!(seeded.kind, PeerKind::Static);
    assert_eq!(seeded.reputation, -300);
    assert_eq!(seeded.fork_id, Some(Box::new(ForkId { hash: ForkHash([1, 2, 3, 4]), next: 99 })));
    assert_eq!(seeded.state, PeerConnectionState::Idle);
    assert!(!seeded.remove_after_disconnect);
    assert!(!seeded.backed_off);
    assert_eq!(seeded.severe_backoff_counter, 0);
    assert_eq!(seeded.addr.tcp, peer.addr.tcp);
}

#[test]
fn legacy_record_gets_default_metadata() {
    let record = NodeRecord::new(IpAddress::V4(0x0a00_0001), 30303, 30301, PeerId([1u8; 64]));
    let info = PersistedPeerInfo::from_node_record(record);
    assert_eq!(info.kind, PeerKind::Basic);
    assert_eq!(info.fork_id, None);
    assert_eq!(info.reputation, DEFAULT_REPUTATION);
    assert_eq!(info.peer_id(), PeerId([1u8; 64]));
    let peer = info.to_peer();
    assert_eq!(peer.addr.udp, Some(SocketAddress { ip: IpAddress::V4(0x0a00_0001), port: 30301 }));
    assert_eq!(record.tcp_addr().port, 30303);
}

#[test]
fn trusted_peer_ban_is_not_acted_on() {
    let mut trusted = Peer::with_state(addr(), PeerConnectionState::Idle);
    trusted.kind = PeerKind::Trusted;
    let outcome = trusted.apply_reputation(60 * REPUTATION_UNIT, ReputationChangeKind::BadBlock);
    assert!(trusted.is_banned());
    assert_eq!(trusted.outcome_to_act_on(outcome), ReputationChangeOutcome::NoAction);
    assert_eq!(
        trusted.outcome_to_act_on(ReputationChangeOutcome::Unban),
        ReputationChangeOutcome::Unban
    );
    let mut basic = Peer::new(addr());
    let outcome = basic.apply_reputation(60 * REPUTATION_UNIT, ReputationChangeKind::BadBlock);
    assert_eq!(basic.outcome_to_act_on(outcome), ReputationChangeOutcome::Ban);
}

#[test]
fn window_never_shrinks_as_counter_grows() {
    let durations = PeerBackoffDurations::default();
    let mut last = 0;
    for counter in 0..=255u8 {
        let window = durations.backoff_window(BackoffKind::Medium, counter);
        assert!(window >= last);
        last = window;
    }
    assert_eq!(last, 3600);
}
