use vstd::prelude::*;

use alloy_eip2124::ForkId;

use crate::addr::{NodeRecord, PeerAddr, PeerId, SocketAddress};
use crate::kind::PeerKind;
use crate::peer::Peer;
use crate::reputation::DEFAULT_REPUTATION;
use crate::state::PeerConnectionState;

verus! {

/// Peer info persisted to disk.
///
/// Holds more than a plain [`NodeRecord`]: the peer's kind, fork ID and reputation survive a
/// restart. A missing fork ID is left out of the stored form altogether.
#[derive(Debug, Clone, Copy, PartialEq, Eq)]
pub struct PersistedPeerInfo {
    /// The node record (id, address, ports).
    pub record: NodeRecord,
    /// The kind of peer.
    pub kind: PeerKind,
    /// The [`ForkId`] that the peer announced via discovery.
    pub fork_id: Option<ForkId>,
    /// The peer's reputation at the time of persisting.
    pub reputation: i32,
}

/// The record that stores a peer's address under its identity: the session endpoint, and
/// the discovery port where one is known (else the session port).
pub open spec fn spec_record_of(id: PeerId, addr: PeerAddr) -> NodeRecord {
    NodeRecord {
        address: addr.tcp.ip,
        tcp_port: addr.tcp.port,
        udp_port: match addr.udp {
            Some(udp) => udp.port,
            None => addr.tcp.port,
        },
        id,
    }
}

/// The fork announcement as a peer holds it.
pub open spec fn spec_boxed_fork(fork_id: Option<ForkId>) -> Option<Box<ForkId>> {
    match fork_id {
        Some(f) => Some(Box::new(f)),
        None => None,
    }
}

/// The fork announcement as the snapshot holds it.
pub open spec fn spec_unboxed_fork(fork_id: Option<Box<ForkId>>) -> Option<ForkId> {
    match fork_id {
        Some(f) => Some(*f),
        None => None,
    }
}

impl PersistedPeerInfo {
    /// The snapshot of `peer`, stored under `id`.
    pub open spec fn spec_from_peer(id: PeerId, peer: Peer) -> PersistedPeerInfo {
        PersistedPeerInfo {
            record: spec_record_of(id, peer.addr),
            kind: peer.kind,
            fork_id: spec_unboxed_fork(peer.fork_id),
            reputation: peer.reputation,
        }
    }

    /// Whether `peer` is what this snapshot seeds at startup: the stored kind, reputation
    /// and fork announcement, the record's endpoints, and a fresh connection state.
    pub open spec fn spec_seeds(self, peer: Peer) -> bool {
        &&& peer.addr == (PeerAddr { tcp: SocketAddress { ip: self.record.address, port: self.record.tcp_port },
            udp: Some(SocketAddress { ip: self.record.address, port: self.record.udp_port }) })
        &&& peer.reputation == self.reputation
        &&& peer.state == PeerConnectionState::Idle
        &&& spec_unboxed_fork(peer.fork_id) == self.fork_id
        &&& !peer.remove_after_disconnect
        &&& peer.kind == self.kind
        &&& !peer.backed_off
        &&& peer.severe_backoff_counter == 0
    }

    /// Returns the peer id.
    pub fn peer_id(&self) -> (r: PeerId)
        ensures
            r == self.record.id,
    {
        self.record.id
    }

    /// Converts a legacy [`NodeRecord`] into a [`PersistedPeerInfo`] with default metadata.
    pub fn from_node_record(record: NodeRecord) -> (r: Self)
        ensures
            r == (PersistedPeerInfo {
                record,
                kind: PeerKind::Basic,
                fork_id: None,
                reputation: DEFAULT_REPUTATION,
            }),
    {
        PersistedPeerInfo { record, kind: PeerKind::Basic, fork_id: None, reputation: DEFAULT_REPUTATION }
    }

    /// The snapshot of a live peer, stored under its identity. The connection state, the
    /// removal flag and the backoff are not kept.
    pub fn from_peer(id: PeerId, peer: &Peer) -> (r: Self)
        ensures
            r == Self::spec_from_peer(id, *peer),
    {
        let udp_port = match peer.addr.udp {
            Some(udp) => udp.port,
            None => peer.addr.tcp.port,
        };
        let record = NodeRecord {
            address: peer.addr.tcp.ip,
            tcp_port: peer.addr.tcp.port,
            udp_port,
            id,
        };
        let fork_id = match &peer.fork_id {
            Some(f) => Some(**f),
            None => None,
        };
        PersistedPeerInfo { record, kind: peer.kind, fork_id, reputation: peer.reputation }
    }

    /// The peer that this snapshot seeds at startup, idle and without backoff.
    pub fn to_peer(&self) -> (r: Peer)
        ensures
            self.spec_seeds(r),
    {
        let addr = PeerAddr { tcp: self.record.tcp_addr(), udp: Some(self.record.udp_addr()) };
        let fork_id = match self.fork_id {
            Some(f) => Some(Box::new(f)),
            None => None,
        };
        Peer {
            addr,
            reputation: self.reputation,
            state: PeerConnectionState::Idle,
            fork_id,
            remove_after_disconnect: false,
            kind: self.kind,
            backed_off: false,
            severe_backoff_counter: 0,
        }
    }
}

/// Storing a peer and seeding a peer from what was stored keeps the kind, the reputation and
/// the fork announcement, and brings the connection fields back to their initial values.
pub proof fn lemma_persist_round_trip(id: PeerId, peer: Peer, seeded: Peer)
    requires
        PersistedPeerInfo::spec_from_peer(id, peer).spec_seeds(seeded),
    ensures
        seeded.kind == peer.kind,
        seeded.reputation == peer.reputation,
        seeded.fork_id == peer.fork_id,
        seeded.state == PeerConnectionState::Idle,
        !seeded.remove_after_disconnect,
        !seeded.backed_off,
        seeded.severe_backoff_counter == 0,
        seeded.addr.tcp == peer.addr.tcp,
{
}

} // verus!
