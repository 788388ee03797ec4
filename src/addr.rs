use vstd::prelude::*;

verus! {

/// An IP address, as the integer that its octets spell in network order.
#[derive(Debug, Clone, Copy, PartialEq, Eq, Structural)]
pub enum IpAddress {
    /// An IPv4 address.
    V4(u32),
    /// An IPv6 address.
    V6(u128),
}

/// An IP address and a port.
#[derive(Debug, Clone, Copy, PartialEq, Eq, Structural)]
pub struct SocketAddress {
    /// The address.
    pub ip: IpAddress,
    /// The port.
    pub port: u16,
}

/// Where to reach a peer: the session endpoint and, where known, the discovery endpoint.
#[derive(Debug, Clone, Copy, PartialEq, Eq, Structural)]
pub struct PeerAddr {
    /// Endpoint of the session.
    pub tcp: SocketAddress,
    /// Endpoint of discovery, if it is known.
    pub udp: Option<SocketAddress>,
}

impl PeerAddr {
    /// A peer address from its two endpoints.
    pub fn new(tcp: SocketAddress, udp: Option<SocketAddress>) -> (r: Self)
        ensures
            r.tcp == tcp,
            r.udp == udp,
    {
        PeerAddr { tcp, udp }
    }

    /// A peer address whose discovery endpoint is the session endpoint.
    pub fn from_tcp(tcp: SocketAddress) -> (r: Self)
        ensures
            r.tcp == tcp,
            r.udp == Some(tcp),
    {
        PeerAddr { tcp, udp: Some(tcp) }
    }
}

/// The public key that identifies a node, as its 64 bytes.
#[derive(Debug, Clone, Copy, PartialEq, Eq)]
pub struct PeerId(pub [u8; 64]);

/// A node's identity and the endpoints to redial it.
#[derive(Debug, Clone, Copy, PartialEq, Eq)]
pub struct NodeRecord {
    /// The address of the node.
    pub address: IpAddress,
    /// The port of discovery.
    pub udp_port: u16,
    /// The port of sessions.
    pub tcp_port: u16,
    /// The node's identity.
    pub id: PeerId,
}

impl NodeRecord {
    /// A record from its fields.
    pub fn new(address: IpAddress, tcp_port: u16, udp_port: u16, id: PeerId) -> (r: Self)
        ensures
            r.address == address,
            r.tcp_port == tcp_port,
            r.udp_port == udp_port,
            r.id == id,
    {
        NodeRecord { address, udp_port, tcp_port, id }
    }

    /// The endpoint of sessions.
    pub fn tcp_addr(&self) -> (r: SocketAddress)
        ensures
            r == (SocketAddress { ip: self.address, port: self.tcp_port }),
    {
        SocketAddress { ip: self.address, port: self.tcp_port }
    }

    /// The endpoint of discovery.
    pub fn udp_addr(&self) -> (r: SocketAddress)
        ensures
            r == (SocketAddress { ip: self.address, port: self.udp_port }),
    {
        SocketAddress { ip: self.address, port: self.udp_port }
    }
}

/// The chain identity that a peer announces (EIP-2124). The library only carries it.
#[verifier::external_type_specification]
#[verifier::external_body]
pub struct ExForkId(alloy_eip2124::ForkId);

} // verus!
