use vstd::prelude::*;

verus! {

/// The lifecycle of a peer's session.
#[derive(Debug, Clone, Copy, PartialEq, Eq, Structural)]
pub enum PeerConnectionState {
    /// No session and no attempt at one.
    Idle,
    /// A local dial is in flight.
    ConnectingOutbound,
    /// A remote handshake is in flight.
    ConnectingInbound,
    /// The session is established.
    Connected,
    /// Teardown was requested; the transport has not confirmed closure yet.
    Disconnecting,
}

impl Default for PeerConnectionState {
    fn default() -> (r: Self)
        ensures
            r == PeerConnectionState::Idle,
    {
        PeerConnectionState::Idle
    }
}

impl PeerConnectionState {
    /// Whether a handshake is in flight, in either direction.
    pub open spec fn spec_is_connecting(self) -> bool {
        self is ConnectingOutbound || self is ConnectingInbound
    }

    /// Returns `true` only in the connected state.
    pub fn is_connected(&self) -> (r: bool)
        ensures
            r == (*self is Connected),
    {
        matches!(self, PeerConnectionState::Connected)
    }

    /// Returns `true` when no session exists and none is being set up.
    pub fn is_idle(&self) -> (r: bool)
        ensures
            r == (*self is Idle),
    {
        matches!(self, PeerConnectionState::Idle)
    }

    /// Returns `true` while a handshake is in flight.
    pub fn is_connecting(&self) -> (r: bool)
        ensures
            r == self.spec_is_connecting(),
    {
        matches!(self, PeerConnectionState::ConnectingOutbound | PeerConnectionState::ConnectingInbound)
    }

    /// A local dial starts; only from the idle state.
    pub fn dial(&mut self)
        ensures
            *old(self) is Idle ==> *final(self) is ConnectingOutbound,
            !(*old(self) is Idle) ==> *final(self) == *old(self),
    {
        if self.is_idle() {
            *self = PeerConnectionState::ConnectingOutbound;
        }
    }

    /// A remote handshake starts; only from the idle state.
    pub fn accept_inbound(&mut self)
        ensures
            *old(self) is Idle ==> *final(self) is ConnectingInbound,
            !(*old(self) is Idle) ==> *final(self) == *old(self),
    {
        if self.is_idle() {
            *self = PeerConnectionState::ConnectingInbound;
        }
    }

    /// The handshake succeeded; only while one is in flight.
    pub fn establish(&mut self)
        ensures
            old(self).spec_is_connecting() ==> *final(self) is Connected,
            !old(self).spec_is_connecting() ==> *final(self) == *old(self),
    {
        if self.is_connecting() {
            *self = PeerConnectionState::Connected;
        }
    }

    /// The handshake failed; back to idle, with nothing to tear down.
    pub fn handshake_failed(&mut self)
        ensures
            old(self).spec_is_connecting() ==> *final(self) is Idle,
            !old(self).spec_is_connecting() ==> *final(self) == *old(self),
    {
        if self.is_connecting() {
            *self = PeerConnectionState::Idle;
        }
    }

    /// Requests the session's teardown. Does nothing unless connected.
    pub fn disconnect(&mut self)
        ensures
            *old(self) is Connected ==> *final(self) is Disconnecting,
            !(*old(self) is Connected) ==> *final(self) == *old(self),
    {
        if self.is_connected() {
            *self = PeerConnectionState::Disconnecting;
        }
    }

    /// The transport confirmed that the session is closed.
    pub fn closed(&mut self)
        ensures
            *old(self) is Disconnecting ==> *final(self) is Idle,
            !(*old(self) is Disconnecting) ==> *final(self) == *old(self),
    {
        if matches!(self, PeerConnectionState::Disconnecting) {
            *self = PeerConnectionState::Idle;
        }
    }
}

} // verus!
