use vstd::prelude::*;

verus! {

/// The trust class of a peer.
#[derive(Debug, Clone, Copy, PartialEq, Eq, Structural)]
pub enum PeerKind {
    /// An ordinary discovered peer, subject to reputation and eviction.
    Basic,
    /// Configured by the operator and kept for capacity; not evicted.
    Static,
    /// Configured by the operator and exempt from bans driven by reputation.
    Trusted,
}

impl Default for PeerKind {
    fn default() -> (r: Self)
        ensures
            r == PeerKind::Basic,
    {
        PeerKind::Basic
    }
}

impl PeerKind {
    /// Returns `true` for [`PeerKind::Basic`].
    pub fn is_basic(&self) -> (r: bool)
        ensures
            r == (*self is Basic),
    {
        matches!(self, PeerKind::Basic)
    }

    /// Returns `true` for [`PeerKind::Static`].
    pub fn is_static(&self) -> (r: bool)
        ensures
            r == (*self is Static),
    {
        matches!(self, PeerKind::Static)
    }

    /// Returns `true` for [`PeerKind::Trusted`].
    pub fn is_trusted(&self) -> (r: bool)
        ensures
            r == (*self is Trusted),
    {
        matches!(self, PeerKind::Trusted)
    }
}

} // verus!
