use vstd::prelude::*;
use crate::peer::{Multiaddr, PeerId};
use crate::role::{ObservedRole, Roles};

verus! {

/// Four bytes that name a consensus engine and its notification protocol.
pub type ConsensusEngineId = [u8; 4];

/// Name of a logical overlay protocol that the discovery engine serves.
pub type ProtocolId = String;

/// Key of a record of the distributed hash table.
pub type RecordKey = Vec<u8>;

/// Where a batch of blocks to import comes from.
#[derive(Clone, Copy, PartialEq, Eq, Structural, Debug)]
pub enum BlockOrigin {
    Genesis,
    NetworkInitialSync,
    NetworkBroadcast,
    ConsensusBroadcast,
    Own,
    File,
}

/// Outcome of an operation on the distributed hash table.
pub enum DhtEvent {
    /// The records found under a key.
    ValueFound(Vec<(RecordKey, Vec<u8>)>),
    ValueNotFound(RecordKey),
    ValuePut(RecordKey),
    ValuePutFailed(RecordKey),
}

/// An event for the application layer.
pub enum Event {
    NotificationStreamOpened { remote: PeerId, engine_id: ConsensusEngineId, role: ObservedRole },
    NotificationStreamClosed { remote: PeerId, engine_id: ConsensusEngineId },
    /// Messages received from a peer, in the order of arrival.
    NotificationsReceived { remote: PeerId, messages: Vec<(ConsensusEngineId, Vec<u8>)> },
    Dht(DhtEvent),
}

/// An event produced by the router for the outside. `B` is the descriptor of
/// an incoming block, `H` a block hash and `N` a block number.
pub enum BehaviourOut<B, H, N> {
    BlockImport(BlockOrigin, Vec<B>),
    JustificationImport(PeerId, H, N, Vec<u8>),
    FinalityProofImport(PeerId, H, N, Vec<u8>),
    /// A random discovery query started for the given protocol.
    RandomKademliaStarted(ProtocolId),
    Event(Event),
}

/// An event of the chain-sync sub-protocol.
pub enum CustomMessageOutcome<B, H, N> {
    BlockImport(BlockOrigin, Vec<B>),
    JustificationImport(PeerId, H, N, Vec<u8>),
    FinalityProofImport(PeerId, H, N, Vec<u8>),
    NotificationStreamOpened { remote: PeerId, protocols: Vec<ConsensusEngineId>, roles: Roles },
    NotificationStreamClosed { remote: PeerId, protocols: Vec<ConsensusEngineId> },
    NotificationsReceived { remote: PeerId, messages: Vec<(ConsensusEngineId, Vec<u8>)> },
    /// A peer announced a new best block.
    PeerNewBest(PeerId, N),
    /// Nothing to do.
    Nothing,
}

/// What the identify exchange learned of a peer.
pub struct IdentifyInfo {
    pub listen_addrs: Vec<Multiaddr>,
    pub protocol_version: String,
    pub agent_version: String,
}

/// An event of the liveness and identification sub-protocol.
pub enum DebugInfoEvent {
    Identified { peer_id: PeerId, info: IdentifyInfo },
}

/// An event of the discovery sub-protocol.
pub enum DiscoveryOut {
    /// A peer was found but no address of it is known.
    UnroutablePeer(PeerId),
    Discovered(PeerId),
    ValueFound(Vec<(RecordKey, Vec<u8>)>),
    ValueNotFound(RecordKey),
    ValuePut(RecordKey),
    ValuePutFailed(RecordKey),
    /// Random queries started, one for each protocol.
    RandomKademliaStarted(Vec<ProtocolId>),
}

/// A call that the router owes to one of the other sub-protocols.
pub enum Command<N> {
    /// To discovery: an address that a peer reported for itself.
    AddSelfReportedAddress { peer_id: PeerId, addr: Multiaddr },
    /// To discovery: an address of a peer that never expires.
    AddKnownAddress { peer_id: PeerId, addr: Multiaddr },
    /// To discovery: start a lookup of a record.
    GetValue(RecordKey),
    /// To discovery: start storing a record.
    PutValue(RecordKey, Vec<u8>),
    /// To chain sync: a node that was found on the network.
    AddDiscoveredNode(PeerId),
    /// To the light client handler: the best block that a peer announced.
    UpdateBestBlock { peer_id: PeerId, number: N },
}

} // verus!
