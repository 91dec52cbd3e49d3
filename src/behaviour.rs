use vstd::prelude::*;
use crate::event::{
    BehaviourOut, Command, ConsensusEngineId, CustomMessageOutcome, DebugInfoEvent, DhtEvent,
    DiscoveryOut, Event, ProtocolId, RecordKey,
};
use crate::peer::{Multiaddr, PeerId};
use crate::role::{observed_role, reported_roles_to_observed_role, ObservedRole, Role, Roles};

verus! {

/// Most addresses that one peer may report for itself and have forwarded.
pub const MAX_SELF_REPORTED_ADDRS: usize = 30;

/// Whether `ev` tells that a notification stream with `remote` opened for
/// `engine_id`, with the remote seen as `role`.
pub open spec fn is_stream_opened<B, H, N>(
    ev: BehaviourOut<B, H, N>,
    remote: Seq<u8>,
    engine_id: ConsensusEngineId,
    role: ObservedRole,
) -> bool {
    match ev {
        BehaviourOut::Event(Event::NotificationStreamOpened { remote: r, engine_id: e, role: o }) =>
            r@ == remote && e == engine_id && o == role,
        _ => false,
    }
}

/// Whether `ev` tells that the notification stream with `remote` for
/// `engine_id` closed.
pub open spec fn is_stream_closed<B, H, N>(
    ev: BehaviourOut<B, H, N>,
    remote: Seq<u8>,
    engine_id: ConsensusEngineId,
) -> bool {
    match ev {
        BehaviourOut::Event(Event::NotificationStreamClosed { remote: r, engine_id: e }) =>
            r@ == remote && e == engine_id,
        _ => false,
    }
}

/// Whether `c` hands discovery the address `addr` that `peer` reported for itself.
pub open spec fn is_self_reported<N>(c: Command<N>, peer: Seq<u8>, addr: Seq<u8>) -> bool {
    match c {
        Command::AddSelfReportedAddress { peer_id, addr: a } => peer_id@ == peer && a@ == addr,
        _ => false,
    }
}

/// Whether `c` hands chain sync `peer` as a newly discovered node.
pub open spec fn is_discovered<N>(c: Command<N>, peer: Seq<u8>) -> bool {
    match c {
        Command::AddDiscoveredNode(p) => p@ == peer,
        _ => false,
    }
}

/// `after` is `before` followed by one stream-opened event for each engine of
/// `engines`, in that order, each for `remote` seen as `role`.
pub open spec fn opened_for_each<B, H, N>(
    before: Seq<BehaviourOut<B, H, N>>,
    after: Seq<BehaviourOut<B, H, N>>,
    remote: Seq<u8>,
    engines: Seq<ConsensusEngineId>,
    role: ObservedRole,
) -> bool {
    &&& after.len() == before.len() + engines.len()
    &&& after.subrange(0, before.len() as int) == before
    &&& forall|j: int|
        0 <= j < engines.len() ==> is_stream_opened(
            #[trigger] after[before.len() + j],
            remote,
            engines[j],
            role,
        )
}

/// `after` is `before` followed by one stream-closed event for each engine of
/// `engines`, in that order, each for `remote`.
pub open spec fn closed_for_each<B, H, N>(
    before: Seq<BehaviourOut<B, H, N>>,
    after: Seq<BehaviourOut<B, H, N>>,
    remote: Seq<u8>,
    engines: Seq<ConsensusEngineId>,
) -> bool {
    &&& after.len() == before.len() + engines.len()
    &&& after.subrange(0, before.len() as int) == before
    &&& forall|j: int|
        0 <= j < engines.len() ==> is_stream_closed(#[trigger] after[before.len() + j], remote, engines[j])
}

/// `after` is `before` followed by one stream-opened event for each peer of
/// `streams`, in that order, each for the engine `engine_id` and with the peer
/// seen as a local node of role `local` classifies what it reported.
pub open spec fn opened_for_peers<B, H, N>(
    before: Seq<BehaviourOut<B, H, N>>,
    after: Seq<BehaviourOut<B, H, N>>,
    engine_id: ConsensusEngineId,
    streams: Seq<(PeerId, Roles)>,
    local: Role,
) -> bool {
    &&& after.len() == before.len() + streams.len()
    &&& after.subrange(0, before.len() as int) == before
    &&& forall|j: int|
        0 <= j < streams.len() ==> is_stream_opened(
            #[trigger] after[before.len() + j],
            streams[j].0@,
            engine_id,
            observed_role(local, streams[j].0@, streams[j].1),
        )
}

/// How the output queue goes from `before` to `after` on an event of the
/// chain-sync sub-protocol, for a local node of role `local`.
pub open spec fn custom_outcome_queued<B, H, N>(
    before: Seq<BehaviourOut<B, H, N>>,
    after: Seq<BehaviourOut<B, H, N>>,
    ev: CustomMessageOutcome<B, H, N>,
    local: Role,
) -> bool {
    match ev {
        CustomMessageOutcome::BlockImport(o, b) => after == before.push(BehaviourOut::BlockImport(o, b)),
        CustomMessageOutcome::JustificationImport(o, h, n, j) =>
            after == before.push(BehaviourOut::JustificationImport(o, h, n, j)),
        CustomMessageOutcome::FinalityProofImport(o, h, n, p) =>
            after == before.push(BehaviourOut::FinalityProofImport(o, h, n, p)),
        CustomMessageOutcome::NotificationStreamOpened { remote, protocols, roles } =>
            opened_for_each(before, after, remote@, protocols@, observed_role(local, remote@, roles)),
        CustomMessageOutcome::NotificationStreamClosed { remote, protocols } =>
            closed_for_each(before, after, remote@, protocols@),
        CustomMessageOutcome::NotificationsReceived { remote, messages } =>
            after == before.push(
                BehaviourOut::Event(Event::NotificationsReceived { remote, messages }),
            ),
        CustomMessageOutcome::PeerNewBest(_, _) => after == before,
        CustomMessageOutcome::Nothing => after == before,
    }
}

/// How the calls owed go from `before` to `after` on an event of the
/// chain-sync sub-protocol.
pub open spec fn custom_outcome_calls<B, H, N>(
    before: Seq<Command<N>>,
    after: Seq<Command<N>>,
    ev: CustomMessageOutcome<B, H, N>,
) -> bool {
    match ev {
        CustomMessageOutcome::PeerNewBest(p, n) =>
            after == before.push(Command::UpdateBestBlock { peer_id: p, number: n }),
        _ => after == before,
    }
}

/// The number of the addresses reported by a peer that are forwarded: the
/// first thirty at most.
pub open spec fn forwarded_count(reported: nat) -> nat {
    if reported > MAX_SELF_REPORTED_ADDRS {
        MAX_SELF_REPORTED_ADDRS as nat
    } else {
        reported
    }
}

/// How the calls owed go from `before` to `after` on an event of the
/// identification sub-protocol: the first addresses that the peer reported,
/// thirty at most and in their order, go to discovery, then the peer goes to
/// chain sync as a discovered node.
pub open spec fn identified_calls<N>(before: Seq<Command<N>>, after: Seq<Command<N>>, ev: DebugInfoEvent) -> bool {
    match ev {
        DebugInfoEvent::Identified { peer_id, info } => {
            let n = forwarded_count(info.listen_addrs@.len());
            &&& after.len() == before.len() + n + 1
            &&& after.subrange(0, before.len() as int) == before
            &&& forall|j: int|
                0 <= j < n ==> is_self_reported(
                    #[trigger] after[before.len() + j],
                    peer_id@,
                    info.listen_addrs@[j]@,
                )
            &&& is_discovered(after[before.len() + n as int], peer_id@)
        },
    }
}

/// The event queued when a random discovery query starts for `p`.
pub open spec fn random_started<B, H, N>(p: ProtocolId) -> BehaviourOut<B, H, N> {
    BehaviourOut::RandomKademliaStarted(p)
}

/// How the output queue goes from `before` to `after` on an event of the
/// discovery sub-protocol.
pub open spec fn discovery_queued<B, H, N>(
    before: Seq<BehaviourOut<B, H, N>>,
    after: Seq<BehaviourOut<B, H, N>>,
    ev: DiscoveryOut,
) -> bool {
    match ev {
        DiscoveryOut::UnroutablePeer(_) => after == before,
        DiscoveryOut::Discovered(_) => after == before,
        DiscoveryOut::ValueFound(r) => after == before.push(BehaviourOut::Event(Event::Dht(DhtEvent::ValueFound(r)))),
        DiscoveryOut::ValueNotFound(k) => after == before.push(
            BehaviourOut::Event(Event::Dht(DhtEvent::ValueNotFound(k))),
        ),
        DiscoveryOut::ValuePut(k) => after == before.push(BehaviourOut::Event(Event::Dht(DhtEvent::ValuePut(k)))),
        DiscoveryOut::ValuePutFailed(k) => after == before.push(
            BehaviourOut::Event(Event::Dht(DhtEvent::ValuePutFailed(k))),
        ),
        DiscoveryOut::RandomKademliaStarted(ps) => after == before + ps@.map_values(
            |p: ProtocolId| random_started::<B, H, N>(p),
        ),
    }
}

/// How the calls owed go from `before` to `after` on an event of the
/// discovery sub-protocol.
pub open spec fn discovery_calls<N>(before: Seq<Command<N>>, after: Seq<Command<N>>, ev: DiscoveryOut) -> bool {
    match ev {
        DiscoveryOut::Discovered(p) => after == before.push(Command::AddDiscoveredNode(p)),
        _ => after == before,
    }
}

/// The result of one poll of the queue `q`, and the queue left behind.
pub open spec fn poll_step<T>(q: Seq<T>) -> (Option<T>, Seq<T>) {
    if q.len() == 0 {
        (None, q)
    } else {
        (Some(q[0]), q.drop_first())
    }
}

/// The router that combines the sub-protocols of the network stack. It holds
/// the role of the local node, the queue of events for the outside, and the
/// calls that it owes to the other sub-protocols, which the driver performs.
pub struct Behaviour<B, H, N> {
    events: Vec<BehaviourOut<B, H, N>>,
    commands: Vec<Command<N>>,
    role: Role,
}

impl<B, H, N> Behaviour<B, H, N> {
    /// The events waiting for the outside, oldest first.
    pub closed spec fn queue(&self) -> Seq<BehaviourOut<B, H, N>> {
        self.events@
    }

    /// The calls owed to the other sub-protocols, oldest first.
    pub closed spec fn outbox(&self) -> Seq<Command<N>> {
        self.commands@
    }

    /// The role of the local node.
    pub closed spec fn local_role(&self) -> Role {
        self.role
    }

    /// Builds a router for a local node of the given role, with nothing queued.
    pub fn new(role: Role) -> (r: Self)
        ensures
            r.queue() == Seq::<BehaviourOut<B, H, N>>::empty(),
            r.outbox() == Seq::<Command<N>>::empty(),
            r.local_role() == role,
    {
        Behaviour { events: Vec::new(), commands: Vec::new(), role }
    }

    /// Takes the oldest event of the queue, or tells that none is ready.
    pub fn poll(&mut self) -> (r: Option<BehaviourOut<B, H, N>>)
        ensures
            (r, final(self).queue()) == poll_step(old(self).queue()),
            final(self).outbox() == old(self).outbox(),
            final(self).local_role() == old(self).local_role(),
    {
        if self.events.len() > 0 {
            Some(self.events.remove(0))
        } else {
            None
        }
    }

    /// Takes the oldest call owed to another sub-protocol, or tells that none is.
    pub fn poll_command(&mut self) -> (r: Option<Command<N>>)
        ensures
            (r, final(self).outbox()) == poll_step(old(self).outbox()),
            final(self).queue() == old(self).queue(),
            final(self).local_role() == old(self).local_role(),
    {
        if self.commands.len() > 0 {
            Some(self.commands.remove(0))
        } else {
            None
        }
    }

    /// Adds a hard-coded address for the given peer, that never expires.
    pub fn add_known_address(&mut self, peer_id: PeerId, addr: Multiaddr)
        ensures
            final(self).outbox() == old(self).outbox().push(
                Command::AddKnownAddress { peer_id, addr },
            ),
            final(self).queue() == old(self).queue(),
            final(self).local_role() == old(self).local_role(),
    {
        self.commands.push(Command::AddKnownAddress { peer_id, addr });
    }

    /// Starts a lookup of a record of the distributed hash table. Its result
    /// comes later as a `ValueFound` or a `ValueNotFound` event.
    pub fn get_value(&mut self, key: RecordKey)
        ensures
            final(self).outbox() == old(self).outbox().push(Command::GetValue(key)),
            final(self).queue() == old(self).queue(),
            final(self).local_role() == old(self).local_role(),
    {
        self.commands.push(Command::GetValue(key));
    }

    /// Starts storing a record in the distributed hash table. Its result
    /// comes later as a `ValuePut` or a `ValuePutFailed` event.
    pub fn put_value(&mut self, key: RecordKey, value: Vec<u8>)
        ensures
            final(self).outbox() == old(self).outbox().push(Command::PutValue(key, value)),
            final(self).queue() == old(self).queue(),
            final(self).local_role() == old(self).local_role(),
    {
        self.commands.push(Command::PutValue(key, value));
    }

    /// Appends one stream-opened event for each engine of `protocols`.
    fn push_opened(&mut self, remote: &PeerId, protocols: &Vec<ConsensusEngineId>, role: ObservedRole)
        ensures
            opened_for_each(old(self).queue(), final(self).queue(), remote@, protocols@, role),
            final(self).outbox() == old(self).outbox(),
            final(self).local_role() == old(self).local_role(),
    {
        let ghost start = self.events@;
        assert(start.subrange(0, start.len() as int) =~= start);
        let mut i: usize = 0;
        while i < protocols.len()
            invariant
                i <= protocols@.len(),
                opened_for_each(start, self.events@, remote@, protocols@.subrange(0, i as int), role),
                self.commands@ == old(self).commands@,
                self.role == old(self).role,
            decreases protocols@.len() - i,
        {
            let ghost prev = self.events@;
            self.events.push(
                BehaviourOut::Event(
                    Event::NotificationStreamOpened { remote: remote.duplicate(), engine_id: protocols[i], role },
                ),
            );
            assert(self.events@.subrange(0, start.len() as int) =~= prev.subrange(0, start.len() as int));
            i = i + 1;
            assert forall|j: int| 0 <= j < i implies is_stream_opened(
                #[trigger] self.events@[start.len() + j],
                remote@,
                protocols@.subrange(0, i as int)[j],
                role,
            ) by {
                if j < i - 1 {
                    assert(self.events@[start.len() + j] == prev[start.len() + j]);
                }
            }
        }
        assert(protocols@.subrange(0, i as int) =~= protocols@);
    }

    /// Appends one stream-closed event for each engine of `protocols`.
    fn push_closed(&mut self, remote: &PeerId, protocols: &Vec<ConsensusEngineId>)
        ensures
            closed_for_each(old(self).queue(), final(self).queue(), remote@, protocols@),
            final(self).outbox() == old(self).outbox(),
            final(self).local_role() == old(self).local_role(),
    {
        let ghost start = self.events@;
        assert(start.subrange(0, start.len() as int) =~= start);
        let mut i: usize = 0;
        while i < protocols.len()
            invariant
                i <= protocols@.len(),
                closed_for_each(start, self.events@, remote@, protocols@.subrange(0, i as int)),
                self.commands@ == old(self).commands@,
                self.role == old(self).role,
            decreases protocols@.len() - i,
        {
            let ghost prev = self.events@;
            self.events.push(
                BehaviourOut::Event(
                    Event::NotificationStreamClosed { remote: remote.duplicate(), engine_id: protocols[i] },
                ),
            );
            assert(self.events@.subrange(0, start.len() as int) =~= prev.subrange(0, start.len() as int));
            i = i + 1;
            assert forall|j: int| 0 <= j < i implies is_stream_closed(
                #[trigger] self.events@[start.len() + j],
                remote@,
                protocols@.subrange(0, i as int)[j],
            ) by {
                if j < i - 1 {
                    assert(self.events@[start.len() + j] == prev[start.len() + j]);
                }
            }
        }
        assert(protocols@.subrange(0, i as int) =~= protocols@);
    }

    /// Registers a new notifications protocol. `open_streams` lists the peers
    /// with which chain sync already has a stream open, with the capabilities
    /// that each reported: a stream-opened event is queued for each of them,
    /// so that a consumer that looks only from now on still learns of them.
    pub fn register_notifications_protocol(&mut self, engine_id: ConsensusEngineId, open_streams: &Vec<(PeerId, Roles)>)
        ensures
            opened_for_peers(old(self).queue(), final(self).queue(), engine_id, open_streams@, old(self).local_role()),
            final(self).outbox() == old(self).outbox(),
            final(self).local_role() == old(self).local_role(),
    {
        let ghost start = self.events@;
        assert(start.subrange(0, start.len() as int) =~= start);
        let mut i: usize = 0;
        while i < open_streams.len()
            invariant
                i <= open_streams@.len(),
                opened_for_peers(start, self.events@, engine_id, open_streams@.subrange(0, i as int), self.role),
                self.commands@ == old(self).commands@,
                self.role == old(self).role,
            decreases open_streams@.len() - i,
        {
            let ghost prev = self.events@;
            let remote = &open_streams[i].0;
            let role = reported_roles_to_observed_role(&self.role, remote, open_streams[i].1);
            self.events.push(
                BehaviourOut::Event(Event::NotificationStreamOpened { remote: remote.duplicate(), engine_id, role }),
            );
            assert(self.events@.subrange(0, start.len() as int) =~= prev.subrange(0, start.len() as int));
            i = i + 1;
            assert forall|j: int| 0 <= j < i implies is_stream_opened(
                #[trigger] self.events@[start.len() + j],
                open_streams@.subrange(0, i as int)[j].0@,
                engine_id,
                observed_role(self.role, open_streams@.subrange(0, i as int)[j].0@, open_streams@.subrange(0, i as int)[j].1),
            ) by {
                if j < i - 1 {
                    assert(self.events@[start.len() + j] == prev[start.len() + j]);
                }
            }
        }
        assert(open_streams@.subrange(0, i as int) =~= open_streams@);
    }

    /// Handles an event of the chain-sync sub-protocol. Imports pass through
    /// to the queue; an opened stream is queued once for each protocol, with
    /// the peer classified once; a closed stream once for each protocol;
    /// received messages as one event; a new best block of a peer is owed to
    /// the light client handler and queues nothing.
    pub fn inject_custom_message_outcome(&mut self, event: CustomMessageOutcome<B, H, N>)
        ensures
            custom_outcome_queued(old(self).queue(), final(self).queue(), event, old(self).local_role()),
            custom_outcome_calls(old(self).outbox(), final(self).outbox(), event),
            final(self).local_role() == old(self).local_role(),
    {
        match event {
            CustomMessageOutcome::BlockImport(origin, blocks) => {
                self.events.push(BehaviourOut::BlockImport(origin, blocks));
            },
            CustomMessageOutcome::JustificationImport(origin, hash, nb, justification) => {
                self.events.push(BehaviourOut::JustificationImport(origin, hash, nb, justification));
            },
            CustomMessageOutcome::FinalityProofImport(origin, hash, nb, proof) => {
                self.events.push(BehaviourOut::FinalityProofImport(origin, hash, nb, proof));
            },
            CustomMessageOutcome::NotificationStreamOpened { remote, protocols, roles } => {
                let role = reported_roles_to_observed_role(&self.role, &remote, roles);
                self.push_opened(&remote, &protocols, role);
            },
            CustomMessageOutcome::NotificationStreamClosed { remote, protocols } => {
                self.push_closed(&remote, &protocols);
            },
            CustomMessageOutcome::NotificationsReceived { remote, messages } => {
                self.events.push(BehaviourOut::Event(Event::NotificationsReceived { remote, messages }));
            },
            CustomMessageOutcome::PeerNewBest(peer_id, number) => {
                self.commands.push(Command::UpdateBestBlock { peer_id, number });
            },
            CustomMessageOutcome::Nothing => {},
        }
    }

    /// Handles an event of the identification sub-protocol: the addresses
    /// that the peer reported go to discovery, the first thirty at most, and
    /// the peer goes to chain sync as a discovered node. Nothing is queued.
    pub fn inject_debug_info_event(&mut self, event: DebugInfoEvent)
        ensures
            identified_calls(old(self).outbox(), final(self).outbox(), event),
            final(self).queue() == old(self).queue(),
            final(self).local_role() == old(self).local_role(),
    {
        let DebugInfoEvent::Identified { peer_id, info } = event;
        let ghost start = self.commands@;
        assert(start.subrange(0, start.len() as int) =~= start);
        let n: usize = if info.listen_addrs.len() > MAX_SELF_REPORTED_ADDRS {
            MAX_SELF_REPORTED_ADDRS
        } else {
            info.listen_addrs.len()
        };
        let mut i: usize = 0;
        while i < n
            invariant
                i <= n,
                n == forwarded_count(info.listen_addrs@.len()),
                n <= info.listen_addrs@.len(),
                self.commands@.len() == start.len() + i,
                self.commands@.subrange(0, start.len() as int) == start,
                forall|j: int|
                    0 <= j < i ==> is_self_reported(
                        #[trigger] self.commands@[start.len() + j],
                        peer_id@,
                        info.listen_addrs@[j]@,
                    ),
                self.events@ == old(self).events@,
                self.role == old(self).role,
            decreases n - i,
        {
            let ghost prev = self.commands@;
            self.commands.push(
                Command::AddSelfReportedAddress {
                    peer_id: peer_id.duplicate(),
                    addr: info.listen_addrs[i].duplicate(),
                },
            );
            assert(self.commands@.subrange(0, start.len() as int) =~= prev.subrange(0, start.len() as int));
            i = i + 1;
            assert forall|j: int| 0 <= j < i implies is_self_reported(
                #[trigger] self.commands@[start.len() + j],
                peer_id@,
                info.listen_addrs@[j]@,
            ) by {
                if j < i - 1 {
                    assert(self.commands@[start.len() + j] == prev[start.len() + j]);
                }
            }
        }
        let ghost prev = self.commands@;
        let ghost pid = peer_id@;
        self.commands.push(Command::AddDiscoveredNode(peer_id));
        assert(self.commands@.subrange(0, start.len() as int) =~= prev.subrange(0, start.len() as int));
        assert forall|j: int| 0 <= j < n implies is_self_reported(
            #[trigger] self.commands@[start.len() + j],
            pid,
            info.listen_addrs@[j]@,
        ) by {
            assert(self.commands@[start.len() + j] == prev[start.len() + j]);
        }
    }

    /// Queues a random-query event for each protocol, in their order.
    fn push_random_started(&mut self, protocols: Vec<ProtocolId>)
        ensures
            final(self).queue() == old(self).queue() + protocols@.map_values(
                |p: ProtocolId| random_started::<B, H, N>(p),
            ),
            final(self).outbox() == old(self).outbox(),
            final(self).local_role() == old(self).local_role(),
    {
        let ghost all = protocols@;
        assert(all.len() == protocols.len());
        let ghost start = self.events@;
        let mut rest = protocols;
        let mut k: usize = 0;
        assert(all.subrange(0, 0).map_values(|p: ProtocolId| random_started::<B, H, N>(p)) =~= Seq::<BehaviourOut<B, H, N>>::empty());
        assert(start + Seq::<BehaviourOut<B, H, N>>::empty() =~= start);
        assert(all.subrange(0, all.len() as int) =~= all);
        while rest.len() > 0
            invariant
                k <= all.len(),
                all.len() <= usize::MAX,
                rest@ == all.subrange(k as int, all.len() as int),
                self.events@ == start + all.subrange(0, k as int).map_values(
                    |p: ProtocolId| random_started::<B, H, N>(p),
                ),
                self.commands@ == old(self).commands@,
                self.role == old(self).role,
            decreases rest@.len(),
        {
            let ghost prev = self.events@;
            assert(k < all.len());
            let p = rest.remove(0);
            self.events.push(BehaviourOut::RandomKademliaStarted(p));
            assert(all.subrange(0, k + 1) =~= all.subrange(0, k as int).push(all[k as int]));
            assert(all.subrange(0, k + 1).map_values(|p: ProtocolId| random_started::<B, H, N>(p))
                =~= all.subrange(0, k as int).map_values(|p: ProtocolId| random_started::<B, H, N>(p)).push(
                random_started::<B, H, N>(all[k as int])));
            assert(self.events@ =~= start + all.subrange(0, k + 1).map_values(
                |p: ProtocolId| random_started::<B, H, N>(p),
            ));
            k = k + 1;
            assert(rest@ =~= all.subrange(k as int, all.len() as int));
        }
        assert(all.subrange(0, k as int) =~= all);
    }

    /// Handles an event of the discovery sub-protocol. An unroutable peer is
    /// left alone: its addresses come through identification. A discovered
    /// peer is owed to chain sync. Results of the distributed hash table are
    /// queued as they are, and a random query is queued once for each protocol.
    pub fn inject_discovery_event(&mut self, out: DiscoveryOut)
        ensures
            discovery_queued(old(self).queue(), final(self).queue(), out),
            discovery_calls(old(self).outbox(), final(self).outbox(), out),
            final(self).local_role() == old(self).local_role(),
    {
        match out {
            DiscoveryOut::UnroutablePeer(_peer_id) => {},
            DiscoveryOut::Discovered(peer_id) => {
                self.commands.push(Command::AddDiscoveredNode(peer_id));
            },
            DiscoveryOut::ValueFound(results) => {
                self.events.push(BehaviourOut::Event(Event::Dht(DhtEvent::ValueFound(results))));
            },
            DiscoveryOut::ValueNotFound(key) => {
                self.events.push(BehaviourOut::Event(Event::Dht(DhtEvent::ValueNotFound(key))));
            },
            DiscoveryOut::ValuePut(key) => {
                self.events.push(BehaviourOut::Event(Event::Dht(DhtEvent::ValuePut(key))));
            },
            DiscoveryOut::ValuePutFailed(key) => {
                self.events.push(BehaviourOut::Event(Event::Dht(DhtEvent::ValuePutFailed(key))));
            },
            DiscoveryOut::RandomKademliaStarted(protocols) => {
                self.push_random_started(protocols);
            },
        }
    }
}

} // verus!
