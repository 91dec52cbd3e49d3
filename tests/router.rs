use network_behaviour::behaviour::{Behaviour, MAX_SELF_REPORTED_ADDRS};
use network_behaviour::event::{
    BehaviourOut, BlockOrigin, Command, CustomMessageOutcome, DebugInfoEvent, DhtEvent, DiscoveryOut, Event,
    IdentifyInfo,
};
use network_behaviour::peer::{Multiaddr, PeerId};
use network_behaviour::role::{reported_roles_to_observed_role, ObservedRole, Role, Roles, AUTHORITY, FULL, LIGHT};

type Router = Behaviour<u8, u64, u64>;

fn peer(b: u8) -> PeerId {
    PeerId::from_bytes(vec![0, 36, 8, 1, 18, 32, b, b, b])
}

fn addr(i: u8) -> Multiaddr {
    Multiaddr::from_bytes(vec![4, 127, 0, 0, i, 6, 0x76, 0xc2])
}

fn roles(bits: u8) -> Roles {
    Roles { bits }
}

fn expect_opened(ev: Option<BehaviourOut<u8, u64, u64>>, p: &PeerId, engine: [u8; 4], role: ObservedRole) {
    match ev {
        Some(BehaviourOut::Event(Event::NotificationStreamOpened { remote, engine_id, role: r })) => {
            assert_eq!(remote.to_bytes(), p.to_bytes());
            assert_eq!(engine_id, engine);
            assert_eq!(r, role);
        }
        _ => panic!("expected a stream-opened event"),
    }
}

#[test]
fn authority_flag_wins_over_full_flag() {
    let local = Role::Ordinary;
    let r = reported_roles_to_observed_role(&local, &peer(1), roles(AUTHORITY | FULL));
    assert_eq!(r, ObservedRole::Authority);
}

#[test]
fn full_and_light_classification() {
    let local = Role::Ordinary;
    assert_eq!(reported_roles_to_observed_role(&local, &peer(1), roles(FULL)), ObservedRole::Full);
    assert_eq!(reported_roles_to_observed_role(&local, &peer(1), roles(LIGHT)), ObservedRole::Light);
    assert_eq!(reported_roles_to_observed_role(&local, &peer(1), roles(0)), ObservedRole::Light);
}

#[test]
fn our_sentry_and_guarded_authority() {
    let authority = Role::Authority { sentry_nodes: vec![peer(2), peer(3)] };
    assert_eq!(reported_roles_to_observed_role(&authority, &peer(3), roles(AUTHORITY)), ObservedRole::OurSentry);
    assert_eq!(reported_roles_to_observed_role(&authority, &peer(4), roles(AUTHORITY)), ObservedRole::Authority);
    assert_eq!(reported_roles_to_observed_role(&authority, &peer(3), roles(FULL)), ObservedRole::Full);
    let sentry = Role::Sentry { validators: vec![peer(5)] };
    assert_eq!(
        reported_roles_to_observed_role(&sentry, &peer(5), roles(AUTHORITY)),
        ObservedRole::OurGuardedAuthority
    );
    assert_eq!(reported_roles_to_observed_role(&sentry, &peer(6), roles(AUTHORITY)), ObservedRole::Authority);
}

#[test]
fn classification_is_deterministic() {
    let local = Role::Sentry { validators: vec![peer(5)] };
    for bits in 0u8..8 {
        let a = reported_roles_to_observed_role(&local, &peer(5), roles(bits));
        let b = reported_roles_to_observed_role(&local, &peer(5), roles(bits));
        assert_eq!(a, b);
    }
}

#[test]
fn register_queues_one_event_per_open_stream() {
    let mut b: Router = Behaviour::new(Role::Authority { sentry_nodes: vec![peer(2)] });
    let streams = vec![(peer(1), roles(FULL)), (peer(2), roles(AUTHORITY)), (peer(3), roles(LIGHT))];
    b.register_notifications_protocol(*b"dot1", &streams);
    expect_opened(b.poll(), &peer(1), *b"dot1", ObservedRole::Full);
    expect_opened(b.poll(), &peer(2), *b"dot1", ObservedRole::OurSentry);
    expect_opened(b.poll(), &peer(3), *b"dot1", ObservedRole::Light);
    assert!(b.poll().is_none());
    assert!(b.poll_command().is_none());
}

#[test]
fn register_with_no_open_stream_queues_nothing() {
    let mut b: Router = Behaviour::new(Role::Ordinary);
    b.register_notifications_protocol(*b"dot1", &Vec::new());
    assert!(b.poll().is_none());
}

#[test]
fn queue_drains_first_in_first_out() {
    let mut b: Router = Behaviour::new(Role::Ordinary);
    b.inject_custom_message_outcome(CustomMessageOutcome::BlockImport(BlockOrigin::NetworkBroadcast, vec![7]));
    b.inject_custom_message_outcome(CustomMessageOutcome::JustificationImport(peer(1), 11, 12, vec![1, 2]));
    b.inject_custom_message_outcome(CustomMessageOutcome::FinalityProofImport(peer(2), 21, 22, vec![3]));
    match b.poll() {
        Some(BehaviourOut::BlockImport(o, blocks)) => {
            assert_eq!(o, BlockOrigin::NetworkBroadcast);
            assert_eq!(blocks, vec![7]);
        }
        _ => panic!("expected the block import first"),
    }
    match b.poll() {
        Some(BehaviourOut::JustificationImport(o, h, n, j)) => {
            assert_eq!(o.to_bytes(), peer(1).to_bytes());
            assert_eq!((h, n, j), (11, 12, vec![1, 2]));
        }
        _ => panic!("expected the justification second"),
    }
    match b.poll() {
        Some(BehaviourOut::FinalityProofImport(o, h, n, p)) => {
            assert_eq!(o.to_bytes(), peer(2).to_bytes());
            assert_eq!((h, n, p), (21, 22, vec![3]));
        }
        _ => panic!("expected the finality proof third"),
    }
    assert!(b.poll().is_none());
}

#[test]
fn identified_with_45_addresses_forwards_30() {
    let mut b: Router = Behaviour::new(Role::Ordinary);
    let mut listen_addrs = Vec::new();
    for i in 0..45u8 {
        listen_addrs.push(addr(i));
    }
    let info = IdentifyInfo { listen_addrs, protocol_version: "/substrate/1.0".to_string(), agent_version: "node".to_string() };
    b.inject_debug_info_event(DebugInfoEvent::Identified { peer_id: peer(9), info });
    assert!(b.poll().is_none());
    let mut forwarded = 0usize;
    let mut discovered = 0usize;
    while let Some(c) = b.poll_command() {
        match c {
            Command::AddSelfReportedAddress { peer_id, addr: a } => {
                assert_eq!(discovered, 0);
                assert_eq!(peer_id.to_bytes(), peer(9).to_bytes());
                assert_eq!(a.to_bytes(), addr(forwarded as u8).to_bytes());
                forwarded += 1;
            }
            Command::AddDiscoveredNode(p) => {
                assert_eq!(p.to_bytes(), peer(9).to_bytes());
                discovered += 1;
            }
            _ => panic!("unexpected call"),
        }
    }
    assert_eq!(forwarded, MAX_SELF_REPORTED_ADDRS);
    assert_eq!(forwarded, 30);
    assert_eq!(discovered, 1);
}

#[test]
fn identified_with_few_addresses_forwards_all() {
    let mut b: Router = Behaviour::new(Role::Ordinary);
    let info = IdentifyInfo { listen_addrs: vec![addr(1), addr(2)], protocol_version: String::new(), agent_version: String::new() };
    b.inject_debug_info_event(DebugInfoEvent::Identified { peer_id: peer(9), info });
    assert!(matches!(b.poll_command(), Some(Command::AddSelfReportedAddress { .. })));
    assert!(matches!(b.poll_command(), Some(Command::AddSelfReportedAddress { .. })));
    assert!(matches!(b.poll_command(), Some(Command::AddDiscoveredNode(_))));
    assert!(b.poll_command().is_none());
}

#[test]
fn stream_opened_for_two_protocols_shares_one_role() {
    let mut b: Router = Behaviour::new(Role::Sentry { validators: vec![peer(4)] });
    b.inject_custom_message_outcome(CustomMessageOutcome::NotificationStreamOpened {
        remote: peer(4),
        protocols: vec![*b"aaaa", *b"bbbb"],
        roles: roles(AUTHORITY),
    });
    expect_opened(b.poll(), &peer(4), *b"aaaa", ObservedRole::OurGuardedAuthority);
    expect_opened(b.poll(), &peer(4), *b"bbbb", ObservedRole::OurGuardedAuthority);
    assert!(b.poll().is_none());
    assert!(b.poll_command().is_none());
}

#[test]
fn stream_closed_once_per_protocol() {
    let mut b: Router = Behaviour::new(Role::Ordinary);
    b.inject_custom_message_outcome(CustomMessageOutcome::NotificationStreamClosed {
        remote: peer(1),
        protocols: vec![*b"aaaa", *b"bbbb"],
    });
    for engine in [*b"aaaa", *b"bbbb"] {
        match b.poll() {
            Some(BehaviourOut::Event(Event::NotificationStreamClosed { remote, engine_id })) => {
                assert_eq!(remote.to_bytes(), peer(1).to_bytes());
                assert_eq!(engine_id, engine);
            }
            _ => panic!("expected a stream-closed event"),
        }
    }
    assert!(b.poll().is_none());
}

#[test]
fn received_messages_stay_one_event_in_order() {
    let mut b: Router = Behaviour::new(Role::Ordinary);
    let messages = vec![(*b"aaaa", vec![1]), (*b"bbbb", vec![2, 3]), (*b"aaaa", vec![4])];
    b.inject_custom_message_outcome(CustomMessageOutcome::NotificationsReceived { remote: peer(1), messages: messages.clone() });
    match b.poll() {
        Some(BehaviourOut::Event(Event::NotificationsReceived { remote, messages: m })) => {
            assert_eq!(remote.to_bytes(), peer(1).to_bytes());
            assert_eq!(m, messages);
        }
        _ => panic!("expected the received messages"),
    }
    assert!(b.poll().is_none());
}

#[test]
fn get_value_then_not_found_queues_one_event() {
    let mut b: Router = Behaviour::new(Role::Ordinary);
    b.get_value(b"key".to_vec());
    assert!(b.poll().is_none());
    match b.poll_command() {
        Some(Command::GetValue(k)) => assert_eq!(k, b"key".to_vec()),
        _ => panic!("expected the lookup call"),
    }
    b.inject_discovery_event(DiscoveryOut::ValueNotFound(b"key".to_vec()));
    match b.poll() {
        Some(BehaviourOut::Event(Event::Dht(DhtEvent::ValueNotFound(k)))) => assert_eq!(k, b"key".to_vec()),
        _ => panic!("expected the not-found event"),
    }
    assert!(b.poll().is_none());
}

#[test]
fn put_value_and_its_outcomes() {
    let mut b: Router = Behaviour::new(Role::Ordinary);
    b.put_value(b"k".to_vec(), vec![9, 9]);
    match b.poll_command() {
        Some(Command::PutValue(k, v)) => assert_eq!((k, v), (b"k".to_vec(), vec![9, 9])),
        _ => panic!("expected the store call"),
    }
    b.inject_discovery_event(DiscoveryOut::ValuePut(b"k".to_vec()));
    b.inject_discovery_event(DiscoveryOut::ValuePutFailed(b"j".to_vec()));
    b.inject_discovery_event(DiscoveryOut::ValueFound(vec![(b"k".to_vec(), vec![9, 9])]));
    assert!(matches!(b.poll(), Some(BehaviourOut::Event(Event::Dht(DhtEvent::ValuePut(k)))) if k == b"k".to_vec()));
    assert!(matches!(b.poll(), Some(BehaviourOut::Event(Event::Dht(DhtEvent::ValuePutFailed(k)))) if k == b"j".to_vec()));
    match b.poll() {
        Some(BehaviourOut::Event(Event::Dht(DhtEvent::ValueFound(r)))) => assert_eq!(r, vec![(b"k".to_vec(), vec![9, 9])]),
        _ => panic!("expected the found records"),
    }
    assert!(b.poll().is_none());
}

#[test]
fn peer_new_best_only_calls_light_client() {
    let mut b: Router = Behaviour::new(Role::Ordinary);
    b.inject_custom_message_outcome(CustomMessageOutcome::PeerNewBest(peer(3), 1234));
    assert!(b.poll().is_none());
    match b.poll_command() {
        Some(Command::UpdateBestBlock { peer_id, number }) => {
            assert_eq!(peer_id.to_bytes(), peer(3).to_bytes());
            assert_eq!(number, 1234);
        }
        _ => panic!("expected the best-block call"),
    }
    assert!(b.poll_command().is_none());
}

#[test]
fn nothing_outcome_changes_nothing() {
    let mut b: Router = Behaviour::new(Role::Ordinary);
    b.inject_custom_message_outcome(CustomMessageOutcome::Nothing);
    assert!(b.poll().is_none());
    assert!(b.poll_command().is_none());
}

#[test]
fn empty_polls_repeat_no_event() {
    let mut b: Router = Behaviour::new(Role::Ordinary);
    b.add_known_address(peer(1), addr(1));
    for _ in 0..5 {
        assert!(b.poll().is_none());
    }
    match b.poll_command() {
        Some(Command::AddKnownAddress { peer_id, addr: a }) => {
            assert_eq!(peer_id.to_bytes(), peer(1).to_bytes());
            assert_eq!(a.to_bytes(), addr(1).to_bytes());
        }
        _ => panic!("the pending call must survive empty polls"),
    }
}

#[test]
fn discovery_events_routing() {
    let mut b: Router = Behaviour::new(Role::Ordinary);
    b.inject_discovery_event(DiscoveryOut::UnroutablePeer(peer(1)));
    assert!(b.poll().is_none());
    assert!(b.poll_command().is_none());
    b.inject_discovery_event(DiscoveryOut::Discovered(peer(2)));
    assert!(b.poll().is_none());
    match b.poll_command() {
        Some(Command::AddDiscoveredNode(p)) => assert_eq!(p.to_bytes(), peer(2).to_bytes()),
        _ => panic!("expected the discovered node"),
    }
    b.inject_discovery_event(DiscoveryOut::RandomKademliaStarted(vec!["/dot/kad".to_string(), "/ksm/kad".to_string()]));
    assert!(matches!(b.poll(), Some(BehaviourOut::RandomKademliaStarted(p)) if p == "/dot/kad"));
    assert!(matches!(b.poll(), Some(BehaviourOut::RandomKademliaStarted(p)) if p == "/ksm/kad"));
    assert!(b.poll().is_none());
}

#[test]
fn peer_identity_bytes() {
    let a = peer(1);
    let b = a.duplicate();
    assert!(a.same_as(&b));
    assert!(!a.same_as(&peer(2)));
    assert!(!a.same_as(&PeerId::from_bytes(vec![0, 36])));
    assert_eq!(b.to_bytes(), vec![0, 36, 8, 1, 18, 32, 1, 1, 1]);
    assert_eq!(addr(3).duplicate().to_bytes(), vec![4, 127, 0, 0, 3, 6, 0x76, 0xc2]);
}

#[test]
fn capability_flags() {
    assert!(roles(AUTHORITY).is_authority());
    assert!(!roles(AUTHORITY).is_full());
    assert!(roles(FULL | LIGHT).is_full());
    assert!(!roles(LIGHT).is_authority());
}
