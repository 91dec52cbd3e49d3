use vstd::prelude::*;
use crate::behaviour::{
    custom_outcome_calls, custom_outcome_queued, discovery_queued, identified_calls, is_discovered,
    is_self_reported, poll_step, MAX_SELF_REPORTED_ADDRS,
};
use crate::event::{BehaviourOut, Command, CustomMessageOutcome, DebugInfoEvent, DhtEvent, DiscoveryOut, Event};
use crate::role::{listed, observed_role, ObservedRole, Role, Roles};

verus! {

/// The classification of a remote node depends only on the local role, the
/// remote's identity and what it reports. A remote that reports the authority
/// capability is seen as an authority of one of the three kinds, whatever else
/// it reports, and as one of our sentries or guarded authorities only when the
/// local configuration lists it; a remote that does not is seen as a full node
/// when it reports that capability and as a light client otherwise.
pub proof fn authority_takes_precedence(local: Role, remote: Seq<u8>, other: Seq<u8>, roles: Roles)
    ensures
        remote == other ==> observed_role(local, remote, roles) == observed_role(local, other, roles),
        roles.spec_is_authority() ==> {
            let r = observed_role(local, remote, roles);
            r == ObservedRole::Authority || r == ObservedRole::OurSentry || r == ObservedRole::OurGuardedAuthority
        },
        observed_role(local, remote, roles) == ObservedRole::OurSentry ==> (match local {
            Role::Authority { sentry_nodes } => listed(sentry_nodes@, remote),
            _ => false,
        }),
        observed_role(local, remote, roles) == ObservedRole::OurGuardedAuthority ==> (match local {
            Role::Sentry { validators } => listed(validators@, remote),
            _ => false,
        }),
        !roles.spec_is_authority() && roles.spec_is_full() ==> observed_role(local, remote, roles)
            == ObservedRole::Full,
        !roles.spec_is_authority() && !roles.spec_is_full() ==> observed_role(local, remote, roles)
            == ObservedRole::Light,
{
}

/// What `n` successive polls of the queue `q` return.
pub open spec fn drained<T>(q: Seq<T>, n: nat) -> Seq<Option<T>>
    decreases n,
{
    if n == 0 {
        Seq::empty()
    } else {
        seq![poll_step(q).0] + drained(poll_step(q).1, (n - 1) as nat)
    }
}

/// The queue left after `n` successive polls of `q`.
pub open spec fn left_after<T>(q: Seq<T>, n: nat) -> Seq<T>
    decreases n,
{
    if n == 0 {
        q
    } else {
        left_after(poll_step(q).1, (n - 1) as nat)
    }
}

/// The queue drains first in, first out: successive polls return its events
/// in the order in which they were queued, and leave the rest in that order.
pub proof fn polls_drain_in_order<T>(q: Seq<T>, n: nat)
    requires
        n <= q.len(),
    ensures
        drained(q, n) == q.subrange(0, n as int).map_values(|x: T| Some(x)),
        left_after(q, n) == q.subrange(n as int, q.len() as int),
    decreases n,
{
    if n == 0 {
        assert(q.subrange(0, 0).map_values(|x: T| Some(x)) =~= Seq::<Option<T>>::empty());
        assert(q.subrange(0, q.len() as int) =~= q);
    } else {
        let rest = q.drop_first();
        polls_drain_in_order(rest, (n - 1) as nat);
        assert(q.subrange(0, n as int).map_values(|x: T| Some(x)) =~= seq![Some(q[0])] + rest.subrange(
            0,
            n - 1,
        ).map_values(|x: T| Some(x)));
        assert(q.subrange(n as int, q.len() as int) =~= rest.subrange(n - 1, rest.len() as int));
    }
}

/// Polling an empty queue says that no event is ready and changes nothing,
/// however often it is done.
pub proof fn empty_polls_change_nothing<T>(q: Seq<T>, n: nat)
    requires
        q.len() == 0,
    ensures
        poll_step(q) == (Option::<T>::None, q),
        left_after(q, n) == q,
        forall|i: int| 0 <= i < n ==> #[trigger] drained(q, n)[i] == Option::<T>::None,
        drained(q, n).len() == n,
    decreases n,
{
    if n > 0 {
        empty_polls_change_nothing(q, (n - 1) as nat);
        assert forall|i: int| 0 <= i < n implies #[trigger] drained(q, n)[i] == Option::<T>::None by {
            if i > 0 {
                assert(drained(q, n)[i] == drained(q, (n - 1) as nat)[i - 1]);
            }
        }
    }
}

/// An identified peer has at most thirty of its reported addresses forwarded
/// to discovery, and is handed to chain sync as discovered exactly once.
pub proof fn identified_addresses_are_bounded<N>(before: Seq<Command<N>>, after: Seq<Command<N>>, ev: DebugInfoEvent)
    requires
        identified_calls(before, after, ev),
    ensures
        ({
            let DebugInfoEvent::Identified { peer_id, info } = ev;
            &&& after.len() <= before.len() + MAX_SELF_REPORTED_ADDRS + 1
            &&& forall|j: int|
                before.len() <= j < after.len() ==> (is_discovered(#[trigger] after[j], peer_id@) <==> j
                    == after.len() - 1)
            &&& forall|j: int|
                before.len() <= j < after.len() - 1 ==> is_self_reported(
                    #[trigger] after[j],
                    peer_id@,
                    info.listen_addrs@[j - before.len()]@,
                )
        }),
{
    let DebugInfoEvent::Identified { peer_id, info } = ev;
    assert forall|j: int| before.len() <= j < after.len() - 1 implies is_self_reported(
        #[trigger] after[j],
        peer_id@,
        info.listen_addrs@[j - before.len()]@,
    ) by {
        assert(after[j] == after[before.len() + (j - before.len())]);
    }
}

/// A lookup started with `get_value` queues nothing by itself; when discovery
/// then reports the key as not found, exactly one event is queued, which
/// carries that key.
pub proof fn dht_miss_is_reported_once<B, H, N>(
    q0: Seq<BehaviourOut<B, H, N>>,
    q1: Seq<BehaviourOut<B, H, N>>,
    q2: Seq<BehaviourOut<B, H, N>>,
    ev: DiscoveryOut,
)
    requires
        q1 == q0,
        ev is ValueNotFound,
        discovery_queued(q1, q2, ev),
    ensures
        q2 == q0.push(BehaviourOut::Event(Event::Dht(DhtEvent::ValueNotFound(ev->ValueNotFound_0)))),
{
}

/// A new best block of a peer queues nothing: it only becomes a call to the
/// light client handler with that peer and that number.
pub proof fn new_best_only_informs_light_client<B, H, N>(
    q0: Seq<BehaviourOut<B, H, N>>,
    q1: Seq<BehaviourOut<B, H, N>>,
    c0: Seq<Command<N>>,
    c1: Seq<Command<N>>,
    ev: CustomMessageOutcome<B, H, N>,
    local: Role,
)
    requires
        ev is PeerNewBest,
        custom_outcome_queued(q0, q1, ev, local),
        custom_outcome_calls(c0, c1, ev),
    ensures
        q1 == q0,
        c1 == c0.push(Command::UpdateBestBlock { peer_id: ev->PeerNewBest_0, number: ev->PeerNewBest_1 }),
{
}

} // verus!
