use vstd::prelude::*;
use crate::peer::PeerId;

verus! {

/// Capability flag: the node stores the full chain.
pub const FULL: u8 = 1;

/// Capability flag: the node is a light client.
pub const LIGHT: u8 = 2;

/// Capability flag: the node takes part in block authoring.
pub const AUTHORITY: u8 = 4;

/// The capability flags that a remote node reports of itself.
#[derive(Clone, Copy, PartialEq, Eq, Structural)]
pub struct Roles {
    pub bits: u8,
}

impl Roles {
    pub open spec fn spec_is_authority(self) -> bool {
        self.bits & AUTHORITY != 0
    }

    pub open spec fn spec_is_full(self) -> bool {
        self.bits & FULL != 0
    }

    /// Whether the node reports the authority capability.
    pub fn is_authority(&self) -> (r: bool)
        ensures
            r == self.spec_is_authority(),
    {
        self.bits & AUTHORITY != 0
    }

    /// Whether the node reports the full-node capability.
    pub fn is_full(&self) -> (r: bool)
        ensures
            r == self.spec_is_full(),
    {
        self.bits & FULL != 0
    }
}

/// Role of the local node, fixed when the network stack is built.
pub enum Role {
    /// An ordinary node.
    Ordinary,
    /// An authority shielded by the given sentry nodes.
    Authority { sentry_nodes: Vec<PeerId> },
    /// A sentry guarding the given validators.
    Sentry { validators: Vec<PeerId> },
}

/// How the local node perceives a remote node.
#[derive(Clone, Copy, PartialEq, Eq, Structural, Debug)]
pub enum ObservedRole {
    Full,
    Light,
    Authority,
    /// One of the sentries of this authority node.
    OurSentry,
    /// One of the validators that this sentry node guards.
    OurGuardedAuthority,
}

/// Whether `peer` is one of `list`.
pub open spec fn listed(list: Seq<PeerId>, peer: Seq<u8>) -> bool {
    exists|i: int| 0 <= i < list.len() && (#[trigger] list[i])@ == peer
}

/// The role under which a remote node that reports `roles` is seen by a
/// local node of role `local`.
pub open spec fn observed_role(local: Role, remote: Seq<u8>, roles: Roles) -> ObservedRole {
    if roles.spec_is_authority() {
        match local {
            Role::Authority { sentry_nodes } if listed(sentry_nodes@, remote) => ObservedRole::OurSentry,
            Role::Sentry { validators } if listed(validators@, remote) => ObservedRole::OurGuardedAuthority,
            _ => ObservedRole::Authority,
        }
    } else if roles.spec_is_full() {
        ObservedRole::Full
    } else {
        ObservedRole::Light
    }
}

/// Whether `peer` is one of `list`.
fn contains_peer(list: &Vec<PeerId>, peer: &PeerId) -> (r: bool)
    ensures
        r == listed(list@, peer@),
{
    let mut i: usize = 0;
    while i < list.len()
        invariant
            i <= list@.len(),
            forall|j: int| 0 <= j < i ==> (#[trigger] list@[j])@ != peer@,
        decreases list@.len() - i,
    {
        if list[i].same_as(peer) {
            return true;
        }
        i = i + 1;
    }
    false
}

/// Classifies a remote node from the capabilities that it reports. The
/// authority capability is looked at first, then the full-node one.
pub fn reported_roles_to_observed_role(local_role: &Role, remote: &PeerId, roles: Roles) -> (r: ObservedRole)
    ensures
        r == observed_role(*local_role, remote@, roles),
{
    if roles.is_authority() {
        match local_role {
            Role::Authority { sentry_nodes } => {
                if contains_peer(sentry_nodes, remote) {
                    ObservedRole::OurSentry
                } else {
                    ObservedRole::Authority
                }
            },
            Role::Sentry { validators } => {
                if contains_peer(validators, remote) {
                    ObservedRole::OurGuardedAuthority
                } else {
                    ObservedRole::Authority
                }
            },
            Role::Ordinary => ObservedRole::Authority,
        }
    } else if roles.is_full() {
        ObservedRole::Full
    } else {
        ObservedRole::Light
    }
}

} // verus!
