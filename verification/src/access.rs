//! Identities, authorization tiers and the gates that guard content.

use vstd::prelude::*;

verus! {

/// The authorization tier from which a principal is a superuser.
pub const SUPERUSER_LEVEL: i16 = 60;

/// A signed-in user, as the session layer reports it.
#[derive(Clone, Copy, Debug, PartialEq, Eq, Structural)]
pub struct Identity {
    pub id: i32,
    pub authorization_level: i16,
}

/// The one answer to a request that may not see what it asked for. It says
/// nothing of the reason.
#[derive(Clone, Copy, Debug, PartialEq, Eq, Structural)]
pub struct PermissionDenied;

/// What a principal must be to pass.
#[derive(Clone, Copy, Debug, PartialEq, Eq, Structural)]
pub enum Gate {
    /// Everybody passes, signed in or not.
    Public,
    /// Superusers pass.
    Superuser,
    /// The owner of the resource passes, and superusers.
    OwnerOrSuperuser { owner_id: i32 },
}

impl Identity {
    /// Whether the tier reaches the superuser level.
    pub open spec fn superuser(&self) -> bool {
        self.authorization_level >= SUPERUSER_LEVEL
    }

    pub fn new(id: i32, authorization_level: i16) -> (identity: Identity)
        ensures
            identity == (Identity { id, authorization_level }),
    {
        Identity { id, authorization_level }
    }

    /// Whether the tier reaches the superuser level.
    pub fn is_superuser(&self) -> (b: bool)
        ensures
            b == self.superuser(),
    {
        self.authorization_level >= SUPERUSER_LEVEL
    }
}

/// Whether `gate` lets `principal` pass.
pub open spec fn admits(gate: Gate, principal: Option<Identity>) -> bool {
    match gate {
        Gate::Public => true,
        Gate::Superuser => principal matches Some(p) && p.superuser(),
        Gate::OwnerOrSuperuser { owner_id } => principal matches Some(p) && (p.superuser() || p.id
            == owner_id),
    }
}

/// Whether content for superusers only is shown to `principal`.
pub open spec fn privileged(principal: Option<Identity>) -> bool {
    principal matches Some(p) && p.superuser()
}

/// Lets `principal` pass `gate` or denies it.
pub fn authorize(gate: Gate, principal: &Option<Identity>) -> (r: Result<(), PermissionDenied>)
    ensures
        r is Ok <==> admits(gate, *principal),
{
    let pass = match gate {
        Gate::Public => true,
        Gate::Superuser => match principal {
            Some(p) => p.is_superuser(),
            None => false,
        },
        Gate::OwnerOrSuperuser { owner_id } => match principal {
            Some(p) => p.is_superuser() || p.id == owner_id,
            None => false,
        },
    };
    if pass {
        Ok(())
    } else {
        Err(PermissionDenied)
    }
}

/// Whether content for superusers only is shown to `principal`.
pub fn is_privileged(principal: &Option<Identity>) -> (b: bool)
    ensures
        b == privileged(*principal),
{
    match principal {
        Some(p) => p.is_superuser(),
        None => false,
    }
}

/// A principal at the superuser level passes every gate, whoever owns the
/// resource.
pub proof fn lemma_superuser_passes_every_gate(principal: Identity, gate: Gate)
    requires
        principal.authorization_level >= SUPERUSER_LEVEL,
    ensures
        admits(gate, Some(principal)),
{
}

/// A principal below the superuser level who does not own the resource is
/// denied at every gate that guards anything.
pub proof fn lemma_lower_tier_stranger_is_denied(principal: Identity, gate: Gate)
    requires
        principal.authorization_level < SUPERUSER_LEVEL,
        gate != Gate::Public,
        gate matches Gate::OwnerOrSuperuser { owner_id } ==> principal.id != owner_id,
    ensures
        !admits(gate, Some(principal)),
{
}

/// Without a principal only the public gate is passed.
pub proof fn lemma_anonymous_passes_public_only(gate: Gate)
    ensures
        admits(gate, None) <==> gate == Gate::Public,
{
}

} // verus!
