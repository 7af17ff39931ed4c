use vstd::prelude::*;

verus! {

/// Admission status of a service.
#[derive(Clone, Copy, Debug, PartialEq, Eq, Structural)]
pub enum ServiceStatus {
    Active,
    Paused,
    Disabled,
}

/// Admission status of an API key. `Revoked` is terminal: no transition
/// leaves it, and every mutating operation on a revoked key is rejected.
#[derive(Clone, Copy, Debug, PartialEq, Eq, Structural)]
pub enum ApiKeyStatus {
    Active,
    Throttled,
    Blocked,
    Revoked,
}

/// Lifecycle status of a rate-limit policy.
#[derive(Clone, Copy, Debug, PartialEq, Eq, Structural)]
pub enum PolicyStatus {
    Active,
    Disabled,
}

/// The API-key status machine: `Active` and `Throttled` flip back and forth,
/// any non-terminal status may be blocked or revoked, and a blocked key may
/// be restored to `Active` (a manual unblock). `Revoked` has no outgoing
/// transitions. Every pair not named here is an invalid transition.
pub open spec fn api_key_transition_allowed(cur: ApiKeyStatus, req: ApiKeyStatus) -> bool {
    cur !is Revoked && (
        (cur is Active && req is Throttled)
        || (cur is Throttled && req is Active)
        || req is Blocked
        || (cur is Blocked && req is Active)
        || req is Revoked
    )
}

/// The service status machine: `Active` and `Paused` flip back and forth,
/// and any status may be disabled. `Disabled` never leaves (other than the
/// trivial re-disable).
pub open spec fn service_transition_allowed(cur: ServiceStatus, req: ServiceStatus) -> bool {
    (cur is Active && req is Paused)
    || (cur is Paused && req is Active)
    || req is Disabled
}

/// A revoked key has zero outgoing transitions.
pub proof fn lemma_revoked_is_terminal()
    ensures
        forall|req: ApiKeyStatus| !api_key_transition_allowed(ApiKeyStatus::Revoked, req),
{
}

/// Whether a status admits no further usage: blocked or revoked keys must
/// not meter any more traffic.
pub open spec fn usage_barred(status: ApiKeyStatus) -> bool {
    status is Blocked || status is Revoked
}

} // verus!
