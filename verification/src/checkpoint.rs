use vstd::prelude::*;

use crate::api_key::ApiKeyAccount;
use crate::delegation::{usage_sum, DelegatedUsageAccount};
use crate::delegation::lemma_burst_counter_tracks_sum;
use crate::delegation::lemma_usage_sum_nonneg;
use crate::errors::ErrorCode;
use crate::policy::RateLimitPolicy;
use crate::protocol::ProtocolState;
use crate::service::ServiceAccount;
use crate::status::{usage_barred, ApiKeyStatus};

verus! {

/// One reconciliation record as persisted to the base ledger: the summary
/// of a drained accounting window.
#[derive(Clone, Copy, Debug, PartialEq, Eq, Structural)]
pub struct UsageCheckpoint {
    /// API key whose window was drained.
    pub api_key: u64,
    /// When the drained window had opened.
    pub window_start: i64,
    /// Requests counted in the drained window.
    pub request_count: u64,
    /// Usage cost accumulated in the drained window.
    pub cost_accumulated: u64,
    /// When the record was written.
    pub last_updated: i64,
}

/// Whether a checkpoint may be reconciled: the window is delegated and
/// every aggregate it feeds can take the drained usage without overflow.
/// Checked in full before anything is written, so the reconciliation is
/// all-or-nothing.
pub open spec fn checkpoint_allowed(
    d: DelegatedUsageAccount,
    api_key: ApiKeyAccount,
    service: ServiceAccount,
    protocol: ProtocolState,
) -> bool {
    &&& d.delegated
    &&& api_key.lifetime_usage + d.current_window_usage <= u128::MAX
    &&& service.total_usage_units + d.current_window_usage <= u128::MAX
    &&& protocol.total_usage_checkpoints < u64::MAX
}

/// The four records after one reconciliation: the window usage is folded
/// into the key's lifetime aggregate and the service's total, the
/// protocol-wide checkpoint counter advances, and the window restarts at
/// zero — one logical transaction.
pub open spec fn checkpoint_apply(
    d: DelegatedUsageAccount,
    api_key: ApiKeyAccount,
    service: ServiceAccount,
    protocol: ProtocolState,
    now: i64,
) -> (DelegatedUsageAccount, ApiKeyAccount, ServiceAccount, ProtocolState) {
    (
        DelegatedUsageAccount {
            current_window_usage: 0,
            burst_counter: 0,
            window_start_ts: now,
            ..d
        },
        ApiKeyAccount {
            lifetime_usage: (api_key.lifetime_usage + d.current_window_usage) as u128,
            last_checkpoint_ts: now,
            ..api_key
        },
        ServiceAccount {
            total_usage_units: (service.total_usage_units + d.current_window_usage) as u128,
            ..service
        },
        ProtocolState {
            total_usage_checkpoints: (protocol.total_usage_checkpoints + 1) as u64,
            ..protocol
        },
    )
}

/// Drain the delegated window into the durable aggregates and restart it,
/// without ending the delegation. Folding the usage into the aggregates
/// and resetting the window happen in one logical transaction, so a
/// retried checkpoint drains a zero window and cannot double-count.
/// Returns the drained usage. A failed call changes nothing.
pub fn submit_usage_checkpoint(
    delegated_usage: &mut DelegatedUsageAccount,
    api_key: &mut ApiKeyAccount,
    service: &mut ServiceAccount,
    protocol: &mut ProtocolState,
    now: i64,
) -> (r: Result<u64, ErrorCode>)
    ensures
        r is Ok <==> checkpoint_allowed(
            *old(delegated_usage), *old(api_key), *old(service), *old(protocol)),
        r matches Ok(w) ==> w == old(delegated_usage).current_window_usage,
        r is Ok ==> (*final(delegated_usage), *final(api_key), *final(service), *final(protocol))
            == checkpoint_apply(
                *old(delegated_usage), *old(api_key), *old(service), *old(protocol), now),
        r is Err ==> *final(delegated_usage) == *old(delegated_usage)
            && *final(api_key) == *old(api_key)
            && *final(service) == *old(service)
            && *final(protocol) == *old(protocol),
        !old(delegated_usage).delegated ==> r == Err::<u64, ErrorCode>(ErrorCode::NotDelegated),
        old(delegated_usage).delegated && !checkpoint_allowed(
            *old(delegated_usage), *old(api_key), *old(service), *old(protocol))
            ==> r == Err::<u64, ErrorCode>(ErrorCode::MathOverflow),
{
    if !delegated_usage.delegated {
        return Err(ErrorCode::NotDelegated);
    }
    let window_usage = delegated_usage.current_window_usage;
    if window_usage as u128 > u128::MAX - api_key.lifetime_usage {
        return Err(ErrorCode::MathOverflow);
    }
    if window_usage as u128 > u128::MAX - service.total_usage_units {
        return Err(ErrorCode::MathOverflow);
    }
    if protocol.total_usage_checkpoints == u64::MAX {
        return Err(ErrorCode::MathOverflow);
    }
    api_key.lifetime_usage = api_key.lifetime_usage + window_usage as u128;
    api_key.last_checkpoint_ts = now;
    service.total_usage_units = service.total_usage_units + window_usage as u128;
    protocol.total_usage_checkpoints = protocol.total_usage_checkpoints + 1;
    delegated_usage.current_window_usage = 0;
    delegated_usage.burst_counter = 0;
    delegated_usage.window_start_ts = now;
    Ok(window_usage)
}

/// Guard applied when a persisted checkpoint reaches the base ledger: a
/// commit whose sequence number does not advance past the last applied one
/// is a duplicate or arrived out of order, and is rejected.
pub fn check_checkpoint_sequence(last_applied_seq: u64, incoming_seq: u64) -> (r: Result<
    (),
    ErrorCode,
>)
    ensures
        r is Ok <==> incoming_seq > last_applied_seq,
        r is Err ==> r == Err::<(), ErrorCode>(ErrorCode::CheckpointRegression),
{
    if incoming_seq <= last_applied_seq {
        return Err(ErrorCode::CheckpointRegression);
    }
    Ok(())
}

/// Reconciliation is idempotent: after one checkpoint, a second one with
/// no metering in between drains a window already at zero, so it leaves
/// the lifetime and service aggregates exactly where the first one put
/// them.
pub proof fn lemma_checkpoint_idempotent(
    d: DelegatedUsageAccount,
    api_key: ApiKeyAccount,
    service: ServiceAccount,
    protocol: ProtocolState,
    now1: i64,
    now2: i64,
)
    requires
        checkpoint_allowed(d, api_key, service, protocol),
    ensures
        ({
            let (d1, k1, s1, p1) = checkpoint_apply(d, api_key, service, protocol, now1);
            &&& d1.current_window_usage == 0
            &&& d1.burst_counter == 0
            &&& (p1.total_usage_checkpoints < u64::MAX ==> {
                let (d2, k2, s2, p2) = checkpoint_apply(d1, k1, s1, p1, now2);
                &&& checkpoint_allowed(d1, k1, s1, p1)
                &&& k2.lifetime_usage == k1.lifetime_usage
                &&& s2.total_usage_units == s1.total_usage_units
                &&& d2.current_window_usage == 0
                &&& d2.burst_counter == 0
            })
        }),
{
}

/// The full delegation round trip: open an episode, meter a run of
/// amounts whose sum stays under the burst ceiling, reconcile, and close
/// the episode. The key's lifetime usage and the service total grow by
/// exactly the metered sum, and the window comes back to the base context
/// drained, with both counters at zero.
pub proof fn lemma_delegation_round_trip(
    d0: DelegatedUsageAccount,
    api_key: ApiKeyAccount,
    service: ServiceAccount,
    protocol: ProtocolState,
    pol: RateLimitPolicy,
    status: ApiKeyStatus,
    amounts: Seq<u64>,
    api_key_id: u64,
    policy_id: u64,
    execution_region: u64,
    t_prepare: i64,
    t_meter: i64,
    t_checkpoint: i64,
)
    requires
        !d0.delegated,
        d0.delegation_seq < u64::MAX,
        !usage_barred(status),
        usage_sum(amounts) <= pol.burst_limit,
        api_key.lifetime_usage + usage_sum(amounts) <= u128::MAX,
        service.total_usage_units + usage_sum(amounts) <= u128::MAX,
        protocol.total_usage_checkpoints < u64::MAX,
    ensures
        ({
            let d1 = d0.prepared(api_key_id, policy_id, execution_region, t_prepare);
            let d2 = d1.meter_run(amounts, t_meter);
            &&& d1.meter_run_ok(status, pol, amounts, t_meter)
            &&& d2.current_window_usage == usage_sum(amounts)
            &&& checkpoint_allowed(d2, api_key, service, protocol)
            &&& {
                let (d3, k3, s3, p3) = checkpoint_apply(
                    d2, api_key, service, protocol, t_checkpoint);
                &&& k3.lifetime_usage == api_key.lifetime_usage + usage_sum(amounts)
                &&& s3.total_usage_units == service.total_usage_units + usage_sum(amounts)
                &&& d3.delegated && d3.current_window_usage == 0
                &&& !d3.undelegated().delegated
                &&& d3.undelegated().current_window_usage == 0
                &&& d3.undelegated().burst_counter == 0
            }
        }),
{
    let d1 = d0.prepared(api_key_id, policy_id, execution_region, t_prepare);
    lemma_usage_sum_nonneg(amounts);
    lemma_burst_counter_tracks_sum(d1, status, pol, amounts, t_meter);
}

} // verus!
