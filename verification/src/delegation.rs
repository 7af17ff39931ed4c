use vstd::prelude::*;

use crate::errors::ErrorCode;
use crate::policy::RateLimitPolicy;
use crate::status::{usage_barred, ApiKeyStatus};

verus! {

/// Per-key usage window whose write authority can be handed off to a
/// delegated execution context and back. Created once per API key and never
/// destroyed; `delegated` says which context owns it, and `delegation_seq`
/// counts the episodes.
#[derive(Clone, Copy, Debug, PartialEq, Eq, Structural)]
pub struct DelegatedUsageAccount {
    /// API key this window meters.
    pub api_key: u64,
    /// Policy bound at delegation time, so the delegated context needs no
    /// remote lookup.
    pub policy: u64,
    /// Execution context the window is (or was last) delegated to.
    pub execution_region: u64,
    /// Whether the delegated context currently holds write authority.
    pub delegated: bool,
    /// Strictly increasing count of delegation episodes.
    pub delegation_seq: u64,
    /// When the current accounting window opened.
    pub window_start_ts: i64,
    /// Usage accumulated in the current window, not yet reconciled.
    pub current_window_usage: u64,
    /// Usage accumulated since the last reset, held under the burst ceiling.
    pub burst_counter: u64,
    /// When the window was last mutated.
    pub last_update_ts: i64,
    /// When the current delegation episode began.
    pub delegated_at: i64,
}

/// Sum of a sequence of recorded amounts.
pub open spec fn usage_sum(amounts: Seq<u64>) -> int
    decreases amounts.len(),
{
    if amounts.len() == 0 {
        0
    } else {
        amounts[0] + usage_sum(amounts.drop_first())
    }
}

/// A sum of unsigned amounts is never negative.
pub proof fn lemma_usage_sum_nonneg(amounts: Seq<u64>)
    ensures
        usage_sum(amounts) >= 0,
    decreases amounts.len(),
{
    if amounts.len() > 0 {
        lemma_usage_sum_nonneg(amounts.drop_first());
    }
}

impl DelegatedUsageAccount {
    /// The window as it is created with its API key: base-owned, counters
    /// at zero, no episode yet.
    pub open spec fn initial_spec(api_key: u64, policy: u64, now: i64) -> DelegatedUsageAccount {
        DelegatedUsageAccount {
            api_key,
            policy,
            execution_region: 0,
            delegated: false,
            delegation_seq: 0,
            window_start_ts: now,
            current_window_usage: 0,
            burst_counter: 0,
            last_update_ts: now,
            delegated_at: 0,
        }
    }

    /// Build the window record for a fresh API key.
    pub fn initial(api_key: u64, policy: u64, now: i64) -> (d: DelegatedUsageAccount)
        ensures
            d == DelegatedUsageAccount::initial_spec(api_key, policy, now),
    {
        DelegatedUsageAccount {
            api_key,
            policy,
            execution_region: 0,
            delegated: false,
            delegation_seq: 0,
            window_start_ts: now,
            current_window_usage: 0,
            burst_counter: 0,
            last_update_ts: now,
            delegated_at: 0,
        }
    }

    /// The window after a delegation episode opens: bound to its region,
    /// counters reset to a fresh window, episode counter advanced.
    pub open spec fn prepared(
        self,
        api_key: u64,
        policy: u64,
        execution_region: u64,
        now: i64,
    ) -> DelegatedUsageAccount {
        DelegatedUsageAccount {
            api_key,
            policy,
            execution_region,
            delegated: true,
            delegation_seq: (self.delegation_seq + 1) as u64,
            window_start_ts: now,
            current_window_usage: 0,
            burst_counter: 0,
            last_update_ts: now,
            delegated_at: now,
        }
    }

    /// Whether one `record_usage_realtime` call is admitted: the window is
    /// delegated, the key may still meter usage, the window counter does
    /// not overflow, and the burst ceiling is kept.
    pub open spec fn meter_ok(
        self,
        status: ApiKeyStatus,
        policy: RateLimitPolicy,
        amount: u64,
    ) -> bool {
        &&& self.delegated
        &&& !usage_barred(status)
        &&& self.current_window_usage + amount <= u64::MAX
        &&& self.burst_counter + amount <= policy.burst_limit
    }

    /// The window after one admitted `record_usage_realtime` call.
    pub open spec fn metered(self, amount: u64, now: i64) -> DelegatedUsageAccount {
        DelegatedUsageAccount {
            current_window_usage: (self.current_window_usage + amount) as u64,
            burst_counter: (self.burst_counter + amount) as u64,
            last_update_ts: now,
            ..self
        }
    }

    /// Record intent to delegate, while the record is still base-owned:
    /// bind the execution region, advance the episode counter, reset the
    /// window. Fails `AlreadyDelegated` on an open episode; a failed call
    /// changes nothing.
    pub fn prepare_delegation(
        &mut self,
        api_key: u64,
        policy: u64,
        execution_region: u64,
        now: i64,
    ) -> (r: Result<(), ErrorCode>)
        ensures
            r is Ok <==> !old(self).delegated && old(self).delegation_seq < u64::MAX,
            r is Ok ==> *final(self) == old(self).prepared(api_key, policy, execution_region, now),
            r is Err ==> *final(self) == *old(self),
            old(self).delegated ==> r == Err::<(), ErrorCode>(ErrorCode::AlreadyDelegated),
            !old(self).delegated && old(self).delegation_seq == u64::MAX
                ==> r == Err::<(), ErrorCode>(ErrorCode::MathOverflow),
    {
        if self.delegated {
            return Err(ErrorCode::AlreadyDelegated);
        }
        if self.delegation_seq == u64::MAX {
            return Err(ErrorCode::MathOverflow);
        }
        self.api_key = api_key;
        self.policy = policy;
        self.execution_region = execution_region;
        self.delegated = true;
        self.delegation_seq = self.delegation_seq + 1;
        self.window_start_ts = now;
        self.current_window_usage = 0;
        self.burst_counter = 0;
        self.last_update_ts = now;
        self.delegated_at = now;
        Ok(())
    }

    /// Open a delegation episode and hand authority to `execution_region`.
    /// On a base-owned window this performs the same state change as
    /// `prepare_delegation`; on a window already bound to the same region
    /// it is a safe re-entry that changes nothing, so the transfer
    /// handshake can be retried without resetting the counters again.
    /// Delegating a window that another region holds fails
    /// `AlreadyDelegated`.
    pub fn delegate_usage(
        &mut self,
        api_key: u64,
        policy: u64,
        execution_region: u64,
        now: i64,
    ) -> (r: Result<(), ErrorCode>)
        ensures
            !old(self).delegated && old(self).delegation_seq < u64::MAX ==> r is Ok
                && *final(self) == old(self).prepared(api_key, policy, execution_region, now),
            !old(self).delegated && old(self).delegation_seq == u64::MAX
                ==> r == Err::<(), ErrorCode>(ErrorCode::MathOverflow),
            old(self).delegated && old(self).execution_region == execution_region ==> r is Ok
                && *final(self) == *old(self),
            old(self).delegated && old(self).execution_region != execution_region
                ==> r == Err::<(), ErrorCode>(ErrorCode::AlreadyDelegated),
            r is Err ==> *final(self) == *old(self),
    {
        if self.delegated {
            if self.execution_region == execution_region {
                return Ok(());
            }
            return Err(ErrorCode::AlreadyDelegated);
        }
        self.prepare_delegation(api_key, policy, execution_region, now)
    }

    /// Meter `amount` units of usage inside an open delegation episode.
    /// Both window counters advance together, with checked arithmetic, and
    /// the burst ceiling is enforced; any failure leaves the counters
    /// exactly as they were.
    pub fn record_usage_realtime(
        &mut self,
        api_key_status: ApiKeyStatus,
        policy: &RateLimitPolicy,
        amount: u64,
        now: i64,
    ) -> (r: Result<(), ErrorCode>)
        ensures
            r is Ok <==> old(self).meter_ok(api_key_status, *policy, amount),
            r is Ok ==> *final(self) == old(self).metered(amount, now),
            r is Err ==> *final(self) == *old(self),
            !old(self).delegated ==> r == Err::<(), ErrorCode>(ErrorCode::NotDelegated),
            old(self).delegated && usage_barred(api_key_status)
                ==> r == Err::<(), ErrorCode>(ErrorCode::ApiKeyBlocked),
            old(self).delegated && !usage_barred(api_key_status)
                && (old(self).current_window_usage + amount > u64::MAX
                    || old(self).burst_counter + amount > u64::MAX)
                ==> r == Err::<(), ErrorCode>(ErrorCode::MathOverflow),
            old(self).delegated && !usage_barred(api_key_status)
                && old(self).current_window_usage + amount <= u64::MAX
                && old(self).burst_counter + amount <= u64::MAX
                && old(self).burst_counter + amount > policy.burst_limit
                ==> r == Err::<(), ErrorCode>(ErrorCode::BurstLimitExceeded),
            old(self).burst_counter <= policy.burst_limit
                ==> final(self).burst_counter <= policy.burst_limit,
    {
        if !self.delegated {
            return Err(ErrorCode::NotDelegated);
        }
        match api_key_status {
            ApiKeyStatus::Blocked | ApiKeyStatus::Revoked => {
                return Err(ErrorCode::ApiKeyBlocked);
            }
            _ => {}
        }
        if amount > u64::MAX - self.current_window_usage {
            return Err(ErrorCode::MathOverflow);
        }
        if amount > u64::MAX - self.burst_counter {
            return Err(ErrorCode::MathOverflow);
        }
        let new_burst = self.burst_counter + amount;
        if new_burst > policy.burst_limit {
            return Err(ErrorCode::BurstLimitExceeded);
        }
        self.current_window_usage = self.current_window_usage + amount;
        self.burst_counter = new_burst;
        self.last_update_ts = now;
        Ok(())
    }

    /// The window after its delegation episode closes: authority back with
    /// the base context, every counter preserved.
    pub open spec fn undelegated(self) -> DelegatedUsageAccount {
        DelegatedUsageAccount { delegated: false, ..self }
    }

    /// Close the delegation episode and return write authority to the base
    /// context. The final reconciliation must already have drained the
    /// window: a window still holding usage fails
    /// `DelegationRequiresCheckpoint`, so no metered usage can be dropped
    /// on the way back.
    pub fn undelegate_usage(&mut self) -> (r: Result<(), ErrorCode>)
        ensures
            r is Ok <==> old(self).delegated && old(self).current_window_usage == 0,
            r is Ok ==> *final(self) == old(self).undelegated(),
            r is Err ==> *final(self) == *old(self),
            !old(self).delegated ==> r == Err::<(), ErrorCode>(ErrorCode::NotDelegated),
            old(self).delegated && old(self).current_window_usage != 0
                ==> r == Err::<(), ErrorCode>(ErrorCode::DelegationRequiresCheckpoint),
    {
        if !self.delegated {
            return Err(ErrorCode::NotDelegated);
        }
        if self.current_window_usage != 0 {
            return Err(ErrorCode::DelegationRequiresCheckpoint);
        }
        self.delegated = false;
        Ok(())
    }

    /// The window after a whole run of admitted metering calls.
    pub open spec fn meter_run(self, amounts: Seq<u64>, now: i64) -> DelegatedUsageAccount
        decreases amounts.len(),
    {
        if amounts.len() == 0 {
            self
        } else {
            self.metered(amounts[0], now).meter_run(amounts.drop_first(), now)
        }
    }

    /// Whether every call of a run of metering calls is admitted in turn.
    pub open spec fn meter_run_ok(
        self,
        status: ApiKeyStatus,
        policy: RateLimitPolicy,
        amounts: Seq<u64>,
        now: i64,
    ) -> bool
        decreases amounts.len(),
    {
        amounts.len() == 0 || {
            &&& self.meter_ok(status, policy, amounts[0])
            &&& self.metered(amounts[0], now).meter_run_ok(status, policy, amounts.drop_first(), now)
        }
    }
}

/// Within one delegation episode the burst counter is exactly the sum of
/// the amounts recorded since the last reset: any run of metering calls
/// whose sum stays under the burst ceiling (and whose window counter does
/// not overflow) is admitted in full, and both counters advance by exactly
/// that sum while the rest of the window is untouched.
pub proof fn lemma_burst_counter_tracks_sum(
    d: DelegatedUsageAccount,
    status: ApiKeyStatus,
    policy: RateLimitPolicy,
    amounts: Seq<u64>,
    now: i64,
)
    requires
        d.delegated,
        !usage_barred(status),
        d.burst_counter + usage_sum(amounts) <= policy.burst_limit,
        d.current_window_usage + usage_sum(amounts) <= u64::MAX,
    ensures
        d.meter_run_ok(status, policy, amounts, now),
        d.meter_run(amounts, now).burst_counter == d.burst_counter + usage_sum(amounts),
        d.meter_run(amounts, now).current_window_usage
            == d.current_window_usage + usage_sum(amounts),
        d.meter_run(amounts, now) == (DelegatedUsageAccount {
            current_window_usage: (d.current_window_usage + usage_sum(amounts)) as u64,
            burst_counter: (d.burst_counter + usage_sum(amounts)) as u64,
            last_update_ts: if amounts.len() == 0 { d.last_update_ts } else { now },
            ..d
        }),
    decreases amounts.len(),
{
    if amounts.len() > 0 {
        let rest = amounts.drop_first();
        lemma_usage_sum_nonneg(rest);
        lemma_burst_counter_tracks_sum(d.metered(amounts[0], now), status, policy, rest, now);
    }
}

/// The instant one more amount would push the burst counter past the
/// ceiling, that call is not admitted; by the metering contract it then
/// fails and leaves the counters unchanged.
pub proof fn lemma_burst_overflow_rejected(
    d: DelegatedUsageAccount,
    status: ApiKeyStatus,
    policy: RateLimitPolicy,
    amount: u64,
)
    requires
        d.burst_counter + amount > policy.burst_limit,
    ensures
        !d.meter_ok(status, policy, amount),
{
}

} // verus!
