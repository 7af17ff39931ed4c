use vstd::prelude::*;

use crate::api_key::ApiKeyAccount;
use crate::delegation::DelegatedUsageAccount;
use crate::errors::ErrorCode;
use crate::policy::RateLimitPolicy;
use crate::status::ApiKeyStatus;

verus! {

/// The admission status that a window usage level earns under a policy,
/// given the key's current status: at or above the window budget the key
/// is blocked; from half the budget upward it is throttled; below that it
/// is active. A key already standing at `Blocked` is never downgraded by
/// evaluation — only an explicit manual unblock clears a block.
pub open spec fn evaluated_status(
    current: ApiKeyStatus,
    usage: u64,
    policy: RateLimitPolicy,
) -> ApiKeyStatus {
    if usage >= policy.requests_per_window {
        ApiKeyStatus::Blocked
    } else if current is Blocked {
        ApiKeyStatus::Blocked
    } else if usage >= policy.requests_per_window / 2 {
        ApiKeyStatus::Throttled
    } else {
        ApiKeyStatus::Active
    }
}

impl ApiKeyAccount {
    /// Re-derive the key's admission status from the current window usage
    /// and the policy thresholds. A revoked key accepts no evaluation; a
    /// manual block is never cleared silently. Returns the status now in
    /// force.
    pub fn evaluate_enforcement(
        &mut self,
        policy: &RateLimitPolicy,
        delegated_usage: &DelegatedUsageAccount,
    ) -> (r: Result<ApiKeyStatus, ErrorCode>)
        ensures
            r is Ok <==> !(old(self).status is Revoked),
            r is Ok ==> *final(self) == (ApiKeyAccount {
                status: evaluated_status(
                    old(self).status, delegated_usage.current_window_usage, *policy),
                ..*old(self)
            }),
            r matches Ok(s) ==> s == evaluated_status(
                old(self).status, delegated_usage.current_window_usage, *policy),
            r is Err ==> *final(self) == *old(self)
                && r == Err::<ApiKeyStatus, ErrorCode>(ErrorCode::ApiKeyRevoked),
    {
        if matches!(self.status, ApiKeyStatus::Revoked) {
            return Err(ErrorCode::ApiKeyRevoked);
        }
        let usage = delegated_usage.current_window_usage;
        if usage >= policy.requests_per_window {
            self.status = ApiKeyStatus::Blocked;
        } else if matches!(self.status, ApiKeyStatus::Blocked) {
            // keep the block: automatic evaluation must not clear it
        } else if usage >= policy.requests_per_window / 2 {
            self.status = ApiKeyStatus::Throttled;
        } else {
            self.status = ApiKeyStatus::Active;
        }
        Ok(self.status)
    }

    /// Block the key by manual action. A revoked key accepts no mutation.
    pub fn manual_block_key(&mut self) -> (r: Result<(), ErrorCode>)
        ensures
            r is Ok <==> !(old(self).status is Revoked),
            r is Ok ==> *final(self) == (ApiKeyAccount {
                status: ApiKeyStatus::Blocked,
                ..*old(self)
            }),
            r is Err ==> *final(self) == *old(self)
                && r == Err::<(), ErrorCode>(ErrorCode::InvalidApiKeyStatusTransition),
    {
        if matches!(self.status, ApiKeyStatus::Revoked) {
            return Err(ErrorCode::InvalidApiKeyStatusTransition);
        }
        self.status = ApiKeyStatus::Blocked;
        Ok(())
    }

    /// Clear a block by explicit manual action, restoring the key to
    /// `Active`. This is the only operation that takes a key out of
    /// `Blocked` without blocking it again; a revoked key stays revoked.
    pub fn manual_unblock_key(&mut self) -> (r: Result<(), ErrorCode>)
        ensures
            r is Ok <==> !(old(self).status is Revoked),
            r is Ok ==> *final(self) == (ApiKeyAccount {
                status: ApiKeyStatus::Active,
                ..*old(self)
            }),
            r is Err ==> *final(self) == *old(self)
                && r == Err::<(), ErrorCode>(ErrorCode::InvalidApiKeyStatusTransition),
    {
        if matches!(self.status, ApiKeyStatus::Revoked) {
            return Err(ErrorCode::InvalidApiKeyStatusTransition);
        }
        self.status = ApiKeyStatus::Active;
        Ok(())
    }
}

} // verus!
