use vstd::prelude::*;

use crate::delegation::DelegatedUsageAccount;
use crate::errors::ErrorCode;
use crate::protocol::ProtocolState;
use crate::reputation::ReputationAccount;
use crate::status::{api_key_transition_allowed, ApiKeyStatus};

verus! {

/// Durable record of one API key: the metered subject.
#[derive(Clone, Copy, Debug, PartialEq, Eq, Structural)]
pub struct ApiKeyAccount {
    /// Service that issued the key.
    pub service: u64,
    /// Consumer the key was issued to.
    pub owner: u64,
    /// Policy the key is metered against.
    pub policy: u64,
    /// Reputation record of the key's owner.
    pub reputation: u64,
    /// Admission status; `Revoked` is terminal.
    pub status: ApiKeyStatus,
    /// Usage units reconciled into this key over its lifetime; never
    /// decreases.
    pub lifetime_usage: u128,
    /// When a checkpoint last folded usage into this record.
    pub last_checkpoint_ts: i64,
}

impl ApiKeyAccount {
    /// Count the new key in the protocol record and build the key with its
    /// usage window: active, nothing metered yet, base-owned. The owner's
    /// reputation record is initialized on first use (its subject still
    /// unset) and shared untouched afterwards. While the protocol is
    /// paused nothing is created and nothing changes.
    pub fn create_api_key(
        protocol: &mut ProtocolState,
        reputation: &mut ReputationAccount,
        service: u64,
        owner: u64,
        policy: u64,
        reputation_id: u64,
        api_key_id: u64,
        now: i64,
    ) -> (r: Result<(ApiKeyAccount, DelegatedUsageAccount), ErrorCode>)
        ensures
            r is Ok <==> !old(protocol).paused && old(protocol).api_key_count < u64::MAX,
            r matches Ok(out) ==> out.0 == (ApiKeyAccount {
                service,
                owner,
                policy,
                reputation: reputation_id,
                status: ApiKeyStatus::Active,
                lifetime_usage: 0,
                last_checkpoint_ts: 0,
            }),
            r matches Ok(out) ==> out.1 == DelegatedUsageAccount::initial_spec(
                api_key_id, policy, now),
            r is Ok ==> *final(protocol) == (ProtocolState {
                api_key_count: (old(protocol).api_key_count + 1) as u64,
                ..*old(protocol)
            }),
            r is Ok && old(reputation).subject == 0 ==> *final(reputation)
                == ReputationAccount::initial_spec(owner, now),
            r is Ok && old(reputation).subject != 0 ==> *final(reputation) == *old(reputation),
            r is Err ==> *final(protocol) == *old(protocol)
                && *final(reputation) == *old(reputation),
            old(protocol).paused ==> r == Err::<(ApiKeyAccount, DelegatedUsageAccount), ErrorCode>(
                ErrorCode::ProtocolPaused),
            !old(protocol).paused && old(protocol).api_key_count == u64::MAX
                ==> r == Err::<(ApiKeyAccount, DelegatedUsageAccount), ErrorCode>(
                    ErrorCode::MathOverflow),
    {
        if protocol.paused {
            return Err(ErrorCode::ProtocolPaused);
        }
        if protocol.api_key_count == u64::MAX {
            return Err(ErrorCode::MathOverflow);
        }
        protocol.api_key_count = protocol.api_key_count + 1;
        if reputation.subject == 0 {
            *reputation = ReputationAccount::initial(owner, now);
        }
        let api_key = ApiKeyAccount {
            service,
            owner,
            policy,
            reputation: reputation_id,
            status: ApiKeyStatus::Active,
            lifetime_usage: 0,
            last_checkpoint_ts: 0,
        };
        let delegated_usage = DelegatedUsageAccount::initial(api_key_id, policy, now);
        Ok((api_key, delegated_usage))
    }

    /// Revoke the key, the terminal transition: nothing leaves `Revoked`,
    /// so revoking an already revoked key is itself rejected.
    pub fn revoke_api_key(&mut self) -> (r: Result<(), ErrorCode>)
        ensures
            r is Ok <==> !(old(self).status is Revoked),
            r is Ok ==> *final(self) == (ApiKeyAccount {
                status: ApiKeyStatus::Revoked,
                ..*old(self)
            }),
            r is Err ==> *final(self) == *old(self)
                && r == Err::<(), ErrorCode>(ErrorCode::InvalidApiKeyStatusTransition),
    {
        if matches!(self.status, ApiKeyStatus::Revoked) {
            return Err(ErrorCode::InvalidApiKeyStatusTransition);
        }
        self.status = ApiKeyStatus::Revoked;
        Ok(())
    }

    /// Apply a requested status transition. Exactly the pairs that
    /// `api_key_transition_allowed` names succeed; every other request —
    /// in particular anything out of `Revoked` — fails and leaves the
    /// record unchanged.
    pub fn set_api_key_status(&mut self, new_status: ApiKeyStatus) -> (r: Result<(), ErrorCode>)
        ensures
            r is Ok <==> api_key_transition_allowed(old(self).status, new_status),
            r is Ok ==> *final(self) == (ApiKeyAccount { status: new_status, ..*old(self) }),
            r is Err ==> *final(self) == *old(self)
                && r == Err::<(), ErrorCode>(ErrorCode::InvalidApiKeyStatusTransition),
    {
        if matches!(self.status, ApiKeyStatus::Revoked) {
            return Err(ErrorCode::InvalidApiKeyStatusTransition);
        }
        let allowed = match (self.status, new_status) {
            (ApiKeyStatus::Active, ApiKeyStatus::Throttled) => true,
            (ApiKeyStatus::Throttled, ApiKeyStatus::Active) => true,
            (_, ApiKeyStatus::Blocked) => true,
            (ApiKeyStatus::Blocked, ApiKeyStatus::Active) => true,
            (_, ApiKeyStatus::Revoked) => true,
            _ => false,
        };
        if !allowed {
            return Err(ErrorCode::InvalidApiKeyStatusTransition);
        }
        self.status = new_status;
        Ok(())
    }

    /// Bind the key to `policy`. A revoked key accepts no mutation.
    pub fn attach_policy_to_key(&mut self, policy: u64) -> (r: Result<(), ErrorCode>)
        ensures
            r is Ok <==> !(old(self).status is Revoked),
            r is Ok ==> *final(self) == (ApiKeyAccount { policy, ..*old(self) }),
            r is Err ==> *final(self) == *old(self)
                && r == Err::<(), ErrorCode>(ErrorCode::ApiKeyRevoked),
    {
        if matches!(self.status, ApiKeyStatus::Revoked) {
            return Err(ErrorCode::ApiKeyRevoked);
        }
        self.policy = policy;
        Ok(())
    }
}

} // verus!
