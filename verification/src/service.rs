use vstd::prelude::*;

use crate::constants::MAX_NAME_LEN;
use crate::errors::ErrorCode;
use crate::protocol::ProtocolState;
use crate::status::{service_transition_allowed, ServiceStatus};

verus! {

/// Durable record of one service: the organizational owner of a set of API
/// keys, with its aggregate usage.
#[derive(Clone, Debug, PartialEq, Eq)]
pub struct ServiceAccount {
    /// Account that administers this service.
    pub authority: u64,
    /// Display name, at most `MAX_NAME_LEN` bytes.
    pub name: Vec<u8>,
    /// Admission status of the service.
    pub status: ServiceStatus,
    /// Policy applied to keys that name no policy of their own.
    pub default_policy: u64,
    /// Usage units reconciled into this service over its lifetime.
    pub total_usage_units: u128,
    /// When the service was created, in seconds since the epoch.
    pub created_ts: i64,
}

impl ServiceAccount {
    /// A service record is well formed when its name fits the length bound.
    pub open spec fn valid(self) -> bool {
        self.name@.len() <= MAX_NAME_LEN
    }

    /// Validate the name, count the new service in the protocol record, and
    /// build the service: active, with no usage yet. While the protocol is
    /// paused, or when the name is too long, nothing is created and the
    /// protocol record is unchanged.
    pub fn create_service(
        protocol: &mut ProtocolState,
        authority: u64,
        name: Vec<u8>,
        default_policy: u64,
        now: i64,
    ) -> (r: Result<ServiceAccount, ErrorCode>)
        ensures
            r is Ok <==> !old(protocol).paused
                && name@.len() <= MAX_NAME_LEN
                && old(protocol).service_count < u64::MAX,
            r matches Ok(s) ==> {
                &&& s.authority == authority
                &&& s.name@ == name@
                &&& s.status is Active
                &&& s.default_policy == default_policy
                &&& s.total_usage_units == 0
                &&& s.created_ts == now
                &&& s.valid()
            },
            r is Ok ==> *final(protocol) == (ProtocolState {
                service_count: (old(protocol).service_count + 1) as u64,
                ..*old(protocol)
            }),
            r is Err ==> *final(protocol) == *old(protocol),
            old(protocol).paused ==> r == Err::<ServiceAccount, ErrorCode>(
                ErrorCode::ProtocolPaused),
            !old(protocol).paused && name@.len() > MAX_NAME_LEN
                ==> r == Err::<ServiceAccount, ErrorCode>(ErrorCode::ServiceNameTooLong),
            !old(protocol).paused && name@.len() <= MAX_NAME_LEN
                && old(protocol).service_count == u64::MAX
                ==> r == Err::<ServiceAccount, ErrorCode>(ErrorCode::MathOverflow),
    {
        if protocol.paused {
            return Err(ErrorCode::ProtocolPaused);
        }
        if name.len() > MAX_NAME_LEN {
            return Err(ErrorCode::ServiceNameTooLong);
        }
        if protocol.service_count == u64::MAX {
            return Err(ErrorCode::MathOverflow);
        }
        protocol.service_count = protocol.service_count + 1;
        Ok(ServiceAccount {
            authority,
            name,
            status: ServiceStatus::Active,
            default_policy,
            total_usage_units: 0,
            created_ts: now,
        })
    }

    /// Field-wise partial update of authority and default policy. A disabled
    /// service accepts no update and is left unchanged.
    pub fn update_service(
        &mut self,
        new_authority: Option<u64>,
        new_default_policy: Option<u64>,
    ) -> (r: Result<(), ErrorCode>)
        ensures
            r is Ok <==> !(old(self).status is Disabled),
            r is Ok ==> *final(self) == (ServiceAccount {
                authority: match new_authority {
                    Some(a) => a,
                    None => old(self).authority,
                },
                default_policy: match new_default_policy {
                    Some(p) => p,
                    None => old(self).default_policy,
                },
                ..*old(self)
            }),
            r is Err ==> *final(self) == *old(self)
                && r == Err::<(), ErrorCode>(ErrorCode::ServiceDisabled),
    {
        if matches!(self.status, ServiceStatus::Disabled) {
            return Err(ErrorCode::ServiceDisabled);
        }
        if let Some(a) = new_authority {
            self.authority = a;
        }
        if let Some(p) = new_default_policy {
            self.default_policy = p;
        }
        Ok(())
    }

    /// Apply a requested status transition. Exactly the pairs that
    /// `service_transition_allowed` names succeed; every other request
    /// fails and leaves the record unchanged.
    pub fn set_service_status(&mut self, new_status: ServiceStatus) -> (r: Result<(), ErrorCode>)
        ensures
            r is Ok <==> service_transition_allowed(old(self).status, new_status),
            r is Ok ==> *final(self) == (ServiceAccount { status: new_status, ..*old(self) }),
            r is Err ==> *final(self) == *old(self)
                && r == Err::<(), ErrorCode>(ErrorCode::InvalidServiceStatusTransition),
    {
        let allowed = match (self.status, new_status) {
            (ServiceStatus::Active, ServiceStatus::Paused) => true,
            (ServiceStatus::Paused, ServiceStatus::Active) => true,
            (_, ServiceStatus::Disabled) => true,
            _ => false,
        };
        if !allowed {
            return Err(ErrorCode::InvalidServiceStatusTransition);
        }
        self.status = new_status;
        Ok(())
    }
}

} // verus!
