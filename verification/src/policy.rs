use vstd::prelude::*;

use crate::constants::MIN_WINDOW_SECONDS;
use crate::errors::ErrorCode;

verus! {

/// Rate-limit configuration for one or more API keys. Immutable between
/// updates; every create and every update re-validates the whole record.
#[derive(Clone, Copy, Debug, PartialEq, Eq, Structural)]
pub struct RateLimitPolicy {
    /// Service that owns this policy.
    pub service: u64,
    /// Requests admitted per accounting window.
    pub requests_per_window: u64,
    /// Length of the accounting window, in seconds.
    pub window_seconds: u64,
    /// Ceiling on instantaneous spikes, never above `requests_per_window`.
    pub burst_limit: u64,
    /// Cost charged per admitted request, in usage units.
    pub cost_per_request: u64,
}

/// A policy configuration is valid when the window admits at least one
/// request, the window is at least the minimum length, and the burst
/// ceiling does not exceed the window budget.
pub open spec fn policy_config_valid(
    requests_per_window: u64,
    window_seconds: u64,
    burst_limit: u64,
) -> bool {
    &&& requests_per_window > 0
    &&& window_seconds >= MIN_WINDOW_SECONDS
    &&& burst_limit <= requests_per_window
}

impl RateLimitPolicy {
    /// The record's own validity: `burst_limit <= requests_per_window` and
    /// the other configuration bounds.
    pub open spec fn valid(self) -> bool {
        policy_config_valid(self.requests_per_window, self.window_seconds, self.burst_limit)
    }

    /// The record that a field-wise partial update would produce; fields
    /// left `None` keep their current value.
    pub open spec fn merged_with(
        self,
        requests_per_window: Option<u64>,
        window_seconds: Option<u64>,
        burst_limit: Option<u64>,
        cost_per_request: Option<u64>,
    ) -> RateLimitPolicy {
        RateLimitPolicy {
            service: self.service,
            requests_per_window: match requests_per_window {
                Some(v) => v,
                None => self.requests_per_window,
            },
            window_seconds: match window_seconds {
                Some(v) => v,
                None => self.window_seconds,
            },
            burst_limit: match burst_limit {
                Some(v) => v,
                None => self.burst_limit,
            },
            cost_per_request: match cost_per_request {
                Some(v) => v,
                None => self.cost_per_request,
            },
        }
    }

    /// Validate a configuration and build the policy record for `service`.
    /// Rejects any configuration that is not valid, creating nothing.
    pub fn create_policy(
        service: u64,
        requests_per_window: u64,
        window_seconds: u64,
        burst_limit: u64,
        cost_per_request: u64,
    ) -> (r: Result<RateLimitPolicy, ErrorCode>)
        ensures
            r is Ok <==> policy_config_valid(requests_per_window, window_seconds, burst_limit),
            r matches Ok(p) ==> p == (RateLimitPolicy {
                service,
                requests_per_window,
                window_seconds,
                burst_limit,
                cost_per_request,
            }),
            r matches Err(e) ==> e == ErrorCode::InvalidRateLimitConfig,
            r matches Ok(p) ==> p.valid(),
    {
        if requests_per_window == 0 {
            return Err(ErrorCode::InvalidRateLimitConfig);
        }
        if window_seconds < MIN_WINDOW_SECONDS {
            return Err(ErrorCode::InvalidRateLimitConfig);
        }
        if burst_limit > requests_per_window {
            return Err(ErrorCode::InvalidRateLimitConfig);
        }
        Ok(RateLimitPolicy {
            service,
            requests_per_window,
            window_seconds,
            burst_limit,
            cost_per_request,
        })
    }

    /// Field-wise partial update. The whole merged record is re-validated,
    /// not just the changed fields, so lowering `requests_per_window` below
    /// an existing `burst_limit` is rejected; a rejected update leaves the
    /// prior record unchanged.
    pub fn update_policy(
        &mut self,
        requests_per_window: Option<u64>,
        window_seconds: Option<u64>,
        burst_limit: Option<u64>,
        cost_per_request: Option<u64>,
    ) -> (r: Result<(), ErrorCode>)
        ensures
            r is Ok <==> old(self).merged_with(
                requests_per_window, window_seconds, burst_limit, cost_per_request).valid(),
            r is Ok ==> *final(self) == old(self).merged_with(
                requests_per_window, window_seconds, burst_limit, cost_per_request),
            r is Err ==> *final(self) == *old(self),
            r matches Err(e) ==> e == ErrorCode::InvalidRateLimitConfig,
            old(self).valid() ==> final(self).valid(),
    {
        let new_requests = match requests_per_window {
            Some(v) => v,
            None => self.requests_per_window,
        };
        let new_window = match window_seconds {
            Some(v) => v,
            None => self.window_seconds,
        };
        let new_burst = match burst_limit {
            Some(v) => v,
            None => self.burst_limit,
        };
        let new_cost = match cost_per_request {
            Some(v) => v,
            None => self.cost_per_request,
        };
        if new_requests == 0 || new_window < MIN_WINDOW_SECONDS || new_burst > new_requests {
            return Err(ErrorCode::InvalidRateLimitConfig);
        }
        self.requests_per_window = new_requests;
        self.window_seconds = new_window;
        self.burst_limit = new_burst;
        self.cost_per_request = new_cost;
        Ok(())
    }
}

} // verus!
