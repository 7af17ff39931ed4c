use limitlayer_protocol::api_key::ApiKeyAccount;
use limitlayer_protocol::delegation::DelegatedUsageAccount;
use limitlayer_protocol::errors::ErrorCode;
use limitlayer_protocol::policy::RateLimitPolicy;
use limitlayer_protocol::status::ApiKeyStatus;

fn test_policy() -> RateLimitPolicy {
    RateLimitPolicy::create_policy(7, 100, 60, 20, 1).unwrap()
}

fn key_with(status: ApiKeyStatus) -> ApiKeyAccount {
    ApiKeyAccount {
        service: 7,
        owner: 11,
        policy: 9,
        reputation: 13,
        status,
        lifetime_usage: 0,
        last_checkpoint_ts: 0,
    }
}

fn window_with_usage(usage: u64) -> DelegatedUsageAccount {
    let mut d = DelegatedUsageAccount::initial(3, 9, 1000);
    d.prepare_delegation(3, 9, 42, 1001).unwrap();
    let wide = RateLimitPolicy::create_policy(7, u64::MAX, 60, u64::MAX, 1).unwrap();
    d.record_usage_realtime(ApiKeyStatus::Active, &wide, usage, 1002).unwrap();
    d
}

#[test]
fn evaluation_thresholds() {
    // under the policy {requests_per_window: 100, burst_limit: 20}:
    // usage 15 -> Active, 60 -> Throttled, 100 -> Blocked
    let pol = test_policy();
    let mut key = key_with(ApiKeyStatus::Active);
    let d15 = window_with_usage(15);
    assert_eq!(key.evaluate_enforcement(&pol, &d15), Ok(ApiKeyStatus::Active));
    assert_eq!(key.status, ApiKeyStatus::Active);
    let d60 = window_with_usage(60);
    assert_eq!(key.evaluate_enforcement(&pol, &d60), Ok(ApiKeyStatus::Throttled));
    assert_eq!(key.status, ApiKeyStatus::Throttled);
    let d100 = window_with_usage(100);
    assert_eq!(key.evaluate_enforcement(&pol, &d100), Ok(ApiKeyStatus::Blocked));
    assert_eq!(key.status, ApiKeyStatus::Blocked);
}

#[test]
fn evaluation_boundaries() {
    let pol = test_policy();
    let mut key = key_with(ApiKeyStatus::Active);
    // exactly half the budget throttles; one below stays active
    let d49 = window_with_usage(49);
    assert_eq!(key.evaluate_enforcement(&pol, &d49), Ok(ApiKeyStatus::Active));
    let d50 = window_with_usage(50);
    assert_eq!(key.evaluate_enforcement(&pol, &d50), Ok(ApiKeyStatus::Throttled));
    // one below the budget still throttles; the budget itself blocks
    let d99 = window_with_usage(99);
    assert_eq!(key.evaluate_enforcement(&pol, &d99), Ok(ApiKeyStatus::Throttled));
    let d100 = window_with_usage(100);
    assert_eq!(key.evaluate_enforcement(&pol, &d100), Ok(ApiKeyStatus::Blocked));
}

#[test]
fn evaluation_never_clears_a_block() {
    let pol = test_policy();
    let mut key = key_with(ApiKeyStatus::Active);
    key.manual_block_key().unwrap();
    assert_eq!(key.status, ApiKeyStatus::Blocked);
    // low usage must not silently clear the manual block
    let d0 = window_with_usage(0);
    assert_eq!(key.evaluate_enforcement(&pol, &d0), Ok(ApiKeyStatus::Blocked));
    assert_eq!(key.status, ApiKeyStatus::Blocked);
    let d60 = window_with_usage(60);
    assert_eq!(key.evaluate_enforcement(&pol, &d60), Ok(ApiKeyStatus::Blocked));
    assert_eq!(key.status, ApiKeyStatus::Blocked);
    // only the explicit unblock does
    assert_eq!(key.manual_unblock_key(), Ok(()));
    assert_eq!(key.status, ApiKeyStatus::Active);
}

#[test]
fn evaluation_rejects_revoked_key() {
    let pol = test_policy();
    let mut key = key_with(ApiKeyStatus::Revoked);
    let d0 = window_with_usage(0);
    assert_eq!(key.evaluate_enforcement(&pol, &d0), Err(ErrorCode::ApiKeyRevoked));
    assert_eq!(key.status, ApiKeyStatus::Revoked);
}

#[test]
fn manual_block_rejects_revoked_key() {
    let mut key = key_with(ApiKeyStatus::Revoked);
    assert_eq!(key.manual_block_key(), Err(ErrorCode::InvalidApiKeyStatusTransition));
    assert_eq!(key.status, ApiKeyStatus::Revoked);
}
