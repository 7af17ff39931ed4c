use limitlayer_protocol::api_key::ApiKeyAccount;
use limitlayer_protocol::constants::{FLAG_BOT, FLAG_SPAM, FLAG_SUSPICIOUS_BURST, REPUTATION_MAX, REPUTATION_MIN};
use limitlayer_protocol::delegation::DelegatedUsageAccount;
use limitlayer_protocol::errors::ErrorCode;
use limitlayer_protocol::policy::RateLimitPolicy;
use limitlayer_protocol::protocol::ProtocolState;
use limitlayer_protocol::reputation::ReputationAccount;
use limitlayer_protocol::service::ServiceAccount;
use limitlayer_protocol::status::{ApiKeyStatus, ServiceStatus};
use limitlayer_protocol::status::ApiKeyStatus::{Active, Blocked, Revoked, Throttled};

fn fresh_protocol() -> ProtocolState {
    ProtocolState::initialize_protocol(1, 250, 2).unwrap()
}

fn fresh_reputation() -> ReputationAccount {
    ReputationAccount {
        subject: 0,
        global_score: 0,
        signal_count: 0,
        last_updated_ts: 0,
        flags: 0,
    }
}

#[test]
fn policy_create_validates_config() {
    assert_eq!(
        RateLimitPolicy::create_policy(7, 0, 60, 0, 1),
        Err(ErrorCode::InvalidRateLimitConfig)
    );
    assert_eq!(
        RateLimitPolicy::create_policy(7, 100, 0, 20, 1),
        Err(ErrorCode::InvalidRateLimitConfig)
    );
    assert_eq!(
        RateLimitPolicy::create_policy(7, 100, 60, 101, 1),
        Err(ErrorCode::InvalidRateLimitConfig)
    );
    let p = RateLimitPolicy::create_policy(7, 100, 60, 100, 1).unwrap();
    assert!(p.burst_limit <= p.requests_per_window);
}

#[test]
fn policy_update_revalidates_whole_record() {
    let mut p = RateLimitPolicy::create_policy(7, 100, 60, 20, 1).unwrap();
    // lowering the window budget below the existing burst ceiling must fail
    // and leave the record untouched
    let r = p.update_policy(Some(10), None, None, None);
    assert_eq!(r, Err(ErrorCode::InvalidRateLimitConfig));
    assert_eq!(p.requests_per_window, 100);
    assert_eq!(p.burst_limit, 20);
    // lowering both together is consistent and goes through
    assert_eq!(p.update_policy(Some(10), None, Some(10), None), Ok(()));
    assert_eq!(p.requests_per_window, 10);
    assert_eq!(p.burst_limit, 10);
    assert!(p.burst_limit <= p.requests_per_window);
}

#[test]
fn policy_update_partial_fields() {
    let mut p = RateLimitPolicy::create_policy(7, 100, 60, 20, 1).unwrap();
    assert_eq!(p.update_policy(None, Some(120), None, Some(3)), Ok(()));
    assert_eq!(p.requests_per_window, 100);
    assert_eq!(p.window_seconds, 120);
    assert_eq!(p.burst_limit, 20);
    assert_eq!(p.cost_per_request, 3);
}

#[test]
fn protocol_initialize_validates() {
    assert_eq!(
        ProtocolState::initialize_protocol(1, 10_001, 2),
        Err(ErrorCode::InvalidProtocolFee)
    );
    assert_eq!(ProtocolState::initialize_protocol(1, 250, 0), Err(ErrorCode::InvalidInput));
    let p = fresh_protocol();
    assert!(!p.paused);
    assert_eq!(p.service_count, 0);
    assert_eq!(p.api_key_count, 0);
}

#[test]
fn protocol_update_is_all_or_nothing() {
    let mut p = fresh_protocol();
    let r = p.update_protocol(Some(500), Some(0), Some(true));
    assert_eq!(r, Err(ErrorCode::InvalidInput));
    assert_eq!(p.protocol_fee_bps, 250);
    assert!(!p.paused);
    assert_eq!(p.update_protocol(Some(500), None, Some(true)), Ok(()));
    assert_eq!(p.protocol_fee_bps, 500);
    assert!(p.paused);
}

#[test]
fn service_create_checks_name_and_pause() {
    let mut protocol = fresh_protocol();
    let long_name = vec![b'a'; 65];
    let r = ServiceAccount::create_service(&mut protocol, 5, long_name, 9, 100);
    assert_eq!(r, Err(ErrorCode::ServiceNameTooLong));
    assert_eq!(protocol.service_count, 0);

    let s = ServiceAccount::create_service(&mut protocol, 5, vec![b'a'; 64], 9, 100).unwrap();
    assert_eq!(s.status, ServiceStatus::Active);
    assert_eq!(s.total_usage_units, 0);
    assert_eq!(protocol.service_count, 1);

    protocol.update_protocol(None, None, Some(true)).unwrap();
    let r2 = ServiceAccount::create_service(&mut protocol, 5, b"svc".to_vec(), 9, 100);
    assert_eq!(r2, Err(ErrorCode::ProtocolPaused));
    assert_eq!(protocol.service_count, 1);
}

#[test]
fn service_status_transitions() {
    let mut protocol = fresh_protocol();
    let mut s = ServiceAccount::create_service(&mut protocol, 5, b"svc".to_vec(), 9, 100).unwrap();
    assert_eq!(s.set_service_status(ServiceStatus::Paused), Ok(()));
    assert_eq!(s.set_service_status(ServiceStatus::Active), Ok(()));
    assert_eq!(
        s.set_service_status(ServiceStatus::Active),
        Err(ErrorCode::InvalidServiceStatusTransition)
    );
    assert_eq!(s.set_service_status(ServiceStatus::Disabled), Ok(()));
    assert_eq!(
        s.set_service_status(ServiceStatus::Active),
        Err(ErrorCode::InvalidServiceStatusTransition)
    );
    assert_eq!(s.update_service(Some(6), None), Err(ErrorCode::ServiceDisabled));
    assert_eq!(s.authority, 5);
}

#[test]
fn service_update_fields() {
    let mut protocol = fresh_protocol();
    let mut s = ServiceAccount::create_service(&mut protocol, 5, b"svc".to_vec(), 9, 100).unwrap();
    assert_eq!(s.update_service(Some(6), Some(10)), Ok(()));
    assert_eq!(s.authority, 6);
    assert_eq!(s.default_policy, 10);
}

#[test]
fn api_key_create_initializes_everything() {
    let mut protocol = fresh_protocol();
    let mut rep = fresh_reputation();
    let (key, usage) =
        ApiKeyAccount::create_api_key(&mut protocol, &mut rep, 7, 11, 9, 13, 3, 100).unwrap();
    assert_eq!(key.status, ApiKeyStatus::Active);
    assert_eq!(key.lifetime_usage, 0);
    assert_eq!(key.policy, 9);
    assert_eq!(usage, DelegatedUsageAccount::initial(3, 9, 100));
    assert!(!usage.delegated);
    assert_eq!(protocol.api_key_count, 1);
    // the shared reputation record was initialized for the owner
    assert_eq!(rep.subject, 11);
    assert_eq!(rep.global_score, 0);
    // a second key of the same owner leaves the record alone
    rep.global_score = -5;
    let _ = ApiKeyAccount::create_api_key(&mut protocol, &mut rep, 7, 11, 9, 13, 4, 101).unwrap();
    assert_eq!(rep.global_score, -5);
    assert_eq!(protocol.api_key_count, 2);
}

#[test]
fn api_key_create_rejected_while_paused() {
    let mut protocol = fresh_protocol();
    protocol.update_protocol(None, None, Some(true)).unwrap();
    let mut rep = fresh_reputation();
    let r = ApiKeyAccount::create_api_key(&mut protocol, &mut rep, 7, 11, 9, 13, 3, 100);
    assert_eq!(r, Err(ErrorCode::ProtocolPaused));
    assert_eq!(protocol.api_key_count, 0);
    assert_eq!(rep.subject, 0);
}

#[test]
fn api_key_status_transition_table_is_total() {
    // exactly the allowed pairs succeed; everything else fails
    let cases = [
        (Active, Active, false),
        (Active, Throttled, true),
        (Active, Blocked, true),
        (Active, Revoked, true),
        (Throttled, Active, true),
        (Throttled, Throttled, false),
        (Throttled, Blocked, true),
        (Throttled, Revoked, true),
        (Blocked, Active, true),
        (Blocked, Throttled, false),
        (Blocked, Blocked, true),
        (Blocked, Revoked, true),
        (Revoked, Active, false),
        (Revoked, Throttled, false),
        (Revoked, Blocked, false),
        (Revoked, Revoked, false),
    ];
    for (cur, req, allowed) in cases {
        let mut key = ApiKeyAccount {
            service: 7,
            owner: 11,
            policy: 9,
            reputation: 13,
            status: cur,
            lifetime_usage: 0,
            last_checkpoint_ts: 0,
        };
        let r = key.set_api_key_status(req);
        if allowed {
            assert_eq!(r, Ok(()), "{cur:?} -> {req:?} should be allowed");
            assert_eq!(key.status, req);
        } else {
            assert_eq!(
                r,
                Err(ErrorCode::InvalidApiKeyStatusTransition),
                "{cur:?} -> {req:?} should be rejected"
            );
            assert_eq!(key.status, cur);
        }
    }
}

#[test]
fn revoke_is_terminal() {
    let mut key = ApiKeyAccount {
        service: 7,
        owner: 11,
        policy: 9,
        reputation: 13,
        status: ApiKeyStatus::Active,
        lifetime_usage: 0,
        last_checkpoint_ts: 0,
    };
    assert_eq!(key.revoke_api_key(), Ok(()));
    assert_eq!(key.status, ApiKeyStatus::Revoked);
    assert_eq!(key.revoke_api_key(), Err(ErrorCode::InvalidApiKeyStatusTransition));
    assert_eq!(key.attach_policy_to_key(10), Err(ErrorCode::ApiKeyRevoked));
    assert_eq!(key.manual_unblock_key(), Err(ErrorCode::InvalidApiKeyStatusTransition));
    assert_eq!(key.policy, 9);
}

#[test]
fn attach_policy_rebinds_key() {
    let mut key = ApiKeyAccount {
        service: 7,
        owner: 11,
        policy: 9,
        reputation: 13,
        status: ApiKeyStatus::Active,
        lifetime_usage: 0,
        last_checkpoint_ts: 0,
    };
    assert_eq!(key.attach_policy_to_key(10), Ok(()));
    assert_eq!(key.policy, 10);
}

#[test]
fn reputation_signal_validates_severity() {
    let mut rep = ReputationAccount {
        subject: 11,
        global_score: 0,
        signal_count: 0,
        last_updated_ts: 0,
        flags: 0,
    };
    let r = rep.emit_abuse_signal(7, 11, FLAG_SUSPICIOUS_BURST, 100);
    assert_eq!(r, Err(ErrorCode::InvalidSeverity));
    assert_eq!(rep.signal_count, 0);
    let sig = rep.emit_abuse_signal(7, 10, FLAG_SUSPICIOUS_BURST, 100).unwrap();
    assert_eq!(sig.subject, 11);
    assert_eq!(sig.severity, 10);
    assert_eq!(sig.created_ts, 100);
    assert_eq!(rep.signal_count, 1);
    assert_eq!(rep.flags, FLAG_SUSPICIOUS_BURST);
    rep.emit_abuse_signal(7, 1, FLAG_SPAM | FLAG_BOT, 101).unwrap();
    assert_eq!(rep.flags, FLAG_SPAM | FLAG_BOT | FLAG_SUSPICIOUS_BURST);
    assert_eq!(rep.signal_count, 2);
}

#[test]
fn reputation_update_clamps() {
    let mut rep = ReputationAccount {
        subject: 11,
        global_score: 0,
        signal_count: 0,
        last_updated_ts: 0,
        flags: 0,
    };
    assert_eq!(rep.update_reputation(-2_000_000, 100), Ok(()));
    assert_eq!(rep.global_score, REPUTATION_MIN);
    assert_eq!(rep.update_reputation(4_000_000, 101), Ok(()));
    assert_eq!(rep.global_score, REPUTATION_MAX);
    assert_eq!(rep.update_reputation(-1, 102), Ok(()));
    assert_eq!(rep.global_score, REPUTATION_MAX - 1);
}

#[test]
fn reputation_update_rejects_raw_overflow() {
    let mut rep = ReputationAccount {
        subject: 11,
        global_score: i64::MAX,
        signal_count: 0,
        last_updated_ts: 0,
        flags: 0,
    };
    assert_eq!(rep.update_reputation(1, 100), Err(ErrorCode::ReputationOverflow));
    assert_eq!(rep.global_score, i64::MAX);
    rep.global_score = i64::MIN;
    assert_eq!(rep.update_reputation(-1, 100), Err(ErrorCode::ReputationOverflow));
}
