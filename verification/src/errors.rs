use vstd::prelude::*;

verus! {

/// Typed failure taxonomy raised by every mutating operation in the crate.
///
/// Each error identifies the violated precondition exactly, so that a caller
/// can distinguish "try later" failures (capacity, overflow) from requests
/// that can never succeed (validation, terminal-state violations).
#[derive(Clone, Copy, Debug, PartialEq, Eq, Structural)]
pub enum ErrorCode {
    // Generic
    Unauthorized,
    InvalidInput,
    MathOverflow,
    ProtocolPaused,
    // Protocol
    ProtocolAlreadyInitialized,
    InvalidProtocolFee,
    // Service
    ServiceNameTooLong,
    InvalidService,
    ServiceDisabled,
    InvalidServiceStatusTransition,
    // Policy
    InvalidPolicy,
    PolicyDisabled,
    InvalidRateLimitConfig,
    // API key
    InvalidApiKey,
    ApiKeyInactive,
    ApiKeyBlocked,
    ApiKeyRevoked,
    InvalidApiKeyStatusTransition,
    // Delegation
    AlreadyDelegated,
    NotDelegated,
    InvalidDelegationState,
    InvalidExecutionRegion,
    DelegationRequiresCheckpoint,
    // Usage / rate limiting
    RateLimitExceeded,
    BurstLimitExceeded,
    InvalidWindow,
    WindowNotFinished,
    InvalidCheckpointSequence,
    CheckpointRegression,
    // Enforcement
    ManualBlockActive,
    EnforcementDataMissing,
    // Abuse / reputation
    InvalidSeverity,
    DuplicateAbuseSignal,
    ReputationTooLow,
    ReputationOverflow,
}

} // verus!
