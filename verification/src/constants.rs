use vstd::prelude::*;

verus! {

/// Longest accepted service name, in bytes.
pub const MAX_NAME_LEN: usize = 64;

/// Largest accepted protocol fee, in basis points.
pub const MAX_BPS: u16 = 10_000;

/// Largest accepted abuse-signal severity.
pub const MAX_SEVERITY: u8 = 10;

/// Shortest accepted accounting window, in seconds.
pub const MIN_WINDOW_SECONDS: u64 = 1;

/// Score a fresh reputation record starts from.
pub const DEFAULT_REPUTATION_SCORE: i64 = 0;

/// Lower clamp for reputation scores, preventing runaway arithmetic.
pub const REPUTATION_MIN: i64 = -1_000_000;

/// Upper clamp for reputation scores, preventing runaway arithmetic.
pub const REPUTATION_MAX: i64 = 1_000_000;

/// Abuse flag bit: spam traffic.
pub const FLAG_SPAM: u32 = 1;

/// Abuse flag bit: automated (bot) traffic.
pub const FLAG_BOT: u32 = 2;

/// Abuse flag bit: suspicious burst pattern.
pub const FLAG_SUSPICIOUS_BURST: u32 = 4;

/// Abuse flag bit: a manual block was applied.
pub const FLAG_MANUAL_BLOCK: u32 = 8;

} // verus!
