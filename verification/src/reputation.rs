use vstd::prelude::*;

use crate::constants::{DEFAULT_REPUTATION_SCORE, MAX_SEVERITY, REPUTATION_MAX, REPUTATION_MIN};
use crate::errors::ErrorCode;

verus! {

/// Reputation record for one key owner, shared across that owner's keys.
#[derive(Clone, Copy, Debug, PartialEq, Eq, Structural)]
pub struct ReputationAccount {
    /// Owner this record scores; 0 while the record is not yet initialized.
    pub subject: u64,
    /// Current score, clamped to `REPUTATION_MIN..=REPUTATION_MAX`.
    pub global_score: i64,
    /// How many abuse signals have been recorded against the subject.
    pub signal_count: u64,
    /// When the record was last mutated.
    pub last_updated_ts: i64,
    /// Union of the abuse category bits seen so far.
    pub flags: u32,
}

/// One recorded abuse report against a subject.
#[derive(Clone, Copy, Debug, PartialEq, Eq, Structural)]
pub struct AbuseSignal {
    /// Service that reported the abuse.
    pub reporter_service: u64,
    /// Owner the report is about.
    pub subject: u64,
    /// Severity of the report, at most `MAX_SEVERITY`.
    pub severity: u8,
    /// Category bit set of the report.
    pub category: u32,
    /// When the report was recorded.
    pub created_ts: i64,
}

/// A score pulled back into the allowed reputation band.
pub open spec fn clamped_score(score: int) -> int {
    if score < REPUTATION_MIN {
        REPUTATION_MIN as int
    } else if score > REPUTATION_MAX {
        REPUTATION_MAX as int
    } else {
        score
    }
}

impl ReputationAccount {
    /// A fresh reputation record for `subject`.
    pub open spec fn initial_spec(subject: u64, now: i64) -> ReputationAccount {
        ReputationAccount {
            subject,
            global_score: DEFAULT_REPUTATION_SCORE,
            signal_count: 0,
            last_updated_ts: now,
            flags: 0,
        }
    }

    /// Build a fresh reputation record for `subject`.
    pub fn initial(subject: u64, now: i64) -> (rep: ReputationAccount)
        ensures
            rep == ReputationAccount::initial_spec(subject, now),
    {
        ReputationAccount {
            subject,
            global_score: DEFAULT_REPUTATION_SCORE,
            signal_count: 0,
            last_updated_ts: now,
            flags: 0,
        }
    }

    /// Record one abuse report against this subject: the severity is
    /// validated, the signal counter advances with checked arithmetic, the
    /// category bits are folded into `flags`, and the stored signal is
    /// returned. A rejected report changes nothing.
    pub fn emit_abuse_signal(
        &mut self,
        reporter_service: u64,
        severity: u8,
        category: u32,
        now: i64,
    ) -> (r: Result<AbuseSignal, ErrorCode>)
        ensures
            r is Ok <==> severity <= MAX_SEVERITY && old(self).signal_count < u64::MAX,
            r is Ok ==> *final(self) == (ReputationAccount {
                signal_count: (old(self).signal_count + 1) as u64,
                last_updated_ts: now,
                flags: old(self).flags | category,
                ..*old(self)
            }),
            r matches Ok(sig) ==> sig == (AbuseSignal {
                reporter_service,
                subject: old(self).subject,
                severity,
                category,
                created_ts: now,
            }),
            r is Err ==> *final(self) == *old(self),
            severity > MAX_SEVERITY ==> r == Err::<AbuseSignal, ErrorCode>(
                ErrorCode::InvalidSeverity),
            severity <= MAX_SEVERITY && old(self).signal_count == u64::MAX
                ==> r == Err::<AbuseSignal, ErrorCode>(ErrorCode::MathOverflow),
    {
        if severity > MAX_SEVERITY {
            return Err(ErrorCode::InvalidSeverity);
        }
        if self.signal_count == u64::MAX {
            return Err(ErrorCode::MathOverflow);
        }
        self.signal_count = self.signal_count + 1;
        self.last_updated_ts = now;
        self.flags = self.flags | category;
        Ok(AbuseSignal {
            reporter_service,
            subject: self.subject,
            severity,
            category,
            created_ts: now,
        })
    }

    /// Shift the score by `delta` and clamp the result into the allowed
    /// band. Only an addition that overflows the raw 64-bit score is
    /// rejected, leaving the record unchanged.
    pub fn update_reputation(&mut self, delta: i64, now: i64) -> (r: Result<(), ErrorCode>)
        ensures
            r is Ok <==> i64::MIN <= old(self).global_score + delta <= i64::MAX,
            r is Ok ==> *final(self) == (ReputationAccount {
                global_score: clamped_score(old(self).global_score + delta) as i64,
                last_updated_ts: now,
                ..*old(self)
            }),
            r is Err ==> *final(self) == *old(self)
                && r == Err::<(), ErrorCode>(ErrorCode::ReputationOverflow),
    {
        if delta > 0 && self.global_score > i64::MAX - delta {
            return Err(ErrorCode::ReputationOverflow);
        }
        if delta < 0 && self.global_score < i64::MIN - delta {
            return Err(ErrorCode::ReputationOverflow);
        }
        let mut score = self.global_score + delta;
        if score < REPUTATION_MIN {
            score = REPUTATION_MIN;
        }
        if score > REPUTATION_MAX {
            score = REPUTATION_MAX;
        }
        self.global_score = score;
        self.last_updated_ts = now;
        Ok(())
    }
}

} // verus!
