//! Input rules of clinical-trial records.
use vstd::prelude::*;
use crate::text::same_text;

verus! {

#[derive(Clone, Copy, Debug, PartialEq, Eq, Structural)]
pub enum Error {
    TrialNotFound,
    Unauthorized,
    InvalidStudyPhase,
    InvalidDate,
    InvalidDateRange,
    CriteriaNotFound,
    EnrollmentNotFound,
    NotEligible,
    DuplicateEnrollment,
    EnrollmentFull,
    InvalidSeverity,
    InvalidCausality,
    AlreadyWithdrawn,
    InvalidWithdrawalReason,
    VisitNotFound,
    EventNotFound,
    TrialNotActive,
}

#[derive(Clone, Copy, Debug, PartialEq, Eq, Structural)]
pub enum TrialStatus {
    Active,
    Suspended,
    Completed,
}

#[derive(Clone, Copy, Debug, PartialEq, Eq, Structural)]
pub enum EnrollmentStatus {
    Active,
    Withdrawn,
    Completed,
}

/// Whether `name` is one of `names`.
fn one_of(name: &str, names: &[&str]) -> (r: bool)
    ensures
        r == exists|i: int| 0 <= i < names@.len() && name@ == (#[trigger] names@[i])@,
{
    let mut i: usize = 0;
    while i < names.len()
        invariant
            i <= names@.len(),
            forall|j: int| 0 <= j < i ==> name@ != (#[trigger] names@[j])@,
        decreases names@.len() - i,
    {
        if same_text(name, names[i]) {
            return true;
        }
        i = i + 1;
    }
    false
}

pub open spec fn is_study_phase(phase: Seq<char>) -> bool {
    phase == "phase1"@ || phase == "phase2"@ || phase == "phase3"@ || phase == "phase4"@ || phase
        == "pilot"@
}

pub open spec fn is_severity(severity: Seq<char>) -> bool {
    severity == "mild"@ || severity == "moderate"@ || severity == "severe"@ || severity
        == "critical"@
}

pub open spec fn is_causality(causality: Seq<char>) -> bool {
    causality == "unrelated"@ || causality == "unlikely"@ || causality == "possible"@
        || causality == "probable"@ || causality == "definite"@
}

pub open spec fn is_withdrawal_reason(reason: Seq<char>) -> bool {
    reason == "adverse"@ || reason == "consent"@ || reason == "protocol"@ || reason == "lost"@
        || reason == "complete"@ || reason == "other"@
}

/// Accepts the study phases `phase1` to `phase4` and `pilot`.
pub fn validate_study_phase(phase: &str) -> (r: Result<(), Error>)
    ensures
        r == if is_study_phase(phase@) {
            Ok::<(), Error>(())
        } else {
            Err(Error::InvalidStudyPhase)
        },
{
    let phases = ["phase1", "phase2", "phase3", "phase4", "pilot"];
    if one_of(phase, &phases) {
        Ok(())
    } else {
        Err(Error::InvalidStudyPhase)
    }
}

/// Accepts the severities `mild`, `moderate`, `severe` and `critical`.
pub fn validate_severity(severity: &str) -> (r: Result<(), Error>)
    ensures
        r == if is_severity(severity@) {
            Ok::<(), Error>(())
        } else {
            Err(Error::InvalidSeverity)
        },
{
    let severities = ["mild", "moderate", "severe", "critical"];
    if one_of(severity, &severities) {
        Ok(())
    } else {
        Err(Error::InvalidSeverity)
    }
}

/// Accepts the causality assessments `unrelated`, `unlikely`, `possible`, `probable` and
/// `definite`.
pub fn validate_causality(causality: &str) -> (r: Result<(), Error>)
    ensures
        r == if is_causality(causality@) {
            Ok::<(), Error>(())
        } else {
            Err(Error::InvalidCausality)
        },
{
    let causalities = ["unrelated", "unlikely", "possible", "probable", "definite"];
    if one_of(causality, &causalities) {
        Ok(())
    } else {
        Err(Error::InvalidCausality)
    }
}

/// Rejects a date later than `now`, the time of the ledger.
pub fn validate_date_not_future(date: u64, now: u64) -> (r: Result<(), Error>)
    ensures
        r == if date > now {
            Err::<(), Error>(Error::InvalidDate)
        } else {
            Ok(())
        },
{
    if date > now {
        Err(Error::InvalidDate)
    } else {
        Ok(())
    }
}

/// Accepts a range whose start comes strictly before its end.
pub fn validate_date_range(start_date: u64, end_date: u64) -> (r: Result<(), Error>)
    ensures
        r == if start_date >= end_date {
            Err::<(), Error>(Error::InvalidDateRange)
        } else {
            Ok(())
        },
{
    if start_date >= end_date {
        Err(Error::InvalidDateRange)
    } else {
        Ok(())
    }
}

/// Accepts the withdrawal reasons `adverse`, `consent`, `protocol`, `lost`, `complete` and
/// `other`.
pub fn validate_withdrawal_reason(reason: &str) -> (r: Result<(), Error>)
    ensures
        r == if is_withdrawal_reason(reason@) {
            Ok::<(), Error>(())
        } else {
            Err(Error::InvalidWithdrawalReason)
        },
{
    let reasons = ["adverse", "consent", "protocol", "lost", "complete", "other"];
    if one_of(reason, &reasons) {
        Ok(())
    } else {
        Err(Error::InvalidWithdrawalReason)
    }
}

} // verus!
