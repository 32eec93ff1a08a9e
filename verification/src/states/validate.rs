//! Checks of a job before it is applied to.

use vstd::prelude::*;

verus! {

#[derive(Debug, Clone, Copy, PartialEq, Eq, Structural)]
pub enum ValidateState {
    CheckJob(JobValidation),
}

#[derive(Debug, Clone, Copy, PartialEq, Eq, Structural)]
pub struct JobValidation {}

#[derive(Debug, Clone, Copy, PartialEq, Eq, Structural)]
pub enum ValidationResult {
    ValidJob,
    InvalidJob(InvalidReason),
}

#[derive(Debug, Clone, Copy, PartialEq, Eq, Structural)]
pub enum InvalidReason {
    AlreadyApplied,
    NoEasyApply,
    JobClosed,
}

impl InvalidReason {
    /// Why the job is not applied to, in words.
    pub open spec fn text(self) -> Seq<char> {
        match self {
            InvalidReason::AlreadyApplied => "the job was applied to already"@,
            InvalidReason::NoEasyApply => "the job cannot be applied to on the site"@,
            InvalidReason::JobClosed => "the job is closed"@,
        }
    }

    /// Why the job is not applied to, in words.
    pub fn describe(&self) -> (text: &'static str)
        ensures
            text@ == self.text(),
    {
        match self {
            InvalidReason::AlreadyApplied => "the job was applied to already",
            InvalidReason::NoEasyApply => "the job cannot be applied to on the site",
            InvalidReason::JobClosed => "the job is closed",
        }
    }
}

/// The verdict on a job of which the page shows `easy_apply_buttons`
/// buttons to apply on the site, `applied_badges` badges of an earlier
/// application and `closed_indicators` signs that it is closed. A closed
/// job is refused as closed, whatever else shows; an open job that was
/// applied to already is refused for that; an open, new job is valid
/// exactly when it can be applied to on the site.
pub open spec fn verdict(easy_apply_buttons: usize, applied_badges: usize, closed_indicators: usize) -> ValidationResult {
    if closed_indicators > 0 {
        ValidationResult::InvalidJob(InvalidReason::JobClosed)
    } else if applied_badges > 0 {
        ValidationResult::InvalidJob(InvalidReason::AlreadyApplied)
    } else if easy_apply_buttons == 0 {
        ValidationResult::InvalidJob(InvalidReason::NoEasyApply)
    } else {
        ValidationResult::ValidJob
    }
}

impl JobValidation {
    /// The verdict on a job, from how many of each of the three signs the
    /// page shows.
    pub fn judge(&self, easy_apply_buttons: usize, applied_badges: usize, closed_indicators: usize) -> (result:
        ValidationResult)
        ensures
            result == verdict(easy_apply_buttons, applied_badges, closed_indicators),
    {
        if closed_indicators > 0 {
            ValidationResult::InvalidJob(InvalidReason::JobClosed)
        } else if applied_badges > 0 {
            ValidationResult::InvalidJob(InvalidReason::AlreadyApplied)
        } else if easy_apply_buttons == 0 {
            ValidationResult::InvalidJob(InvalidReason::NoEasyApply)
        } else {
            ValidationResult::ValidJob
        }
    }
}

} // verus!
