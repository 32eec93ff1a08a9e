//! The pause of a workflow.

use vstd::prelude::*;

verus! {

/// Why the workflow pauses, for how long it is suggested to wait, and
/// whether it can go on afterwards.
#[derive(Debug, Clone, PartialEq, Eq)]
pub struct PausedState {
    pub reason: String,
    pub duration_secs: u64,
    pub can_resume: bool,
}

pub struct PausedStateView {
    pub reason: Seq<char>,
    pub duration_secs: u64,
    pub can_resume: bool,
}

impl View for PausedState {
    type V = PausedStateView;

    open spec fn view(&self) -> PausedStateView {
        PausedStateView {
            reason: self.reason@,
            duration_secs: self.duration_secs,
            can_resume: self.can_resume,
        }
    }
}

} // verus!
