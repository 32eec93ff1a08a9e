//! Navigation: to an address or to a part of the page.

use vstd::prelude::*;

verus! {

/// Where to navigate.
#[derive(Debug, Clone, PartialEq, Eq)]
pub enum NavigateState {
    /// To the page at `url`; `attempt` counts the tries before this one.
    ToUrl { attempt: u8, url: String },
    /// To a part of the page that is loaded.
    ToElement(ValidElements),
}

pub enum NavigateStateView {
    ToUrl { attempt: u8, url: Seq<char> },
    ToElement(ValidElements),
}

impl View for NavigateState {
    type V = NavigateStateView;

    open spec fn view(&self) -> NavigateStateView {
        match self {
            NavigateState::ToUrl { attempt, url } => NavigateStateView::ToUrl {
                attempt: *attempt,
                url: url@,
            },
            NavigateState::ToElement(element) => NavigateStateView::ToElement(*element),
        }
    }
}

impl NavigateStateView {
    /// The same navigation on its try number `attempt`.
    pub open spec fn on_attempt(self, attempt: u8) -> NavigateStateView {
        match self {
            NavigateStateView::ToUrl { attempt: _, url } => NavigateStateView::ToUrl {
                attempt,
                url,
            },
            NavigateStateView::ToElement(element) => self,
        }
    }
}

impl NavigateState {
    /// The same navigation on its try number `attempt`.
    pub fn on_attempt(&self, attempt: u8) -> (state: NavigateState)
        ensures
            state@ == self@.on_attempt(attempt),
    {
        match self {
            NavigateState::ToUrl { attempt: _, url } => NavigateState::ToUrl {
                attempt,
                url: url.clone(),
            },
            NavigateState::ToElement(element) => NavigateState::ToElement(*element),
        }
    }
}

#[derive(Debug, Clone, Copy, PartialEq, Eq, Structural)]
pub enum ValidElements {
    Login(LoginElements),
    Job(JobElements),
    Application(ApplicationElements),
}

#[derive(Debug, Clone, Copy, PartialEq, Eq, Structural)]
pub enum LoginElements {
    LoginUsername,
    LoginPassword,
}

#[derive(Debug, Clone, Copy, PartialEq, Eq, Structural)]
pub enum JobElements {
    SearchInput,
    Listings,
    Description(DescriptionElements),
}

#[derive(Debug, Clone, Copy, PartialEq, Eq, Structural)]
pub enum DescriptionElements {
    ApplyButton,
    Submit,
}

#[derive(Debug, Clone, Copy, PartialEq, Eq, Structural)]
pub enum ApplicationElements {
    BulletPoint,
    TextField,
    NumberField,
    TickBox,
    ResumeUpload,
    /// The tick box that follows the company, which the configuration can
    /// switch off.
    FollowCompanyTickBox,
}

} // verus!
