//! The workflow state machine: its states, the route it walks, and the
//! controller that computes each next state from the outcome of the last.

pub mod action;
pub mod controller;
pub mod error_state;
pub mod key;
pub mod navigate;
pub mod paused;
pub mod search;
pub mod validate;

use vstd::prelude::*;

pub use action::{ActionKind, ActionState, ElementRef};
pub use controller::{
    route_is_well_formed,
    start_state_machine,
    step_outcome,
    verdict_outcome,
    WorkflowController,
};
pub use error_state::ErrorState;
pub use key::Key;
pub use navigate::{
    ApplicationElements,
    DescriptionElements,
    JobElements,
    LoginElements,
    NavigateState,
    ValidElements,
};
pub use paused::PausedState;
pub use search::{FindBy, JobListingSearch, SearchState};
pub use validate::{InvalidReason, JobValidation, ValidateState, ValidationResult};

use action::{ActionKindView, ActionStateView};
use navigate::NavigateStateView;
use paused::PausedStateView;
use search::SearchStateView;

verus! {

/// The state of a workflow. Exactly one is current at a time.
#[derive(Debug, Clone, PartialEq, Eq)]
pub enum States {
    /// Searching the page.
    Search(SearchState),
    /// Navigating to an address or to a part of the page.
    Navigate(NavigateState),
    /// Acting on an element.
    Action(ActionState),
    /// Checking a job.
    Validate(ValidateState),
    /// The bound on the iterations was reached: a stop that was asked
    /// for, not an error.
    MaxIterationsReached,
    /// Waiting, perhaps for the user.
    Paused(PausedState),
    /// Something went wrong that the workflow cannot recover from.
    Error,
}

pub enum StatesView {
    Search(SearchStateView),
    Navigate(NavigateStateView),
    Action(ActionStateView),
    Validate(ValidateState),
    MaxIterationsReached,
    Paused(PausedStateView),
    Error,
}

impl View for States {
    type V = StatesView;

    open spec fn view(&self) -> StatesView {
        match self {
            States::Search(state) => StatesView::Search(state@),
            States::Navigate(state) => StatesView::Navigate(state@),
            States::Action(state) => StatesView::Action(state@),
            States::Validate(state) => StatesView::Validate(*state),
            States::MaxIterationsReached => StatesView::MaxIterationsReached,
            States::Paused(state) => StatesView::Paused(state@),
            States::Error => StatesView::Error,
        }
    }
}

impl StatesView {
    /// Whether the state ends the workflow.
    pub open spec fn is_terminal(self) -> bool {
        self is MaxIterationsReached || self is Error
    }
}

impl States {
    /// Whether the state ends the workflow.
    pub fn is_terminal(&self) -> (terminal: bool)
        ensures
            terminal == self@.is_terminal(),
    {
        match self {
            States::MaxIterationsReached => true,
            States::Error => true,
            _ => false,
        }
    }
}

/// A step of a route: a state before it is entered. An action names no
/// element yet; it is given the element that is located when the step is
/// entered.
#[derive(Debug, Clone, PartialEq, Eq)]
pub enum Step {
    Navigate(NavigateState),
    Search(SearchState),
    Action(ActionKind),
    Validate(ValidateState),
}

pub enum StepView {
    Navigate(NavigateStateView),
    Search(SearchStateView),
    Action(ActionKindView),
    Validate(ValidateState),
}

impl View for Step {
    type V = StepView;

    open spec fn view(&self) -> StepView {
        match self {
            Step::Navigate(state) => StepView::Navigate(state@),
            Step::Search(state) => StepView::Search(state@),
            Step::Action(kind) => StepView::Action(kind@),
            Step::Validate(state) => StepView::Validate(*state),
        }
    }
}

impl StepView {
    /// The number of the first try of the step: the one a navigation to an
    /// address gives, otherwise zero.
    pub open spec fn first_attempt(self) -> u8 {
        match self {
            StepView::Navigate(NavigateStateView::ToUrl { attempt, url }) => attempt,
            _ => 0,
        }
    }

    /// The state in which the step is carried out on its try number
    /// `attempt`, with `element` located. An action with no element
    /// located cannot be carried out: its state is `Error`.
    pub open spec fn enter(self, attempt: u8, element: Option<Seq<char>>) -> StatesView {
        match self {
            StepView::Navigate(state) => StatesView::Navigate(state.on_attempt(attempt)),
            StepView::Search(state) => StatesView::Search(state),
            StepView::Action(kind) => match element {
                Some(element) => StatesView::Action(kind.on(element)),
                None => StatesView::Error,
            },
            StepView::Validate(state) => StatesView::Validate(state),
        }
    }
}

impl Step {
    fn first_attempt(&self) -> (attempt: u8)
        ensures
            attempt == self@.first_attempt(),
    {
        match self {
            Step::Navigate(NavigateState::ToUrl { attempt, url }) => *attempt,
            _ => 0,
        }
    }

    fn enter(&self, attempt: u8, element: &Option<ElementRef>) -> (state: States)
        ensures
            state@ == self@.enter(attempt, element_view(*element)),
    {
        match self {
            Step::Navigate(state) => States::Navigate(state.on_attempt(attempt)),
            Step::Search(state) => States::Search(state.duplicate()),
            Step::Action(kind) => match element {
                Some(element) => States::Action(kind.on(element)),
                None => States::Error,
            },
            Step::Validate(state) => States::Validate(*state),
        }
    }
}

/// The view of an element that may be there.
pub open spec fn element_view(element: Option<ElementRef>) -> Option<Seq<char>> {
    match element {
        Some(element) => Some(element@),
        None => None,
    }
}

/// What carrying out a state came to.
#[derive(Debug, Clone, PartialEq, Eq)]
pub enum StepOutcome {
    /// It was carried out.
    Completed,
    /// It was carried out and found this element.
    Located(ElementRef),
    /// It failed in a way the workflow can wait out or a user can mend.
    Recoverable { reason: String, wait_secs: u64, resumable: bool },
    /// It failed for good.
    Unrecoverable,
}

pub enum StepOutcomeView {
    Completed,
    Located(Seq<char>),
    Recoverable { reason: Seq<char>, wait_secs: u64, resumable: bool },
    Unrecoverable,
}

impl View for StepOutcome {
    type V = StepOutcomeView;

    open spec fn view(&self) -> StepOutcomeView {
        match self {
            StepOutcome::Completed => StepOutcomeView::Completed,
            StepOutcome::Located(element) => StepOutcomeView::Located(element@),
            StepOutcome::Recoverable { reason, wait_secs, resumable } => StepOutcomeView::Recoverable {
                reason: reason@,
                wait_secs: *wait_secs,
                resumable: *resumable,
            },
            StepOutcome::Unrecoverable => StepOutcomeView::Unrecoverable,
        }
    }
}

/// How a run of the workflow ended.
#[derive(Debug, Clone, Copy, PartialEq, Eq, Structural)]
pub enum Outcome {
    /// It ran until the bound on its iterations.
    Completed,
    /// It paused and cannot go on by itself.
    Paused,
    /// It ended in the state `Error`.
    Error,
}

} // verus!
