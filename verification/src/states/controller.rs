//! The controller of a workflow: the route it walks, how each outcome
//! leads to the next state, and the bound on its iterations.

use vstd::prelude::*;
use vstd::string::*;

use crate::error::{Error, ErrorView};
use crate::pre_fsm::command::{StepResult, StepResultView};
use crate::states::action::ElementRef;
use crate::states::navigate::{NavigateState, NavigateStateView};
use crate::states::paused::{PausedState, PausedStateView};
use crate::states::search::{JobListingSearch, SearchState, SearchStateView};
use crate::states::validate::ValidationResult;
use crate::states::{
    element_view,
    Outcome,
    States,
    StatesView,
    Step,
    StepOutcome,
    StepOutcomeView,
    StepView,
};
use crate::text::views;

verus! {

/// The seconds it is suggested to wait before a step that failed is tried
/// again.
pub open spec fn retry_wait_secs() -> u64 {
    5
}

/// What carrying out `state` came to, given what the session answered.
///
/// An element that was found is handed on. A failure of an action is not
/// recoverable: what was typed or pressed in part cannot be taken back.
/// Any other failure is one of the protocol and is taken to pass: the
/// workflow pauses for a few seconds and can be resumed. Every other
/// answer means that the state was carried out.
pub open spec fn outcome_of(state: StatesView, result: StepResultView) -> StepOutcomeView {
    match result {
        StepResultView::Found(element) => StepOutcomeView::Located(element),
        StepResultView::Failed(cause) => if state is Action {
            StepOutcomeView::Unrecoverable
        } else {
            StepOutcomeView::Recoverable {
                reason: cause,
                wait_secs: retry_wait_secs(),
                resumable: true,
            }
        },
        _ => StepOutcomeView::Completed,
    }
}

/// What carrying out `state` came to, given what the session answered.
pub fn step_outcome(state: &States, result: &StepResult) -> (outcome: StepOutcome)
    ensures
        outcome@ == outcome_of(state@, result@),
{
    match result {
        StepResult::Found(element) => StepOutcome::Located(element.duplicate()),
        StepResult::Failed(cause) => match state {
            States::Action(_) => StepOutcome::Unrecoverable,
            _ => StepOutcome::Recoverable { reason: cause.clone(), wait_secs: 5, resumable: true },
        },
        _ => StepOutcome::Completed,
    }
}

/// What the check of a job came to: a valid job lets the workflow go on;
/// a job that is not to be applied to pauses it, with the reason in words,
/// and the pause cannot be resumed.
pub open spec fn outcome_of_verdict(verdict: ValidationResult) -> StepOutcomeView {
    match verdict {
        ValidationResult::ValidJob => StepOutcomeView::Completed,
        ValidationResult::InvalidJob(reason) => StepOutcomeView::Recoverable {
            reason: reason.text(),
            wait_secs: 0,
            resumable: false,
        },
    }
}

/// What the check of a job came to.
pub fn verdict_outcome(verdict: ValidationResult) -> (outcome: StepOutcome)
    ensures
        outcome@ == outcome_of_verdict(verdict),
{
    match verdict {
        ValidationResult::ValidJob => StepOutcome::Completed,
        ValidationResult::InvalidJob(reason) => StepOutcome::Recoverable {
            reason: String::from_str(reason.describe()),
            wait_secs: 0,
            resumable: false,
        },
    }
}

/// The index of the step that comes after the one at `index` in a route
/// of `length` steps: after the last step comes the first.
pub open spec fn successor(index: int, length: nat) -> int {
    if index + 1 >= length {
        0
    } else {
        index + 1
    }
}

/// Whether a route can be walked: it has a step, and after each
/// navigation comes a search or an action.
pub open spec fn well_formed(route: Seq<StepView>) -> bool {
    &&& route.len() > 0
    &&& forall|i: int|
        0 <= i < route.len() && #[trigger] route[i] is Navigate ==> follows_navigation(
            route[successor(i, route.len())],
        )
}

/// Whether the step can come after a navigation.
pub open spec fn follows_navigation(step: StepView) -> bool {
    step is Search || step is Action
}

/// A workflow under way.
pub struct Workflow {
    pub route: Seq<StepView>,
    /// The index of the step that is carried out, or that paused.
    pub cursor: nat,
    /// The number of the try of that step.
    pub attempt: u8,
    pub current: StatesView,
    /// The element located last, unless a navigation came after it.
    pub element: Option<Seq<char>>,
    /// How many states were carried out.
    pub iterations: nat,
    pub max_iterations: nat,
    /// Whether the run stopped at a pause that cannot be resumed.
    pub stopped: bool,
}

impl Workflow {
    /// The same workflow in the state `current`.
    pub open spec fn in_state(self, current: StatesView) -> Workflow {
        Workflow { current, ..self }
    }

    /// How the run ended: `None` while it goes on.
    pub open spec fn outcome(self) -> Option<Outcome> {
        if self.current is Error {
            Some(Outcome::Error)
        } else if self.current is MaxIterationsReached {
            Some(Outcome::Completed)
        } else if self.stopped {
            Some(Outcome::Paused)
        } else {
            None
        }
    }

    /// The workflow as it enters the step at `cursor` with `element`
    /// located.
    pub open spec fn arrive(self, cursor: nat, element: Option<Seq<char>>) -> Workflow {
        let step = self.route[cursor as int];
        Workflow {
            cursor,
            attempt: step.first_attempt(),
            current: step.enter(step.first_attempt(), element),
            element,
            ..self
        }
    }

    /// The index of the step after the current one.
    pub open spec fn next_cursor(self) -> nat {
        successor(self.cursor as int, self.route.len()) as nat
    }

    /// The workflow after the pause `pause` was carried out, which is to
    /// say logged: a pause that can be resumed leads back to the step that
    /// paused, on its next try, or to `Error` once the tries are used up;
    /// a pause that cannot stops the run.
    pub open spec fn after_pause(self, can_resume: bool) -> Workflow {
        if !can_resume {
            Workflow { stopped: true, ..self }
        } else if self.attempt < u8::MAX {
            let attempt = (self.attempt + 1) as u8;
            Workflow {
                attempt,
                current: self.route[self.cursor as int].enter(attempt, self.element),
                ..self
            }
        } else {
            self.in_state(StatesView::Error)
        }
    }

    /// The workflow after its current state, which is none of `Paused`,
    /// `Error` and `MaxIterationsReached`, was carried out with `outcome`:
    /// success leads to the next step of the route, a failure that can be
    /// recovered from to `Paused`, any other failure to `Error`. A
    /// navigation forgets the located element unless it located one
    /// itself.
    pub open spec fn after_work(self, outcome: StepOutcomeView) -> Workflow {
        match outcome {
            StepOutcomeView::Unrecoverable => self.in_state(StatesView::Error),
            StepOutcomeView::Recoverable { reason, wait_secs, resumable } => self.in_state(
                StatesView::Paused(
                    PausedStateView { reason, duration_secs: wait_secs, can_resume: resumable },
                ),
            ),
            StepOutcomeView::Completed => self.arrive(
                self.next_cursor(),
                if self.current is Navigate {
                    None
                } else {
                    self.element
                },
            ),
            StepOutcomeView::Located(element) => self.arrive(self.next_cursor(), Some(element)),
        }
    }

    /// The workflow after one iteration: its current state was carried out
    /// with `outcome`, and the next state is computed. A run that has
    /// ended does not change. An iteration that uses up the bound ends the
    /// run in `MaxIterationsReached`, unless it ended it otherwise.
    pub open spec fn advance(self, outcome: StepOutcomeView) -> Workflow {
        if self.outcome() is Some {
            self
        } else {
            let moved = match self.current {
                StatesView::Paused(pause) => self.after_pause(pause.can_resume),
                _ => self.after_work(outcome),
            };
            let counted = Workflow { iterations: self.iterations + 1, ..moved };
            if counted.iterations >= counted.max_iterations && counted.outcome() is None {
                counted.in_state(StatesView::MaxIterationsReached)
            } else {
                counted
            }
        }
    }

    /// The workflow after the iterations whose outcomes are `outcomes`,
    /// in order.
    pub open spec fn run(self, outcomes: Seq<StepOutcomeView>) -> Workflow
        decreases outcomes.len(),
    {
        if outcomes.len() == 0 {
            self
        } else {
            self.run(outcomes.drop_last()).advance(outcomes.last())
        }
    }
}

/// The workflow at the start of `route`, bound to `max_iterations`
/// iterations. With a bound of zero it has ended before it began.
pub open spec fn start(route: Seq<StepView>, max_iterations: nat) -> Workflow {
    let first = route[0];
    Workflow {
        route,
        cursor: 0,
        attempt: first.first_attempt(),
        current: if max_iterations == 0 {
            StatesView::MaxIterationsReached
        } else {
            first.enter(first.first_attempt(), None)
        },
        element: None,
        iterations: 0,
        max_iterations,
        stopped: false,
    }
}

/// The route of the workflow that begins at `starting_url`: load the
/// page, then look for its job listings.
pub open spec fn starting_route(starting_url: Seq<char>) -> Seq<StepView> {
    seq![
        StepView::Navigate(NavigateStateView::ToUrl { attempt: 0, url: starting_url }),
        StepView::Search(
            SearchStateView::FindJobListings(JobListingSearch { current_index: 0, total_found: 0 }),
        ),
    ]
}

/// The text of the error for a route that cannot be walked.
pub open spec fn bad_route_text() -> Seq<char> {
    "the route is empty or has a navigation that neither a search nor an action follows"@
}

/// The controller of a workflow: it holds the current state and computes
/// the next one from each outcome.
pub struct WorkflowController {
    route: Vec<Step>,
    cursor: usize,
    attempt: u8,
    current: States,
    element: Option<ElementRef>,
    iterations: usize,
    max_iterations: usize,
    stopped: bool,
}

impl View for WorkflowController {
    type V = Workflow;

    closed spec fn view(&self) -> Workflow {
        Workflow {
            route: views(self.route@),
            cursor: self.cursor as nat,
            attempt: self.attempt,
            current: self.current@,
            element: element_view(self.element),
            iterations: self.iterations as nat,
            max_iterations: self.max_iterations as nat,
            stopped: self.stopped,
        }
    }
}

fn step_follows_navigation(step: &Step) -> (follows: bool)
    ensures
        follows == follows_navigation(step@),
{
    match step {
        Step::Search(_) => true,
        Step::Action(_) => true,
        _ => false,
    }
}

fn step_is_navigation(step: &Step) -> (navigation: bool)
    ensures
        navigation == step@ is Navigate,
{
    match step {
        Step::Navigate(_) => true,
        _ => false,
    }
}

/// Whether `route` can be walked.
pub fn route_is_well_formed(route: &Vec<Step>) -> (good: bool)
    ensures
        good == well_formed(views(route@)),
{
    let n = route.len();
    if n == 0 {
        return false;
    }
    let ghost steps = views(route@);
    let mut i: usize = 0;
    while i < n
        invariant
            i <= n,
            n == route.len(),
            n > 0,
            steps == views(route@),
            forall|j: int|
                0 <= j < i && #[trigger] steps[j] is Navigate ==> follows_navigation(
                    steps[successor(j, n as nat)],
                ),
        decreases n - i,
    {
        if step_is_navigation(&route[i]) {
            let after = if i + 1 == n {
                0
            } else {
                i + 1
            };
            if !step_follows_navigation(&route[after]) {
                assert(steps[i as int] is Navigate);
                return false;
            }
        }
        i += 1;
    }
    true
}

impl WorkflowController {
    #[verifier::type_invariant]
    spec fn consistent(self) -> bool {
        &&& well_formed(views(self.route@))
        &&& self.cursor < self.route.len()
        &&& self.iterations <= self.max_iterations
        &&& self.iterations == self.max_iterations ==> self@.outcome() is Some
    }

    /// The controller at the start of `route`, bound to `max_iterations`
    /// iterations; a route that cannot be walked is refused with a state
    /// machine error.
    pub fn new(route: Vec<Step>, max_iterations: usize) -> (controller: Result<
        WorkflowController,
        Error,
    >)
        ensures
            match controller {
                Ok(controller) => well_formed(views(route@)) && controller@ == start(
                    views(route@),
                    max_iterations as nat,
                ),
                Err(error) => !well_formed(views(route@)) && error@
                    == ErrorView::StateMachineError(bad_route_text()),
            },
    {
        if !route_is_well_formed(&route) {
            return Err(
                Error::StateMachineError(
                    String::from_str(
                        "the route is empty or has a navigation that neither a search nor an action follows",
                    ),
                ),
            );
        }
        let attempt = route[0].first_attempt();
        let current = if max_iterations == 0 {
            States::MaxIterationsReached
        } else {
            route[0].enter(attempt, &None)
        };
        Ok(
            WorkflowController {
                route,
                cursor: 0,
                attempt,
                current,
                element: None,
                iterations: 0,
                max_iterations,
                stopped: false,
            },
        )
    }

    /// The state that is current.
    pub fn current_state(&self) -> (state: &States)
        ensures
            state@ == self@.current,
    {
        &self.current
    }

    /// How many states were carried out.
    pub fn iterations(&self) -> (iterations: usize)
        ensures
            iterations == self@.iterations,
    {
        self.iterations
    }

    /// How the run ended: `None` while it goes on, and then the current
    /// state is to be carried out.
    pub fn outcome(&self) -> (outcome: Option<Outcome>)
        ensures
            outcome == self@.outcome(),
    {
        match &self.current {
            States::Error => Some(Outcome::Error),
            States::MaxIterationsReached => Some(Outcome::Completed),
            _ => {
                if self.stopped {
                    Some(Outcome::Paused)
                } else {
                    None
                }
            },
        }
    }

    /// One iteration: takes the outcome of the current state and computes
    /// the next state.
    pub fn advance(self, outcome: &StepOutcome) -> (controller: WorkflowController)
        ensures
            controller@ == self@.advance(outcome@),
    {
        proof {
            use_type_invariant(&self);
        }
        if self.outcome().is_some() {
            return self;
        }
        let WorkflowController {
            route,
            cursor,
            attempt,
            current,
            element,
            iterations,
            max_iterations,
            stopped,
        } = self;
        let ghost before = Workflow {
            route: views(route@),
            cursor: cursor as nat,
            attempt,
            current: current@,
            element: element_view(element),
            iterations: iterations as nat,
            max_iterations: max_iterations as nat,
            stopped,
        };
        let iterations = iterations + 1;
        let next = if cursor + 1 == route.len() {
            0
        } else {
            cursor + 1
        };
        assert(next == before.next_cursor());
        let (cursor, attempt, current, element, stopped) = match current {
            States::Paused(pause) => {
                if !pause.can_resume {
                    (cursor, attempt, States::Paused(pause), element, true)
                } else if attempt < u8::MAX {
                    let attempt = attempt + 1;
                    let current = route[cursor].enter(attempt, &element);
                    (cursor, attempt, current, element, stopped)
                } else {
                    (cursor, attempt, States::Error, element, stopped)
                }
            },
            working => match outcome {
                StepOutcome::Unrecoverable => (cursor, attempt, States::Error, element, stopped),
                StepOutcome::Recoverable { reason, wait_secs, resumable } => (
                    cursor,
                    attempt,
                    States::Paused(
                        PausedState {
                            reason: reason.clone(),
                            duration_secs: *wait_secs,
                            can_resume: *resumable,
                        },
                    ),
                    element,
                    stopped,
                ),
                StepOutcome::Completed => {
                    let element = match working {
                        States::Navigate(_) => None,
                        _ => element,
                    };
                    let attempt = route[next].first_attempt();
                    let current = route[next].enter(attempt, &element);
                    (next, attempt, current, element, stopped)
                },
                StepOutcome::Located(found) => {
                    let element = Some(found.duplicate());
                    let attempt = route[next].first_attempt();
                    let current = route[next].enter(attempt, &element);
                    (next, attempt, current, element, stopped)
                },
            },
        };
        let ended = stopped || current.is_terminal();
        let current = if iterations >= max_iterations && !ended {
            States::MaxIterationsReached
        } else {
            current
        };
        WorkflowController {
            route,
            cursor,
            attempt,
            current,
            element,
            iterations,
            max_iterations,
            stopped,
        }
    }

    /// The iterations whose outcomes are `outcomes`, one after the other.
    pub fn run(self, outcomes: &Vec<StepOutcome>) -> (controller: WorkflowController)
        ensures
            controller@ == self@.run(views(outcomes@)),
    {
        let mut controller = self;
        let mut i: usize = 0;
        while i < outcomes.len()
            invariant
                i <= outcomes.len(),
                controller@ == self@.run(views(outcomes@).take(i as int)),
            decreases outcomes.len() - i,
        {
            assert(views(outcomes@).take(i + 1).drop_last() =~= views(outcomes@).take(i as int));
            controller = controller.advance(&outcomes[i]);
            i += 1;
        }
        assert(views(outcomes@).take(outcomes.len() as int) =~= views(outcomes@));
        controller
    }
}

/// The controller of the workflow that begins at `starting_url` and is
/// bound to `max_iterations` iterations: it loads the page, looks for its
/// job listings, and begins again.
pub fn start_state_machine(starting_url: &str, max_iterations: usize) -> (controller:
    WorkflowController)
    ensures
        controller@ == start(starting_route(starting_url@), max_iterations as nat),
{
    let mut route: Vec<Step> = Vec::new();
    route.push(Step::Navigate(NavigateState::ToUrl { attempt: 0, url: String::from_str(starting_url) }));
    route.push(
        Step::Search(
            SearchState::FindJobListings(JobListingSearch { current_index: 0, total_found: 0 }),
        ),
    );
    assert(views(route@) =~= starting_route(starting_url@));
    assert(well_formed(starting_route(starting_url@))) by {
        let steps = starting_route(starting_url@);
        assert(steps[1] is Search);
    }
    assert(well_formed(views(route@)));
    let attempt = route[0].first_attempt();
    let current = if max_iterations == 0 {
        States::MaxIterationsReached
    } else {
        route[0].enter(attempt, &None)
    };
    WorkflowController {
        route,
        cursor: 0,
        attempt,
        current,
        element: None,
        iterations: 0,
        max_iterations,
        stopped: false,
    }
}

proof fn run_one_more(workflow: Workflow, outcomes: Seq<StepOutcomeView>, k: int)
    requires
        0 <= k < outcomes.len(),
    ensures
        workflow.run(outcomes.take(k + 1)) == workflow.run(outcomes.take(k)).advance(outcomes[k]),
{
    assert(outcomes.take(k + 1).drop_last() =~= outcomes.take(k));
}

/// Whether the run of `outcomes` from the start of `route` has, after
/// each of its first `count` iterations and before the first, neither come
/// to `Error` nor stopped at a pause.
pub open spec fn goes_on_through(
    route: Seq<StepView>,
    max_iterations: nat,
    outcomes: Seq<StepOutcomeView>,
    count: nat,
) -> bool {
    forall|k: int|
        0 <= k <= count ==> {
            let workflow = #[trigger] start(route, max_iterations).run(outcomes.take(k));
            !(workflow.current is Error) && !workflow.stopped
        }
}

proof fn counts_up_to_the_bound(
    route: Seq<StepView>,
    max_iterations: nat,
    outcomes: Seq<StepOutcomeView>,
    k: nat,
)
    requires
        k <= max_iterations <= outcomes.len(),
        goes_on_through(route, max_iterations, outcomes, k),
    ensures
        start(route, max_iterations).run(outcomes.take(k as int)).iterations == k,
        start(route, max_iterations).run(outcomes.take(k as int)).max_iterations == max_iterations,
        k < max_iterations ==> start(route, max_iterations).run(
            outcomes.take(k as int),
        ).outcome() is None,
        k == max_iterations ==> start(route, max_iterations).run(
            outcomes.take(k as int),
        ).current is MaxIterationsReached,
    decreases k,
{
    let begun = start(route, max_iterations);
    let now = begun.run(outcomes.take(k as int));
    if k == 0 {
        assert(outcomes.take(0) =~= Seq::<StepOutcomeView>::empty());
    } else {
        counts_up_to_the_bound(route, max_iterations, outcomes, (k - 1) as nat);
        run_one_more(begun, outcomes, k - 1);
        let before = begun.run(outcomes.take(k - 1));
        assert(now == before.advance(outcomes[k - 1]));
    }
}

proof fn ended_run_ignores_outcomes(workflow: Workflow, outcomes: Seq<StepOutcomeView>)
    requires
        workflow.outcome() is Some,
    ensures
        workflow.run(outcomes) == workflow,
    decreases outcomes.len(),
{
    if outcomes.len() > 0 {
        ended_run_ignores_outcomes(workflow, outcomes.drop_last());
    }
}

proof fn run_in_two_parts(workflow: Workflow, outcomes: Seq<StepOutcomeView>, k: int)
    requires
        0 <= k <= outcomes.len(),
    ensures
        workflow.run(outcomes) == workflow.run(outcomes.take(k)).run(
            outcomes.skip(k),
        ),
    decreases outcomes.len() - k,
{
    if k == outcomes.len() {
        assert(outcomes.take(k) =~= outcomes);
        assert(outcomes.skip(k) =~= Seq::<StepOutcomeView>::empty());
    } else {
        run_in_two_parts(workflow, outcomes.drop_last(), k);
        assert(outcomes.drop_last().take(k) =~= outcomes.take(k));
        assert(outcomes.skip(k).drop_last() =~= outcomes.drop_last().skip(k));
        assert(outcomes.skip(k).last() == outcomes.last());
    }
}

/// A run that is bound to `max_iterations` iterations and never comes to
/// `Error`, nor stops at a pause, ends after exactly that many iterations
/// in `MaxIterationsReached`: not earlier, and outcomes that are reported
/// afterwards change nothing.
pub proof fn run_ends_at_the_bound(
    route: Seq<StepView>,
    max_iterations: nat,
    outcomes: Seq<StepOutcomeView>,
)
    requires
        well_formed(route),
        outcomes.len() >= max_iterations,
        goes_on_through(route, max_iterations, outcomes, max_iterations),
    ensures
        start(route, max_iterations).run(outcomes).current is MaxIterationsReached,
        start(route, max_iterations).run(outcomes).iterations == max_iterations,
        start(route, max_iterations).run(outcomes).outcome() == Some(Outcome::Completed),
        forall|k: int|
            0 <= k < max_iterations ==> (#[trigger] start(route, max_iterations).run(
                outcomes.take(k),
            )).outcome() is None && start(route, max_iterations).run(outcomes.take(k)).iterations
                == k,
{
    let begun = start(route, max_iterations);
    counts_up_to_the_bound(route, max_iterations, outcomes, max_iterations);
    let ended = begun.run(outcomes.take(max_iterations as int));
    run_in_two_parts(begun, outcomes, max_iterations as int);
    ended_run_ignores_outcomes(ended, outcomes.skip(max_iterations as int));
    assert forall|k: int| 0 <= k < max_iterations implies (#[trigger] begun.run(
        outcomes.take(k),
    )).outcome() is None && begun.run(outcomes.take(k)).iterations == k by {
        assert(goes_on_through(route, max_iterations, outcomes, k as nat));
        counts_up_to_the_bound(route, max_iterations, outcomes, k as nat);
    }
}

/// No run carries out more states than its bound allows, whatever the
/// outcomes.
pub proof fn run_stays_within_the_bound(
    route: Seq<StepView>,
    max_iterations: nat,
    outcomes: Seq<StepOutcomeView>,
)
    ensures
        start(route, max_iterations).run(outcomes).iterations <= max_iterations,
        start(route, max_iterations).run(outcomes).iterations <= outcomes.len(),
        start(route, max_iterations).run(outcomes).max_iterations == max_iterations,
        start(route, max_iterations).run(outcomes).iterations == max_iterations ==> start(
            route,
            max_iterations,
        ).run(outcomes).outcome() is Some,
    decreases outcomes.len(),
{
    if outcomes.len() > 0 {
        run_stays_within_the_bound(route, max_iterations, outcomes.drop_last());
    }
}

/// A run that has ended stays as it is: `Error` and `MaxIterationsReached`
/// are final, and so is a pause that cannot be resumed.
pub proof fn ended_run_stays_ended(workflow: Workflow, outcome: StepOutcomeView)
    requires
        workflow.outcome() is Some,
    ensures
        workflow.advance(outcome) == workflow,
{
}

/// After a navigation that went well comes a search or an action, unless
/// the bound ends the run there: a search or an action where the
/// navigation located an element, and otherwise `Error` in place of an
/// action, which has no element to act on.
pub proof fn navigation_leads_to_search_or_action(workflow: Workflow, outcome: StepOutcomeView)
    requires
        well_formed(workflow.route),
        workflow.cursor < workflow.route.len(),
        workflow.route[workflow.cursor as int] is Navigate,
        workflow.current is Navigate,
        !workflow.stopped,
        outcome is Completed || outcome is Located,
        workflow.iterations + 1 < workflow.max_iterations,
    ensures
        workflow.advance(outcome).current is Search || workflow.advance(outcome).current is Action
            || (outcome is Completed && workflow.advance(outcome).current is Error),
{
    let next = workflow.route[successor(workflow.cursor as int, workflow.route.len())];
    assert(follows_navigation(next));
}

/// A failure that can be recovered from leads to `Paused`, with the reason
/// and the wait that were reported; any other failure leads to `Error`.
/// Neither depends on the state that failed, so long as it was at work.
pub proof fn failure_pauses_or_ends(workflow: Workflow, outcome: StepOutcomeView)
    requires
        workflow.outcome() is None,
        !(workflow.current is Paused),
        workflow.iterations + 1 < workflow.max_iterations,
    ensures
        outcome is Unrecoverable ==> workflow.advance(outcome).current is Error,
        outcome matches StepOutcomeView::Recoverable { reason, wait_secs, resumable }
            ==> workflow.advance(outcome).current == StatesView::Paused(
            PausedStateView { reason, duration_secs: wait_secs, can_resume: resumable },
        ),
{
}

/// A pause that was carried out is resumed at the step that paused, or it
/// stops the run: it never moves the run on by itself.
pub proof fn pause_resumes_or_stops(workflow: Workflow, pause: PausedStateView, outcome: StepOutcomeView)
    requires
        workflow.outcome() is None,
        workflow.current == StatesView::Paused(pause),
    ensures
        workflow.advance(outcome).cursor == workflow.cursor,
        !pause.can_resume ==> workflow.advance(outcome).outcome() == Some(Outcome::Paused),
        pause.can_resume && workflow.attempt < u8::MAX && workflow.iterations + 1
            < workflow.max_iterations ==> workflow.advance(outcome).current
            == workflow.route[workflow.cursor as int].enter(
            (workflow.attempt + 1) as u8,
            workflow.element,
        ),
{
}

} // verus!
