//! The way to the job board.

use vstd::prelude::*;
use vstd::string::*;

use crate::pre_fsm::command::{
    Command,
    CommandView,
    FailureRule,
    FailureRuleView,
    Operation,
    OperationView,
};
use crate::providers::{
    act,
    job_search_selectors,
    locate_one,
    Provider,
    ProviderKind,
    SelectorKind,
};
use crate::selectors::job_search::JobSearchSelectors;
use crate::states::action::{ActionKind, ActionKindView};
use crate::text::views;

verus! {

/// The address of LinkedIn's job board.
pub open spec fn linkedin_jobs_url() -> Seq<char> {
    "https://www.linkedin.com/jobs/"@
}

/// What a sequence that has come to Seek's job board is refused with.
pub open spec fn seek_job_board_text() -> Seq<char> {
    "the way to the job board of Seek is not known"@
}

/// The press of the jobs button, on any site: give the page a second and
/// a half, press the button, give the page a fifth of a second.
pub open spec fn jobs_button_steps(kind: SelectorKind, selectors: JobSearchSelectors) -> Seq<
    CommandView,
> {
    seq![
        CommandView::sure(OperationView::Wait { millis: 1500 }),
        locate_one(kind, selectors.jobs_button@).within("Failed to find jobs button element: "@),
        act(ActionKindView::Click),
        CommandView::sure(OperationView::Wait { millis: 200 }),
    ]
}

/// What follows the press of the jobs button. On LinkedIn, unless the
/// session is at the job board by then, the job board's address is
/// loaded. On Seek the sequence is refused.
pub open spec fn arrival_steps(provider: ProviderKind) -> Seq<CommandView> {
    match provider {
        ProviderKind::LinkedIn => seq![
            CommandView {
                op: OperationView::SkipIfAt { url: linkedin_jobs_url(), count: 1 },
                on_failure: FailureRuleView::Generic { prefix: "Failed to get current URL: "@ },
            },
            CommandView {
                op: OperationView::Goto { url: linkedin_jobs_url() },
                on_failure: FailureRuleView::Generic {
                    prefix: "Failed to navigate to job board URL '"@ + linkedin_jobs_url()
                        + "': "@,
                },
            },
        ],
        ProviderKind::Seek => seq![
            CommandView::sure(OperationView::Refuse { reason: seek_job_board_text() }),
        ],
    }
}

/// The way to the job board of `provider`, step by step.
pub open spec fn job_board_steps(
    provider: ProviderKind,
    kind: SelectorKind,
    selectors: JobSearchSelectors,
) -> Seq<CommandView> {
    jobs_button_steps(kind, selectors) + arrival_steps(provider)
}

/// The way to the job board of `provider`. On every site the jobs button
/// is pressed first, so that a button that cannot be found or pressed ends
/// the sequence with that error; on Seek, whose job board is not known,
/// the sequence is refused after the press.
pub fn job_board<P: Provider>(provider: &P, selector_kind: SelectorKind) -> (steps: Vec<Command>)
    ensures
        views(steps@) == job_board_steps(
            provider.kind(),
            selector_kind,
            job_search_selectors(provider.kind(), selector_kind),
        ),
{
    let selectors = provider.get_job_search_selectors(selector_kind);
    let jobs_url = "https://www.linkedin.com/jobs/";
    let mut steps: Vec<Command> = Vec::new();
    steps.push(Command::wait(1500));
    steps.push(
        provider.with_element(selector_kind, selectors.jobs_button).within(
            "Failed to find jobs button element: ",
        ),
    );
    steps.push(provider.with_action(ActionKind::Click));
    steps.push(Command::wait(200));
    assert(views(steps@) =~= jobs_button_steps(selector_kind, selectors));
    let ghost button = steps@;
    match provider.name() {
        ProviderKind::LinkedIn => {
            steps.push(
                Command {
                    op: Operation::SkipIfAt { url: String::from_str(jobs_url), count: 1 },
                    on_failure: FailureRule::Generic {
                        prefix: String::from_str("Failed to get current URL: "),
                    },
                },
            );
            let mut prefix = String::from_str("Failed to navigate to job board URL '");
            prefix.append(jobs_url);
            prefix.append("': ");
            steps.push(
                Command {
                    op: Operation::Goto { url: String::from_str(jobs_url) },
                    on_failure: FailureRule::Generic { prefix },
                },
            );
        },
        ProviderKind::Seek => {
            steps.push(
                Command::sure(
                    Operation::Refuse {
                        reason: String::from_str("the way to the job board of Seek is not known"),
                    },
                ),
            );
        },
    }
    assert(views(steps@) =~= views(button) + arrival_steps(provider.kind()));
    steps
}

} // verus!
