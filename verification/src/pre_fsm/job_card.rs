//! The job cards of the page.

use vstd::prelude::*;

use crate::pre_fsm::command::{Command, CommandView, OperationView};
use crate::providers::{job_listing_selectors, locate_many, Provider, SelectorKind};
use crate::selectors::jobs_list::JobListingSelectors;
use crate::text::views;

verus! {

/// The taking of the job cards: give the page a second and a half, then
/// take the cards that are there now.
pub open spec fn job_card_steps(kind: SelectorKind, selectors: JobListingSelectors) -> Seq<
    CommandView,
> {
    seq![
        CommandView::sure(OperationView::Wait { millis: 1500 }),
        locate_many(kind, selectors.job_card@),
    ]
}

/// The steps that take all job cards of the page of `provider`.
pub fn all_job_cards<P: Provider>(provider: &P, selector_kind: SelectorKind) -> (steps: Vec<Command>)
    ensures
        views(steps@) == job_card_steps(
            selector_kind,
            job_listing_selectors(provider.kind(), selector_kind),
        ),
{
    let job_card_selectors = provider.get_job_listing_selectors(selector_kind);
    let mut steps: Vec<Command> = Vec::new();
    steps.push(Command::wait(1500));
    steps.push(provider.with_elements(selector_kind, job_card_selectors.job_card));
    assert(views(steps@) =~= job_card_steps(selector_kind, job_card_selectors));
    steps
}

} // verus!
