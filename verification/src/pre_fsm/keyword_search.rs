//! The keyword search and the filters that follow it.

use vstd::prelude::*;
use vstd::string::*;

use crate::config::search::{SearchConfig, SearchConfigView};
use crate::pre_fsm::command::{Command, CommandView, Operation, OperationView};
use crate::pre_fsm::ActionPacket;
use crate::providers::{
    act,
    job_search_selectors,
    locate_one,
    Provider,
    ProviderKind,
    SelectorKind,
};
use crate::selectors::job_search::JobSearchSelectors;
use crate::states::action::{ActionKind, ActionKindView};
use crate::states::key::Key;
use crate::text::{joined, views, views_of_concat};

verus! {

/// The selector of LinkedIn's filter for jobs that can be applied to on
/// the site itself.
pub open spec fn easy_apply_filter() -> Seq<char> {
    "//*[@id=\"root\"]/div[2]/div[2]/div[2]/div/div/div/div/div/div/div[2]/div[7]/div/div"@
}

/// The typing of the keywords: give the page three tenths of a second,
/// wait for the search field, type the keywords with one blank between
/// neighbours, press Enter, give the page a fifth of a second.
pub open spec fn keyword_entry_steps(
    kind: SelectorKind,
    selectors: JobSearchSelectors,
    config: SearchConfigView,
) -> Seq<CommandView> {
    seq![
        CommandView::sure(OperationView::Wait { millis: 300 }),
        locate_one(kind, selectors.search_input@),
        act(ActionKindView::InputText { input: joined(config.keywords, " "@) }),
        act(ActionKindView::InputKey { key: Key::Enter }),
        CommandView::sure(OperationView::Wait { millis: 200 }),
    ]
}

/// LinkedIn's filters: press the filter for jobs that can be applied to
/// on the site itself, and give the page half a second.
pub open spec fn linkedin_filter_steps(kind: SelectorKind) -> Seq<CommandView> {
    seq![
        locate_one(kind, easy_apply_filter()),
        act(ActionKindView::Click),
        CommandView::sure(OperationView::Wait { millis: 500 }),
    ]
}

/// What a sequence that has come to Seek's filters is refused with.
pub open spec fn seek_filters_text() -> Seq<char> {
    "the filters of a keyword search on Seek are not known"@
}

/// The filters of a keyword search on `provider`: LinkedIn's filter for
/// jobs that can be applied to on the site itself; on Seek the sequence
/// is refused.
pub open spec fn filter_steps(provider: ProviderKind, kind: SelectorKind) -> Seq<CommandView> {
    match provider {
        ProviderKind::LinkedIn => linkedin_filter_steps(kind),
        ProviderKind::Seek => seq![
            CommandView::sure(OperationView::Refuse { reason: seek_filters_text() }),
        ],
    }
}

/// The keyword search on `provider`, step by step.
pub open spec fn keyword_search_steps(
    provider: ProviderKind,
    kind: SelectorKind,
    selectors: JobSearchSelectors,
    config: SearchConfigView,
) -> Seq<CommandView> {
    keyword_entry_steps(kind, selectors, config) + filter_steps(provider, kind)
}

/// The keyword search on the site `provider`: the keywords of
/// `search_config` are typed into the search field and sent on every site,
/// then the site's filters are set. On Seek, whose filters are not known,
/// the sequence is refused after the keywords were sent.
pub fn keyword_search<P: Provider>(
    provider: &P,
    search_config: &SearchConfig,
    selector_kind: SelectorKind,
) -> (steps: Vec<Command>)
    ensures
        views(steps@) == keyword_search_steps(
            provider.kind(),
            selector_kind,
            job_search_selectors(provider.kind(), selector_kind),
            search_config@,
        ),
{
    let selectors = provider.get_job_search_selectors(selector_kind);
    let mut steps: Vec<Command> = Vec::new();
    steps.push(Command::wait(300));
    steps.push(provider.with_element(selector_kind, selectors.search_input));
    steps.push(
        provider.with_action(
            ActionKind::InputText { input: crate::text::join(&search_config.keywords, " ") },
        ),
    );
    steps.push(provider.with_action(ActionKind::InputKey { key: Key::Enter }));
    steps.push(Command::wait(200));
    assert(views(steps@) =~= keyword_entry_steps(selector_kind, selectors, search_config@));

    let action_packet = ActionPacket {
        provider,
        config_section: search_config,
        selector_kind,
        selectors,
    };
    let mut filters = match provider.name() {
        ProviderKind::LinkedIn => linkedin_filters(&action_packet),
        ProviderKind::Seek => seek_filters(),
    };
    proof {
        views_of_concat(steps@, filters@);
    }
    steps.append(&mut filters);
    steps
}

/// The steps that set Seek's filters: the sequence is refused.
pub fn seek_filters() -> (steps: Vec<Command>)
    ensures
        views(steps@) == filter_steps(ProviderKind::Seek, SelectorKind::Xpath),
{
    let mut steps: Vec<Command> = Vec::new();
    steps.push(
        Command::sure(
            Operation::Refuse {
                reason: String::from_str("the filters of a keyword search on Seek are not known"),
            },
        ),
    );
    assert(views(steps@) =~= filter_steps(ProviderKind::Seek, SelectorKind::Xpath));
    steps
}

/// The steps that set the location on Seek: there are none.
pub fn seek_location() -> (steps: Vec<Command>)
    ensures
        steps@.len() == 0,
{
    Vec::new()
}

/// The steps that set LinkedIn's filters.
pub fn linkedin_filters<P: Provider>(
    action_packet: &ActionPacket<'_, P, SearchConfig, JobSearchSelectors>,
) -> (steps: Vec<Command>)
    ensures
        views(steps@) == linkedin_filter_steps(action_packet.selector_kind),
{
    let easy_apply_button =
        "//*[@id=\"root\"]/div[2]/div[2]/div[2]/div/div/div/div/div/div/div[2]/div[7]/div/div";
    let mut steps: Vec<Command> = Vec::new();
    steps.push(action_packet.provider.with_element(action_packet.selector_kind, easy_apply_button));
    steps.push(action_packet.provider.with_action(ActionKind::Click));
    steps.push(Command::wait(500));
    assert(views(steps@) =~= linkedin_filter_steps(action_packet.selector_kind));
    steps
}

/// The steps that set the location on LinkedIn: there are none.
pub fn linkedin_location<P: Provider>(
    action_packet: &ActionPacket<'_, P, SearchConfig, JobSearchSelectors>,
) -> (steps: Vec<Command>)
    ensures
        steps@.len() == 0,
{
    Vec::new()
}

} // verus!
