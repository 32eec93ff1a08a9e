//! The action sequences that run before the workflow state machine: login,
//! the way to the job board, the keyword search.

pub mod command;
pub mod detect_login_failure;
pub mod job_board;
pub mod job_card;
pub mod keyword_search;
pub mod login_action;
pub mod sequencer;

use vstd::prelude::*;
use vstd::string::*;

use crate::config::app_config::AppConfig;
use crate::error::{Error, ErrorView};
use crate::providers::{
    job_search_selectors,
    login_selectors,
    Provider,
    ProviderKind,
    SelectorKind,
};
use crate::text::{views, views_of_concat};

pub use command::{Command, FailureRule, Operation, Request, StepResult, TryRecv};
pub use detect_login_failure::{
    detect_login_failure,
    watch_rounds,
    Indicator,
    Observation,
    OutcomeChannel,
    Poll,
    Watcher,
    WatcherAction,
    WatcherEnd,
    WatcherPhase,
};
pub use job_board::job_board;
pub use job_card::all_job_cards;
pub use keyword_search::{
    keyword_search,
    linkedin_filters,
    linkedin_location,
    seek_filters,
    seek_location,
};
pub use login_action::{login, password, username};
pub use sequencer::Sequencer;

verus! {

/// What the builder of an action sequence works from: the site, the
/// section of the configuration, and the selectors in one language.
pub struct ActionPacket<'a, P, C, S> {
    pub provider: &'a P,
    pub config_section: &'a C,
    pub selector_kind: SelectorKind,
    pub selectors: S,
}

/// The step that lets `dur` milliseconds pass.
pub fn wait_millis(dur: u64) -> (command: Command)
    ensures
        command@ == command::CommandView::sure(command::OperationView::Wait { millis: dur }),
{
    Command::wait(dur)
}

/// What a search section that asks for keywords and names none is
/// refused with.
pub open spec fn no_keywords_text() -> Seq<char> {
    "No keywords specified in config, but 'use_keywords' is set to true."@
}

/// Everything before the workflow, step by step: the login, the way to
/// the job board and, where keywords are asked for, the keyword search,
/// whose selectors are always XPath.
pub open spec fn all_steps(
    provider: ProviderKind,
    kind: SelectorKind,
    login: crate::config::login::LoginConfigView,
    search: crate::config::search::SearchConfigView,
) -> Seq<command::CommandView> {
    login_action::login_steps(kind, login_selectors(provider, kind), login)
        + job_board::job_board_steps(provider, kind, job_search_selectors(provider, kind)) + if search.use_keywords {
        keyword_search::keyword_search_steps(
            provider,
            SelectorKind::Xpath,
            job_search_selectors(provider, SelectorKind::Xpath),
            search,
        )
    } else {
        Seq::empty()
    }
}

/// The action sequence of everything that comes before the workflow, on
/// the site `provider`.
///
/// A configuration that asks for a keyword search and names no keyword is
/// refused with `NoKeywordsSet` before there is a single step, so that
/// nothing is asked of the session, whatever the site. Every other
/// configuration gives the login, the way to the job board and, where
/// keywords are asked for, the keyword search, in this order. A step that
/// fails ends the sequence with its own error, and on Seek the sequence
/// is refused once the jobs button was pressed.
pub fn run_all_steps<P: Provider>(provider: &P, config: &AppConfig, selector_kind: SelectorKind) -> (steps:
    Result<Vec<Command>, Error>)
    ensures
        match steps {
            Ok(steps) => !config.search@.contradicts_itself() && views(steps@) == all_steps(
                provider.kind(),
                selector_kind,
                config.login@,
                config.search@,
            ),
            Err(error) => config.search@.contradicts_itself() && error@
                == ErrorView::NoKeywordsSet(no_keywords_text()),
        },
{
    if config.search.contradicts_itself() {
        return Err(
            Error::NoKeywordsSet(
                String::from_str(
                    "No keywords specified in config, but 'use_keywords' is set to true.",
                ),
            ),
        );
    }
    let mut steps = login(provider, &config.login, selector_kind);
    let mut board = job_board(provider, selector_kind);
    proof {
        views_of_concat(steps@, board@);
    }
    steps.append(&mut board);
    if config.search.use_keywords {
        let mut search = keyword_search(provider, &config.search, SelectorKind::Xpath);
        proof {
            views_of_concat(steps@, search@);
        }
        steps.append(&mut search);
    } else {
        assert(views(steps@) + Seq::<command::CommandView>::empty() =~= views(steps@));
    }
    Ok(steps)
}

} // verus!
