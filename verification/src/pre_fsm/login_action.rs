//! The login sequence.

use vstd::prelude::*;
use vstd::string::*;

use crate::config::login::{LoginConfig, LoginConfigView};
use crate::pre_fsm::command::{
    Command,
    CommandView,
    FailureRule,
    FailureRuleView,
    Operation,
    OperationView,
};
use crate::pre_fsm::command::{StepResultView, TryRecvView};
use crate::pre_fsm::detect_login_failure::{
    address_change_ends_the_watch_silently,
    channel_after,
    diagnostic,
    poll_interval_millis,
    visible_indicator_is_reported_once,
    watch,
    OutcomeChannelView,
    Round,
};
use crate::pre_fsm::sequencer::{react, run, Progress};
use crate::pre_fsm::ActionPacket;
use crate::error::ErrorView;
use crate::providers::{act, locate_one, login_selectors, Provider, SelectorKind};
use crate::selectors::login::LoginSelectors;
use crate::states::action::{ActionKind, ActionKindView};
use crate::text::{views, views_of_concat};

verus! {

/// The step that empties the element located last; its failure is a
/// generic error whose text begins with `prefix`.
pub open spec fn clear_step(prefix: Seq<char>) -> CommandView {
    CommandView { op: OperationView::Clear, on_failure: FailureRuleView::Generic { prefix } }
}

/// The steps that fill one field of a form: wait for the field, empty it,
/// type `input`, and give the page a fifth of a second.
pub open spec fn fill_field_steps(
    kind: SelectorKind,
    field: Seq<char>,
    clear_prefix: Seq<char>,
    input: Seq<char>,
) -> Seq<CommandView> {
    seq![
        locate_one(kind, field),
        clear_step(clear_prefix),
        act(ActionKindView::InputText { input }),
        CommandView::sure(OperationView::Wait { millis: 200 }),
    ]
}

/// The steps that fill in the user name.
pub open spec fn username_steps(
    kind: SelectorKind,
    selectors: LoginSelectors,
    config: LoginConfigView,
) -> Seq<CommandView> {
    fill_field_steps(
        kind,
        selectors.username_field@,
        "Failed to clear username input field before entering username: "@,
        config.username,
    )
}

/// The steps that fill in the password.
pub open spec fn password_steps(
    kind: SelectorKind,
    selectors: LoginSelectors,
    config: LoginConfigView,
) -> Seq<CommandView> {
    fill_field_steps(
        kind,
        selectors.password_field@,
        "Failed to clear password input field before entering password: "@,
        config.password,
    )
}

/// The steps before the form is filled: load the login page, give it
/// half a second, and start the observer of the failure indicator, whose
/// baseline is then the address of the login page.
pub open spec fn login_opening(
    kind: SelectorKind,
    selectors: LoginSelectors,
    config: LoginConfigView,
) -> Seq<CommandView> {
    seq![
        CommandView {
            op: OperationView::Goto { url: config.login_url },
            on_failure: FailureRuleView::Driver,
        },
        CommandView::sure(OperationView::Wait { millis: 500 }),
        CommandView::sure(
            OperationView::StartWatcher { kind, selector: selectors.failed_attempt_indicator@ },
        ),
    ]
}

/// The milliseconds the login waits between the press of the submit
/// button and its one read of what the observer reported: two of the
/// observer's polling intervals.
pub open spec fn settle_millis() -> u64 {
    2000
}

/// The steps after the form is filled: press the submit button, wait for
/// two polling intervals of the observer, read once what the observer
/// reported, and close the receiving end of its channel.
pub open spec fn login_closing(kind: SelectorKind, selectors: LoginSelectors) -> Seq<CommandView> {
    seq![
        locate_one(kind, selectors.submit_button@),
        act(ActionKindView::Click),
        CommandView::sure(OperationView::Wait { millis: settle_millis() }),
        CommandView::sure(OperationView::CheckWatcher),
        CommandView::sure(OperationView::CloseWatcher),
    ]
}

/// The login sequence, step by step.
pub open spec fn login_steps(
    kind: SelectorKind,
    selectors: LoginSelectors,
    config: LoginConfigView,
) -> Seq<CommandView> {
    login_opening(kind, selectors, config) + username_steps(kind, selectors, config)
        + password_steps(kind, selectors, config) + login_closing(kind, selectors)
}

fn fill_field<P: Provider>(
    provider: &P,
    kind: SelectorKind,
    field: &str,
    clear_prefix: &str,
    input: &String,
) -> (steps: Vec<Command>)
    ensures
        views(steps@) == fill_field_steps(kind, field@, clear_prefix@, input@),
{
    let mut steps: Vec<Command> = Vec::new();
    steps.push(provider.with_element(kind, field));
    steps.push(
        Command {
            op: Operation::Clear,
            on_failure: FailureRule::Generic { prefix: String::from_str(clear_prefix) },
        },
    );
    steps.push(provider.with_action(ActionKind::InputText { input: input.clone() }));
    steps.push(Command::wait(200));
    assert(views(steps@) =~= fill_field_steps(kind, field@, clear_prefix@, input@));
    steps
}

/// The steps that fill in the user name of the login section.
pub fn username<P: Provider>(action_packet: ActionPacket<'_, P, LoginConfig, LoginSelectors>) -> (steps:
    Vec<Command>)
    ensures
        views(steps@) == username_steps(
            action_packet.selector_kind,
            action_packet.selectors,
            action_packet.config_section@,
        ),
{
    fill_field(
        action_packet.provider,
        action_packet.selector_kind,
        action_packet.selectors.username_field,
        "Failed to clear username input field before entering username: ",
        &action_packet.config_section.username,
    )
}

/// The steps that fill in the password of the login section.
pub fn password<P: Provider>(action_packet: &ActionPacket<'_, P, LoginConfig, LoginSelectors>) -> (steps:
    Vec<Command>)
    ensures
        views(steps@) == password_steps(
            action_packet.selector_kind,
            action_packet.selectors,
            action_packet.config_section@,
        ),
{
    fill_field(
        action_packet.provider,
        action_packet.selector_kind,
        action_packet.selectors.password_field,
        "Failed to clear password input field before entering password: ",
        &action_packet.config_section.password,
    )
}

/// The login sequence of the site `provider`, for the account of
/// `login_config`, with selectors in the language `selector_kind`.
///
/// The observer of the failure indicator is started once the login page
/// is loaded, before anything is typed or pressed. After the press of the
/// submit button the sequence waits for two of the observer's polling
/// intervals, and only then reads what the observer reported.
pub fn login<P: Provider>(provider: &P, login_config: &LoginConfig, selector_kind: SelectorKind) -> (steps:
    Vec<Command>)
    ensures
        views(steps@) == login_steps(
            selector_kind,
            login_selectors(provider.kind(), selector_kind),
            login_config@,
        ),
{
    let selectors = provider.get_login_selectors(selector_kind);
    let mut steps: Vec<Command> = Vec::new();
    steps.push(
        Command {
            op: Operation::Goto { url: login_config.login_url.clone() },
            on_failure: FailureRule::Driver,
        },
    );
    steps.push(Command::wait(500));
    steps.push(
        Command::sure(
            Operation::StartWatcher {
                kind: selector_kind,
                selector: String::from_str(selectors.failed_attempt_indicator),
            },
        ),
    );
    assert(views(steps@) =~= login_opening(selector_kind, selectors, login_config@));

    let mut name_steps = username(
        ActionPacket { provider, config_section: login_config, selector_kind, selectors },
    );
    let packet = ActionPacket { provider, config_section: login_config, selector_kind, selectors };
    let mut word_steps = password(&packet);

    let mut closing: Vec<Command> = Vec::new();
    closing.push(provider.with_element(selector_kind, selectors.submit_button));
    closing.push(provider.with_action(ActionKind::Click));
    closing.push(Command::wait(2000));
    closing.push(Command::sure(Operation::CheckWatcher));
    closing.push(Command::sure(Operation::CloseWatcher));
    assert(views(closing@) =~= login_closing(selector_kind, selectors));

    proof {
        views_of_concat(steps@, name_steps@);
        views_of_concat(steps@ + name_steps@, word_steps@);
        views_of_concat(steps@ + name_steps@ + word_steps@, closing@);
    }
    steps.append(&mut name_steps);
    steps.append(&mut word_steps);
    steps.append(&mut closing);
    steps
}

/// The observer is started on the login page and before anything is done
/// to it: the page is loaded first, the observer is started third, every
/// step that empties a field, types or presses comes later, and the one
/// read of the observer's channel comes after the last of them.
pub proof fn observer_starts_before_the_page_is_touched(
    kind: SelectorKind,
    selectors: LoginSelectors,
    config: LoginConfigView,
)
    ensures
        login_steps(kind, selectors, config).len() == 16,
        login_steps(kind, selectors, config)[0].op == (OperationView::Goto {
            url: config.login_url,
        }),
        login_steps(kind, selectors, config)[2] == CommandView::sure(
            OperationView::StartWatcher { kind, selector: selectors.failed_attempt_indicator@ },
        ),
        forall|i: int|
            0 <= i < 16 && (#[trigger] login_steps(kind, selectors, config)[i]).op.is_destructive()
                ==> 2 < i < 14,
        login_steps(kind, selectors, config)[13].op == (OperationView::Wait {
            millis: settle_millis(),
        }),
        login_steps(kind, selectors, config)[14].op is CheckWatcher,
        forall|i: int|
            0 <= i < 14 ==> !((#[trigger] login_steps(kind, selectors, config)[i]).op
                is CheckWatcher),
{
    let steps = login_steps(kind, selectors, config);
    let opening = login_opening(kind, selectors, config);
    let name = username_steps(kind, selectors, config);
    let word = password_steps(kind, selectors, config);
    let closing = login_closing(kind, selectors);
    assert(steps.len() == 16);
    assert(steps[0] == opening[0]);
    assert(steps[2] == opening[2]);
    assert(steps[13] == closing[2]);
    assert(steps[15] == closing[4]);
    assert forall|i: int| 0 <= i < 14 implies !((#[trigger] steps[i]).op is CheckWatcher) by {
        if i < 3 {
            assert(steps[i] == opening[i]);
        } else if i < 7 {
            assert(steps[i] == name[i - 3]);
        } else if i < 11 {
            assert(steps[i] == word[i - 7]);
        } else {
            assert(steps[i] == closing[i - 11]);
        }
    }
    assert(steps[14] == closing[3]);
}

/// The answers of a session in which every step of the login sequence
/// goes well: the three fields are found as the elements given, and the
/// observer's channel reads as `read`.
pub open spec fn smooth_answers(
    username_field: Seq<char>,
    password_field: Seq<char>,
    submit_button: Seq<char>,
    read: TryRecvView,
) -> Seq<StepResultView> {
    seq![
        StepResultView::Done,
        StepResultView::Done,
        StepResultView::Done,
        StepResultView::Found(username_field),
        StepResultView::Done,
        StepResultView::Done,
        StepResultView::Done,
        StepResultView::Found(password_field),
        StepResultView::Done,
        StepResultView::Done,
        StepResultView::Done,
        StepResultView::Found(submit_button),
        StepResultView::Done,
        StepResultView::Done,
        StepResultView::Watcher(read),
        StepResultView::Done,
    ]
}

proof fn smooth_login_reaches(
    script: Seq<CommandView>,
    answers: Seq<StepResultView>,
    kind: SelectorKind,
    selectors: LoginSelectors,
    config: LoginConfigView,
    username_field: Seq<char>,
    password_field: Seq<char>,
    submit_button: Seq<char>,
    read: TryRecvView,
    count: int,
)
    requires
        script == login_steps(kind, selectors, config),
        answers == smooth_answers(username_field, password_field, submit_button, read),
        0 <= count <= 14,
    ensures
        run(script, answers.take(count)) == (Progress {
            position: count as nat,
            element: if count <= 3 {
                None
            } else if count <= 7 {
                Some(username_field)
            } else if count <= 11 {
                Some(password_field)
            } else {
                Some(submit_button)
            },
            verdict: None,
        }),
    decreases count,
{
    let opening = login_opening(kind, selectors, config);
    let name = username_steps(kind, selectors, config);
    let word = password_steps(kind, selectors, config);
    let closing = login_closing(kind, selectors);
    assert(script.len() == 16);
    if count == 0 {
        assert(answers.take(0) =~= Seq::<StepResultView>::empty());
        assert(script[0] == opening[0]);
    } else {
        smooth_login_reaches(
            script,
            answers,
            kind,
            selectors,
            config,
            username_field,
            password_field,
            submit_button,
            read,
            count - 1,
        );
        assert(answers.take(count).drop_last() =~= answers.take(count - 1));
        assert(answers.take(count).last() == answers[count - 1]);
        let at = count - 1;
        if at < 3 {
            assert(script[at] == opening[at]);
        } else if at < 7 {
            assert(script[at] == name[at - 3]);
        } else if at < 11 {
            assert(script[at] == word[at - 7]);
        } else {
            assert(script[at] == closing[at - 11]);
        }
        if count < 3 {
            assert(script[count] == opening[count]);
        } else if count < 7 {
            assert(script[count] == name[count - 3]);
        } else if count < 11 {
            assert(script[count] == word[count - 7]);
        } else {
            assert(script[count] == closing[count - 11]);
        }
    }
}

/// A login in which every step goes well ends as the observer says: with
/// a login failure that carries the observer's message where the channel
/// held one, and well where it held none.
pub proof fn smooth_login_ends_as_the_observer_says(
    kind: SelectorKind,
    selectors: LoginSelectors,
    config: LoginConfigView,
    username_field: Seq<char>,
    password_field: Seq<char>,
    submit_button: Seq<char>,
    read: TryRecvView,
)
    ensures
        run(
            login_steps(kind, selectors, config),
            smooth_answers(username_field, password_field, submit_button, read),
        ).verdict == match read {
            TryRecvView::Message(message) => Some(
                Err::<(), ErrorView>(ErrorView::LoginFailure(message)),
            ),
            _ => Some(Ok::<(), ErrorView>(())),
        },
{
    let script = login_steps(kind, selectors, config);
    let answers = smooth_answers(username_field, password_field, submit_button, read);
    let closing = login_closing(kind, selectors);
    smooth_login_reaches(
        script,
        answers,
        kind,
        selectors,
        config,
        username_field,
        password_field,
        submit_button,
        read,
        14,
    );
    assert(script.len() == 16);
    assert(script[14] == closing[3]);
    assert(script[15] == closing[4]);
    assert(answers.take(15).drop_last() =~= answers.take(14));
    assert(answers.take(15).last() == answers[14]);
    assert(answers.drop_last() =~= answers.take(15));
    assert(answers.last() == answers[15]);
    let read_done = run(script, answers.take(15));
    assert(read_done == react(script, run(script, answers.take(14)), answers[14]));
    assert(run(script, answers) == react(script, read_done, answers[15]));
}

/// A failure that shows within two polls of the observer fails the login.
///
/// The login waits for two polling intervals between the press of the
/// submit button and its read, so the first two looks of the observer
/// after the press are taken before the read. Where one of them sees the
/// failure indicator, and no look before it saw the address change or
/// the receiving end closed, the read finds the observer's diagnostic, and
/// a login in which every step went well ends with a login failure that
/// carries that diagnostic unchanged.
pub proof fn failure_within_two_polls_fails_the_login(
    kind: SelectorKind,
    selectors: LoginSelectors,
    config: LoginConfigView,
    username_field: Seq<char>,
    password_field: Seq<char>,
    submit_button: Seq<char>,
    baseline: Seq<char>,
    rounds: Seq<Round>,
    k: int,
)
    requires
        0 <= k < rounds.len(),
        k < 2,
        rounds[k].seen.indicator is Visible,
        forall|i: int|
            0 <= i < k ==> !(#[trigger] rounds[i].seen.indicator is Visible)
                && rounds[i].seen.address == baseline && !rounds[i].closed_while_asleep,
    ensures
        settle_millis() == 2 * poll_interval_millis(),
        k * poll_interval_millis() < settle_millis(),
        channel_after(OutcomeChannelView::fresh(), watch(baseline, rounds)).read()
            == TryRecvView::Message(diagnostic()),
        run(
            login_steps(kind, selectors, config),
            smooth_answers(
                username_field,
                password_field,
                submit_button,
                channel_after(OutcomeChannelView::fresh(), watch(baseline, rounds)).read(),
            ),
        ).verdict == Some(Err::<(), ErrorView>(ErrorView::LoginFailure(diagnostic()))),
{
    visible_indicator_is_reported_once(baseline, rounds, k);
    smooth_login_ends_as_the_observer_says(
        kind,
        selectors,
        config,
        username_field,
        password_field,
        submit_button,
        TryRecvView::Message(diagnostic()),
    );
}

/// A login after which the address of the page changes, and during which
/// the failure indicator never shows, succeeds: the observer ends without
/// a word, the read finds no message, and a login in which every step
/// went well ends well.
pub proof fn login_that_moves_on_succeeds(
    kind: SelectorKind,
    selectors: LoginSelectors,
    config: LoginConfigView,
    username_field: Seq<char>,
    password_field: Seq<char>,
    submit_button: Seq<char>,
    baseline: Seq<char>,
    rounds: Seq<Round>,
    k: int,
)
    requires
        forall|i: int| 0 <= i < rounds.len() ==> !(#[trigger] rounds[i].seen.indicator is Visible),
        0 <= k < rounds.len(),
        rounds[k].seen.address != baseline,
    ensures
        !(channel_after(OutcomeChannelView::fresh(), watch(baseline, rounds)).read() is Message),
        run(
            login_steps(kind, selectors, config),
            smooth_answers(
                username_field,
                password_field,
                submit_button,
                channel_after(OutcomeChannelView::fresh(), watch(baseline, rounds)).read(),
            ),
        ).verdict == Some(Ok::<(), ErrorView>(())),
{
    address_change_ends_the_watch_silently(baseline, rounds, k);
    smooth_login_ends_as_the_observer_says(
        kind,
        selectors,
        config,
        username_field,
        password_field,
        submit_button,
        TryRecvView::Disconnected,
    );
}

} // verus!
