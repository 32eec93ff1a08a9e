use jobflow::pre_fsm::{
    detect_login_failure, watch_rounds, Indicator, Observation, OutcomeChannel, Poll, TryRecv,
    Watcher, WatcherAction, WatcherEnd, WatcherPhase,
};
use jobflow::providers::{LinkedInProvider, Provider, SelectorKind};
use jobflow::selectors::LoginSelectors;

const LOGIN_PAGE: &str = "https://www.linkedin.com/login";
const FEED: &str = "https://www.linkedin.com/feed/";
const DIAGNOSTIC: &str = "Login failed detected via failed attempt indicator.";

fn selectors() -> LoginSelectors {
    LinkedInProvider.get_login_selectors(SelectorKind::Xpath)
}

fn saw(indicator: Indicator, address: &str) -> Observation {
    Observation { indicator, address: String::from(address) }
}

fn round(indicator: Indicator, address: &str, closed_while_asleep: bool) -> Poll {
    Poll { seen: saw(indicator, address), closed_while_asleep }
}

fn quiet() -> Poll {
    round(Indicator::Missing, LOGIN_PAGE, false)
}

fn watch(rounds: &Vec<Poll>) -> (WatcherEnd, OutcomeChannel) {
    let mut channel = OutcomeChannel::new();
    let end = watch_rounds(&selectors(), SelectorKind::Xpath, String::from(LOGIN_PAGE), rounds, &mut channel);
    (end, channel)
}

#[test]
fn observer_begins_about_to_look_at_the_failure_indicator() {
    let watcher = detect_login_failure(&selectors(), SelectorKind::Xpath, String::from(LOGIN_PAGE));
    assert_eq!(
        watcher,
        Watcher {
            kind: SelectorKind::Xpath,
            selector: String::from("//div[@id='error-for-username']"),
            baseline: String::from(LOGIN_PAGE),
            phase: WatcherPhase::Observing,
        }
    );
    let css = LinkedInProvider.get_login_selectors(SelectorKind::Css);
    let watcher = detect_login_failure(&css, SelectorKind::Css, String::new());
    assert_eq!(watcher.selector, "div#error-for-username");
    assert_eq!(watcher.kind, SelectorKind::Css);
}

#[test]
fn visible_indicator_is_reported() {
    let mut watcher = detect_login_failure(&selectors(), SelectorKind::Xpath, String::from(LOGIN_PAGE));
    assert_eq!(
        watcher.observed(&saw(Indicator::Visible, LOGIN_PAGE)),
        WatcherAction::Report { message: String::from(DIAGNOSTIC) }
    );
    assert_eq!(watcher.phase, WatcherPhase::Ended);
}

#[test]
fn visible_indicator_goes_before_a_changed_address() {
    let mut watcher = detect_login_failure(&selectors(), SelectorKind::Xpath, String::from(LOGIN_PAGE));
    assert_eq!(
        watcher.observed(&saw(Indicator::Visible, FEED)),
        WatcherAction::Report { message: String::from(DIAGNOSTIC) }
    );
}

#[test]
fn changed_address_ends_the_observer_silently() {
    for indicator in [Indicator::Missing, Indicator::Hidden] {
        let mut watcher = detect_login_failure(&selectors(), SelectorKind::Xpath, String::from(LOGIN_PAGE));
        assert_eq!(watcher.observed(&saw(indicator, FEED)), WatcherAction::Quit);
        assert_eq!(watcher.phase, WatcherPhase::Ended);
    }
}

#[test]
fn nothing_to_see_puts_the_observer_to_sleep_for_a_second() {
    for indicator in [Indicator::Missing, Indicator::Hidden] {
        let mut watcher = detect_login_failure(&selectors(), SelectorKind::Xpath, String::from(LOGIN_PAGE));
        assert_eq!(watcher.observed(&saw(indicator, LOGIN_PAGE)), WatcherAction::Sleep { millis: 1000 });
        assert_eq!(watcher.phase, WatcherPhase::Sleeping);
        assert_eq!(watcher.slept(false), WatcherAction::Observe);
        assert_eq!(watcher.phase, WatcherPhase::Observing);
    }
}

#[test]
fn closed_receiver_ends_the_observer_after_its_sleep() {
    let mut watcher = detect_login_failure(&selectors(), SelectorKind::Xpath, String::from(LOGIN_PAGE));
    watcher.observed(&saw(Indicator::Missing, LOGIN_PAGE));
    assert_eq!(watcher.slept(true), WatcherAction::Quit);
    assert_eq!(watcher.phase, WatcherPhase::Ended);
}

#[test]
fn ended_observer_stays_ended() {
    let mut watcher = detect_login_failure(&selectors(), SelectorKind::Xpath, String::from(LOGIN_PAGE));
    watcher.observed(&saw(Indicator::Hidden, FEED));
    assert_eq!(watcher.observed(&saw(Indicator::Visible, LOGIN_PAGE)), WatcherAction::Quit);
    assert_eq!(watcher.slept(false), WatcherAction::Quit);
    assert_eq!(watcher.phase, WatcherPhase::Ended);
}

#[test]
fn misplaced_reports_end_the_observer() {
    let mut watcher = detect_login_failure(&selectors(), SelectorKind::Xpath, String::from(LOGIN_PAGE));
    assert_eq!(watcher.slept(false), WatcherAction::Quit);
    assert_eq!(watcher.phase, WatcherPhase::Ended);
    let mut watcher = detect_login_failure(&selectors(), SelectorKind::Xpath, String::from(LOGIN_PAGE));
    watcher.observed(&saw(Indicator::Missing, LOGIN_PAGE));
    assert_eq!(watcher.observed(&saw(Indicator::Visible, LOGIN_PAGE)), WatcherAction::Quit);
    assert_eq!(watcher.selector, "//div[@id='error-for-username']");
    assert_eq!(watcher.baseline, LOGIN_PAGE);
}

#[test]
fn address_change_without_indicator_sends_no_message() {
    for quiet_rounds in 0..4 {
        let mut rounds = vec![quiet(); quiet_rounds];
        rounds.push(round(Indicator::Missing, FEED, false));
        rounds.push(round(Indicator::Hidden, FEED, false));
        let (end, mut channel) = watch(&rounds);
        assert_eq!(end, WatcherEnd::AddressChanged);
        assert_eq!(channel.slot, None);
        // The observer is gone: the receiver sees the channel closed and empty.
        assert!(!channel.sender_open);
        assert_eq!(channel.try_recv(), TryRecv::Disconnected);
    }
}

#[test]
fn hidden_indicator_is_not_a_failure() {
    let rounds = vec![
        round(Indicator::Hidden, LOGIN_PAGE, false),
        round(Indicator::Hidden, LOGIN_PAGE, false),
        round(Indicator::Hidden, FEED, false),
    ];
    let (end, channel) = watch(&rounds);
    assert_eq!(end, WatcherEnd::AddressChanged);
    assert_eq!(channel, OutcomeChannel { slot: None, receiver_open: true, sender_open: false });
}

#[test]
fn indicator_before_any_address_change_sends_exactly_one_message() {
    for quiet_rounds in 0..4 {
        let mut rounds = vec![quiet(); quiet_rounds];
        rounds.push(round(Indicator::Visible, LOGIN_PAGE, false));
        rounds.push(round(Indicator::Visible, LOGIN_PAGE, false));
        rounds.push(round(Indicator::Missing, FEED, false));
        let (end, mut channel) = watch(&rounds);
        assert_eq!(end, WatcherEnd::Reported);
        assert_eq!(channel.try_recv(), TryRecv::Message(String::from(DIAGNOSTIC)));
        assert_eq!(channel.try_recv(), TryRecv::Disconnected);
    }
}

#[test]
fn indicator_after_the_address_changed_is_not_reported() {
    let rounds = vec![quiet(), round(Indicator::Missing, FEED, false), round(Indicator::Visible, FEED, false)];
    let (end, channel) = watch(&rounds);
    assert_eq!(end, WatcherEnd::AddressChanged);
    assert_eq!(channel.slot, None);
}

#[test]
fn closed_receiver_cancels_the_observer() {
    let rounds = vec![quiet(), round(Indicator::Missing, LOGIN_PAGE, true), round(Indicator::Visible, LOGIN_PAGE, false)];
    let (end, mut channel) = watch(&rounds);
    assert_eq!(end, WatcherEnd::Cancelled);
    // The receiving end is the other side's to close; the observer only drops its own end.
    assert!(!channel.is_closed());
    assert!(!channel.sender_open);
    assert_eq!(channel.try_recv(), TryRecv::Disconnected);
}

#[test]
fn observer_that_saw_nothing_yet_still_watches() {
    let (end, channel) = watch(&vec![]);
    assert_eq!(end, WatcherEnd::StillWatching);
    assert_eq!(channel, OutcomeChannel::new());
    let (end, channel) = watch(&vec![quiet(), quiet(), quiet()]);
    assert_eq!(end, WatcherEnd::StillWatching);
    assert_eq!(channel, OutcomeChannel::new());
}

#[test]
fn report_into_a_closed_channel_is_lost() {
    let mut channel = OutcomeChannel::new();
    channel.close();
    let rounds = vec![round(Indicator::Visible, LOGIN_PAGE, false)];
    let end = watch_rounds(&selectors(), SelectorKind::Xpath, String::from(LOGIN_PAGE), &rounds, &mut channel);
    assert_eq!(end, WatcherEnd::Reported);
    assert_eq!(channel.slot, None);
    assert_eq!(channel.try_recv(), TryRecv::Disconnected);
}

#[test]
fn fresh_channel_is_empty_and_open() {
    let mut channel = OutcomeChannel::new();
    assert_eq!(channel, OutcomeChannel { slot: None, receiver_open: true, sender_open: true });
    assert!(!channel.is_closed());
    assert_eq!(channel.try_recv(), TryRecv::Empty);
}

#[test]
fn channel_holds_one_message() {
    let mut channel = OutcomeChannel::new();
    assert!(channel.send(String::from("first")));
    assert!(!channel.send(String::from("second")));
    assert_eq!(channel.try_recv(), TryRecv::Message(String::from("first")));
    assert_eq!(channel.try_recv(), TryRecv::Empty);
    assert!(channel.send(String::from("third")));
    assert_eq!(channel.try_recv(), TryRecv::Message(String::from("third")));
}

#[test]
fn closed_channel_takes_no_message_and_still_gives_the_one_it_holds() {
    let mut channel = OutcomeChannel::new();
    assert!(channel.send(String::from("kept")));
    channel.close();
    assert!(channel.is_closed());
    assert!(!channel.send(String::from("lost")));
    assert_eq!(channel.try_recv(), TryRecv::Message(String::from("kept")));
    assert_eq!(channel.try_recv(), TryRecv::Empty);
    assert!(!channel.send(String::from("lost")));
}

#[test]
fn channel_without_sender_is_disconnected_once_drained() {
    let mut channel = OutcomeChannel::new();
    channel.send(String::from("last words"));
    channel.drop_sender();
    assert!(!channel.send(String::from("too late")));
    assert_eq!(channel.try_recv(), TryRecv::Message(String::from("last words")));
    assert_eq!(channel.try_recv(), TryRecv::Disconnected);
    let mut silent = OutcomeChannel::new();
    silent.drop_sender();
    assert_eq!(silent.try_recv(), TryRecv::Disconnected);
}

#[test]
fn ended_observer_has_dropped_its_sender_however_it_ended() {
    let endings = [
        (vec![round(Indicator::Visible, LOGIN_PAGE, false)], WatcherEnd::Reported),
        (vec![round(Indicator::Missing, FEED, false)], WatcherEnd::AddressChanged),
        (vec![round(Indicator::Missing, LOGIN_PAGE, true)], WatcherEnd::Cancelled),
    ];
    for (rounds, expected) in endings {
        let (end, mut channel) = watch(&rounds);
        assert_eq!(end, expected);
        assert!(!channel.sender_open);
        assert!(!channel.send(String::from("late")));
        channel.try_recv();
        assert_eq!(channel.try_recv(), TryRecv::Disconnected);
    }
    let (end, channel) = watch(&vec![quiet()]);
    assert_eq!(end, WatcherEnd::StillWatching);
    assert!(channel.sender_open);
}
