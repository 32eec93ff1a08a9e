//! The observer that runs beside the login sequence and looks out for the
//! sign of a failed attempt, and the channel of one slot through which it
//! reports.

use vstd::prelude::*;
use vstd::string::*;

use crate::pre_fsm::command::{TryRecv, TryRecvView};
use crate::providers::SelectorKind;
use crate::selectors::login::LoginSelectors;

verus! {

/// What a look for the failure indicator found.
#[derive(Debug, Clone, Copy, PartialEq, Eq, Structural)]
pub enum Indicator {
    /// No element matches.
    Missing,
    /// An element matches and is not shown.
    Hidden,
    /// An element matches and is shown.
    Visible,
}

/// What the observer saw in one poll: the indicator and the address of
/// the page.
#[derive(Debug, Clone, PartialEq, Eq)]
pub struct Observation {
    pub indicator: Indicator,
    pub address: String,
}

pub struct ObservationView {
    pub indicator: Indicator,
    pub address: Seq<char>,
}

impl View for Observation {
    type V = ObservationView;

    open spec fn view(&self) -> ObservationView {
        ObservationView { indicator: self.indicator, address: self.address@ }
    }
}

/// What the observer does next.
#[derive(Debug, Clone, PartialEq, Eq)]
pub enum WatcherAction {
    /// Send `message` through the outcome channel, once, and end.
    Report { message: String },
    /// End without a message.
    Quit,
    /// Sleep for `millis` milliseconds, then say whether the receiving
    /// end of the outcome channel was closed meanwhile.
    Sleep { millis: u64 },
    /// Look for the indicator and read the address of the page.
    Observe,
}

pub enum WatcherActionView {
    Report { message: Seq<char> },
    Quit,
    Sleep { millis: u64 },
    Observe,
}

impl View for WatcherAction {
    type V = WatcherActionView;

    open spec fn view(&self) -> WatcherActionView {
        match self {
            WatcherAction::Report { message } => WatcherActionView::Report { message: message@ },
            WatcherAction::Quit => WatcherActionView::Quit,
            WatcherAction::Sleep { millis } => WatcherActionView::Sleep { millis: *millis },
            WatcherAction::Observe => WatcherActionView::Observe,
        }
    }
}

/// Where the observer stands.
#[derive(Debug, Clone, Copy, PartialEq, Eq, Structural)]
pub enum WatcherPhase {
    /// It is about to look at the page.
    Observing,
    /// It sleeps between two looks.
    Sleeping,
    /// It has ended.
    Ended,
}

/// The message the observer sends when it sees the failure indicator.
pub open spec fn diagnostic() -> Seq<char> {
    "Login failed detected via failed attempt indicator."@
}

/// The milliseconds the observer sleeps between two looks.
pub open spec fn poll_interval_millis() -> u64 {
    1000
}

/// What the observer does with what it saw, when the address of the page
/// was `baseline` as it began: a visible indicator is reported; otherwise
/// an address that has changed means that the login went through, and the
/// observer ends without a word; otherwise it sleeps.
pub open spec fn after_observation(baseline: Seq<char>, seen: ObservationView) -> (
    WatcherPhase,
    WatcherActionView,
) {
    if seen.indicator is Visible {
        (WatcherPhase::Ended, WatcherActionView::Report { message: diagnostic() })
    } else if seen.address != baseline {
        (WatcherPhase::Ended, WatcherActionView::Quit)
    } else {
        (WatcherPhase::Sleeping, WatcherActionView::Sleep { millis: poll_interval_millis() })
    }
}

/// What the observer does after its sleep: it ends without a word where
/// the receiving end of its channel was closed, and looks again where it
/// was not.
pub open spec fn after_sleep(receiver_closed: bool) -> (WatcherPhase, WatcherActionView) {
    if receiver_closed {
        (WatcherPhase::Ended, WatcherActionView::Quit)
    } else {
        (WatcherPhase::Observing, WatcherActionView::Observe)
    }
}

/// The observer of the failure indicator.
#[derive(Debug, Clone, PartialEq, Eq)]
pub struct Watcher {
    /// The language of the indicator's selector.
    pub kind: SelectorKind,
    /// The selector of the failure indicator.
    pub selector: String,
    /// The address of the page as the observer began.
    pub baseline: String,
    pub phase: WatcherPhase,
}

pub struct WatcherView {
    pub kind: SelectorKind,
    pub selector: Seq<char>,
    pub baseline: Seq<char>,
    pub phase: WatcherPhase,
}

impl View for Watcher {
    type V = WatcherView;

    open spec fn view(&self) -> WatcherView {
        WatcherView {
            kind: self.kind,
            selector: self.selector@,
            baseline: self.baseline@,
            phase: self.phase,
        }
    }
}

impl WatcherView {
    /// The same observer in the phase `phase`.
    pub open spec fn in_phase(self, phase: WatcherPhase) -> WatcherView {
        WatcherView {
            kind: self.kind,
            selector: self.selector,
            baseline: self.baseline,
            phase,
        }
    }
}

/// The observer of the failure indicator of `selectors`, about to take its
/// first look; `baseline` is the address of the page at this moment.
pub fn detect_login_failure(selectors: &LoginSelectors, selector_kind: SelectorKind, baseline: String) -> (watcher:
    Watcher)
    ensures
        watcher@ == (WatcherView {
            kind: selector_kind,
            selector: selectors.failed_attempt_indicator@,
            baseline: baseline@,
            phase: WatcherPhase::Observing,
        }),
{
    Watcher {
        kind: selector_kind,
        selector: String::from_str(selectors.failed_attempt_indicator),
        baseline,
        phase: WatcherPhase::Observing,
    }
}

impl Watcher {
    /// Takes what the observer saw. An observer that is not about to look
    /// ends without a word.
    pub fn observed(&mut self, seen: &Observation) -> (action: WatcherAction)
        ensures
            (final(self).phase, action@) == if old(self).phase is Observing {
                after_observation(old(self).baseline@, seen@)
            } else {
                (WatcherPhase::Ended, WatcherActionView::Quit)
            },
            final(self)@ == old(self)@.in_phase(final(self).phase),
    {
        match self.phase {
            WatcherPhase::Observing => {
                match seen.indicator {
                    Indicator::Visible => {
                        self.phase = WatcherPhase::Ended;
                        WatcherAction::Report {
                            message: String::from_str(
                                "Login failed detected via failed attempt indicator.",
                            ),
                        }
                    },
                    _ => {
                        if seen.address != self.baseline {
                            self.phase = WatcherPhase::Ended;
                            WatcherAction::Quit
                        } else {
                            self.phase = WatcherPhase::Sleeping;
                            WatcherAction::Sleep { millis: 1000 }
                        }
                    },
                }
            },
            _ => {
                self.phase = WatcherPhase::Ended;
                WatcherAction::Quit
            },
        }
    }

    /// Takes the end of the sleep, and whether the receiving end of the
    /// outcome channel was closed meanwhile. An observer that does not
    /// sleep ends without a word.
    pub fn slept(&mut self, receiver_closed: bool) -> (action: WatcherAction)
        ensures
            (final(self).phase, action@) == if old(self).phase is Sleeping {
                after_sleep(receiver_closed)
            } else {
                (WatcherPhase::Ended, WatcherActionView::Quit)
            },
            final(self)@ == old(self)@.in_phase(final(self).phase),
    {
        match self.phase {
            WatcherPhase::Sleeping => {
                if receiver_closed {
                    self.phase = WatcherPhase::Ended;
                    WatcherAction::Quit
                } else {
                    self.phase = WatcherPhase::Observing;
                    WatcherAction::Observe
                }
            },
            _ => {
                self.phase = WatcherPhase::Ended;
                WatcherAction::Quit
            },
        }
    }
}

/// The channel through which the observer reports: one slot, a sending
/// end that the observer holds and a receiving end that the login
/// sequence holds.
#[derive(Debug, Clone, PartialEq, Eq)]
pub struct OutcomeChannel {
    pub slot: Option<String>,
    pub receiver_open: bool,
    pub sender_open: bool,
}

pub struct OutcomeChannelView {
    pub slot: Option<Seq<char>>,
    pub receiver_open: bool,
    pub sender_open: bool,
}

impl View for OutcomeChannel {
    type V = OutcomeChannelView;

    open spec fn view(&self) -> OutcomeChannelView {
        OutcomeChannelView {
            slot: match self.slot {
                Some(message) => Some(message@),
                None => None,
            },
            receiver_open: self.receiver_open,
            sender_open: self.sender_open,
        }
    }
}

impl OutcomeChannelView {
    /// The channel as it is made: empty, both ends open.
    pub open spec fn fresh() -> OutcomeChannelView {
        OutcomeChannelView { slot: None, receiver_open: true, sender_open: true }
    }

    /// Whether a message sent now is taken.
    pub open spec fn accepts(self) -> bool {
        self.receiver_open && self.sender_open && self.slot is None
    }

    /// The channel after `message` was sent: it fills the slot where it is
    /// taken, and is lost where it is not.
    pub open spec fn sent(self, message: Seq<char>) -> OutcomeChannelView {
        if self.accepts() {
            OutcomeChannelView {
                slot: Some(message),
                receiver_open: self.receiver_open,
                sender_open: self.sender_open,
            }
        } else {
            self
        }
    }

    /// What a read without blocking gives.
    pub open spec fn read(self) -> TryRecvView {
        match self.slot {
            Some(message) => TryRecvView::Message(message),
            None => if self.sender_open {
                TryRecvView::Empty
            } else {
                TryRecvView::Disconnected
            },
        }
    }

    /// The channel after a read: the slot is empty.
    pub open spec fn drained(self) -> OutcomeChannelView {
        OutcomeChannelView {
            slot: None,
            receiver_open: self.receiver_open,
            sender_open: self.sender_open,
        }
    }

    /// The channel after its receiving end was closed. A message in the
    /// slot can still be read.
    pub open spec fn closed(self) -> OutcomeChannelView {
        OutcomeChannelView { slot: self.slot, receiver_open: false, sender_open: self.sender_open }
    }

    /// The channel after its sending end was dropped.
    pub open spec fn abandoned(self) -> OutcomeChannelView {
        OutcomeChannelView {
            slot: self.slot,
            receiver_open: self.receiver_open,
            sender_open: false,
        }
    }
}

impl OutcomeChannel {
    /// An empty channel with both ends open.
    pub fn new() -> (channel: OutcomeChannel)
        ensures
            channel@ == OutcomeChannelView::fresh(),
    {
        OutcomeChannel { slot: None, receiver_open: true, sender_open: true }
    }

    /// Sends `message`. It is taken where both ends are open and the slot
    /// is empty; otherwise it is lost, which is no error.
    pub fn send(&mut self, message: String) -> (taken: bool)
        ensures
            taken == old(self)@.accepts(),
            final(self)@ == old(self)@.sent(message@),
    {
        if self.receiver_open && self.sender_open && self.slot.is_none() {
            self.slot = Some(message);
            true
        } else {
            false
        }
    }

    /// Reads without blocking: the message in the slot, which is taken
    /// out, or that there is none yet, or that there is none and none
    /// will come.
    pub fn try_recv(&mut self) -> (read: TryRecv)
        ensures
            read@ == old(self)@.read(),
            final(self)@ == old(self)@.drained(),
    {
        let sender_open = self.sender_open;
        match self.slot.take() {
            Some(message) => TryRecv::Message(message),
            None => {
                if sender_open {
                    TryRecv::Empty
                } else {
                    TryRecv::Disconnected
                }
            },
        }
    }

    /// Closes the receiving end.
    pub fn close(&mut self)
        ensures
            final(self)@ == old(self)@.closed(),
    {
        self.receiver_open = false;
    }

    /// Drops the sending end.
    pub fn drop_sender(&mut self)
        ensures
            final(self)@ == old(self)@.abandoned(),
    {
        self.sender_open = false;
    }

    /// Whether the receiving end was closed.
    pub fn is_closed(&self) -> (closed: bool)
        ensures
            closed == !self.receiver_open,
    {
        !self.receiver_open
    }
}

/// One round of the observer: what it saw, and whether the receiving end
/// of its channel was closed while it slept afterwards.
#[derive(Debug, Clone, PartialEq, Eq)]
pub struct Poll {
    pub seen: Observation,
    pub closed_while_asleep: bool,
}

pub struct Round {
    pub seen: ObservationView,
    pub closed_while_asleep: bool,
}

impl View for Poll {
    type V = Round;

    open spec fn view(&self) -> Round {
        Round { seen: self.seen@, closed_while_asleep: self.closed_while_asleep }
    }
}

/// How the observer ended.
#[derive(Debug, Clone, Copy, PartialEq, Eq, Structural)]
pub enum WatcherEnd {
    /// It saw the indicator and sent its message.
    Reported,
    /// It saw the address change and sent nothing.
    AddressChanged,
    /// It found the receiving end closed and sent nothing.
    Cancelled,
    /// It has not ended.
    StillWatching,
}

/// How the observer that began at the address `baseline` stands after the
/// rounds `rounds`, in order.
pub open spec fn watch(baseline: Seq<char>, rounds: Seq<Round>) -> WatcherEnd
    decreases rounds.len(),
{
    if rounds.len() == 0 {
        WatcherEnd::StillWatching
    } else {
        let round = rounds.first();
        let looked = after_observation(baseline, round.seen);
        if looked.1 is Report {
            WatcherEnd::Reported
        } else if looked.0 is Ended {
            WatcherEnd::AddressChanged
        } else if after_sleep(round.closed_while_asleep).0 is Ended {
            WatcherEnd::Cancelled
        } else {
            watch(baseline, rounds.drop_first())
        }
    }
}

/// The messages the observer has sent by the end of `rounds`: its one
/// diagnostic where it reported, none otherwise.
pub open spec fn messages_sent(baseline: Seq<char>, rounds: Seq<Round>) -> Seq<Seq<char>> {
    if watch(baseline, rounds) is Reported {
        seq![diagnostic()]
    } else {
        Seq::empty()
    }
}

/// The channel after the observer went through its rounds and ended as
/// `end` says. An observer that has ended has dropped its sending end,
/// after it sent its diagnostic where it reported. The receiving end is
/// the other side's: the observer never closes it.
pub open spec fn channel_after(channel: OutcomeChannelView, end: WatcherEnd) -> OutcomeChannelView {
    match end {
        WatcherEnd::Reported => channel.sent(diagnostic()).abandoned(),
        WatcherEnd::AddressChanged => channel.abandoned(),
        WatcherEnd::Cancelled => channel.abandoned(),
        WatcherEnd::StillWatching => channel,
    }
}

/// Lets the observer of the failure indicator of `selectors` go through
/// `rounds`, from its first look on, and report through `channel`. The
/// rounds after the one that ends the observer are not looked at. The
/// observer drops its sending end as it ends.
pub fn watch_rounds(
    selectors: &LoginSelectors,
    selector_kind: SelectorKind,
    baseline: String,
    rounds: &Vec<Poll>,
    channel: &mut OutcomeChannel,
) -> (end: WatcherEnd)
    ensures
        end == watch(baseline@, crate::text::views(rounds@)),
        final(channel)@ == channel_after(old(channel)@, end),
{
    let mut watcher = detect_login_failure(selectors, selector_kind, baseline);
    let ghost all = crate::text::views(rounds@);
    assert(all.skip(0) =~= all);
    let mut i: usize = 0;
    while i < rounds.len()
        invariant
            i <= rounds.len(),
            all == crate::text::views(rounds@),
            watcher.phase is Observing,
            watcher.baseline@ == baseline@,
            watch(baseline@, all) == watch(baseline@, all.skip(i as int)),
            channel@ == old(channel)@,
        decreases rounds.len() - i,
    {
        assert(all.skip(i as int).first() == rounds@[i as int]@);
        assert(all.skip(i as int).drop_first() =~= all.skip(i + 1));
        match watcher.observed(&rounds[i].seen) {
            WatcherAction::Report { message } => {
                channel.send(message);
                channel.drop_sender();
                return WatcherEnd::Reported;
            },
            WatcherAction::Quit => {
                channel.drop_sender();
                return WatcherEnd::AddressChanged;
            },
            _ => {},
        }
        match watcher.slept(rounds[i].closed_while_asleep) {
            WatcherAction::Quit => {
                channel.drop_sender();
                return WatcherEnd::Cancelled;
            },
            _ => {},
        }
        i += 1;
    }
    assert(all.skip(rounds.len() as int) =~= Seq::<Round>::empty());
    WatcherEnd::StillWatching
}

/// Where the indicator never shows and the address of the page changes,
/// the observer ends and sends no message: the receiver of a channel that
/// was fresh sees it closed and empty.
pub proof fn address_change_ends_the_watch_silently(baseline: Seq<char>, rounds: Seq<Round>, k: int)
    requires
        forall|i: int| 0 <= i < rounds.len() ==> !(#[trigger] rounds[i].seen.indicator is Visible),
        0 <= k < rounds.len(),
        rounds[k].seen.address != baseline,
    ensures
        watch(baseline, rounds) is AddressChanged || watch(baseline, rounds) is Cancelled,
        messages_sent(baseline, rounds) == Seq::<Seq<char>>::empty(),
        channel_after(OutcomeChannelView::fresh(), watch(baseline, rounds)).slot is None,
        !channel_after(OutcomeChannelView::fresh(), watch(baseline, rounds)).sender_open,
        channel_after(OutcomeChannelView::fresh(), watch(baseline, rounds)).read()
            == TryRecvView::Disconnected,
    decreases rounds.len(),
{
    assert(!(rounds[0].seen.indicator is Visible));
    if k > 0 {
        let rest = rounds.drop_first();
        assert forall|i: int| 0 <= i < rest.len() implies !(#[trigger] rest[i].seen.indicator
            is Visible) by {
            assert(!(rounds[i + 1].seen.indicator is Visible));
        }
        address_change_ends_the_watch_silently(baseline, rest, k - 1);
    }
}

/// Where the indicator shows before the address of the page has changed
/// and before the receiving end was closed, the observer sends exactly one
/// message, its diagnostic, whatever comes afterwards, and drops its
/// sending end: the next read of a channel that was fresh receives the
/// message, and the read after that finds the channel disconnected.
pub proof fn visible_indicator_is_reported_once(baseline: Seq<char>, rounds: Seq<Round>, k: int)
    requires
        0 <= k < rounds.len(),
        rounds[k].seen.indicator is Visible,
        forall|i: int|
            0 <= i < k ==> !(#[trigger] rounds[i].seen.indicator is Visible)
                && rounds[i].seen.address == baseline && !rounds[i].closed_while_asleep,
    ensures
        watch(baseline, rounds) is Reported,
        messages_sent(baseline, rounds) == seq![diagnostic()],
        channel_after(OutcomeChannelView::fresh(), watch(baseline, rounds)).read()
            == TryRecvView::Message(diagnostic()),
        channel_after(OutcomeChannelView::fresh(), watch(baseline, rounds)).drained().read()
            == TryRecvView::Disconnected,
    decreases rounds.len(),
{
    if k > 0 {
        assert(!(rounds[0].seen.indicator is Visible));
        let rest = rounds.drop_first();
        assert forall|i: int| 0 <= i < k - 1 implies !(#[trigger] rest[i].seen.indicator
            is Visible) && rest[i].seen.address == baseline && !rest[i].closed_while_asleep by {
            assert(!(rounds[i + 1].seen.indicator is Visible));
        }
        visible_indicator_is_reported_once(baseline, rest, k - 1);
    }
}

/// A message sent into the fresh channel is received by the next read
/// without blocking, and by that read alone: the read after it finds the
/// slot empty.
pub proof fn one_message_is_received_once(message: Seq<char>)
    ensures
        OutcomeChannelView::fresh().sent(message).read() == TryRecvView::Message(message),
        !(OutcomeChannelView::fresh().sent(message).drained().read() is Message),
        OutcomeChannelView::fresh().sent(message).sent(message)
            == OutcomeChannelView::fresh().sent(message),
{
}

/// A channel into which nothing was sent gives no message, whether it is
/// read before or after its receiving end is closed, and takes none once
/// that end is closed.
pub proof fn silent_watch_leaves_the_channel_empty(message: Seq<char>)
    ensures
        OutcomeChannelView::fresh().read() == TryRecvView::Empty,
        OutcomeChannelView::fresh().closed().read() == TryRecvView::Empty,
        OutcomeChannelView::fresh().closed().sent(message) == OutcomeChannelView::fresh().closed(),
{
}

/// Over its whole life the observer sends at most one message, and once it
/// has ended its sending end is dropped, however it ended and whatever the
/// channel held: further messages are lost, and a receiver that has
/// drained the channel sees it disconnected.
pub proof fn ended_observer_has_dropped_its_sender(
    channel: OutcomeChannelView,
    baseline: Seq<char>,
    rounds: Seq<Round>,
    message: Seq<char>,
)
    requires
        !(watch(baseline, rounds) is StillWatching),
    ensures
        messages_sent(baseline, rounds).len() <= 1,
        !channel_after(channel, watch(baseline, rounds)).sender_open,
        channel_after(channel, watch(baseline, rounds)).sent(message) == channel_after(
            channel,
            watch(baseline, rounds),
        ),
        channel_after(channel, watch(baseline, rounds)).drained().read()
            == TryRecvView::Disconnected,
        channel_after(channel, watch(baseline, rounds)).receiver_open == channel.receiver_open,
{
}

} // verus!
