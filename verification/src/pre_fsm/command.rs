//! What an action sequence asks of the session, one step at a time, and
//! what the session answers.

use vstd::prelude::*;
use vstd::string::*;

use crate::error::{Error, ErrorView};
use crate::providers::SelectorKind;
use crate::states::action::{ActionKind, ActionKindView, ActionState, ActionStateView, ElementRef};

verus! {

/// How the failure of a step becomes the error of the sequence.
#[derive(Debug, Clone, PartialEq, Eq)]
pub enum FailureRule {
    /// A generic error whose text is `prefix` followed by the cause. The
    /// cause of a step that works on an element begins with that element.
    Generic { prefix: String },
    /// The driver's own error, unchanged.
    Driver,
    /// The step cannot fail; a failure reported for it is a fault of the
    /// state machine.
    Never,
}

pub enum FailureRuleView {
    Generic { prefix: Seq<char> },
    Driver,
    Never,
}

impl View for FailureRule {
    type V = FailureRuleView;

    open spec fn view(&self) -> FailureRuleView {
        match self {
            FailureRule::Generic { prefix } => FailureRuleView::Generic { prefix: prefix@ },
            FailureRule::Driver => FailureRuleView::Driver,
            FailureRule::Never => FailureRuleView::Never,
        }
    }
}

impl FailureRuleView {
    /// The error of a step that failed for `cause`.
    pub open spec fn error(self, cause: Seq<char>) -> ErrorView {
        match self {
            FailureRuleView::Generic { prefix } => ErrorView::Generic(prefix + cause),
            FailureRuleView::Driver => ErrorView::FantocciniCmdError { error: cause },
            FailureRuleView::Never => ErrorView::StateMachineError(cause),
        }
    }

    /// The rule that reports, as a generic error, `context` followed by
    /// the text of the error that this rule gives.
    pub open spec fn within(self, context: Seq<char>) -> FailureRuleView {
        match self {
            FailureRuleView::Generic { prefix } => FailureRuleView::Generic {
                prefix: context + "Generic error handler: "@ + prefix,
            },
            FailureRuleView::Driver => FailureRuleView::Generic {
                prefix: context + "Fantoccini command error: "@,
            },
            FailureRuleView::Never => FailureRuleView::Generic {
                prefix: context + "State machine error: "@,
            },
        }
    }
}

impl FailureRule {
    pub fn duplicate(&self) -> (copy: FailureRule)
        ensures
            copy@ == self@,
    {
        match self {
            FailureRule::Generic { prefix } => FailureRule::Generic { prefix: prefix.clone() },
            FailureRule::Driver => FailureRule::Driver,
            FailureRule::Never => FailureRule::Never,
        }
    }

    /// The error of a step that failed for `cause`.
    pub fn error(&self, cause: &str) -> (error: Error)
        ensures
            error@ == self@.error(cause@),
    {
        match self {
            FailureRule::Generic { prefix } => Error::Generic(
                crate::text::chain(prefix.as_str(), cause),
            ),
            FailureRule::Driver => Error::FantocciniCmdError { error: String::from_str(cause) },
            FailureRule::Never => Error::StateMachineError(String::from_str(cause)),
        }
    }

    /// The rule that reports, as a generic error, `context` followed by
    /// the text of the error that this rule gives.
    pub fn within(&self, context: &str) -> (rule: FailureRule)
        ensures
            rule@ == self@.within(context@),
    {
        let mut prefix = String::from_str(context);
        match self {
            FailureRule::Generic { prefix: inner } => {
                prefix.append("Generic error handler: ");
                prefix.append(inner.as_str());
            },
            FailureRule::Driver => {
                prefix.append("Fantoccini command error: ");
            },
            FailureRule::Never => {
                prefix.append("State machine error: ");
            },
        }
        FailureRule::Generic { prefix }
    }
}

/// A rule made by `within` reports the context followed by the text of the
/// error that the inner rule gives, whatever the cause.
pub proof fn within_reports_inner_error(rule: FailureRuleView, context: Seq<char>, cause: Seq<char>)
    ensures
        rule.within(context).error(cause) == ErrorView::Generic(
            context + rule.error(cause).message(),
        ),
{
    match rule {
        FailureRuleView::Generic { prefix } => {
            assert((context + "Generic error handler: "@ + prefix) + cause =~= context + (
            "Generic error handler: "@ + (prefix + cause)));
        },
        FailureRuleView::Driver => {
            assert((context + "Fantoccini command error: "@) + cause =~= context + (
            "Fantoccini command error: "@ + cause));
        },
        FailureRuleView::Never => {
            assert((context + "State machine error: "@) + cause =~= context + (
            "State machine error: "@ + cause));
        },
    }
}

/// One step of an action sequence, before the element it works on is
/// known.
#[derive(Debug, Clone, PartialEq, Eq)]
pub enum Operation {
    /// Start the background observer of the failure indicator.
    StartWatcher { kind: SelectorKind, selector: String },
    /// Load the page at `url`.
    Goto { url: String },
    /// Let `millis` milliseconds pass.
    Wait { millis: u64 },
    /// Wait, for a bounded time, until one element matches; it becomes the
    /// element that the following steps work on.
    Locate { kind: SelectorKind, selector: String },
    /// Take the elements that match now; none is not a failure.
    LocateAll { kind: SelectorKind, selector: String },
    /// Empty the element located last.
    Clear,
    /// Act on the element located last.
    Act(ActionKind),
    /// Read the page address; where it is `url` already, pass over the
    /// next `count` steps.
    SkipIfAt { url: String, count: usize },
    /// End the sequence here with a generic error that says `reason`.
    /// Nothing is asked of the session.
    Refuse { reason: String },
    /// Read the observer's outcome channel without blocking.
    CheckWatcher,
    /// Close the receiving end of the observer's outcome channel.
    CloseWatcher,
}

pub enum OperationView {
    StartWatcher { kind: SelectorKind, selector: Seq<char> },
    Goto { url: Seq<char> },
    Wait { millis: u64 },
    Locate { kind: SelectorKind, selector: Seq<char> },
    LocateAll { kind: SelectorKind, selector: Seq<char> },
    Clear,
    Act(ActionKindView),
    SkipIfAt { url: Seq<char>, count: usize },
    Refuse { reason: Seq<char> },
    CheckWatcher,
    CloseWatcher,
}

impl View for Operation {
    type V = OperationView;

    open spec fn view(&self) -> OperationView {
        match self {
            Operation::StartWatcher { kind, selector } => OperationView::StartWatcher {
                kind: *kind,
                selector: selector@,
            },
            Operation::Goto { url } => OperationView::Goto { url: url@ },
            Operation::Wait { millis } => OperationView::Wait { millis: *millis },
            Operation::Locate { kind, selector } => OperationView::Locate {
                kind: *kind,
                selector: selector@,
            },
            Operation::LocateAll { kind, selector } => OperationView::LocateAll {
                kind: *kind,
                selector: selector@,
            },
            Operation::Clear => OperationView::Clear,
            Operation::Act(action) => OperationView::Act(action@),
            Operation::SkipIfAt { url, count } => OperationView::SkipIfAt {
                url: url@,
                count: *count,
            },
            Operation::Refuse { reason } => OperationView::Refuse { reason: reason@ },
            Operation::CheckWatcher => OperationView::CheckWatcher,
            Operation::CloseWatcher => OperationView::CloseWatcher,
        }
    }
}

impl OperationView {
    /// Whether the step works on the element located last.
    pub open spec fn needs_element(self) -> bool {
        self is Clear || self is Act
    }

    /// Whether the step changes what the page holds: it empties a field,
    /// types or presses.
    pub open spec fn is_destructive(self) -> bool {
        self is Clear || self is Act
    }
}

impl Operation {
    /// Whether the step works on the element located last.
    pub fn needs_element(&self) -> (needs: bool)
        ensures
            needs == self@.needs_element(),
    {
        match self {
            Operation::Clear => true,
            Operation::Act(_) => true,
            _ => false,
        }
    }
}

/// A step and the rule for its failure.
#[derive(Debug, Clone, PartialEq, Eq)]
pub struct Command {
    pub op: Operation,
    pub on_failure: FailureRule,
}

pub struct CommandView {
    pub op: OperationView,
    pub on_failure: FailureRuleView,
}

impl View for Command {
    type V = CommandView;

    open spec fn view(&self) -> CommandView {
        CommandView { op: self.op@, on_failure: self.on_failure@ }
    }
}

impl CommandView {
    /// The step `op`, which cannot fail.
    pub open spec fn sure(op: OperationView) -> CommandView {
        CommandView { op, on_failure: FailureRuleView::Never }
    }

    /// The same step, whose failure is reported within `context`.
    pub open spec fn within(self, context: Seq<char>) -> CommandView {
        CommandView { op: self.op, on_failure: self.on_failure.within(context) }
    }
}

impl Command {
    /// The step `op`, which cannot fail.
    pub fn sure(op: Operation) -> (command: Command)
        ensures
            command@ == CommandView::sure(op@),
    {
        Command { op, on_failure: FailureRule::Never }
    }

    /// A pause of `millis` milliseconds.
    pub fn wait(millis: u64) -> (command: Command)
        ensures
            command@ == CommandView::sure(OperationView::Wait { millis }),
    {
        Command::sure(Operation::Wait { millis })
    }

    /// The same step, whose failure is reported within `context`.
    pub fn within(self, context: &str) -> (command: Command)
        ensures
            command@ == self@.within(context@),
    {
        let on_failure = self.on_failure.within(context);
        Command { op: self.op, on_failure }
    }
}

/// What a non-blocking read of the observer's outcome channel gave.
#[derive(Debug, Clone, PartialEq, Eq)]
pub enum TryRecv {
    /// The observer's diagnostic message.
    Message(String),
    /// Nothing was sent yet, and the observer may still send.
    Empty,
    /// Nothing was sent, and the observer is gone.
    Disconnected,
}

pub enum TryRecvView {
    Message(Seq<char>),
    Empty,
    Disconnected,
}

impl View for TryRecv {
    type V = TryRecvView;

    open spec fn view(&self) -> TryRecvView {
        match self {
            TryRecv::Message(m) => TryRecvView::Message(m@),
            TryRecv::Empty => TryRecvView::Empty,
            TryRecv::Disconnected => TryRecvView::Disconnected,
        }
    }
}

/// A step made ready for the session: the same as the operation, with the
/// element filled in where the operation works on one.
#[derive(Debug, Clone, PartialEq, Eq)]
pub enum Request {
    StartWatcher { kind: SelectorKind, selector: String },
    Goto { url: String },
    Wait { millis: u64 },
    Locate { kind: SelectorKind, selector: String },
    LocateAll { kind: SelectorKind, selector: String },
    Clear { element: ElementRef },
    Act(ActionState),
    ReadAddress,
    CheckWatcher,
    CloseWatcher,
}

pub enum RequestView {
    StartWatcher { kind: SelectorKind, selector: Seq<char> },
    Goto { url: Seq<char> },
    Wait { millis: u64 },
    Locate { kind: SelectorKind, selector: Seq<char> },
    LocateAll { kind: SelectorKind, selector: Seq<char> },
    Clear { element: Seq<char> },
    Act(ActionStateView),
    ReadAddress,
    CheckWatcher,
    CloseWatcher,
}

impl View for Request {
    type V = RequestView;

    open spec fn view(&self) -> RequestView {
        match self {
            Request::StartWatcher { kind, selector } => RequestView::StartWatcher {
                kind: *kind,
                selector: selector@,
            },
            Request::Goto { url } => RequestView::Goto { url: url@ },
            Request::Wait { millis } => RequestView::Wait { millis: *millis },
            Request::Locate { kind, selector } => RequestView::Locate {
                kind: *kind,
                selector: selector@,
            },
            Request::LocateAll { kind, selector } => RequestView::LocateAll {
                kind: *kind,
                selector: selector@,
            },
            Request::Clear { element } => RequestView::Clear { element: element@ },
            Request::Act(action) => RequestView::Act(action@),
            Request::ReadAddress => RequestView::ReadAddress,
            Request::CheckWatcher => RequestView::CheckWatcher,
            Request::CloseWatcher => RequestView::CloseWatcher,
        }
    }
}

impl OperationView {
    /// The request that carries out this step on `element`; none for a
    /// step that asks nothing of the session.
    pub open spec fn request(self, element: Seq<char>) -> Option<RequestView> {
        match self {
            OperationView::StartWatcher { kind, selector } => Some(
                RequestView::StartWatcher { kind, selector },
            ),
            OperationView::Goto { url } => Some(RequestView::Goto { url }),
            OperationView::Wait { millis } => Some(RequestView::Wait { millis }),
            OperationView::Locate { kind, selector } => Some(
                RequestView::Locate { kind, selector },
            ),
            OperationView::LocateAll { kind, selector } => Some(
                RequestView::LocateAll { kind, selector },
            ),
            OperationView::Clear => Some(RequestView::Clear { element }),
            OperationView::Act(action) => Some(RequestView::Act(action.on(element))),
            OperationView::SkipIfAt { url, count } => Some(RequestView::ReadAddress),
            OperationView::Refuse { reason } => None,
            OperationView::CheckWatcher => Some(RequestView::CheckWatcher),
            OperationView::CloseWatcher => Some(RequestView::CloseWatcher),
        }
    }

    /// The cause of a failure of this step as the error carries it: for
    /// a step that works on the located element, the cause that was
    /// reported with the element before it.
    pub open spec fn failure_cause(self, element: Option<Seq<char>>, cause: Seq<char>) -> Seq<char> {
        match element {
            Some(element) => if self.needs_element() {
                "element "@ + element + ": "@ + cause
            } else {
                cause
            },
            None => cause,
        }
    }
}

/// What the session answers to a request.
#[derive(Debug, Clone, PartialEq, Eq)]
pub enum StepResult {
    /// The request was carried out and gives nothing back.
    Done,
    /// The element that a `Locate` found.
    Found(ElementRef),
    /// How many elements a `LocateAll` found.
    FoundMany(usize),
    /// The page address that a `ReadAddress` read.
    Address(String),
    /// What a `CheckWatcher` read.
    Watcher(TryRecv),
    /// The request failed, for the cause given as text.
    Failed(String),
}

pub enum StepResultView {
    Done,
    Found(Seq<char>),
    FoundMany(usize),
    Address(Seq<char>),
    Watcher(TryRecvView),
    Failed(Seq<char>),
}

impl View for StepResult {
    type V = StepResultView;

    open spec fn view(&self) -> StepResultView {
        match self {
            StepResult::Done => StepResultView::Done,
            StepResult::Found(element) => StepResultView::Found(element@),
            StepResult::FoundMany(count) => StepResultView::FoundMany(*count),
            StepResult::Address(address) => StepResultView::Address(address@),
            StepResult::Watcher(read) => StepResultView::Watcher(read@),
            StepResult::Failed(cause) => StepResultView::Failed(cause@),
        }
    }
}

} // verus!
