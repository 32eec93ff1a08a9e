//! Runs an action sequence: hands out one request at a time and decides,
//! from each answer, whether the sequence goes on, ends well, or ends with
//! an error.

use vstd::prelude::*;
use vstd::string::*;

use crate::error::{Error, ErrorView};
use crate::pre_fsm::command::{
    Command,
    CommandView,
    Operation,
    OperationView,
    Request,
    RequestView,
    StepResult,
    StepResultView,
    TryRecv,
    TryRecvView,
};
use crate::states::action::ElementRef;
use crate::text::views;

verus! {

/// How far a sequence has come.
pub struct Progress {
    /// The index of the step that is due; the length of the script once
    /// every step is done.
    pub position: nat,
    /// The element located last, unless a navigation came after it.
    pub element: Option<Seq<char>>,
    /// `None` while steps are due; afterwards how the sequence ended.
    pub verdict: Option<Result<(), ErrorView>>,
}

impl Progress {
    /// The sequence, ended with `verdict` where it stands.
    pub open spec fn halt(self, verdict: Result<(), ErrorView>) -> Progress {
        Progress { position: self.position, element: self.element, verdict: Some(verdict) }
    }
}

/// The text of the error for a step that works on an element when none is
/// located.
pub open spec fn no_element_text() -> Seq<char> {
    "no element is located for the step"@
}

/// The text of the error for an answer that does not fit the step.
pub open spec fn unexpected_text() -> Seq<char> {
    "the answer does not fit the step"@
}

/// The progress on arrival at `position` with `element` located: ended well
/// past the last step, ended with an error before a step that needs an
/// element when there is none, ended with the generic error of a step
/// that refuses, otherwise waiting for that step.
pub open spec fn arrive(script: Seq<CommandView>, position: nat, element: Option<Seq<char>>) -> Progress {
    if position >= script.len() {
        Progress { position: script.len(), element, verdict: Some(Ok(())) }
    } else if script[position as int].op.needs_element() && element is None {
        Progress {
            position,
            element,
            verdict: Some(Err(ErrorView::StateMachineError(no_element_text()))),
        }
    } else {
        Progress {
            position,
            element,
            verdict: match script[position as int].op {
                OperationView::Refuse { reason } => Some(Err(ErrorView::Generic(reason))),
                _ => None,
            },
        }
    }
}

/// The progress before the first step.
pub open spec fn begin(script: Seq<CommandView>) -> Progress {
    arrive(script, 0, None)
}

/// The progress after the step that is due was answered with `result`.
///
/// A failure ends the sequence with the error that the step's rule gives
/// for the cause; where the step works on the located element, the error
/// names that element before the cause. A navigation forgets the located element, a `Locate` replaces it.
/// A `SkipIfAt` that reads its own address passes over the steps it
/// counts. A `CheckWatcher` that reads a message ends the sequence with a
/// login failure that carries the message. An answer of another kind than
/// the step asks for ends the sequence with a state machine error. Once
/// ended, nothing changes.
pub open spec fn react(script: Seq<CommandView>, progress: Progress, result: StepResultView) -> Progress {
    if progress.verdict is Some || progress.position >= script.len() {
        progress
    } else {
        let command = script[progress.position as int];
        let next = (progress.position + 1) as nat;
        let unexpected = progress.halt(Err(ErrorView::StateMachineError(unexpected_text())));
        match result {
            StepResultView::Failed(cause) => progress.halt(
                Err(
                    command.on_failure.error(
                        command.op.failure_cause(progress.element, cause),
                    ),
                ),
            ),
            StepResultView::Done => match command.op {
                OperationView::StartWatcher { .. }
                | OperationView::Wait { .. }
                | OperationView::Clear
                | OperationView::Act(_)
                | OperationView::CloseWatcher => arrive(script, next, progress.element),
                OperationView::Goto { .. } => arrive(script, next, None),
                _ => unexpected,
            },
            StepResultView::Found(element) => match command.op {
                OperationView::Locate { .. } => arrive(script, next, Some(element)),
                _ => unexpected,
            },
            StepResultView::FoundMany(_) => match command.op {
                OperationView::LocateAll { .. } => arrive(script, next, progress.element),
                _ => unexpected,
            },
            StepResultView::Address(address) => match command.op {
                OperationView::SkipIfAt { url, count } => arrive(
                    script,
                    if address == url {
                        (next + count) as nat
                    } else {
                        next
                    },
                    progress.element,
                ),
                _ => unexpected,
            },
            StepResultView::Watcher(read) => match command.op {
                OperationView::CheckWatcher => match read {
                    TryRecvView::Message(message) => progress.halt(
                        Err(ErrorView::LoginFailure(message)),
                    ),
                    _ => arrive(script, next, progress.element),
                },
                _ => unexpected,
            },
        }
    }
}

/// The request that is due, if any.
pub open spec fn pending(script: Seq<CommandView>, progress: Progress) -> Option<RequestView> {
    if progress.verdict is Some || progress.position >= script.len() {
        None
    } else {
        script[progress.position as int].op.request(
            match progress.element {
                Some(element) => element,
                None => Seq::empty(),
            },
        )
    }
}

/// The progress after the answers `results`, given in order from the
/// first step on.
pub open spec fn run(script: Seq<CommandView>, results: Seq<StepResultView>) -> Progress
    decreases results.len(),
{
    if results.len() == 0 {
        begin(script)
    } else {
        react(script, run(script, results.drop_last()), results.last())
    }
}

/// What a sequencer holds: its script and how far it has come.
pub struct SequencerView {
    pub script: Seq<CommandView>,
    pub progress: Progress,
}

/// The view of a verdict.
pub open spec fn verdict_view(verdict: Option<Result<(), Error>>) -> Option<Result<(), ErrorView>> {
    match verdict {
        None => None,
        Some(Ok(_)) => Some(Ok(())),
        Some(Err(error)) => Some(Err(error@)),
    }
}

/// An action sequence under way.
pub struct Sequencer {
    script: Vec<Command>,
    position: usize,
    element: Option<ElementRef>,
    verdict: Option<Result<(), Error>>,
}

impl View for Sequencer {
    type V = SequencerView;

    closed spec fn view(&self) -> SequencerView {
        SequencerView {
            script: views(self.script@),
            progress: Progress {
                position: self.position as nat,
                element: match self.element {
                    Some(element) => Some(element@),
                    None => None,
                },
                verdict: verdict_view(self.verdict),
            },
        }
    }
}

impl Sequencer {
    #[verifier::type_invariant]
    spec fn consistent(self) -> bool {
        &&& self.position <= self.script.len()
        &&& self.verdict is None ==> self.position < self.script.len()
        &&& self.verdict is None && self.script[self.position as int]@.op.needs_element()
            ==> self.element is Some
        &&& self.verdict is None ==> !(self.script[self.position as int]@.op is Refuse)
    }

    /// Sets the sequencer at `position` with `element` located.
    fn arrive(script: Vec<Command>, position: usize, element: Option<ElementRef>) -> (sequencer:
        Sequencer)
        ensures
            sequencer@.script == views(script@),
            sequencer@.progress == arrive(
                views(script@),
                position as nat,
                match element {
                    Some(element) => Some(element@),
                    None => None,
                },
            ),
    {
        if position >= script.len() {
            let position = script.len();
            Sequencer { script, position, element, verdict: Some(Ok(())) }
        } else if script[position].op.needs_element() && element.is_none() {
            let text = String::from_str("no element is located for the step");
            Sequencer {
                script,
                position,
                element,
                verdict: Some(Err(Error::StateMachineError(text))),
            }
        } else {
            let refusal = match &script[position].op {
                Operation::Refuse { reason } => Some(Err(Error::Generic(reason.clone()))),
                _ => None,
            };
            Sequencer { script, position, element, verdict: refusal }
        }
    }

    /// A sequencer at the start of `script`.
    pub fn new(script: Vec<Command>) -> (sequencer: Sequencer)
        ensures
            sequencer@.script == views(script@),
            sequencer@.progress == begin(views(script@)),
    {
        Sequencer::arrive(script, 0, None)
    }

    /// Whether the sequence has ended.
    pub fn is_finished(&self) -> (finished: bool)
        ensures
            finished == self@.progress.verdict is Some,
    {
        self.verdict.is_some()
    }

    /// The request that is due: `None` once the sequence has ended.
    pub fn pending(&self) -> (request: Option<Request>)
        ensures
            match request {
                Some(request) => pending(self@.script, self@.progress) == Some(request@),
                None => pending(self@.script, self@.progress) is None,
            },
    {
        proof {
            use_type_invariant(self);
        }
        if self.verdict.is_some() {
            return None;
        }
        let command = &self.script[self.position];
        match &command.op {
            Operation::StartWatcher { kind, selector } => Some(
                Request::StartWatcher { kind: *kind, selector: selector.clone() },
            ),
            Operation::Goto { url } => Some(Request::Goto { url: url.clone() }),
            Operation::Wait { millis } => Some(Request::Wait { millis: *millis }),
            Operation::Locate { kind, selector } => Some(
                Request::Locate { kind: *kind, selector: selector.clone() },
            ),
            Operation::LocateAll { kind, selector } => Some(
                Request::LocateAll { kind: *kind, selector: selector.clone() },
            ),
            Operation::Clear => match &self.element {
                Some(element) => Some(Request::Clear { element: element.duplicate() }),
                None => None,
            },
            Operation::Act(action) => match &self.element {
                Some(element) => Some(Request::Act(action.on(element))),
                None => None,
            },
            Operation::SkipIfAt { url, count } => Some(Request::ReadAddress),
            Operation::Refuse { reason } => None,
            Operation::CheckWatcher => Some(Request::CheckWatcher),
            Operation::CloseWatcher => Some(Request::CloseWatcher),
        }
    }

    /// Takes the answer to the request that was due.
    pub fn resolve(self, result: StepResult) -> (sequencer: Sequencer)
        ensures
            sequencer@.script == self@.script,
            sequencer@.progress == react(self@.script, self@.progress, result@),
    {
        proof {
            use_type_invariant(&self);
        }
        if self.verdict.is_some() {
            return self;
        }
        let Sequencer { script, position, element, verdict } = self;
        let next = position + 1;
        match result {
            StepResult::Failed(cause) => {
                let error = match &element {
                    Some(located) => {
                        if script[position].op.needs_element() {
                            let mut text = String::from_str("element ");
                            text.append(located.id.as_str());
                            text.append(": ");
                            text.append(cause.as_str());
                            script[position].on_failure.error(text.as_str())
                        } else {
                            script[position].on_failure.error(cause.as_str())
                        }
                    },
                    None => script[position].on_failure.error(cause.as_str()),
                };
                Sequencer { script, position, element, verdict: Some(Err(error)) }
            },
            StepResult::Done => match &script[position].op {
                Operation::StartWatcher { .. }
                | Operation::Wait { .. }
                | Operation::Clear
                | Operation::Act(_)
                | Operation::CloseWatcher => Sequencer::arrive(script, next, element),
                Operation::Goto { .. } => Sequencer::arrive(script, next, None),
                _ => Sequencer::unexpected(script, position, element),
            },
            StepResult::Found(found) => match &script[position].op {
                Operation::Locate { .. } => Sequencer::arrive(script, next, Some(found)),
                _ => Sequencer::unexpected(script, position, element),
            },
            StepResult::FoundMany(_) => match &script[position].op {
                Operation::LocateAll { .. } => Sequencer::arrive(script, next, element),
                _ => Sequencer::unexpected(script, position, element),
            },
            StepResult::Address(address) => match &script[position].op {
                Operation::SkipIfAt { url, count } => {
                    let target = if address == *url {
                        if *count >= script.len() - next {
                            script.len()
                        } else {
                            next + *count
                        }
                    } else {
                        next
                    };
                    Sequencer::arrive(script, target, element)
                },
                _ => Sequencer::unexpected(script, position, element),
            },
            StepResult::Watcher(read) => match &script[position].op {
                Operation::CheckWatcher => match read {
                    TryRecv::Message(message) => Sequencer {
                        script,
                        position,
                        element,
                        verdict: Some(Err(Error::LoginFailure(message))),
                    },
                    _ => Sequencer::arrive(script, next, element),
                },
                _ => Sequencer::unexpected(script, position, element),
            },
        }
    }

    /// Ends the sequence because the answer did not fit the step.
    fn unexpected(script: Vec<Command>, position: usize, element: Option<ElementRef>) -> (sequencer:
        Sequencer)
        requires
            position < script.len(),
        ensures
            sequencer@.script == views(script@),
            sequencer@.progress == (Progress {
                position: position as nat,
                element: match element {
                    Some(element) => Some(element@),
                    None => None,
                },
                verdict: Some(Err(ErrorView::StateMachineError(unexpected_text()))),
            }),
    {
        let text = String::from_str("the answer does not fit the step");
        Sequencer { script, position, element, verdict: Some(Err(Error::StateMachineError(text))) }
    }

    /// How the sequence ended: `None` while steps are due.
    pub fn into_verdict(self) -> (verdict: Option<Result<(), Error>>)
        ensures
            verdict_view(verdict) == self@.progress.verdict,
    {
        self.verdict
    }
}

/// A sequence never goes back: an answer leaves the position where it is
/// or moves it on, and a sequence that has ended takes no further answer.
pub proof fn sequence_never_goes_back(script: Seq<CommandView>, progress: Progress, result: StepResultView)
    ensures
        react(script, progress, result).position >= progress.position,
        progress.verdict is Some ==> react(script, progress, result) == progress,
        progress.position < script.len() && react(script, progress, result).verdict is None
            ==> react(script, progress, result).position > progress.position,
{
}

/// A failure ends the sequence at once, with the error that the rule of
/// the failed step gives for the cause: no step after it is asked for.
/// The error of a step that works on the located element names the
/// element; the error of any other step holds the cause alone.
pub proof fn failure_ends_the_sequence(script: Seq<CommandView>, progress: Progress, cause: Seq<char>)
    requires
        progress.verdict is None,
        progress.position < script.len(),
    ensures
        react(script, progress, StepResultView::Failed(cause)).verdict == Some(
            Err::<(), ErrorView>(
                script[progress.position as int].on_failure.error(
                    script[progress.position as int].op.failure_cause(progress.element, cause),
                ),
            ),
        ),
        pending(script, react(script, progress, StepResultView::Failed(cause))) is None,
        script[progress.position as int].op.needs_element() ==> forall|element: Seq<char>|
            progress.element == Some(element) ==> script[progress.position as int].op.failure_cause(
                progress.element,
                cause,
            ) == "element "@ + element + ": "@ + cause,
        !script[progress.position as int].op.needs_element()
            ==> script[progress.position as int].op.failure_cause(progress.element, cause)
            == cause,
{
}

/// What the observer reported decides the step that reads its channel: a
/// message ends the sequence with a login failure that carries the
/// message, and no message lets the sequence go on.
pub proof fn observer_message_fails_the_login(script: Seq<CommandView>, progress: Progress, read: TryRecvView)
    requires
        progress.verdict is None,
        progress.position < script.len(),
        script[progress.position as int].op is CheckWatcher,
    ensures
        read matches TryRecvView::Message(message) ==> react(
            script,
            progress,
            StepResultView::Watcher(read),
        ).verdict == Some(Err::<(), ErrorView>(ErrorView::LoginFailure(message))),
        !(read is Message) ==> react(script, progress, StepResultView::Watcher(read)) == arrive(
            script,
            progress.position + 1,
            progress.element,
        ),
{
}

/// A step that refuses ends the sequence on arrival, with a generic error
/// that says its reason, and nothing is asked of the session for it.
pub proof fn refusal_ends_the_sequence(
    script: Seq<CommandView>,
    position: nat,
    element: Option<Seq<char>>,
    reason: Seq<char>,
)
    requires
        position < script.len(),
        script[position as int].op == (OperationView::Refuse { reason }),
    ensures
        arrive(script, position, element).verdict == Some(
            Err::<(), ErrorView>(ErrorView::Generic(reason)),
        ),
        pending(script, arrive(script, position, element)) is None,
{
}

} // verus!
