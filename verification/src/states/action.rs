//! Actions on page elements.

use vstd::prelude::*;

use crate::states::key::Key;

verus! {

/// The driver's reference to an element of the page that is loaded now. It
/// loses its meaning when the session navigates.
#[derive(Debug, Clone, PartialEq, Eq)]
pub struct ElementRef {
    pub id: String,
}

impl View for ElementRef {
    type V = Seq<char>;

    open spec fn view(&self) -> Seq<char> {
        self.id@
    }
}

impl ElementRef {
    /// A reference with the same identifier.
    pub fn duplicate(&self) -> (copy: ElementRef)
        ensures
            copy@ == self@,
    {
        ElementRef { id: self.id.clone() }
    }
}

/// What to do to an element, before the element is known.
#[derive(Debug, Clone, PartialEq, Eq)]
pub enum ActionKind {
    Click,
    InputText { input: String },
    InputKey { key: Key },
}

pub enum ActionKindView {
    Click,
    InputText { input: Seq<char> },
    InputKey { key: Key },
}

impl View for ActionKind {
    type V = ActionKindView;

    open spec fn view(&self) -> ActionKindView {
        match self {
            ActionKind::Click => ActionKindView::Click,
            ActionKind::InputText { input } => ActionKindView::InputText { input: input@ },
            ActionKind::InputKey { key } => ActionKindView::InputKey { key: *key },
        }
    }
}

impl ActionKindView {
    /// The action on the element `element`.
    pub open spec fn on(self, element: Seq<char>) -> ActionStateView {
        match self {
            ActionKindView::Click => ActionStateView::Click { element },
            ActionKindView::InputText { input } => ActionStateView::InputText { element, input },
            ActionKindView::InputKey { key } => ActionStateView::InputKey { element, key },
        }
    }
}

impl ActionKind {
    pub fn duplicate(&self) -> (copy: ActionKind)
        ensures
            copy@ == self@,
    {
        match self {
            ActionKind::Click => ActionKind::Click,
            ActionKind::InputText { input } => ActionKind::InputText { input: input.clone() },
            ActionKind::InputKey { key } => ActionKind::InputKey { key: *key },
        }
    }

    /// This action on `element`.
    pub fn on(&self, element: &ElementRef) -> (action: ActionState)
        ensures
            action@ == self@.on(element@),
    {
        match self {
            ActionKind::Click => ActionState::Click { element: element.duplicate() },
            ActionKind::InputText { input } => ActionState::InputText {
                element: element.duplicate(),
                input: input.clone(),
            },
            ActionKind::InputKey { key } => ActionState::InputKey {
                element: element.duplicate(),
                key: *key,
            },
        }
    }
}

/// One action on one element: a click, text typed into it, or a key sent
/// to it. It is made just before it is carried out.
#[derive(Debug, Clone, PartialEq, Eq)]
pub enum ActionState {
    Click { element: ElementRef },
    InputText { element: ElementRef, input: String },
    InputKey { element: ElementRef, key: Key },
}

pub enum ActionStateView {
    Click { element: Seq<char> },
    InputText { element: Seq<char>, input: Seq<char> },
    InputKey { element: Seq<char>, key: Key },
}

impl View for ActionState {
    type V = ActionStateView;

    open spec fn view(&self) -> ActionStateView {
        match self {
            ActionState::Click { element } => ActionStateView::Click { element: element@ },
            ActionState::InputText { element, input } => ActionStateView::InputText {
                element: element@,
                input: input@,
            },
            ActionState::InputKey { element, key } => ActionStateView::InputKey {
                element: element@,
                key: *key,
            },
        }
    }
}

impl ActionStateView {
    /// The element the action is on.
    pub open spec fn element(self) -> Seq<char> {
        match self {
            ActionStateView::Click { element } => element,
            ActionStateView::InputText { element, input } => element,
            ActionStateView::InputKey { element, key } => element,
        }
    }

    /// The action without its element.
    pub open spec fn kind(self) -> ActionKindView {
        match self {
            ActionStateView::Click { element } => ActionKindView::Click,
            ActionStateView::InputText { element, input } => ActionKindView::InputText { input },
            ActionStateView::InputKey { element, key } => ActionKindView::InputKey { key },
        }
    }
}

impl ActionState {
    pub fn duplicate(&self) -> (copy: ActionState)
        ensures
            copy@ == self@,
    {
        match self {
            ActionState::Click { element } => ActionState::Click { element: element.duplicate() },
            ActionState::InputText { element, input } => ActionState::InputText {
                element: element.duplicate(),
                input: input.clone(),
            },
            ActionState::InputKey { element, key } => ActionState::InputKey {
                element: element.duplicate(),
                key: *key,
            },
        }
    }
}

} // verus!
