//! The error that ends a workflow.

use vstd::prelude::*;

verus! {

/// What went wrong, in words.
#[derive(Debug, Clone, PartialEq, Eq)]
pub struct ErrorState {
    pub message: String,
}

impl View for ErrorState {
    type V = Seq<char>;

    open spec fn view(&self) -> Seq<char> {
        self.message@
    }
}

} // verus!
