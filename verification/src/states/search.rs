//! Searches of the page.

use vstd::prelude::*;

use crate::providers::SelectorKind;

verus! {

#[derive(Debug, Clone, PartialEq, Eq)]
pub enum SearchState {
    /// Find the one element of a locator.
    FindBy(FindBy),
    /// Find every element of a locator.
    FindAllBy(FindBy),
    /// Find the job listings of the page.
    FindJobListings(JobListingSearch),
}

pub enum SearchStateView {
    FindBy(FindByView),
    FindAllBy(FindByView),
    FindJobListings(JobListingSearch),
}

impl View for SearchState {
    type V = SearchStateView;

    open spec fn view(&self) -> SearchStateView {
        match self {
            SearchState::FindBy(find) => SearchStateView::FindBy(find@),
            SearchState::FindAllBy(find) => SearchStateView::FindAllBy(find@),
            SearchState::FindJobListings(search) => SearchStateView::FindJobListings(*search),
        }
    }
}

impl SearchState {
    pub fn duplicate(&self) -> (copy: SearchState)
        ensures
            copy@ == self@,
    {
        match self {
            SearchState::FindBy(find) => SearchState::FindBy(find.duplicate()),
            SearchState::FindAllBy(find) => SearchState::FindAllBy(find.duplicate()),
            SearchState::FindJobListings(search) => SearchState::FindJobListings(*search),
        }
    }
}

/// A selector and the language it is written in.
#[derive(Debug, Clone, PartialEq, Eq)]
pub struct FindBy {
    pub kind: SelectorKind,
    pub selector: String,
}

pub struct FindByView {
    pub kind: SelectorKind,
    pub selector: Seq<char>,
}

impl View for FindBy {
    type V = FindByView;

    open spec fn view(&self) -> FindByView {
        FindByView { kind: self.kind, selector: self.selector@ }
    }
}

impl FindBy {
    pub fn duplicate(&self) -> (copy: FindBy)
        ensures
            copy@ == self@,
    {
        FindBy { kind: self.kind, selector: self.selector.clone() }
    }
}

#[derive(Debug, Clone, Copy, PartialEq, Eq, Structural)]
pub struct JobListingSearch {
    pub current_index: usize,
    pub total_found: usize,
}

} // verus!
