//! What to search for.

use vstd::prelude::*;

use crate::text::views;

verus! {

#[derive(Debug, Clone, PartialEq, Eq)]
pub struct SearchConfig {
    pub use_keywords: bool,
    pub keywords: Vec<String>,
    pub location: Option<String>,
}

pub struct SearchConfigView {
    pub use_keywords: bool,
    pub keywords: Seq<Seq<char>>,
    pub location: Option<Seq<char>>,
}

impl View for SearchConfig {
    type V = SearchConfigView;

    open spec fn view(&self) -> SearchConfigView {
        SearchConfigView {
            use_keywords: self.use_keywords,
            keywords: views(self.keywords@),
            location: match self.location {
                Some(location) => Some(location@),
                None => None,
            },
        }
    }
}

impl SearchConfigView {
    /// Whether the section asks for a keyword search and names no keyword.
    pub open spec fn contradicts_itself(self) -> bool {
        self.use_keywords && self.keywords.len() == 0
    }
}

impl SearchConfig {
    /// Whether the section asks for a keyword search and names no keyword.
    pub fn contradicts_itself(&self) -> (contradiction: bool)
        ensures
            contradiction == self@.contradicts_itself(),
    {
        self.use_keywords && self.keywords.len() == 0
    }
}

impl Default for SearchConfig {
    fn default() -> (config: SearchConfig)
        ensures
            config@ == (SearchConfigView {
                use_keywords: false,
                keywords: Seq::empty(),
                location: None,
            }),
    {
        let config = SearchConfig { use_keywords: false, keywords: Vec::new(), location: None };
        assert(views(config.keywords@) =~= Seq::<Seq<char>>::empty());
        config
    }
}

} // verus!
