//! The site LinkedIn.

use vstd::prelude::*;

use crate::providers::{
    job_description_selectors_of,
    job_listing_selectors_of,
    job_search_selectors_of,
    login_selectors_of,
    Provider,
    ProviderKind,
    SelectorKind,
};
use crate::text::lowercased;
use crate::selectors::{
    JobDescriptionSelectors,
    JobListingSelectors,
    JobSearchSelectors,
    LoginSelectors,
};

verus! {

#[derive(Debug, Clone, Copy, PartialEq, Eq, Structural)]
pub struct LinkedInProvider;

impl LinkedInProvider {
    /// The provider that `lower` names, where `lower` is in lowercase
    /// already: `linkedin`, and no other text.
    pub fn from_lowercase(lower: &str) -> (provider: Option<LinkedInProvider>)
        ensures
            provider is Some <==> lower@ == "linkedin"@,
    {
        if crate::text::same_text(lower, "linkedin") {
            Some(LinkedInProvider)
        } else {
            None
        }
    }

    /// The provider that `name` names in any mix of upper and lower case,
    /// or `None` where `name` is not LinkedIn's.
    pub fn parse(name: &str) -> (provider: Option<LinkedInProvider>)
        ensures
            provider is Some <==> lowercased(name@) == "linkedin"@,
    {
        let lower = crate::text::lowercase(name);
        LinkedInProvider::from_lowercase(lower.as_str())
    }
}

impl Provider for LinkedInProvider {
    open spec fn kind(&self) -> ProviderKind {
        ProviderKind::LinkedIn
    }

    fn name(&self) -> (kind: ProviderKind) {
        ProviderKind::LinkedIn
    }

    fn get_login_selectors(&self, kind: SelectorKind) -> (selectors: LoginSelectors) {
        login_selectors_of(ProviderKind::LinkedIn, kind)
    }

    fn get_job_search_selectors(&self, kind: SelectorKind) -> (selectors: JobSearchSelectors) {
        job_search_selectors_of(ProviderKind::LinkedIn, kind)
    }

    fn get_job_listing_selectors(&self, kind: SelectorKind) -> (selectors: JobListingSelectors) {
        job_listing_selectors_of(ProviderKind::LinkedIn, kind)
    }

    fn get_job_description_selectors(&self, kind: SelectorKind) -> (selectors:
        JobDescriptionSelectors) {
        job_description_selectors_of(ProviderKind::LinkedIn, kind)
    }
}

} // verus!
