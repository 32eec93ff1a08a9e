//! The site Seek.

use vstd::prelude::*;

use crate::providers::{
    job_description_selectors_of,
    job_listing_selectors_of,
    job_search_selectors_of,
    login_selectors_of,
    Provider,
    ProviderKind,
    SelectorKind,
};
use crate::selectors::{
    JobDescriptionSelectors,
    JobListingSelectors,
    JobSearchSelectors,
    LoginSelectors,
};

verus! {

#[derive(Debug, Clone, Copy, PartialEq, Eq, Structural)]
pub struct SeekProvider;

impl Provider for SeekProvider {
    open spec fn kind(&self) -> ProviderKind {
        ProviderKind::Seek
    }

    fn name(&self) -> (kind: ProviderKind) {
        ProviderKind::Seek
    }

    fn get_login_selectors(&self, kind: SelectorKind) -> (selectors: LoginSelectors) {
        login_selectors_of(ProviderKind::Seek, kind)
    }

    fn get_job_search_selectors(&self, kind: SelectorKind) -> (selectors: JobSearchSelectors) {
        job_search_selectors_of(ProviderKind::Seek, kind)
    }

    fn get_job_listing_selectors(&self, kind: SelectorKind) -> (selectors: JobListingSelectors) {
        job_listing_selectors_of(ProviderKind::Seek, kind)
    }

    fn get_job_description_selectors(&self, kind: SelectorKind) -> (selectors:
        JobDescriptionSelectors) {
        job_description_selectors_of(ProviderKind::Seek, kind)
    }
}

} // verus!
