//! Selectors of the job search controls.

use vstd::prelude::*;

verus! {

#[derive(Debug, Clone, Copy, PartialEq, Eq)]
pub struct JobSearchSelectors {
    pub jobs_button: &'static str,
    pub search_input: &'static str,
    pub location_input: &'static str,
    pub search_button: &'static str,
    pub filter_button: &'static str,
    pub remote_filter: &'static str,
    pub date_posted_filter: &'static str,
}

/// The same selectors in both selector languages.
#[derive(Debug, Clone, Copy, PartialEq, Eq)]
pub struct JobSearchSelectorAgg {
    pub css: JobSearchSelectors,
    pub xpath: JobSearchSelectors,
}

/// What LinkedIn calls its job search controls.
pub open spec fn linkedin_job_search_table() -> JobSearchSelectorAgg {
    JobSearchSelectorAgg {
        css: JobSearchSelectors {
            jobs_button: "a[data-view-name='navigation-jobs']",
            search_input: "input[aria-label='Search jobs']",
            location_input: "input[aria-label='Location']",
            search_button: "button[aria-label='Search']",
            filter_button: "button.filter-button",
            remote_filter: "label:contains('Remote') input[type='checkbox']",
            date_posted_filter: "label:contains('Past 24 hours') input[type='checkbox']",
        },
        xpath: JobSearchSelectors {
            jobs_button: "//a[@data-view-name='navigation-jobs']",
            search_input: "//input[@componentkey='jobSearchBox']",
            location_input: "//input[@aria-label='Location']",
            search_button: "//button[@aria-label='Search']",
            filter_button: "//button[contains(@class, 'filter-button')]",
            remote_filter: "//label[contains(., 'Remote')]//input[@type='checkbox']",
            date_posted_filter: "//label[contains(., 'Past 24 hours')]//input[@type='checkbox']",
        },
    }
}

pub fn linkedin_job_search_selectors() -> (table: JobSearchSelectorAgg)
    ensures
        table == linkedin_job_search_table(),
{
    JobSearchSelectorAgg {
        css: JobSearchSelectors {
            jobs_button: "a[data-view-name='navigation-jobs']",
            search_input: "input[aria-label='Search jobs']",
            location_input: "input[aria-label='Location']",
            search_button: "button[aria-label='Search']",
            filter_button: "button.filter-button",
            remote_filter: "label:contains('Remote') input[type='checkbox']",
            date_posted_filter: "label:contains('Past 24 hours') input[type='checkbox']",
        },
        xpath: JobSearchSelectors {
            jobs_button: "//a[@data-view-name='navigation-jobs']",
            search_input: "//input[@componentkey='jobSearchBox']",
            location_input: "//input[@aria-label='Location']",
            search_button: "//button[@aria-label='Search']",
            filter_button: "//button[contains(@class, 'filter-button')]",
            remote_filter: "//label[contains(., 'Remote')]//input[@type='checkbox']",
            date_posted_filter: "//label[contains(., 'Past 24 hours')]//input[@type='checkbox']",
        },
    }
}

/// What Seek calls its job search controls.
pub open spec fn seek_job_search_table() -> JobSearchSelectorAgg {
    JobSearchSelectorAgg {
        css: JobSearchSelectors {
            jobs_button: "a[aria-label='Jobs']",
            search_input: "input#search-field",
            location_input: "input#location-field",
            search_button: "button#search-button",
            filter_button: "button.filter-button",
            remote_filter: "label:contains('Remote') input[type='checkbox']",
            date_posted_filter: "label:contains('Past 24 hours') input[type='checkbox']",
        },
        xpath: JobSearchSelectors {
            jobs_button: "//a[@aria-label='Jobs']",
            search_input: "//input[@id='search-field']",
            location_input: "//input[@id='location-field']",
            search_button: "//button[@id='search-button']",
            filter_button: "//button[contains(@class, 'filter-button')]",
            remote_filter: "//label[contains(., 'Remote')]//input[@type='checkbox']",
            date_posted_filter: "//label[contains(., 'Past 24 hours')]//input[@type='checkbox']",
        },
    }
}

pub fn seek_job_search_selectors() -> (table: JobSearchSelectorAgg)
    ensures
        table == seek_job_search_table(),
{
    JobSearchSelectorAgg {
        css: JobSearchSelectors {
            jobs_button: "a[aria-label='Jobs']",
            search_input: "input#search-field",
            location_input: "input#location-field",
            search_button: "button#search-button",
            filter_button: "button.filter-button",
            remote_filter: "label:contains('Remote') input[type='checkbox']",
            date_posted_filter: "label:contains('Past 24 hours') input[type='checkbox']",
        },
        xpath: JobSearchSelectors {
            jobs_button: "//a[@aria-label='Jobs']",
            search_input: "//input[@id='search-field']",
            location_input: "//input[@id='location-field']",
            search_button: "//button[@id='search-button']",
            filter_button: "//button[contains(@class, 'filter-button')]",
            remote_filter: "//label[contains(., 'Remote')]//input[@type='checkbox']",
            date_posted_filter: "//label[contains(., 'Past 24 hours')]//input[@type='checkbox']",
        },
    }
}

} // verus!
