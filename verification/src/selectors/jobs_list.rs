//! Selectors of the job listing.

use vstd::prelude::*;

verus! {

#[derive(Debug, Clone, Copy, PartialEq, Eq)]
pub struct JobListingSelectors {
    pub job_card: &'static str,
    pub easy_apply_button: &'static str,
    pub applied_badge: &'static str,
    pub job_closed_indicator: &'static str,
}

/// The same selectors in both selector languages.
#[derive(Debug, Clone, Copy, PartialEq, Eq)]
pub struct JogListingSelectorAgg {
    pub css: JobListingSelectors,
    pub xpath: JobListingSelectors,
}

/// What LinkedIn calls the parts of its job listing.
pub open spec fn linkedin_job_listing_table() -> JogListingSelectorAgg {
    JogListingSelectorAgg {
        css: JobListingSelectors {
            job_card: "div.job-card-container",
            easy_apply_button: "button.easy-apply-button",
            applied_badge: "span.applied-badge",
            job_closed_indicator: "span.job-closed-indicator",
        },
        xpath: JobListingSelectors {
            job_card: "//div[contains(@class, 'job-card-container')]",
            easy_apply_button: "//button[contains(@class, 'easy-apply-button')]",
            applied_badge: "//span[contains(@class, 'applied-badge')]",
            job_closed_indicator: "//span[contains(@class, 'job-closed-indicator')]",
        },
    }
}

pub fn linkedin_job_listing_selectors() -> (table: JogListingSelectorAgg)
    ensures
        table == linkedin_job_listing_table(),
{
    JogListingSelectorAgg {
        css: JobListingSelectors {
            job_card: "div.job-card-container",
            easy_apply_button: "button.easy-apply-button",
            applied_badge: "span.applied-badge",
            job_closed_indicator: "span.job-closed-indicator",
        },
        xpath: JobListingSelectors {
            job_card: "//div[contains(@class, 'job-card-container')]",
            easy_apply_button: "//button[contains(@class, 'easy-apply-button')]",
            applied_badge: "//span[contains(@class, 'applied-badge')]",
            job_closed_indicator: "//span[contains(@class, 'job-closed-indicator')]",
        },
    }
}

/// What Seek calls the parts of its job listing.
pub open spec fn seek_job_listing_table() -> JogListingSelectorAgg {
    JogListingSelectorAgg {
        css: JobListingSelectors {
            job_card: "div.job-card-container",
            easy_apply_button: "button.easy-apply-button",
            applied_badge: "span.applied-badge",
            job_closed_indicator: "span.job-closed-indicator",
        },
        xpath: JobListingSelectors {
            job_card: "//div[contains(@class, 'job-card-container')]",
            easy_apply_button: "//button[contains(@class, 'easy-apply-button')]",
            applied_badge: "//span[contains(@class, 'applied-badge')]",
            job_closed_indicator: "//span[contains(@class, 'job-closed-indicator')]",
        },
    }
}

pub fn seek_job_listing_selectors() -> (table: JogListingSelectorAgg)
    ensures
        table == seek_job_listing_table(),
{
    JogListingSelectorAgg {
        css: JobListingSelectors {
            job_card: "div.job-card-container",
            easy_apply_button: "button.easy-apply-button",
            applied_badge: "span.applied-badge",
            job_closed_indicator: "span.job-closed-indicator",
        },
        xpath: JobListingSelectors {
            job_card: "//div[contains(@class, 'job-card-container')]",
            easy_apply_button: "//button[contains(@class, 'easy-apply-button')]",
            applied_badge: "//span[contains(@class, 'applied-badge')]",
            job_closed_indicator: "//span[contains(@class, 'job-closed-indicator')]",
        },
    }
}

} // verus!
