//! Selectors of the job description page.

use vstd::prelude::*;

verus! {

#[derive(Debug, Clone, Copy, PartialEq, Eq)]
pub struct JobDescriptionSelectors {
    pub job_title: &'static str,
    pub company_name: &'static str,
    pub location: &'static str,
    pub job_description: &'static str,
    pub apply_button: &'static str,
    pub save_button: &'static str,
}

/// The same selectors in both selector languages.
#[derive(Debug, Clone, Copy, PartialEq, Eq)]
pub struct JobDescriptionSelectorAgg {
    pub css: JobDescriptionSelectors,
    pub xpath: JobDescriptionSelectors,
}

/// What LinkedIn calls the parts of its job description page.
pub open spec fn linkedin_job_description_table() -> JobDescriptionSelectorAgg {
    JobDescriptionSelectorAgg {
        css: JobDescriptionSelectors {
            job_title: "h1.topcard__title",
            company_name: "a.topcard__org-name-link",
            location: "span.topcard__flavor--bullet",
            job_description: "div.description__text",
            apply_button: "button.apply-button",
            save_button: "button.save-button",
        },
        xpath: JobDescriptionSelectors {
            job_title: "//h1[contains(@class, 'topcard__title')]",
            company_name: "//a[contains(@class, 'topcard__org-name-link')]",
            location: "//span[contains(@class, 'topcard__flavor--bullet')]",
            job_description: "//div[contains(@class, 'description__text')]",
            apply_button: "//button[contains(@class, 'apply-button')]",
            save_button: "//button[contains(@class, 'save-button')]",
        },
    }
}

pub fn linkedin_job_description_selectors() -> (table: JobDescriptionSelectorAgg)
    ensures
        table == linkedin_job_description_table(),
{
    JobDescriptionSelectorAgg {
        css: JobDescriptionSelectors {
            job_title: "h1.topcard__title",
            company_name: "a.topcard__org-name-link",
            location: "span.topcard__flavor--bullet",
            job_description: "div.description__text",
            apply_button: "button.apply-button",
            save_button: "button.save-button",
        },
        xpath: JobDescriptionSelectors {
            job_title: "//h1[contains(@class, 'topcard__title')]",
            company_name: "//a[contains(@class, 'topcard__org-name-link')]",
            location: "//span[contains(@class, 'topcard__flavor--bullet')]",
            job_description: "//div[contains(@class, 'description__text')]",
            apply_button: "//button[contains(@class, 'apply-button')]",
            save_button: "//button[contains(@class, 'save-button')]",
        },
    }
}

/// What Seek calls the parts of its job description page.
pub open spec fn seek_job_description_table() -> JobDescriptionSelectorAgg {
    JobDescriptionSelectorAgg {
        css: JobDescriptionSelectors {
            job_title: "h1.job-title",
            company_name: "a.company-name",
            location: "span.job-location",
            job_description: "div.job-description",
            apply_button: "button.apply-now-button",
            save_button: "button.save-job-button",
        },
        xpath: JobDescriptionSelectors {
            job_title: "//h1[contains(@class, 'job-title')]",
            company_name: "//a[contains(@class, 'company-name')]",
            location: "//span[contains(@class, 'job-location')]",
            job_description: "//div[contains(@class, 'job-description')]",
            apply_button: "//button[contains(@class, 'apply-now-button')]",
            save_button: "//button[contains(@class, 'save-job-button')]",
        },
    }
}

pub fn seek_job_description_selectors() -> (table: JobDescriptionSelectorAgg)
    ensures
        table == seek_job_description_table(),
{
    JobDescriptionSelectorAgg {
        css: JobDescriptionSelectors {
            job_title: "h1.job-title",
            company_name: "a.company-name",
            location: "span.job-location",
            job_description: "div.job-description",
            apply_button: "button.apply-now-button",
            save_button: "button.save-job-button",
        },
        xpath: JobDescriptionSelectors {
            job_title: "//h1[contains(@class, 'job-title')]",
            company_name: "//a[contains(@class, 'company-name')]",
            location: "//span[contains(@class, 'job-location')]",
            job_description: "//div[contains(@class, 'job-description')]",
            apply_button: "//button[contains(@class, 'apply-now-button')]",
            save_button: "//button[contains(@class, 'save-job-button')]",
        },
    }
}

} // verus!
