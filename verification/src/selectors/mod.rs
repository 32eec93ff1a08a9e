//! The selector text of each site, per part of the workflow and per
//! selector language.

pub mod job_desc;
pub mod job_search;
pub mod jobs_list;
pub mod login;

pub use job_desc::{JobDescriptionSelectorAgg, JobDescriptionSelectors};
pub use job_search::{JobSearchSelectorAgg, JobSearchSelectors};
pub use jobs_list::{JobListingSelectors, JogListingSelectorAgg};
pub use login::{LoginSelectorAgg, LoginSelectors};
