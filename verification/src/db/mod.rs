//! The records of jobs and of applications: what is kept of a job, and the
//! statements that write and read it.

pub mod create;
pub mod data;
pub mod read;
pub mod statement;
pub mod update;

pub use create::{create_autofill, create_autofill_failed, create_job, create_job_failed};
pub use data::{parse_date, DateInfo, JobCardData, Location, Status, StatusType, WorkType};
pub use read::get_autofill;
pub use statement::{Argument, Statement};
pub use update::{
    update_autofill,
    update_autofill_failed,
    update_job_status,
    update_job_status_failed,
};
