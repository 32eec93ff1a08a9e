//! The changing of rows.

use vstd::prelude::*;
use vstd::string::*;

use crate::db::data::StatusType;
use crate::db::statement::{Argument, ArgumentView, Statement, StatementView};
use crate::error::{DatabaseError, DatabaseErrorView, Error, ErrorView};
use crate::text::{signed_decimal, views};

verus! {

/// The statement that gives the job with the row number `job_id` the
/// status `new_status`.
pub fn update_job_status(job_id: i64, new_status: StatusType) -> (statement: Statement)
    ensures
        statement@ == (StatementView {
            sql: "UPDATE jobs SET status_type_fk = ? WHERE id = ?"@,
            arguments: seq![
                ArgumentView::Text(new_status.word()),
                ArgumentView::Integer(job_id),
            ],
        }),
{
    let mut arguments: Vec<Argument> = Vec::new();
    arguments.push(Argument::Text(String::from_str(new_status.as_str())));
    arguments.push(Argument::Integer(job_id));
    assert(views(arguments@) =~= seq![
        ArgumentView::Text(new_status.word()),
        ArgumentView::Integer(job_id),
    ]);
    Statement { sql: "UPDATE jobs SET status_type_fk = ? WHERE id = ?", arguments }
}

/// The error of a job whose status could not be changed.
pub fn update_job_status_failed(job_id: i64, cause: &str) -> (error: Error)
    ensures
        error@ == ErrorView::DatabaseError(
            DatabaseErrorView::Update(
                "Failed to update job status for job_id "@ + signed_decimal(job_id as int) + ": "@
                    + cause@,
            ),
        ),
{
    let mut text = String::from_str("Failed to update job status for job_id ");
    crate::text::push_signed_decimal(&mut text, job_id);
    text.append(": ");
    text.append(cause);
    Error::DatabaseError(DatabaseError::Update(text))
}

/// The statement that keeps the autofill data `data` under `key`, in
/// place of what was kept there.
pub fn update_autofill(key: &str, data: &str) -> (statement: Statement)
    ensures
        statement@ == (StatementView {
            sql: "INSERT OR REPLACE INTO autofill ( input_key, data ) VALUES (?, ?)"@,
            arguments: seq![ArgumentView::Text(key@), ArgumentView::Text(data@)],
        }),
{
    let mut arguments: Vec<Argument> = Vec::new();
    arguments.push(Argument::Text(String::from_str(key)));
    arguments.push(Argument::Text(String::from_str(data)));
    assert(views(arguments@) =~= seq![ArgumentView::Text(key@), ArgumentView::Text(data@)]);
    Statement { sql: "INSERT OR REPLACE INTO autofill ( input_key, data ) VALUES (?, ?)", arguments }
}

/// The error of autofill data that could not be changed.
pub fn update_autofill_failed(key: &str, cause: &str) -> (error: Error)
    ensures
        error@ == ErrorView::DatabaseError(
            DatabaseErrorView::Update(
                "Failed to update autofill for key "@ + key@ + ": "@ + cause@,
            ),
        ),
{
    let mut text = String::from_str("Failed to update autofill for key ");
    text.append(key);
    text.append(": ");
    text.append(cause);
    Error::DatabaseError(DatabaseError::Update(text))
}

} // verus!
