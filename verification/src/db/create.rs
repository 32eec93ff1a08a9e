//! The making of rows.

use vstd::prelude::*;
use vstd::string::*;

use crate::db::data::{JobCardData, JobCardDataView};
use crate::db::statement::{Argument, ArgumentView, Statement, StatementView};
use crate::error::{DatabaseError, DatabaseErrorView, Error, ErrorView};
use crate::text::{decimal, views};

verus! {

/// The number a row holds for a flag: one for set, zero for not set.
pub open spec fn flag(set: bool) -> i64 {
    if set {
        1
    } else {
        0
    }
}

/// The text of the statement that inserts a job. The status of a new job
/// is `pending`.
pub open spec fn insert_job_sql() -> Seq<char> {
    "INSERT INTO jobs ( idx, card_title, job_title, company_name, state, country, work_type_fk, is_actively_reviewing, already_viewed, full_date, relative_date, has_easy_apply, status_type_fk) VALUES (?, ?, ?, ?, ?, ?, ?, ?, ?, ?, ?, ?, 'pending')"@
}

/// The statement that inserts the job card `data`: its texts as they are,
/// its work type as a word, its flags as numbers.
pub open spec fn insert_job(data: JobCardDataView) -> StatementView {
    StatementView {
        sql: insert_job_sql(),
        arguments: seq![
            ArgumentView::Integer(data.idx as i64),
            ArgumentView::Text(data.card_title),
            ArgumentView::Text(data.job_title),
            ArgumentView::Text(data.company_name),
            ArgumentView::Text(data.location.state),
            ArgumentView::Text(data.location.country),
            ArgumentView::Text(data.work_type.word()),
            ArgumentView::Integer(flag(data.is_actively_reviewing)),
            ArgumentView::Integer(flag(data.already_viewed)),
            ArgumentView::Text(data.posted_date.full_date),
            ArgumentView::Text(data.posted_date.relative),
            ArgumentView::Integer(flag(data.has_easy_apply)),
        ],
    }
}

fn flag_of(set: bool) -> (number: Argument)
    ensures
        number@ == ArgumentView::Integer(flag(set)),
{
    if set {
        Argument::Integer(1)
    } else {
        Argument::Integer(0)
    }
}

/// The statement that inserts the job card `data`.
pub fn create_job(data: &JobCardData) -> (statement: Statement)
    ensures
        statement@ == insert_job(data@),
{
    let mut arguments: Vec<Argument> = Vec::new();
    arguments.push(Argument::Integer(#[verifier::truncate] (data.idx as i64)));
    arguments.push(Argument::Text(data.card_title.clone()));
    arguments.push(Argument::Text(data.job_title.clone()));
    arguments.push(Argument::Text(data.company_name.clone()));
    arguments.push(Argument::Text(data.location.state.clone()));
    arguments.push(Argument::Text(data.location.country.clone()));
    arguments.push(Argument::Text(String::from_str(data.work_type.as_str())));
    arguments.push(flag_of(data.is_actively_reviewing));
    arguments.push(flag_of(data.already_viewed));
    arguments.push(Argument::Text(data.posted_date.full_date.clone()));
    arguments.push(Argument::Text(data.posted_date.relative.clone()));
    arguments.push(flag_of(data.has_easy_apply));
    assert(views(arguments@) =~= insert_job(data@).arguments);
    Statement {
        sql: "INSERT INTO jobs ( idx, card_title, job_title, company_name, state, country, work_type_fk, is_actively_reviewing, already_viewed, full_date, relative_date, has_easy_apply, status_type_fk) VALUES (?, ?, ?, ?, ?, ?, ?, ?, ?, ?, ?, ?, 'pending')",
        arguments,
    }
}

/// The error of a job that could not be inserted.
pub fn create_job_failed(idx: usize, cause: &str) -> (error: Error)
    ensures
        error@ == ErrorView::DatabaseError(
            DatabaseErrorView::Create(
                "Failed to insert job idx "@ + decimal(idx as nat) + ": "@ + cause@,
            ),
        ),
{
    let mut text = String::from_str("Failed to insert job idx ");
    crate::text::push_decimal(&mut text, idx as u64);
    text.append(": ");
    text.append(cause);
    Error::DatabaseError(DatabaseError::Create(text))
}

/// The statement that inserts the autofill data `data` under `key`.
pub fn create_autofill(key: &str, data: &str) -> (statement: Statement)
    ensures
        statement@ == (StatementView {
            sql: "INSERT INTO autofill ( input_key, data ) VALUES (?, ?)"@,
            arguments: seq![ArgumentView::Text(key@), ArgumentView::Text(data@)],
        }),
{
    let mut arguments: Vec<Argument> = Vec::new();
    arguments.push(Argument::Text(String::from_str(key)));
    arguments.push(Argument::Text(String::from_str(data)));
    assert(views(arguments@) =~= seq![ArgumentView::Text(key@), ArgumentView::Text(data@)]);
    Statement { sql: "INSERT INTO autofill ( input_key, data ) VALUES (?, ?)", arguments }
}

/// The error of autofill data that could not be inserted.
pub fn create_autofill_failed(key: &str, cause: &str) -> (error: Error)
    ensures
        error@ == ErrorView::DatabaseError(
            DatabaseErrorView::Create(
                "Failed to insert autofill data for key "@ + key@ + ": "@ + cause@,
            ),
        ),
{
    let mut text = String::from_str("Failed to insert autofill data for key ");
    text.append(key);
    text.append(": ");
    text.append(cause);
    Error::DatabaseError(DatabaseError::Create(text))
}

} // verus!
