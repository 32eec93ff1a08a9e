//! The reading of rows.

use vstd::prelude::*;
use vstd::string::*;

use crate::db::statement::{Argument, ArgumentView, Statement, StatementView};
use crate::text::views;

verus! {

/// The statement that reads the autofill data kept under `key`.
pub fn get_autofill(key: &str) -> (statement: Statement)
    ensures
        statement@ == (StatementView {
            sql: "SELECT data FROM autofill where input_key = ?"@,
            arguments: seq![ArgumentView::Text(key@)],
        }),
{
    let mut arguments: Vec<Argument> = Vec::new();
    arguments.push(Argument::Text(String::from_str(key)));
    assert(views(arguments@) =~= seq![ArgumentView::Text(key@)]);
    Statement { sql: "SELECT data FROM autofill where input_key = ?", arguments }
}

} // verus!
