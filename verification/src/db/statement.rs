//! A statement for the database: its text and the values that fill its
//! placeholders.

use vstd::prelude::*;

use crate::text::views;

verus! {

/// A value that fills one placeholder.
#[derive(Debug, Clone, PartialEq, Eq)]
pub enum Argument {
    Integer(i64),
    Text(String),
}

pub enum ArgumentView {
    Integer(i64),
    Text(Seq<char>),
}

impl View for Argument {
    type V = ArgumentView;

    open spec fn view(&self) -> ArgumentView {
        match self {
            Argument::Integer(number) => ArgumentView::Integer(*number),
            Argument::Text(text) => ArgumentView::Text(text@),
        }
    }
}

/// The text of a statement and the values of its placeholders, in the
/// order of the placeholders.
#[derive(Debug, Clone, PartialEq, Eq)]
pub struct Statement {
    pub sql: &'static str,
    pub arguments: Vec<Argument>,
}

pub struct StatementView {
    pub sql: Seq<char>,
    pub arguments: Seq<ArgumentView>,
}

impl View for Statement {
    type V = StatementView;

    open spec fn view(&self) -> StatementView {
        StatementView { sql: self.sql@, arguments: views(self.arguments@) }
    }
}

} // verus!
