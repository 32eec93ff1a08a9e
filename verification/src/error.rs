//! The errors of a run and the text each one is reported with.

use vstd::prelude::*;
use vstd::string::*;

verus! {

/// Why a search for the driver executable found nothing.
#[derive(Debug, Clone, Copy, PartialEq, Eq, Structural)]
pub enum LookupError {
    /// No executable of that name was found.
    CannotFindBinaryPath,
    /// There was nowhere to search and the name was not an absolute path.
    CannotGetCurrentDirAndPathListEmpty,
    /// The path that was found could not be made canonical.
    CannotCanonicalize,
}

#[derive(Debug, Clone, PartialEq, Eq)]
pub enum DatabaseError {
    Create(String),
    Read(String),
    Update(String),
    Delete(String),
}

pub enum DatabaseErrorView {
    Create(Seq<char>),
    Read(Seq<char>),
    Update(Seq<char>),
    Delete(Seq<char>),
}

impl View for DatabaseError {
    type V = DatabaseErrorView;

    open spec fn view(&self) -> DatabaseErrorView {
        match self {
            DatabaseError::Create(m) => DatabaseErrorView::Create(m@),
            DatabaseError::Read(m) => DatabaseErrorView::Read(m@),
            DatabaseError::Update(m) => DatabaseErrorView::Update(m@),
            DatabaseError::Delete(m) => DatabaseErrorView::Delete(m@),
        }
    }
}

impl DatabaseErrorView {
    /// The text a database error is reported with.
    pub open spec fn message(self) -> Seq<char> {
        match self {
            DatabaseErrorView::Create(m) => "Create error: "@ + m,
            DatabaseErrorView::Read(m) => "Read error: "@ + m,
            DatabaseErrorView::Update(m) => "Update error: "@ + m,
            DatabaseErrorView::Delete(m) => "Delete error: "@ + m,
        }
    }
}

impl DatabaseError {
    /// The text this error is reported with.
    pub fn to_string(&self) -> (text: String)
        ensures
            text@ == self@.message(),
    {
        match self {
            DatabaseError::Create(m) => crate::text::chain("Create error: ", m.as_str()),
            DatabaseError::Read(m) => crate::text::chain("Read error: ", m.as_str()),
            DatabaseError::Update(m) => crate::text::chain("Update error: ", m.as_str()),
            DatabaseError::Delete(m) => crate::text::chain("Delete error: ", m.as_str()),
        }
    }
}

/// What can end a run. Causes that come from the driver or the operating
/// system are held as the text they were reported with.
#[allow(inconsistent_fields)]
#[derive(Debug, Clone, PartialEq, Eq)]
pub enum Error {
    Generic(String),
    DriverNotFound { driver: String, source: LookupError },
    DriverStartError { driver: String, source: String },
    StateMachineError(String),
    TokioJoinError(String),
    LoginFailure(String),
    NoKeywordsSet(String),
    DatabaseError(DatabaseError),
    FantocciniCmdError { error: String },
}

#[allow(inconsistent_fields)]
pub enum ErrorView {
    Generic(Seq<char>),
    DriverNotFound { driver: Seq<char>, source: LookupError },
    DriverStartError { driver: Seq<char>, source: Seq<char> },
    StateMachineError(Seq<char>),
    TokioJoinError(Seq<char>),
    LoginFailure(Seq<char>),
    NoKeywordsSet(Seq<char>),
    DatabaseError(DatabaseErrorView),
    FantocciniCmdError { error: Seq<char> },
}

impl View for Error {
    type V = ErrorView;

    open spec fn view(&self) -> ErrorView {
        match self {
            Error::Generic(m) => ErrorView::Generic(m@),
            Error::DriverNotFound { driver, source } => ErrorView::DriverNotFound {
                driver: driver@,
                source: *source,
            },
            Error::DriverStartError { driver, source } => ErrorView::DriverStartError {
                driver: driver@,
                source: source@,
            },
            Error::StateMachineError(m) => ErrorView::StateMachineError(m@),
            Error::TokioJoinError(m) => ErrorView::TokioJoinError(m@),
            Error::LoginFailure(m) => ErrorView::LoginFailure(m@),
            Error::NoKeywordsSet(m) => ErrorView::NoKeywordsSet(m@),
            Error::DatabaseError(e) => ErrorView::DatabaseError(e@),
            Error::FantocciniCmdError { error } => ErrorView::FantocciniCmdError { error: error@ },
        }
    }
}

impl ErrorView {
    /// The text an error is reported with: a fixed heading for its kind,
    /// then the detail it carries.
    pub open spec fn message(self) -> Seq<char> {
        match self {
            ErrorView::Generic(m) => "Generic error handler: "@ + m,
            ErrorView::DriverNotFound { driver, source } => "Driver not found: "@ + driver,
            ErrorView::DriverStartError { driver, source } => "Failed to start driver: "@ + driver,
            ErrorView::StateMachineError(m) => "State machine error: "@ + m,
            ErrorView::TokioJoinError(m) => "Tokio task join error"@,
            ErrorView::LoginFailure(m) => "Login failure: "@ + m,
            ErrorView::NoKeywordsSet(m) => "No keywords set, but 'use_keywords' is true: "@ + m,
            ErrorView::DatabaseError(e) => "Database error: "@ + e.message(),
            ErrorView::FantocciniCmdError { error } => "Fantoccini command error: "@ + error,
        }
    }
}

impl Error {
    /// The text this error is reported with.
    pub fn to_string(&self) -> (text: String)
        ensures
            text@ == self@.message(),
    {
        match self {
            Error::Generic(m) => crate::text::chain("Generic error handler: ", m.as_str()),
            Error::DriverNotFound { driver, source } => crate::text::chain(
                "Driver not found: ",
                driver.as_str(),
            ),
            Error::DriverStartError { driver, source } => crate::text::chain(
                "Failed to start driver: ",
                driver.as_str(),
            ),
            Error::StateMachineError(m) => crate::text::chain(
                "State machine error: ",
                m.as_str(),
            ),
            Error::TokioJoinError(m) => String::from_str("Tokio task join error"),
            Error::LoginFailure(m) => crate::text::chain("Login failure: ", m.as_str()),
            Error::NoKeywordsSet(m) => crate::text::chain(
                "No keywords set, but 'use_keywords' is true: ",
                m.as_str(),
            ),
            Error::DatabaseError(e) => {
                let inner = e.to_string();
                crate::text::chain("Database error: ", inner.as_str())
            },
            Error::FantocciniCmdError { error } => crate::text::chain(
                "Fantoccini command error: ",
                error.as_str(),
            ),
        }
    }
}

} // verus!
