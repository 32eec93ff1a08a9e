use jobflow::error::{DatabaseError, Error, LookupError};

#[test]
fn generic_error_text() {
    assert_eq!(Error::Generic(String::from("boom")).to_string(), "Generic error handler: boom");
}

#[test]
fn driver_not_found_text_names_the_driver() {
    let error = Error::DriverNotFound {
        driver: String::from("chromedriver"),
        source: LookupError::CannotFindBinaryPath,
    };
    assert_eq!(error.to_string(), "Driver not found: chromedriver");
}

#[test]
fn driver_start_error_text_names_the_driver() {
    let error = Error::DriverStartError {
        driver: String::from("chromedriver"),
        source: String::from("No such file or directory (os error 2)"),
    };
    assert_eq!(error.to_string(), "Failed to start driver: chromedriver");
}

#[test]
fn state_machine_error_text() {
    assert_eq!(
        Error::StateMachineError(String::from("bad route")).to_string(),
        "State machine error: bad route"
    );
}

#[test]
fn join_error_text_is_fixed() {
    assert_eq!(Error::TokioJoinError(String::from("task 7 panicked")).to_string(), "Tokio task join error");
}

#[test]
fn login_failure_text() {
    assert_eq!(
        Error::LoginFailure(String::from("Login failed detected via failed attempt indicator.")).to_string(),
        "Login failure: Login failed detected via failed attempt indicator."
    );
}

#[test]
fn no_keywords_text() {
    assert_eq!(
        Error::NoKeywordsSet(String::from("none")).to_string(),
        "No keywords set, but 'use_keywords' is true: none"
    );
}

#[test]
fn database_error_texts() {
    assert_eq!(DatabaseError::Create(String::from("a")).to_string(), "Create error: a");
    assert_eq!(DatabaseError::Read(String::from("b")).to_string(), "Read error: b");
    assert_eq!(DatabaseError::Update(String::from("c")).to_string(), "Update error: c");
    assert_eq!(DatabaseError::Delete(String::from("d")).to_string(), "Delete error: d");
    assert_eq!(
        Error::DatabaseError(DatabaseError::Update(String::from("locked"))).to_string(),
        "Database error: Update error: locked"
    );
}

#[test]
fn driver_command_error_text() {
    assert_eq!(
        Error::FantocciniCmdError { error: String::from("no such element") }.to_string(),
        "Fantoccini command error: no such element"
    );
}

#[test]
fn empty_detail_leaves_the_heading() {
    assert_eq!(Error::Generic(String::new()).to_string(), "Generic error handler: ");
    assert_eq!(Error::LoginFailure(String::new()).to_string(), "Login failure: ");
}
