//! The browser drivers that can be run, and the search for their
//! executable.

use std::path::PathBuf;
use vstd::prelude::*;
use vstd::string::*;

use crate::error::{Error, ErrorView, LookupError};

verus! {

/// `std::path::PathBuf`, the path of a file. The configuration carries
/// paths; no function here looks into one.
#[verifier::external_type_specification]
#[verifier::external_body]
pub struct ExPathBuf(std::path::PathBuf);

/// `Clone::clone` of `PathBuf` gives a path equal to the one it is called
/// on.
pub assume_specification[ <std::path::PathBuf as Clone>::clone ](path: &std::path::PathBuf) -> (copy:
    std::path::PathBuf)
    ensures
        copy == *path,
;

#[derive(Debug, Clone, Copy, PartialEq, Eq, PartialOrd, Ord, Structural)]
pub enum DriverType {
    Chrome,
    Chromium,
}

impl DriverType {
    /// The file name of a driver's executable.
    pub open spec fn executable_text(self) -> Seq<char> {
        "chromedriver"@
    }

    /// The file name of this driver's executable.
    pub fn executable_name(&self) -> (name: &'static str)
        ensures
            name@ == self.executable_text(),
    {
        match self {
            DriverType::Chrome | DriverType::Chromium => "chromedriver",
        }
    }
}

/// What a search for the executable `driver_name` comes to: the path that
/// was found, or the error that names the driver and keeps the reason.
pub open spec fn lookup_outcome(
    driver_name: Seq<char>,
    found: Result<PathBuf, LookupError>,
    outcome: Result<PathBuf, Error>,
) -> bool {
    match found {
        Ok(path) => outcome == Ok::<PathBuf, Error>(path),
        Err(reason) => outcome is Err && outcome->Err_0@ == (ErrorView::DriverNotFound {
            driver: driver_name,
            source: reason,
        }),
    }
}

/// Turns what the search for `driver_name` gave into the result of
/// `find_driver`.
pub fn driver_location(driver_name: &str, found: Result<PathBuf, LookupError>) -> (outcome: Result<
    PathBuf,
    Error,
>)
    ensures
        lookup_outcome(driver_name@, found, outcome),
{
    match found {
        Ok(path) => Ok(path),
        Err(reason) => Err(
            Error::DriverNotFound { driver: String::from_str(driver_name), source: reason },
        ),
    }
}

/// Calls `which::which`, which looks for an executable file of the given
/// name in the directories of the search path and returns its path, or
/// one of three errors. What it finds depends on the machine, so the
/// contract claims nothing of the result.
#[verifier::external_body]
fn which_binary(name: &str) -> (found: Result<PathBuf, LookupError>) {
    match which::which(name) {
        Ok(path) => Ok(path),
        Err(which::Error::CannotFindBinaryPath) => Err(LookupError::CannotFindBinaryPath),
        Err(which::Error::CannotGetCurrentDirAndPathListEmpty) => Err(
            LookupError::CannotGetCurrentDirAndPathListEmpty,
        ),
        Err(which::Error::CannotCanonicalize) => Err(LookupError::CannotCanonicalize),
    }
}

/// Looks for the executable of `driver` on this machine. Whether one is
/// found is for the machine to say; where none is, the error is
/// `DriverNotFound` and names the executable that was looked for.
pub fn find_driver(driver: DriverType) -> (outcome: Result<PathBuf, Error>)
    ensures
        outcome matches Err(error) ==> error@ is DriverNotFound
            && error@->DriverNotFound_driver == driver.executable_text(),
{
    let driver_name = driver.executable_name();
    let found = which_binary(driver_name);
    driver_location(driver_name, found)
}

} // verus!
