//! Names of the directories and files the application keeps, and the
//! address the port probe binds.

use vstd::prelude::*;

verus! {

pub const CONFIG_DIR: &'static str = "config";

pub const CONFIG_FILE: &'static str = "config.toml";

pub const DATABASE_DIR: &'static str = "database";

pub const DATABASE_FILE: &'static str = "jobs.db";

pub const DATABASE_MIGRATIONS_DIR: &'static str = "migrations";

pub const LOGS_DIR: &'static str = "logs";

pub const LOG_FILE: &'static str = "output.log";

pub const OUTPUT_DIR: &'static str = "output";

pub const SUCCESS_OUTPUT_FILE: &'static str = "successes.csv";

pub const FAILURE_OUTPUT_FILE: &'static str = "failures.csv";

pub const LOCAL_HOST_ADDR_STR: &'static str = "0.0.0.0";

/// The port the driver listens on when the configuration names none.
pub const DEFAULT_DRIVER_PORT: u16 = 4444;

/// Seconds between two liveness checks of the driver when the
/// configuration names none.
pub const DEFAULT_CHECK_INTERVAL_SECS: u64 = 5;

} // verus!
