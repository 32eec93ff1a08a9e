//! The configuration of a run, section by section, and the supervisor of
//! the driver process.

pub mod app_config;
pub mod database;
pub mod driver;
pub mod driver_type;
pub mod general;
pub mod logging;
pub mod login;
pub mod output;
pub mod search;

use vstd::prelude::*;

pub use app_config::AppConfig;
pub use database::DatabaseConfig;
pub use driver::{
    start_driver,
    DriverConfig,
    DriverProcessHandle,
    Liveness,
    MonitorAction,
    MonitorPhase,
    StartAction,
    StartEvent,
    StartStage,
    StopSignal,
};
pub use driver_type::{find_driver, DriverType};
pub use general::GeneralConfig;
pub use logging::{FileLoggingConfig, LoggingConfig, LoggingLevel};
pub use login::LoginConfig;
pub use output::{FailureOutputConfig, OutputConfig, SuccessOutputConfig};
pub use search::SearchConfig;

verus! {

/// What holds the handle of a driver process can stop the process. Both
/// operations are safe at any time and any number of times: on a process
/// whose monitor has ended, and where there is no process at all, they
/// change nothing.
pub trait ProcessHandleExt {
    /// The handle of the driver process, if there is one.
    spec fn process(&self) -> Option<DriverProcessHandle>;

    /// What the value holds besides the handle of the driver process.
    type Rest;

    /// All that the value holds besides the handle of the driver process.
    spec fn apart_from_process(&self) -> Self::Rest;

    /// Cancels the monitor at once.
    fn abort_handle(&mut self)
        ensures
            final(self).process() == match old(self).process() {
                Some(handle) => Some(handle.aborted()),
                None => None,
            },
            final(self).apart_from_process() == old(self).apart_from_process(),
    ;

    /// Asks the monitor to terminate the driver. The first signal counts;
    /// a later one, or one sent after the monitor has ended, is not an
    /// error and changes nothing.
    fn send_stop_signal(&mut self) -> (signal: StopSignal)
        ensures
            signal == match old(self).process() {
                Some(handle) => handle.stop_signal(),
                None => StopSignal::NoProcess,
            },
            final(self).process() == match old(self).process() {
                Some(handle) => Some(handle.stop_requested()),
                None => None,
            },
            final(self).apart_from_process() == old(self).apart_from_process(),
    ;
}

} // verus!
