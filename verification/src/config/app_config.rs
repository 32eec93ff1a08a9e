//! The whole configuration.

use std::path::PathBuf;
use vstd::prelude::*;

use crate::config::database::DatabaseConfig;
use crate::config::driver::{DriverConfig, DriverProcessHandle, StopSignal};
use crate::config::general::GeneralConfig;
use crate::config::logging::LoggingConfig;
use crate::config::login::LoginConfig;
use crate::config::output::OutputConfig;
use crate::config::search::SearchConfig;
use crate::config::ProcessHandleExt;

verus! {

#[derive(Debug, Clone)]
pub struct AppConfig {
    pub general: GeneralConfig,
    pub database: DatabaseConfig,
    pub driver: DriverConfig,
    pub logging: LoggingConfig,
    pub output: OutputConfig,
    pub login: LoginConfig,
    pub search: SearchConfig,
    pub config_path: PathBuf,
}

impl ProcessHandleExt for AppConfig {
    type Rest = AppConfig;

    open spec fn process(&self) -> Option<DriverProcessHandle> {
        self.driver.driver_process
    }

    open spec fn apart_from_process(&self) -> AppConfig {
        AppConfig { driver: self.driver.apart_from_process(), ..*self }
    }


    fn abort_handle(&mut self) {
        self.driver.abort_handle();
    }

    fn send_stop_signal(&mut self) -> (signal: StopSignal) {
        self.driver.send_stop_signal()
    }
}

} // verus!
