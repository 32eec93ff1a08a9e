//! What is logged and where.

use std::path::PathBuf;
use vstd::prelude::*;

verus! {

#[derive(Debug, Clone)]
pub struct LoggingConfig {
    pub log_level: LoggingLevel,
    pub debug_logging: FileLoggingConfig,
}

#[derive(Debug, Clone, Copy, PartialEq, Eq, PartialOrd, Ord, Structural)]
pub enum LoggingLevel {
    Trace,
    Debug,
    Info,
    Warn,
    Error,
}

impl Default for LoggingLevel {
    fn default() -> (level: LoggingLevel)
        ensures
            level == LoggingLevel::Info,
    {
        LoggingLevel::Info
    }
}

#[derive(Debug, Clone)]
pub struct FileLoggingConfig {
    pub enabled: bool,
    pub file_path: PathBuf,
}

impl FileLoggingConfig {
    pub fn new(enabled: bool, file_path: PathBuf) -> (config: FileLoggingConfig)
        ensures
            config.enabled == enabled,
            config.file_path == file_path,
    {
        FileLoggingConfig { enabled, file_path }
    }

    /// The section that logs to no file and keeps `file_path` for when it
    /// is switched on.
    pub fn disabled_at(file_path: PathBuf) -> (config: FileLoggingConfig)
        ensures
            !config.enabled,
            config.file_path == file_path,
    {
        FileLoggingConfig::new(false, file_path)
    }
}

impl LoggingConfig {
    /// The section that logs from `Info` upwards and to no file.
    pub fn at(file_path: PathBuf) -> (config: LoggingConfig)
        ensures
            config.log_level == LoggingLevel::Info,
            !config.debug_logging.enabled,
            config.debug_logging.file_path == file_path,
    {
        LoggingConfig {
            log_level: LoggingLevel::default(),
            debug_logging: FileLoggingConfig::disabled_at(file_path),
        }
    }
}

} // verus!
