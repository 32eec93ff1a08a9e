//! Where the records of applications that went well and of those that did
//! not are written.

use std::path::PathBuf;
use vstd::prelude::*;

verus! {

#[derive(Debug, Clone)]
pub struct OutputConfig {
    pub success: SuccessOutputConfig,
    pub failure: FailureOutputConfig,
}

#[derive(Debug, Clone)]
pub struct SuccessOutputConfig {
    pub enabled: bool,
    pub file_path: PathBuf,
}

impl SuccessOutputConfig {
    /// The section that writes nothing and keeps `file_path` for when it
    /// is switched on.
    pub fn disabled_at(file_path: PathBuf) -> (config: SuccessOutputConfig)
        ensures
            !config.enabled,
            config.file_path == file_path,
    {
        SuccessOutputConfig { enabled: false, file_path }
    }
}

#[derive(Debug, Clone)]
pub struct FailureOutputConfig {
    pub enabled: bool,
    pub file_path: PathBuf,
}

impl FailureOutputConfig {
    /// The section that writes nothing and keeps `file_path` for when it
    /// is switched on.
    pub fn disabled_at(file_path: PathBuf) -> (config: FailureOutputConfig)
        ensures
            !config.enabled,
            config.file_path == file_path,
    {
        FailureOutputConfig { enabled: false, file_path }
    }
}

impl OutputConfig {
    /// The section that writes nothing; the two paths are kept.
    pub fn at(success_path: PathBuf, failure_path: PathBuf) -> (config: OutputConfig)
        ensures
            !config.success.enabled,
            config.success.file_path == success_path,
            !config.failure.enabled,
            config.failure.file_path == failure_path,
    {
        OutputConfig {
            success: SuccessOutputConfig::disabled_at(success_path),
            failure: FailureOutputConfig::disabled_at(failure_path),
        }
    }
}

} // verus!
