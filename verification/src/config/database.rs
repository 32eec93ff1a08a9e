//! Where the database is and how its connection pool is sized.

use std::path::PathBuf;
use vstd::prelude::*;
use vstd::string::*;

verus! {

#[derive(Debug, Clone)]
pub struct DatabaseConfig {
    pub database_uri: String,
    pub max_lifetime_secs: u64,
    pub max_connections: u32,
    pub idle_timeout_secs: u64,
    pub min_connections: u32,
    pub database_path: PathBuf,
}

pub struct DatabaseConfigView {
    pub database_uri: Seq<char>,
    pub max_lifetime_secs: u64,
    pub max_connections: u32,
    pub idle_timeout_secs: u64,
    pub min_connections: u32,
    pub database_path: PathBuf,
}

impl View for DatabaseConfig {
    type V = DatabaseConfigView;

    open spec fn view(&self) -> DatabaseConfigView {
        DatabaseConfigView {
            database_uri: self.database_uri@,
            max_lifetime_secs: self.max_lifetime_secs,
            max_connections: self.max_connections,
            idle_timeout_secs: self.idle_timeout_secs,
            min_connections: self.min_connections,
            database_path: self.database_path,
        }
    }
}

impl DatabaseConfig {
    /// The section for the database file at `path`, whose path reads
    /// `path_text`: connections live for an hour at most and idle for
    /// five minutes at most, and the pool holds from two to ten of them.
    pub fn at(path: PathBuf, path_text: &str) -> (config: DatabaseConfig)
        ensures
            config@ == (DatabaseConfigView {
                database_uri: "sqlite://"@ + path_text@,
                max_lifetime_secs: 3600,
                max_connections: 10,
                idle_timeout_secs: 300,
                min_connections: 2,
                database_path: path,
            }),
    {
        DatabaseConfig {
            database_uri: crate::text::chain("sqlite://", path_text),
            max_lifetime_secs: 3600,
            max_connections: 10,
            idle_timeout_secs: 300,
            min_connections: 2,
            database_path: path,
        }
    }
}

} // verus!
