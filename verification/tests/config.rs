use std::path::PathBuf;

use jobflow::config::{
    DatabaseConfig, FailureOutputConfig, FileLoggingConfig, GeneralConfig, LoggingConfig,
    LoggingLevel, LoginConfig, OutputConfig, SearchConfig, SuccessOutputConfig,
};
use jobflow::constants::{
    CONFIG_DIR, CONFIG_FILE, DATABASE_DIR, DATABASE_FILE, DATABASE_MIGRATIONS_DIR,
    DEFAULT_CHECK_INTERVAL_SECS, DEFAULT_DRIVER_PORT, FAILURE_OUTPUT_FILE, LOCAL_HOST_ADDR_STR,
    LOGS_DIR, LOG_FILE, OUTPUT_DIR, SUCCESS_OUTPUT_FILE,
};

#[test]
fn names_of_directories_and_files() {
    assert_eq!(CONFIG_DIR, "config");
    assert_eq!(CONFIG_FILE, "config.toml");
    assert_eq!(DATABASE_DIR, "database");
    assert_eq!(DATABASE_FILE, "jobs.db");
    assert_eq!(DATABASE_MIGRATIONS_DIR, "migrations");
    assert_eq!(LOGS_DIR, "logs");
    assert_eq!(LOG_FILE, "output.log");
    assert_eq!(OUTPUT_DIR, "output");
    assert_eq!(SUCCESS_OUTPUT_FILE, "successes.csv");
    assert_eq!(FAILURE_OUTPUT_FILE, "failures.csv");
    assert_eq!(LOCAL_HOST_ADDR_STR, "0.0.0.0");
    assert_eq!(DEFAULT_DRIVER_PORT, 4444);
    assert_eq!(DEFAULT_CHECK_INTERVAL_SECS, 5);
}

#[test]
fn login_config_new_keeps_each_value_in_its_field() {
    let config = LoginConfig::new(
        String::from("linkedin"),
        String::from("ada@example.org"),
        String::from("correct horse"),
        String::from("https://www.linkedin.com/login"),
    );
    assert_eq!(config.provider, "linkedin");
    assert_eq!(config.username, "ada@example.org");
    assert_eq!(config.password, "correct horse");
    assert_eq!(config.login_url, "https://www.linkedin.com/login");
}

#[test]
fn login_config_from_a_full_environment() {
    let config = LoginConfig::from_environment(
        Some(String::from("ada")),
        Some(String::from("secret")),
        Some(String::from("https://example.org/login")),
    );
    assert_eq!(
        config,
        LoginConfig {
            provider: String::from("the_job_portal_provider"),
            login_url: String::from("https://example.org/login"),
            username: String::from("ada"),
            password: String::from("secret"),
        }
    );
}

#[test]
fn login_config_from_an_incomplete_environment_holds_placeholders() {
    let placeholder = LoginConfig {
        provider: String::from("linkedin"),
        login_url: String::from("put_login_url_here"),
        username: String::from("your_username_here"),
        password: String::from("your_password_here"),
    };
    let some = |text: &str| Some(String::from(text));
    assert_eq!(LoginConfig::from_environment(None, None, None), placeholder);
    assert_eq!(LoginConfig::from_environment(some("ada"), None, None), placeholder);
    assert_eq!(LoginConfig::from_environment(None, some("secret"), None), placeholder);
    assert_eq!(LoginConfig::from_environment(None, None, some("https://example.org")), placeholder);
    assert_eq!(LoginConfig::from_environment(some("ada"), some("secret"), None), placeholder);
    assert_eq!(LoginConfig::from_environment(some("ada"), None, some("https://example.org")), placeholder);
    assert_eq!(LoginConfig::from_environment(None, some("secret"), some("https://example.org")), placeholder);
}

#[test]
fn search_config_default_searches_for_nothing() {
    let config = SearchConfig::default();
    assert_eq!(config, SearchConfig { use_keywords: false, keywords: vec![], location: None });
    assert!(!config.contradicts_itself());
}

#[test]
fn search_config_contradicts_itself_only_with_keywords_asked_for_and_none_named() {
    let with = |use_keywords: bool, keywords: Vec<&str>| SearchConfig {
        use_keywords,
        keywords: keywords.into_iter().map(String::from).collect(),
        location: Some(String::from("Sydney")),
    };
    assert!(with(true, vec![]).contradicts_itself());
    assert!(!with(true, vec!["rust"]).contradicts_itself());
    assert!(!with(true, vec![""]).contradicts_itself());
    assert!(!with(false, vec![]).contradicts_itself());
    assert!(!with(false, vec!["rust"]).contradicts_itself());
}

#[test]
fn general_config_default() {
    let config = GeneralConfig::default();
    assert_eq!(config, GeneralConfig { unfollow_companies: true, maximum_iterations: Some(255) });
    assert_eq!(config.max_iterations(), 255);
}

#[test]
fn iterations_without_a_bound_are_bound_by_the_machine() {
    let config = GeneralConfig { unfollow_companies: false, maximum_iterations: None };
    assert_eq!(config.max_iterations(), usize::MAX);
    let config = GeneralConfig { unfollow_companies: false, maximum_iterations: Some(0) };
    assert_eq!(config.max_iterations(), 0);
    let config = GeneralConfig { unfollow_companies: false, maximum_iterations: Some(17) };
    assert_eq!(config.max_iterations(), 17);
}

#[test]
fn file_logging_config_new_keeps_its_values() {
    let config = FileLoggingConfig::new(true, PathBuf::from("output/output.log"));
    assert!(config.enabled);
    assert_eq!(config.file_path, PathBuf::from("output/output.log"));
    let config = FileLoggingConfig::new(false, PathBuf::new());
    assert!(!config.enabled);
    assert_eq!(config.file_path, PathBuf::new());
}

#[test]
fn logging_starts_at_info_and_writes_no_file() {
    assert_eq!(LoggingLevel::default(), LoggingLevel::Info);
    let config = LoggingConfig::at(PathBuf::from("output/output.log"));
    assert_eq!(config.log_level, LoggingLevel::Info);
    assert!(!config.debug_logging.enabled);
    assert_eq!(config.debug_logging.file_path, PathBuf::from("output/output.log"));
    let disabled = FileLoggingConfig::disabled_at(PathBuf::from("x.log"));
    assert!(!disabled.enabled);
    assert_eq!(disabled.file_path, PathBuf::from("x.log"));
}

#[test]
fn logging_levels_are_ordered_from_trace_to_error() {
    assert!(LoggingLevel::Trace < LoggingLevel::Debug);
    assert!(LoggingLevel::Debug < LoggingLevel::Info);
    assert!(LoggingLevel::Info < LoggingLevel::Warn);
    assert!(LoggingLevel::Warn < LoggingLevel::Error);
}

#[test]
fn output_writes_nothing_until_it_is_switched_on() {
    let config = OutputConfig::at(PathBuf::from("output/successes.csv"), PathBuf::from("output/failures.csv"));
    assert!(!config.success.enabled);
    assert_eq!(config.success.file_path, PathBuf::from("output/successes.csv"));
    assert!(!config.failure.enabled);
    assert_eq!(config.failure.file_path, PathBuf::from("output/failures.csv"));
    let success = SuccessOutputConfig::disabled_at(PathBuf::from("s.csv"));
    assert!(!success.enabled);
    assert_eq!(success.file_path, PathBuf::from("s.csv"));
    let failure = FailureOutputConfig::disabled_at(PathBuf::from("f.csv"));
    assert!(!failure.enabled);
    assert_eq!(failure.file_path, PathBuf::from("f.csv"));
}

#[test]
fn database_config_for_a_path() {
    let config = DatabaseConfig::at(PathBuf::from("/var/lib/jobs/database/jobs.db"), "/var/lib/jobs/database/jobs.db");
    assert_eq!(config.database_uri, "sqlite:///var/lib/jobs/database/jobs.db");
    assert_eq!(config.max_lifetime_secs, 3600);
    assert_eq!(config.max_connections, 10);
    assert_eq!(config.idle_timeout_secs, 300);
    assert_eq!(config.min_connections, 2);
    assert_eq!(config.database_path, PathBuf::from("/var/lib/jobs/database/jobs.db"));
    assert_eq!(DatabaseConfig::at(PathBuf::new(), "").database_uri, "sqlite://");
}
