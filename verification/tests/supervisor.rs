use std::path::PathBuf;

use jobflow::config::{
    find_driver, start_driver, AppConfig, DatabaseConfig, DriverConfig, DriverProcessHandle,
    DriverType, GeneralConfig, Liveness, LoggingConfig, LoginConfig, MonitorAction, MonitorPhase,
    OutputConfig, ProcessHandleExt, SearchConfig, StartAction, StartEvent, StartStage, StopSignal,
};
use jobflow::config::driver_type::driver_location;
use jobflow::error::{Error, LookupError};
use jobflow::state::shutdown_app;

fn driver(port: Option<u16>) -> DriverConfig {
    let mut config = DriverConfig::new(DriverType::Chrome, PathBuf::from("/usr/bin/chromedriver"));
    config.driver_port = port;
    config
}

fn configuration(driver: DriverConfig) -> AppConfig {
    AppConfig {
        general: GeneralConfig::default(),
        database: DatabaseConfig::at(PathBuf::from("database/jobs.db"), "database/jobs.db"),
        driver,
        logging: LoggingConfig::at(PathBuf::from("output/output.log")),
        output: OutputConfig::at(PathBuf::from("output/successes.csv"), PathBuf::from("output/failures.csv")),
        login: LoginConfig::from_environment(None, None, None),
        search: SearchConfig::default(),
        config_path: PathBuf::from("config/config.toml"),
    }
}

/// Runs the start of a session against a machine on which the port is `occupied`, spawning and
/// connecting always succeed. Gives every action that was asked for and the last stage.
fn start(config: &mut DriverConfig, occupied: bool) -> (Vec<StartAction>, StartStage) {
    let mut stage = StartStage::Idle;
    let mut event = StartEvent::Begin;
    let mut actions = Vec::new();
    loop {
        let (next, action) = start_driver(config, stage, event);
        stage = next;
        actions.push(action.clone());
        event = match action {
            StartAction::Probe { .. } => StartEvent::Probed { occupied },
            StartAction::Spawn { .. } => StartEvent::Spawned,
            StartAction::Connect { .. } => StartEvent::Connected,
            StartAction::Done | StartAction::Fail(_) => return (actions, stage),
        };
    }
}

#[test]
fn new_driver_section_has_the_defaults() {
    let config = DriverConfig::new(DriverType::Chromium, PathBuf::from("/opt/chromedriver"));
    assert_eq!(config.driver_type, DriverType::Chromium);
    assert_eq!(config.driver_path, PathBuf::from("/opt/chromedriver"));
    assert_eq!(config.driver_port, None);
    assert_eq!(config.driver_extra_args, None);
    assert_eq!(config.background_driver_check_delay_secs, Some(1));
    assert_eq!(config.driver_process, None);
    assert_eq!(config.port(), 4444);
    assert_eq!(config.check_interval_secs(), 1);
}

#[test]
fn cloned_driver_section_keeps_its_path() {
    let config = driver(Some(9515));
    let copy = config.clone();
    assert_eq!(copy.driver_path, PathBuf::from("/usr/bin/chromedriver"));
    assert_eq!(copy.driver_port, Some(9515));
}

#[test]
fn port_and_interval_fall_back_to_their_defaults() {
    let mut config = driver(None);
    config.background_driver_check_delay_secs = None;
    assert_eq!(config.port(), 4444);
    assert_eq!(config.check_interval_secs(), 5);
    config.driver_port = Some(9515);
    config.background_driver_check_delay_secs = Some(30);
    assert_eq!(config.port(), 9515);
    assert_eq!(config.check_interval_secs(), 30);
}

#[test]
fn spawn_arguments_end_with_the_port() {
    let mut config = driver(None);
    assert_eq!(config.spawn_args(), vec![String::from("--port=4444")]);
    config.driver_port = Some(9515);
    config.driver_extra_args = Some(vec![String::from("--verbose"), String::from("--log-path=/tmp/driver.log")]);
    assert_eq!(
        config.spawn_args(),
        vec![String::from("--verbose"), String::from("--log-path=/tmp/driver.log"), String::from("--port=9515")]
    );
    config.driver_extra_args = Some(vec![]);
    config.driver_port = Some(0);
    assert_eq!(config.spawn_args(), vec![String::from("--port=0")]);
    config.driver_port = Some(u16::MAX);
    assert_eq!(config.spawn_args(), vec![String::from("--port=65535")]);
}

#[test]
fn addresses_are_made_of_the_port() {
    let config = driver(Some(9515));
    assert_eq!(config.probe_address(), "0.0.0.0:9515");
    assert_eq!(config.endpoint(), "http://localhost:9515");
    let config = driver(None);
    assert_eq!(config.probe_address(), "0.0.0.0:4444");
    assert_eq!(config.endpoint(), "http://localhost:4444");
}

#[test]
fn occupied_port_is_attached_to_and_nothing_is_spawned() {
    for port in [1u16, 4444, 9515, 65535] {
        let mut config = driver(Some(port));
        let (actions, stage) = start(&mut config, true);
        assert_eq!(
            actions,
            vec![
                StartAction::Probe { address: format!("0.0.0.0:{}", port) },
                StartAction::Connect { url: format!("http://localhost:{}", port) },
                StartAction::Done,
            ]
        );
        assert_eq!(stage, StartStage::Live { attached: true });
        assert_eq!(config.driver_process, None);
        assert!(!actions.iter().any(|action| matches!(action, StartAction::Spawn { .. })));
    }
}

#[test]
fn free_port_spawns_exactly_one_child_and_watches_it() {
    for port in [1u16, 4444, 9515, 65535] {
        let mut config = driver(Some(port));
        let (actions, stage) = start(&mut config, false);
        assert_eq!(
            actions,
            vec![
                StartAction::Probe { address: format!("0.0.0.0:{}", port) },
                StartAction::Spawn {
                    program: PathBuf::from("/usr/bin/chromedriver"),
                    args: vec![format!("--port={}", port)],
                    check_interval_secs: 1,
                },
                StartAction::Connect { url: format!("http://localhost:{}", port) },
                StartAction::Done,
            ]
        );
        assert_eq!(stage, StartStage::Live { attached: false });
        assert_eq!(actions.iter().filter(|action| matches!(action, StartAction::Spawn { .. })).count(), 1);
        assert_eq!(
            config.driver_process,
            Some(DriverProcessHandle { phase: MonitorPhase::Watching, stop_pending: false })
        );
    }
}

#[test]
fn without_a_port_nothing_is_probed() {
    let mut config = driver(None);
    let (actions, stage) = start(&mut config, true);
    assert_eq!(
        actions,
        vec![
            StartAction::Spawn {
                program: PathBuf::from("/usr/bin/chromedriver"),
                args: vec![String::from("--port=4444")],
                check_interval_secs: 1,
            },
            StartAction::Connect { url: String::from("http://localhost:4444") },
            StartAction::Done,
        ]
    );
    assert_eq!(stage, StartStage::Live { attached: false });
}

#[test]
fn driver_on_free_default_port_is_spawned_connected_and_stopped_within_one_interval() {
    let mut config = driver(Some(4444));
    config.background_driver_check_delay_secs = None;
    let (actions, stage) = start(&mut config, false);
    assert_eq!(
        actions[1],
        StartAction::Spawn {
            program: PathBuf::from("/usr/bin/chromedriver"),
            args: vec![String::from("--port=4444")],
            check_interval_secs: 5,
        }
    );
    assert_eq!(actions[2], StartAction::Connect { url: String::from("http://localhost:4444") });
    assert_eq!(stage, StartStage::Live { attached: false });

    // The monitor wakes up a few times and finds the child running.
    let mut handle = config.driver_process.unwrap();
    for _ in 0..3 {
        assert_eq!(handle.monitor_step(Liveness::Running), MonitorAction::KeepWatching);
    }
    assert_eq!(handle.phase, MonitorPhase::Watching);

    // The stop is asked for; at its next wake-up the monitor terminates the child.
    assert_eq!(handle.send_stop_signal(), StopSignal::Delivered);
    assert_eq!(handle.monitor_step(Liveness::Running), MonitorAction::KillAndReap);
    assert_eq!(handle.phase, MonitorPhase::Stopped);
    assert_eq!(handle.monitor_step(Liveness::Running), MonitorAction::Nothing);
}

#[test]
fn connection_failures_say_which_driver_was_not_reached() {
    let mut config = driver(Some(9515));
    let (stage, action) = start_driver(
        &mut config,
        StartStage::Connecting { attached: true },
        StartEvent::ConnectFailed { cause: String::from("connection refused") },
    );
    assert_eq!(stage, StartStage::Failed);
    assert_eq!(
        action,
        StartAction::Fail(Error::Generic(String::from(
            "Failed to connect to existing driver at port 9515: connection refused"
        )))
    );
    let (stage, action) = start_driver(
        &mut config,
        StartStage::Connecting { attached: false },
        StartEvent::ConnectFailed { cause: String::from("connection refused") },
    );
    assert_eq!(stage, StartStage::Failed);
    assert_eq!(
        action,
        StartAction::Fail(Error::Generic(String::from(
            "Failed to connect to driver at port 9515: connection refused"
        )))
    );
}

#[test]
fn spawn_failure_ends_the_start() {
    let mut config = driver(None);
    let (stage, action) = start_driver(
        &mut config,
        StartStage::Spawning,
        StartEvent::SpawnFailed { cause: String::from("permission denied") },
    );
    assert_eq!(stage, StartStage::Failed);
    assert_eq!(
        action,
        StartAction::Fail(Error::DriverStartError {
            driver: String::from("chromedriver"),
            source: String::from("permission denied"),
        })
    );
    assert_eq!(config.driver_process, None);
}

#[test]
fn misplaced_events_fail_the_start() {
    let misplaced = StartAction::Fail(Error::StateMachineError(String::from(
        "the event does not fit the stage of the start",
    )));
    let cases = [
        (StartStage::Idle, StartEvent::Spawned),
        (StartStage::Idle, StartEvent::Probed { occupied: true }),
        (StartStage::Probing, StartEvent::Begin),
        (StartStage::Probing, StartEvent::Connected),
        (StartStage::Spawning, StartEvent::Connected),
        (StartStage::Connecting { attached: true }, StartEvent::Spawned),
        (StartStage::Live { attached: false }, StartEvent::Begin),
        (StartStage::Failed, StartEvent::Begin),
    ];
    for (stage, event) in cases {
        let mut config = driver(Some(4444));
        let (next, action) = start_driver(&mut config, stage, event);
        assert_eq!(next, StartStage::Failed);
        assert_eq!(action, misplaced);
        assert_eq!(config.driver_process, None);
    }
}

#[test]
fn monitor_ends_without_restart_when_the_child_has_exited() {
    let mut handle = DriverProcessHandle::new();
    assert_eq!(handle.monitor_step(Liveness::Exited { success: false }), MonitorAction::ReportExit { success: false });
    assert_eq!(handle.phase, MonitorPhase::Exited);
    assert_eq!(handle.monitor_step(Liveness::Running), MonitorAction::Nothing);

    let mut handle = DriverProcessHandle::new();
    assert_eq!(handle.monitor_step(Liveness::Exited { success: true }), MonitorAction::ReportExit { success: true });
    assert_eq!(handle.phase, MonitorPhase::Exited);
}

#[test]
fn liveness_check_that_fails_is_treated_as_death() {
    let mut handle = DriverProcessHandle::new();
    assert_eq!(handle.monitor_step(Liveness::CheckFailed), MonitorAction::ReportCheckFailure);
    assert_eq!(handle.phase, MonitorPhase::Exited);
    assert_eq!(handle.monitor_step(Liveness::Running), MonitorAction::Nothing);
}

#[test]
fn stop_signal_wins_over_the_check() {
    for liveness in [Liveness::Running, Liveness::Exited { success: true }, Liveness::Exited { success: false }, Liveness::CheckFailed] {
        let mut handle = DriverProcessHandle::new();
        handle.send_stop_signal();
        assert_eq!(handle.monitor_step(liveness), MonitorAction::KillAndReap);
        assert_eq!(handle, DriverProcessHandle { phase: MonitorPhase::Stopped, stop_pending: false });
    }
}

#[test]
fn stop_signal_after_the_monitor_has_ended_is_harmless() {
    let endings = [
        Liveness::Exited { success: true },
        Liveness::Exited { success: false },
        Liveness::CheckFailed,
    ];
    for liveness in endings {
        let mut handle = DriverProcessHandle::new();
        handle.monitor_step(liveness);
        let ended = handle;
        assert_eq!(handle.send_stop_signal(), StopSignal::MonitorEnded);
        assert_eq!(handle, ended);
        assert_eq!(handle.send_stop_signal(), StopSignal::MonitorEnded);
        assert_eq!(handle, ended);
    }
    let mut aborted = DriverProcessHandle::new();
    aborted.abort_handle();
    assert_eq!(aborted.send_stop_signal(), StopSignal::MonitorEnded);
    assert_eq!(aborted.phase, MonitorPhase::Aborted);
    let mut stopped = DriverProcessHandle::new();
    stopped.send_stop_signal();
    stopped.monitor_step(Liveness::Running);
    assert_eq!(stopped.send_stop_signal(), StopSignal::MonitorEnded);
    assert_eq!(stopped, DriverProcessHandle { phase: MonitorPhase::Stopped, stop_pending: false });
}

#[test]
fn second_stop_signal_changes_nothing() {
    let mut handle = DriverProcessHandle::new();
    assert_eq!(handle.send_stop_signal(), StopSignal::Delivered);
    let once = handle;
    assert_eq!(handle.send_stop_signal(), StopSignal::AlreadyPending);
    assert_eq!(handle, once);
}

#[test]
fn abort_cancels_the_monitor_at_once_and_only_once() {
    let mut handle = DriverProcessHandle::new();
    handle.abort_handle();
    assert_eq!(handle.phase, MonitorPhase::Aborted);
    assert_eq!(handle.monitor_step(Liveness::Running), MonitorAction::Nothing);
    handle.abort_handle();
    assert_eq!(handle.phase, MonitorPhase::Aborted);

    let mut exited = DriverProcessHandle::new();
    exited.monitor_step(Liveness::Exited { success: true });
    exited.abort_handle();
    assert_eq!(exited.phase, MonitorPhase::Exited);
}

#[test]
fn configuration_passes_stop_and_abort_on_to_its_driver() {
    let mut config = configuration(driver(None));
    assert_eq!(config.send_stop_signal(), StopSignal::NoProcess);
    config.abort_handle();
    assert_eq!(config.driver.driver_process, None);

    start(&mut config.driver, false);
    assert_eq!(config.send_stop_signal(), StopSignal::Delivered);
    assert_eq!(
        config.driver.driver_process,
        Some(DriverProcessHandle { phase: MonitorPhase::Watching, stop_pending: true })
    );
    assert_eq!(config.send_stop_signal(), StopSignal::AlreadyPending);
    config.abort_handle();
    assert_eq!(
        config.driver.driver_process,
        Some(DriverProcessHandle { phase: MonitorPhase::Aborted, stop_pending: true })
    );
    assert_eq!(config.send_stop_signal(), StopSignal::MonitorEnded);
    assert_eq!(config.login, LoginConfig::from_environment(None, None, None));
}

#[test]
fn shutdown_stops_then_aborts() {
    let mut config = configuration(driver(Some(4444)));
    start(&mut config.driver, false);
    assert_eq!(shutdown_app(&mut config), StopSignal::Delivered);
    assert_eq!(
        config.driver.driver_process,
        Some(DriverProcessHandle { phase: MonitorPhase::Aborted, stop_pending: true })
    );
    // A second teardown is harmless.
    assert_eq!(shutdown_app(&mut config), StopSignal::MonitorEnded);
    assert_eq!(
        config.driver.driver_process,
        Some(DriverProcessHandle { phase: MonitorPhase::Aborted, stop_pending: true })
    );
}

#[test]
fn shutdown_without_a_process_does_nothing() {
    let mut config = configuration(driver(Some(4444)));
    start(&mut config.driver, true);
    assert_eq!(shutdown_app(&mut config), StopSignal::NoProcess);
    assert_eq!(config.driver.driver_process, None);
    let mut handle = DriverProcessHandle::new();
    assert_eq!(shutdown_app(&mut handle), StopSignal::Delivered);
    assert_eq!(handle.phase, MonitorPhase::Aborted);
}

#[test]
fn drivers_share_one_executable() {
    assert_eq!(DriverType::Chrome.executable_name(), "chromedriver");
    assert_eq!(DriverType::Chromium.executable_name(), "chromedriver");
}

#[test]
fn lookup_that_found_the_driver_gives_its_path() {
    assert_eq!(
        driver_location("chromedriver", Ok(PathBuf::from("/usr/local/bin/chromedriver"))),
        Ok(PathBuf::from("/usr/local/bin/chromedriver"))
    );
}

#[test]
fn lookup_that_found_nothing_names_the_driver_and_keeps_the_reason() {
    for reason in [
        LookupError::CannotFindBinaryPath,
        LookupError::CannotGetCurrentDirAndPathListEmpty,
        LookupError::CannotCanonicalize,
    ] {
        assert_eq!(
            driver_location("chromedriver", Err(reason)),
            Err(Error::DriverNotFound { driver: String::from("chromedriver"), source: reason })
        );
    }
}

#[test]
fn find_driver_looks_for_chromedriver_on_this_machine() {
    match find_driver(DriverType::Chrome) {
        Ok(path) => assert!(path.to_string_lossy().contains("chromedriver")),
        Err(error) => {
            assert!(matches!(error, Error::DriverNotFound { ref driver, .. } if driver == "chromedriver"));
            assert_eq!(error.to_string(), "Driver not found: chromedriver");
        }
    }
}
