//! The supervisor of the driver process: how a session is started, how the
//! running driver is watched, and how it is stopped.
//!
//! The caller owns the process and the sockets. What it finds is reported
//! here as an event, and every decision is taken here.

use std::path::PathBuf;
use vstd::prelude::*;
use vstd::string::*;

use crate::config::driver_type::DriverType;
use crate::config::ProcessHandleExt;
use crate::error::{Error, ErrorView};
use crate::text::{decimal, views};

verus! {

/// Where the monitor of a driver process stands.
#[derive(Debug, Clone, Copy, PartialEq, Eq, Structural)]
pub enum MonitorPhase {
    /// The monitor runs and takes the child to be alive.
    Watching,
    /// A stop signal came: the child was terminated and waited for.
    Stopped,
    /// A liveness check found the child gone, or could not be made.
    Exited,
    /// The monitor was cancelled.
    Aborted,
}

/// What sending a stop signal came to. None of them is an error.
#[derive(Debug, Clone, Copy, PartialEq, Eq, Structural)]
pub enum StopSignal {
    /// The signal waits for the monitor.
    Delivered,
    /// An earlier signal waits already; this one changed nothing.
    AlreadyPending,
    /// The monitor has ended; this signal changed nothing.
    MonitorEnded,
    /// There is no driver process to signal.
    NoProcess,
}

/// What one liveness check of the child found.
#[derive(Debug, Clone, Copy, PartialEq, Eq, Structural)]
pub enum Liveness {
    Running,
    Exited { success: bool },
    CheckFailed,
}

/// What the monitor does after it woke up.
#[derive(Debug, Clone, Copy, PartialEq, Eq, Structural)]
pub enum MonitorAction {
    /// Terminate the child by force, wait for its exit, and end.
    KillAndReap,
    /// Sleep until the next check.
    KeepWatching,
    /// End without restarting the child, which has exited.
    ReportExit { success: bool },
    /// End without restarting the child, whose state is unknown.
    ReportCheckFailure,
    /// The monitor has ended before; there is nothing to do.
    Nothing,
}

/// The handle of one driver process: its monitor and the one slot of its
/// stop channel.
#[derive(Debug, Clone, Copy, PartialEq, Eq, Structural)]
pub struct DriverProcessHandle {
    pub phase: MonitorPhase,
    pub stop_pending: bool,
}

impl DriverProcessHandle {
    /// The handle of a process that was just spawned.
    pub open spec fn fresh() -> DriverProcessHandle {
        DriverProcessHandle { phase: MonitorPhase::Watching, stop_pending: false }
    }

    /// Whether the monitor runs.
    pub open spec fn is_watching(self) -> bool {
        self.phase is Watching
    }

    /// How many children of this handle are alive: one while the monitor
    /// watches, none afterwards.
    pub open spec fn live_children(self) -> nat {
        if self.is_watching() {
            1
        } else {
            0
        }
    }

    /// The handle after a stop signal was sent.
    pub open spec fn stop_requested(self) -> DriverProcessHandle {
        if self.is_watching() {
            DriverProcessHandle { phase: self.phase, stop_pending: true }
        } else {
            self
        }
    }

    /// What sending a stop signal to this handle comes to.
    pub open spec fn stop_signal(self) -> StopSignal {
        if !self.is_watching() {
            StopSignal::MonitorEnded
        } else if self.stop_pending {
            StopSignal::AlreadyPending
        } else {
            StopSignal::Delivered
        }
    }

    /// The handle after its monitor was cancelled.
    pub open spec fn aborted(self) -> DriverProcessHandle {
        if self.is_watching() {
            DriverProcessHandle { phase: MonitorPhase::Aborted, stop_pending: self.stop_pending }
        } else {
            self
        }
    }

    /// What the monitor does when it wakes up and a check of the child
    /// gives `liveness`. A pending stop signal goes before the check.
    pub open spec fn monitor_action(self, liveness: Liveness) -> MonitorAction {
        if !self.is_watching() {
            MonitorAction::Nothing
        } else if self.stop_pending {
            MonitorAction::KillAndReap
        } else {
            match liveness {
                Liveness::Running => MonitorAction::KeepWatching,
                Liveness::Exited { success } => MonitorAction::ReportExit { success },
                Liveness::CheckFailed => MonitorAction::ReportCheckFailure,
            }
        }
    }

    /// The handle after the monitor woke up and a check of the child gave
    /// `liveness`.
    pub open spec fn monitored(self, liveness: Liveness) -> DriverProcessHandle {
        match self.monitor_action(liveness) {
            MonitorAction::KillAndReap => DriverProcessHandle {
                phase: MonitorPhase::Stopped,
                stop_pending: false,
            },
            MonitorAction::ReportExit { .. } | MonitorAction::ReportCheckFailure => DriverProcessHandle {
                phase: MonitorPhase::Exited,
                stop_pending: false,
            },
            MonitorAction::KeepWatching | MonitorAction::Nothing => self,
        }
    }

    /// The handle after the monitor woke up once for each of `checks`, in
    /// order.
    pub open spec fn monitored_through(self, checks: Seq<Liveness>) -> DriverProcessHandle
        decreases checks.len(),
    {
        if checks.len() == 0 {
            self
        } else {
            self.monitored_through(checks.drop_last()).monitored(checks.last())
        }
    }

    /// The handle of a process that was just spawned: its monitor watches
    /// and no stop signal is pending.
    pub fn new() -> (handle: DriverProcessHandle)
        ensures
            handle == DriverProcessHandle::fresh(),
    {
        DriverProcessHandle { phase: MonitorPhase::Watching, stop_pending: false }
    }

    /// One wake-up of the monitor, on which a check of the child gave
    /// `liveness`. A stop signal that is pending wins over the check: the
    /// child is to be terminated and waited for. Otherwise a child that
    /// runs is watched further, and the monitor ends, without a restart,
    /// when the child has exited or the check itself failed.
    pub fn monitor_step(&mut self, liveness: Liveness) -> (action: MonitorAction)
        ensures
            action == old(self).monitor_action(liveness),
            *final(self) == old(self).monitored(liveness),
    {
        match self.phase {
            MonitorPhase::Watching => {
                if self.stop_pending {
                    self.phase = MonitorPhase::Stopped;
                    self.stop_pending = false;
                    MonitorAction::KillAndReap
                } else {
                    match liveness {
                        Liveness::Running => MonitorAction::KeepWatching,
                        Liveness::Exited { success } => {
                            self.phase = MonitorPhase::Exited;
                            MonitorAction::ReportExit { success }
                        },
                        Liveness::CheckFailed => {
                            self.phase = MonitorPhase::Exited;
                            MonitorAction::ReportCheckFailure
                        },
                    }
                }
            },
            _ => MonitorAction::Nothing,
        }
    }
}

impl ProcessHandleExt for DriverProcessHandle {
    type Rest = ();

    open spec fn process(&self) -> Option<DriverProcessHandle> {
        Some(*self)
    }

    open spec fn apart_from_process(&self) -> () {
        ()
    }


    fn abort_handle(&mut self) {
        let phase = self.phase;
        match phase {
            MonitorPhase::Watching => {
                self.phase = MonitorPhase::Aborted;
                assert(self.process() == Some(*self));
                assert(old(self).process() == Some(*old(self)));
            },
            _ => {},
        }
    }

    fn send_stop_signal(&mut self) -> (signal: StopSignal) {
        match self.phase {
            MonitorPhase::Watching => {
                if self.stop_pending {
                    StopSignal::AlreadyPending
                } else {
                    self.stop_pending = true;
                    StopSignal::Delivered
                }
            },
            _ => StopSignal::MonitorEnded,
        }
    }
}

/// The driver section of the configuration, and the handle of the driver
/// process once one was spawned.
#[derive(Debug, Clone)]
pub struct DriverConfig {
    pub driver_type: DriverType,
    pub driver_path: PathBuf,
    /// The port the driver listens on; 4444 where none is set.
    pub driver_port: Option<u16>,
    pub driver_extra_args: Option<Vec<String>>,
    pub background_driver_check_delay_secs: Option<u64>,
    pub driver_process: Option<DriverProcessHandle>,
}

pub struct DriverConfigView {
    pub driver_type: DriverType,
    pub driver_path: PathBuf,
    pub driver_port: Option<u16>,
    pub driver_extra_args: Option<Seq<Seq<char>>>,
    pub background_driver_check_delay_secs: Option<u64>,
    pub driver_process: Option<DriverProcessHandle>,
}

impl View for DriverConfig {
    type V = DriverConfigView;

    open spec fn view(&self) -> DriverConfigView {
        DriverConfigView {
            driver_type: self.driver_type,
            driver_path: self.driver_path,
            driver_port: self.driver_port,
            driver_extra_args: match self.driver_extra_args {
                Some(args) => Some(views(args@)),
                None => None,
            },
            background_driver_check_delay_secs: self.background_driver_check_delay_secs,
            driver_process: self.driver_process,
        }
    }
}

impl DriverConfigView {
    /// The port of the driver: the one that is set, or 4444.
    pub open spec fn port(self) -> u16 {
        match self.driver_port {
            Some(port) => port,
            None => 4444,
        }
    }

    /// The seconds between two liveness checks: the number that is set,
    /// or 5.
    pub open spec fn check_interval_secs(self) -> u64 {
        match self.background_driver_check_delay_secs {
            Some(secs) => secs,
            None => 5,
        }
    }

    /// The arguments of the driver process: the extra ones in their
    /// order, then the port.
    pub open spec fn spawn_args(self) -> Seq<Seq<char>> {
        let extra = match self.driver_extra_args {
            Some(args) => args,
            None => Seq::empty(),
        };
        extra.push("--port="@ + decimal(self.port() as nat))
    }

    /// The address whose binding tells whether the port is taken.
    pub open spec fn probe_address(self) -> Seq<char> {
        "0.0.0.0:"@ + decimal(self.port() as nat)
    }

    /// The address at which the driver answers.
    pub open spec fn endpoint(self) -> Seq<char> {
        "http://localhost:"@ + decimal(self.port() as nat)
    }

    /// The same section with the handle `handle`.
    pub open spec fn with_process(self, handle: Option<DriverProcessHandle>) -> DriverConfigView {
        DriverConfigView {
            driver_type: self.driver_type,
            driver_path: self.driver_path,
            driver_port: self.driver_port,
            driver_extra_args: self.driver_extra_args,
            background_driver_check_delay_secs: self.background_driver_check_delay_secs,
            driver_process: handle,
        }
    }
}

impl DriverConfig {
    /// The section for the driver `driver_type` whose executable is at
    /// `driver_path`: the default port, no extra arguments, a liveness
    /// check every second, no process yet.
    pub fn new(driver_type: DriverType, driver_path: PathBuf) -> (config: DriverConfig)
        ensures
            config@ == (DriverConfigView {
                driver_type,
                driver_path,
                driver_port: None,
                driver_extra_args: None,
                background_driver_check_delay_secs: Some(1),
                driver_process: None,
            }),
    {
        DriverConfig {
            driver_type,
            driver_path,
            driver_port: None,
            driver_extra_args: None,
            background_driver_check_delay_secs: Some(1),
            driver_process: None,
        }
    }

    /// The port of the driver.
    pub fn port(&self) -> (port: u16)
        ensures
            port == self@.port(),
    {
        match self.driver_port {
            Some(port) => port,
            None => crate::constants::DEFAULT_DRIVER_PORT,
        }
    }

    /// The seconds between two liveness checks.
    pub fn check_interval_secs(&self) -> (secs: u64)
        ensures
            secs == self@.check_interval_secs(),
    {
        match self.background_driver_check_delay_secs {
            Some(secs) => secs,
            None => crate::constants::DEFAULT_CHECK_INTERVAL_SECS,
        }
    }

    /// The arguments of the driver process.
    pub fn spawn_args(&self) -> (args: Vec<String>)
        ensures
            views(args@) == self@.spawn_args(),
    {
        let mut args: Vec<String> = Vec::new();
        match &self.driver_extra_args {
            Some(extra) => {
                let mut i: usize = 0;
                while i < extra.len()
                    invariant
                        i <= extra.len(),
                        views(args@) == views(extra@).take(i as int),
                    decreases extra.len() - i,
                {
                    let ghost before = args@;
                    let arg = extra[i].clone();
                    args.push(arg);
                    proof {
                        crate::text::views_of_push(before, arg);
                    }
                    assert(views(args@) =~= views(extra@).take(i + 1));
                    i += 1;
                }
                assert(views(extra@).take(extra.len() as int) =~= views(extra@));
            },
            None => {
                assert(views(args@) =~= Seq::<Seq<char>>::empty());
            },
        }
        let mut port_arg = String::from_str("--port=");
        crate::text::push_decimal(&mut port_arg, self.port() as u64);
        let ghost before = args@;
        args.push(port_arg);
        proof {
            crate::text::views_of_push(before, port_arg);
        }
        args
    }

    /// The address whose binding tells whether the port is taken.
    pub fn probe_address(&self) -> (address: String)
        ensures
            address@ == self@.probe_address(),
    {
        let mut address = String::from_str(crate::constants::LOCAL_HOST_ADDR_STR);
        address.append(":");
        crate::text::push_decimal(&mut address, self.port() as u64);
        proof {
            reveal_strlit("0.0.0.0");
            reveal_strlit(":");
            reveal_strlit("0.0.0.0:");
            assert("0.0.0.0"@ + ":"@ =~= "0.0.0.0:"@);
        }
        address
    }

    /// The address at which the driver answers.
    pub fn endpoint(&self) -> (url: String)
        ensures
            url@ == self@.endpoint(),
    {
        let mut url = String::from_str("http://localhost:");
        crate::text::push_decimal(&mut url, self.port() as u64);
        url
    }
}

impl ProcessHandleExt for DriverConfig {
    type Rest = DriverConfig;

    open spec fn process(&self) -> Option<DriverProcessHandle> {
        self.driver_process
    }

    open spec fn apart_from_process(&self) -> DriverConfig {
        DriverConfig { driver_process: None, ..*self }
    }


    fn abort_handle(&mut self) {
        match self.driver_process {
            Some(mut handle) => {
                handle.abort_handle();
                self.driver_process = Some(handle);
            },
            None => {},
        }
    }

    fn send_stop_signal(&mut self) -> (signal: StopSignal) {
        match self.driver_process {
            Some(mut handle) => {
                let signal = handle.send_stop_signal();
                self.driver_process = Some(handle);
                signal
            },
            None => StopSignal::NoProcess,
        }
    }
}

/// How far the start of a session has come.
#[derive(Debug, Clone, Copy, PartialEq, Eq, Structural)]
pub enum StartStage {
    /// Nothing was done yet.
    Idle,
    /// The port is being probed.
    Probing,
    /// The driver process is being spawned.
    Spawning,
    /// The session is being connected: to a driver that ran already
    /// (`attached`), or to the one that was spawned.
    Connecting { attached: bool },
    /// The session is live.
    Live { attached: bool },
    /// The start has failed.
    Failed,
}

/// What the caller reports to the start of a session.
#[derive(Debug, Clone, PartialEq, Eq)]
pub enum StartEvent {
    /// The start is asked for.
    Begin,
    /// The probe was made: `occupied` says that the port could not be
    /// bound, so that something listens on it already.
    Probed { occupied: bool },
    /// The driver process was spawned and its monitor runs.
    Spawned,
    /// The driver process could not be spawned.
    SpawnFailed { cause: String },
    /// The session is connected.
    Connected,
    /// The session could not be connected.
    ConnectFailed { cause: String },
}

pub enum StartEventView {
    Begin,
    Probed { occupied: bool },
    Spawned,
    SpawnFailed { cause: Seq<char> },
    Connected,
    ConnectFailed { cause: Seq<char> },
}

impl View for StartEvent {
    type V = StartEventView;

    open spec fn view(&self) -> StartEventView {
        match self {
            StartEvent::Begin => StartEventView::Begin,
            StartEvent::Probed { occupied } => StartEventView::Probed { occupied: *occupied },
            StartEvent::Spawned => StartEventView::Spawned,
            StartEvent::SpawnFailed { cause } => StartEventView::SpawnFailed { cause: cause@ },
            StartEvent::Connected => StartEventView::Connected,
            StartEvent::ConnectFailed { cause } => StartEventView::ConnectFailed { cause: cause@ },
        }
    }
}

/// What the caller is to do next for the start of a session.
#[derive(Debug, Clone, PartialEq, Eq)]
pub enum StartAction {
    /// Try to bind `address` and report whether that failed.
    Probe { address: String },
    /// Spawn the executable `program` with `args` and watch it every
    /// `check_interval_secs` seconds.
    Spawn { program: PathBuf, args: Vec<String>, check_interval_secs: u64 },
    /// Connect a session to the driver at `url`.
    Connect { url: String },
    /// Nothing: the session is live.
    Done,
    /// Nothing: the start has failed with this error.
    Fail(Error),
}

pub enum StartActionView {
    Probe { address: Seq<char> },
    Spawn { program: PathBuf, args: Seq<Seq<char>>, check_interval_secs: u64 },
    Connect { url: Seq<char> },
    Done,
    Fail(ErrorView),
}

impl View for StartAction {
    type V = StartActionView;

    open spec fn view(&self) -> StartActionView {
        match self {
            StartAction::Probe { address } => StartActionView::Probe { address: address@ },
            StartAction::Spawn { program, args, check_interval_secs } => StartActionView::Spawn {
                program: *program,
                args: views(args@),
                check_interval_secs: *check_interval_secs,
            },
            StartAction::Connect { url } => StartActionView::Connect { url: url@ },
            StartAction::Done => StartActionView::Done,
            StartAction::Fail(error) => StartActionView::Fail(error@),
        }
    }
}

/// The text of the error for an event that does not fit the stage.
pub open spec fn misplaced_event_text() -> Seq<char> {
    "the event does not fit the stage of the start"@
}

/// The error of a session that could not be connected, which tells a
/// driver that ran already from one that was spawned.
pub open spec fn connect_error(attached: bool, port: u16, cause: Seq<char>) -> ErrorView {
    let heading = if attached {
        "Failed to connect to existing driver at port "@
    } else {
        "Failed to connect to driver at port "@
    };
    ErrorView::Generic(heading + decimal(port as nat) + ": "@ + cause)
}

/// The action that spawns the driver of `driver`: its executable, with
/// its arguments, watched at its interval.
pub open spec fn spawn_action(driver: DriverConfigView) -> StartActionView {
    StartActionView::Spawn {
        program: driver.driver_path,
        args: driver.spawn_args(),
        check_interval_secs: driver.check_interval_secs(),
    }
}

/// The next stage of the start of a session, and what the caller is to do.
///
/// With a port set, the port is probed first; where something listens on
/// it, the session is connected to that driver and nothing is spawned.
/// With no port set, or a port that is free, the driver is spawned and
/// then connected to. A spawn that fails ends the start. A connection
/// that fails ends it with an error that says which of the two drivers
/// was not reached.
pub open spec fn start_step(driver: DriverConfigView, stage: StartStage, event: StartEventView) -> (
    StartStage,
    StartActionView,
) {
    let misplaced = (
        StartStage::Failed,
        StartActionView::Fail(ErrorView::StateMachineError(misplaced_event_text())),
    );
    match stage {
        StartStage::Idle => match event {
            StartEventView::Begin => if driver.driver_port is Some {
                (StartStage::Probing, StartActionView::Probe { address: driver.probe_address() })
            } else {
                (StartStage::Spawning, spawn_action(driver))
            },
            _ => misplaced,
        },
        StartStage::Probing => match event {
            StartEventView::Probed { occupied } => if occupied {
                (
                    StartStage::Connecting { attached: true },
                    StartActionView::Connect { url: driver.endpoint() },
                )
            } else {
                (StartStage::Spawning, spawn_action(driver))
            },
            _ => misplaced,
        },
        StartStage::Spawning => match event {
            StartEventView::Spawned => (
                StartStage::Connecting { attached: false },
                StartActionView::Connect { url: driver.endpoint() },
            ),
            StartEventView::SpawnFailed { cause } => (
                StartStage::Failed,
                StartActionView::Fail(
                    ErrorView::DriverStartError {
                        driver: driver.driver_type.executable_text(),
                        source: cause,
                    },
                ),
            ),
            _ => misplaced,
        },
        StartStage::Connecting { attached } => match event {
            StartEventView::Connected => (StartStage::Live { attached }, StartActionView::Done),
            StartEventView::ConnectFailed { cause } => (
                StartStage::Failed,
                StartActionView::Fail(connect_error(attached, driver.port(), cause)),
            ),
            _ => misplaced,
        },
        StartStage::Live { .. } | StartStage::Failed => misplaced,
    }
}

/// The handle of the driver process after a step of the start: a fresh
/// one once the process was spawned, otherwise the one before.
pub open spec fn process_after(
    before: Option<DriverProcessHandle>,
    stage: StartStage,
    event: StartEventView,
) -> Option<DriverProcessHandle> {
    if stage is Spawning && event is Spawned {
        Some(DriverProcessHandle::fresh())
    } else {
        before
    }
}

fn misplaced_event() -> (step: (StartStage, StartAction))
    ensures
        step.0 == StartStage::Failed,
        step.1@ == StartActionView::Fail(ErrorView::StateMachineError(misplaced_event_text())),
{
    let text = String::from_str("the event does not fit the stage of the start");
    (StartStage::Failed, StartAction::Fail(Error::StateMachineError(text)))
}

fn spawn_step(driver: &DriverConfig) -> (step: (StartStage, StartAction))
    ensures
        step.0 == StartStage::Spawning,
        step.1@ == spawn_action(driver@),
{
    (
        StartStage::Spawning,
        StartAction::Spawn {
            program: driver.driver_path.clone(),
            args: driver.spawn_args(),
            check_interval_secs: driver.check_interval_secs(),
        },
    )
}

fn connect_failure(attached: bool, port: u16, cause: &str) -> (error: Error)
    ensures
        error@ == connect_error(attached, port, cause@),
{
    let mut text = if attached {
        String::from_str("Failed to connect to existing driver at port ")
    } else {
        String::from_str("Failed to connect to driver at port ")
    };
    crate::text::push_decimal(&mut text, port as u64);
    text.append(": ");
    text.append(cause);
    Error::Generic(text)
}

/// One step of the start of a session: takes what the caller reports at
/// the stage `stage` and gives the next stage and what to do. Once the
/// process is spawned, `driver` holds its handle.
pub fn start_driver(driver: &mut DriverConfig, stage: StartStage, event: StartEvent) -> (step: (
    StartStage,
    StartAction,
))
    ensures
        (step.0, step.1@) == start_step(old(driver)@, stage, event@),
        final(driver)@ == old(driver)@.with_process(
            process_after(old(driver)@.driver_process, stage, event@),
        ),
{
    match stage {
        StartStage::Idle => match event {
            StartEvent::Begin => {
                if driver.driver_port.is_some() {
                    (StartStage::Probing, StartAction::Probe { address: driver.probe_address() })
                } else {
                    spawn_step(driver)
                }
            },
            _ => misplaced_event(),
        },
        StartStage::Probing => match event {
            StartEvent::Probed { occupied } => {
                if occupied {
                    (
                        StartStage::Connecting { attached: true },
                        StartAction::Connect { url: driver.endpoint() },
                    )
                } else {
                    spawn_step(driver)
                }
            },
            _ => misplaced_event(),
        },
        StartStage::Spawning => match event {
            StartEvent::Spawned => {
                driver.driver_process = Some(DriverProcessHandle::new());
                (
                    StartStage::Connecting { attached: false },
                    StartAction::Connect { url: driver.endpoint() },
                )
            },
            StartEvent::SpawnFailed { cause } => (
                StartStage::Failed,
                StartAction::Fail(
                    Error::DriverStartError {
                        driver: String::from_str(driver.driver_type.executable_name()),
                        source: cause,
                    },
                ),
            ),
            _ => misplaced_event(),
        },
        StartStage::Connecting { attached } => match event {
            StartEvent::Connected => (StartStage::Live { attached }, StartAction::Done),
            StartEvent::ConnectFailed { cause } => (
                StartStage::Failed,
                StartAction::Fail(connect_failure(attached, driver.port(), cause.as_str())),
            ),
            _ => misplaced_event(),
        },
        StartStage::Live { .. } | StartStage::Failed => misplaced_event(),
    }
}

/// What a start has come to after a number of events.
pub struct StartTrace {
    pub stage: StartStage,
    /// What the caller was told to do, event by event.
    pub actions: Seq<StartActionView>,
    /// The handle of the driver process.
    pub process: Option<DriverProcessHandle>,
}

/// The start of a session for `driver` after the caller reported `events`,
/// in order, beginning at the stage `Idle`.
pub open spec fn start_run(driver: DriverConfigView, events: Seq<StartEventView>) -> StartTrace
    decreases events.len(),
{
    if events.len() == 0 {
        StartTrace {
            stage: StartStage::Idle,
            actions: Seq::empty(),
            process: driver.driver_process,
        }
    } else {
        let before = start_run(driver, events.drop_last());
        let step = start_step(driver.with_process(before.process), before.stage, events.last());
        StartTrace {
            stage: step.0,
            actions: before.actions.push(step.1),
            process: process_after(before.process, before.stage, events.last()),
        }
    }
}

/// How many of `actions` tell the caller to spawn the driver.
pub open spec fn spawn_count(actions: Seq<StartActionView>) -> nat
    decreases actions.len(),
{
    if actions.len() == 0 {
        0
    } else {
        spawn_count(actions.drop_last()) + if actions.last() is Spawn {
            1nat
        } else {
            0nat
        }
    }
}

/// Whether `events` begin with the request to start and the report of a
/// probe that found the port as `occupied` says.
pub open spec fn begins_with_probe(events: Seq<StartEventView>, occupied: bool) -> bool {
    &&& events.len() >= 2
    &&& events[0] == StartEventView::Begin
    &&& events[1] == StartEventView::Probed { occupied }
}

proof fn start_run_prefix(driver: DriverConfigView, events: Seq<StartEventView>, n: int)
    requires
        0 <= n <= events.len(),
    ensures
        start_run(driver, events.take(n)).actions == start_run(driver, events).actions.take(n),
        start_run(driver, events).actions.len() == events.len(),
    decreases events.len(),
{
    if events.len() == 0 {
        assert(events.take(n) =~= events);
        assert(start_run(driver, events).actions.take(n) =~= start_run(driver, events).actions);
    } else if n == events.len() {
        start_run_prefix(driver, events.drop_last(), n - 1);
        assert(events.take(n) =~= events);
        assert(start_run(driver, events).actions.take(n) =~= start_run(driver, events).actions);
    } else {
        start_run_prefix(driver, events.drop_last(), n);
        assert(events.drop_last().take(n) =~= events.take(n));
        assert(start_run(driver, events).actions.take(n) =~= start_run(
            driver,
            events.drop_last(),
        ).actions.take(n));
    }
}

/// On a port that something listens on already, no child is spawned and
/// the session is connected to the driver that is there: whatever the
/// caller reports after the probe, none of the actions is a spawn, the
/// action that answers the probe is the connection to the port, and no
/// process handle is made.
pub proof fn occupied_port_is_attached_to(driver: DriverConfigView, events: Seq<StartEventView>)
    requires
        driver.driver_port is Some,
        begins_with_probe(events, true),
    ensures
        spawn_count(start_run(driver, events).actions) == 0,
        start_run(driver, events).actions[1] == (StartActionView::Connect {
            url: driver.endpoint(),
        }),
        start_run(driver, events).process == driver.driver_process,
        start_run(driver, events).stage matches StartStage::Connecting { attached: true }
            || start_run(driver, events).stage matches StartStage::Live { attached: true }
            || start_run(driver, events).stage is Failed,
    decreases events.len(),
{
    reveal_with_fuel(start_run, 2);
    reveal_with_fuel(spawn_count, 2);
    let first = start_run(driver, events.take(1));
    assert(events.take(1).drop_last() =~= Seq::<StartEventView>::empty());
    assert(first.stage is Probing);
    assert(first.actions.drop_last() =~= Seq::<StartActionView>::empty());
    assert(spawn_count(first.actions) == 0);
    if events.len() == 2 {
        assert(events.drop_last() =~= events.take(1));
        assert(start_run(driver, events).actions.drop_last() =~= first.actions);
    } else {
        let shorter = events.drop_last();
        occupied_port_is_attached_to(driver, shorter);
        let before = start_run(driver, shorter);
        assert(start_run(driver, events).actions.drop_last() =~= before.actions);
        start_run_prefix(driver, shorter, 2);
        assert(start_run(driver, events).actions[1] == before.actions[1]);
    }
}

/// On a free port exactly one child is spawned: with no port set, or a
/// port that the probe found free, exactly one of the actions is a spawn,
/// whatever the caller reports afterwards.
pub proof fn free_port_spawns_one_child(driver: DriverConfigView, events: Seq<StartEventView>)
    requires
        if driver.driver_port is Some {
            begins_with_probe(events, false)
        } else {
            events.len() >= 1 && events[0] == StartEventView::Begin
        },
    ensures
        spawn_count(start_run(driver, events).actions) == 1,
        start_run(driver, events).stage is Spawning
            || start_run(driver, events).stage matches StartStage::Connecting { attached: false }
            || start_run(driver, events).stage matches StartStage::Live { attached: false }
            || start_run(driver, events).stage is Failed,
    decreases events.len(),
{
    reveal_with_fuel(start_run, 2);
    reveal_with_fuel(spawn_count, 2);
    let first = start_run(driver, events.take(1));
    assert(events.take(1).drop_last() =~= Seq::<StartEventView>::empty());
    assert(first.actions.drop_last() =~= Seq::<StartActionView>::empty());
    let least: int = if driver.driver_port is Some {
        2
    } else {
        1
    };
    if events.len() == least {
        if least == 1 {
            assert(events =~= events.take(1));
            assert(first.actions.last() is Spawn);
        } else {
            assert(events.drop_last() =~= events.take(1));
            assert(first.stage is Probing);
            assert(spawn_count(first.actions) == 0);
            assert(start_run(driver, events).actions.drop_last() =~= first.actions);
            assert(start_run(driver, events).actions.last() is Spawn);
        }
    } else {
        let shorter = events.drop_last();
        free_port_spawns_one_child(driver, shorter);
        let before = start_run(driver, shorter);
        assert(start_run(driver, events).actions.drop_last() =~= before.actions);
        assert(!(start_run(driver, events).actions.last() is Spawn));
    }
}

/// The child that was spawned is watched from then on: once the caller
/// reports the spawn, the driver section holds a fresh handle, whose
/// monitor watches one live child.
pub proof fn spawned_child_is_monitored(driver: DriverConfigView)
    ensures
        process_after(driver.driver_process, StartStage::Spawning, StartEventView::Spawned)
            == Some(DriverProcessHandle::fresh()),
        DriverProcessHandle::fresh().is_watching(),
        DriverProcessHandle::fresh().live_children() == 1,
{
}

/// The monitor watches until stop or exit: with no stop signal sent, it
/// still watches after a number of checks exactly when every one of them
/// found the child running.
pub proof fn monitor_watches_while_child_runs(checks: Seq<Liveness>)
    ensures
        DriverProcessHandle::fresh().monitored_through(checks).is_watching() <==> forall|i: int|
            0 <= i < checks.len() ==> checks[i] is Running,
        DriverProcessHandle::fresh().monitored_through(checks).is_watching()
            ==> DriverProcessHandle::fresh().monitored_through(checks)
            == DriverProcessHandle::fresh(),
    decreases checks.len(),
{
    if checks.len() > 0 {
        monitor_watches_while_child_runs(checks.drop_last());
        let before = DriverProcessHandle::fresh().monitored_through(checks.drop_last());
        if before.is_watching() {
            assert forall|i: int| 0 <= i < checks.len() - 1 implies checks[i] is Running by {
                assert(checks.drop_last()[i] is Running);
            }
        } else {
            let i = choose|i: int| 0 <= i < checks.len() - 1 && !(checks.drop_last()[i] is Running);
            assert(!(checks[i] is Running));
        }
    }
}

/// A stop signal ends the monitor at its next wake-up, whatever the check
/// finds then: the child is terminated and waited for, and none is alive
/// afterwards.
pub proof fn stop_wins_at_next_wake_up(handle: DriverProcessHandle, liveness: Liveness)
    requires
        handle.is_watching(),
    ensures
        handle.stop_requested().monitor_action(liveness) == MonitorAction::KillAndReap,
        handle.stop_requested().monitored(liveness).phase == MonitorPhase::Stopped,
        handle.stop_requested().monitored(liveness).live_children() == 0,
{
}

/// A stop signal sent after the monitor has ended is no error and changes
/// nothing, and so is a second one sent while the first is pending.
pub proof fn late_stop_signal_is_harmless(handle: DriverProcessHandle)
    ensures
        !handle.is_watching() ==> handle.stop_requested() == handle && handle.stop_signal()
            == StopSignal::MonitorEnded,
        handle.stop_requested().stop_requested() == handle.stop_requested(),
        handle.is_watching() ==> handle.stop_requested().stop_signal()
            == StopSignal::AlreadyPending,
{
}

/// A handle never has more than one live child, and none once its monitor
/// has ended; a monitor that has ended stays ended.
pub proof fn at_most_one_live_child(handle: DriverProcessHandle, liveness: Liveness)
    ensures
        handle.live_children() <= 1,
        handle.monitored(liveness).live_children() <= handle.live_children(),
        handle.aborted().live_children() == 0,
        handle.stop_requested().live_children() == handle.live_children(),
{
}

} // verus!
