//! The state of a run: its configuration and its session.

use vstd::prelude::*;

use crate::config::app_config::AppConfig;
use crate::config::driver::{DriverProcessHandle, StopSignal};
use crate::config::ProcessHandleExt;

verus! {

/// `fantoccini::Client`, the handle of a session. The state carries it; no
/// function here looks into it.
#[verifier::external_type_specification]
#[verifier::external_body]
pub struct ExClient(fantoccini::Client);

#[derive(Debug)]
pub struct State {
    pub config: AppConfig,
    pub client: fantoccini::Client,
}

impl State {
    pub fn new(config: AppConfig, client: fantoccini::Client) -> (state: State)
        ensures
            state.config == config,
            state.client == client,
    {
        State { config, client }
    }
}

impl ProcessHandleExt for State {
    type Rest = State;

    open spec fn process(&self) -> Option<DriverProcessHandle> {
        self.config.driver.driver_process
    }

    open spec fn apart_from_process(&self) -> State {
        State { config: self.config.apart_from_process(), ..*self }
    }


    fn abort_handle(&mut self) {
        self.config.abort_handle();
    }

    fn send_stop_signal(&mut self) -> (signal: StopSignal) {
        self.config.send_stop_signal()
    }
}

/// The handle of a driver process after it was torn down: asked to stop,
/// then cancelled.
pub open spec fn torn_down(process: Option<DriverProcessHandle>) -> Option<DriverProcessHandle> {
    match process {
        Some(handle) => Some(handle.stop_requested().aborted()),
        None => None,
    }
}

/// Tears the driver process of `state` down: asks it to stop, then cancels
/// its monitor. Says what the stop signal came to. Afterwards no child of
/// the handle is alive, whatever went before, and nothing else of the
/// state has changed.
pub fn shutdown_app<S: ProcessHandleExt>(state: &mut S) -> (signal: StopSignal)
    ensures
        final(state).process() == torn_down(old(state).process()),
        final(state).apart_from_process() == old(state).apart_from_process(),
        signal == match old(state).process() {
            Some(handle) => handle.stop_signal(),
            None => StopSignal::NoProcess,
        },
        final(state).process() matches Some(handle) ==> handle.live_children() == 0,
{
    let signal = state.send_stop_signal();
    state.abort_handle();
    signal
}

/// A teardown leaves no child alive, and a second teardown changes
/// nothing.
pub proof fn teardown_leaves_no_child(process: Option<DriverProcessHandle>)
    ensures
        torn_down(process) matches Some(handle) ==> handle.live_children() == 0,
        torn_down(torn_down(process)) == torn_down(process),
{
}

} // verus!
