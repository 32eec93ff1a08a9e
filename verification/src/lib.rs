//! Supervision and coordination for a remotely controlled browser session
//! that logs in to a job board and walks its listings.
//!
//! The library holds the decisions: how a driver process is started,
//! watched and stopped ([`config`]), which steps an action sequence is made
//! of and how it ends ([`pre_fsm`]), what the observer of a login does with
//! what it sees ([`pre_fsm::detect_login_failure`]), what each site
//! supplies ([`providers`], [`selectors`]), and how the bounded workflow
//! moves from state to state ([`states`]).
//!
//! Nothing here performs I/O. A caller carries out the requests that these
//! functions hand back and reports what happened.

pub mod config;
pub mod constants;
pub mod db;
pub mod error;
pub mod pre_fsm;
pub mod providers;
pub mod selectors;
pub mod state;
pub mod states;
pub mod text;
