//! The driver process lifecycle and the browser session configuration.
//!
//! Exactly one driver process is live per run: started before any session
//! opens, stopped after the last one closes; a termination failure is a
//! warning, never fatal. The shell spawns and kills the real process and
//! reports back; the decisions stand here.

use crate::digits::append_decimal;
use crate::digits::dec_digits;
use vstd::prelude::*;
use vstd::string::StringExecFns;

verus! {

/// The phases of the one driver process of a run.
#[derive(Clone, Copy, PartialEq, Eq, Structural, Debug)]
pub enum DriverPhase {
    NotStarted,
    Running,
    Stopped,
}

/// How stopping the driver went: a termination failure is a warning, never
/// a fatal error, since the run's accounts are already collected.
#[derive(Clone, Copy, PartialEq, Eq, Structural, Debug)]
pub enum StopReport {
    Terminated,
    TerminationWarning,
}

/// The manager of the driver process's lifecycle.
pub struct DriverLifecycle {
    pub phase: DriverPhase,
}

impl DriverLifecycle {
    /// A session may open only while the driver process is live.
    pub open spec fn may_open_session_spec(&self) -> bool {
        self.phase == DriverPhase::Running
    }

    /// Before the run: no driver process exists yet, and no session may
    /// open.
    pub fn new() -> (m: Self)
        ensures
            m.phase == DriverPhase::NotStarted,
            !m.may_open_session_spec(),
    {
        DriverLifecycle { phase: DriverPhase::NotStarted }
    }

    /// Records the successful spawn: a live process handle exists from here
    /// on, and sessions may open.
    pub fn mark_started(&mut self)
        requires
            old(self).phase == DriverPhase::NotStarted,
        ensures
            final(self).phase == DriverPhase::Running,
            final(self).may_open_session_spec(),
    {
        self.phase = DriverPhase::Running;
    }

    pub fn may_open_session(&self) -> (r: bool)
        ensures
            r == self.may_open_session_spec(),
    {
        self.phase == DriverPhase::Running
    }

    /// Records the termination request's result: the process is finished
    /// for the run either way, no further session may open, and a failed
    /// termination is reported as a warning only.
    pub fn mark_stopped(&mut self, kill_ok: bool) -> (rep: StopReport)
        requires
            old(self).phase == DriverPhase::Running,
        ensures
            final(self).phase == DriverPhase::Stopped,
            !final(self).may_open_session_spec(),
            rep == (if kill_ok {
                StopReport::Terminated
            } else {
                StopReport::TerminationWarning
            }),
    {
        self.phase = DriverPhase::Stopped;
        if kill_ok {
            StopReport::Terminated
        } else {
            StopReport::TerminationWarning
        }
    }
}

/// The pinned desktop user agent every session reports.
pub open spec fn user_agent_spec() -> Seq<char> {
    "Mozilla/5.0 (Windows NT 10.0; Win64; x64) AppleWebKit/537.36 (KHTML, like Gecko) Chrome/96.0.4664.110 Safari/537.36"@
}

/// The browser arguments of every session: the fixed window size, maximized,
/// the pinned user agent, and headless exactly when configured so.
pub fn chrome_args(headless: bool) -> (r: Vec<String>)
    ensures
        r@.len() == (if headless {
            4int
        } else {
            3int
        }),
        r@[0]@ == "--window-size=1920,1080"@,
        r@[1]@ == "--start-maximized"@,
        r@[2]@ == "--user-agent="@ + user_agent_spec(),
        headless ==> r@[3]@ == "--headless"@,
{
    let mut v: Vec<String> = Vec::new();
    v.push("--window-size=1920,1080".to_owned());
    v.push("--start-maximized".to_owned());
    let mut ua = "--user-agent=".to_owned();
    ua.append(
        "Mozilla/5.0 (Windows NT 10.0; Win64; x64) AppleWebKit/537.36 (KHTML, like Gecko) Chrome/96.0.4664.110 Safari/537.36",
    );
    v.push(ua);
    if headless {
        v.push("--headless".to_owned());
    }
    v
}

/// The arguments the driver process is spawned with: bound to localhost on
/// the configured port.
pub fn driver_args(port: u16) -> (r: Vec<String>)
    ensures
        r@.len() == 2,
        r@[0]@ == "--ip=localhost"@,
        r@[1]@ == "--port="@ + dec_digits(port as nat),
{
    let mut v: Vec<String> = Vec::new();
    v.push("--ip=localhost".to_owned());
    let mut p = "--port=".to_owned();
    append_decimal(&mut p, port as u64);
    v.push(p);
    v
}

/// The local URL a session connects to the driver process at.
pub fn driver_url(port: u16) -> (r: String)
    ensures
        r@ == "http://localhost:"@ + dec_digits(port as nat),
{
    let mut s = "http://localhost:".to_owned();
    append_decimal(&mut s, port as u64);
    s
}

} // verus!
