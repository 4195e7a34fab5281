//! Service state and the handling of control-socket requests.

use vstd::prelude::*;
use crate::text::str_to_string;

verus! {

/// Service state.
#[derive(Clone, Copy, PartialEq, Eq, Structural, Debug)]
pub enum ServiceState {
    /// Service is starting up.
    Starting,
    /// Service is running.
    Running,
    /// Service is stopping.
    Stopping,
    /// Service is stopped.
    Stopped,
}

/// IPC request from client to daemon.
#[derive(Debug)]
pub enum IpcRequest {
    /// Get daemon status.
    Status,
    /// Stop the daemon.
    Stop,
    /// Reload configuration.
    Reload,
    /// Run a diagnostic now.
    RunDiagnostic {
        /// Type of diagnostic to run.
        diagnostic_type: String,
    },
    /// Get recent results.
    GetResults {
        /// Maximum number of results to return.
        limit: usize,
    },
    /// Get current monitoring data.
    GetMonitoringData,
    /// Pause monitoring.
    PauseMonitoring,
    /// Resume monitoring.
    ResumeMonitoring,
    /// Ping to check if daemon is alive.
    Ping,
}

/// IPC response from daemon to client.
#[derive(Debug)]
pub enum IpcResponse {
    /// Success with optional message.
    Success {
        /// Optional message.
        message: Option<String>,
    },
    /// Error response.
    Error {
        /// Error message.
        message: String,
    },
    /// Status response.
    Status {
        /// Current state.
        state: ServiceState,
        /// Uptime in seconds.
        uptime_secs: u64,
        /// Number of completed diagnostics.
        diagnostics_run: u64,
        /// Monitoring status.
        monitoring_active: bool,
    },
    /// Diagnostic results.
    Results {
        /// Serialized results.
        results: Vec<String>,
    },
    /// Monitoring data.
    MonitoringData {
        /// Current monitoring data as JSON.
        data: String,
    },
    /// Pong response.
    Pong,
}

/// What the daemon does with a request: answer it, or first serialize the
/// current monitoring data (then `monitoring_reply` gives the answer).
#[derive(Debug)]
pub enum Reply {
    /// Send this response.
    Respond(IpcResponse),
    /// Serialize the monitoring data, then answer with `monitoring_reply`.
    SerializeMonitoringData,
}

/// The daemon's request-relevant state.
#[derive(Debug)]
pub struct DaemonCore {
    /// Service state.
    pub state: ServiceState,
    /// Start time (seconds since the Unix epoch), once started.
    pub started_at: Option<i64>,
    /// Diagnostics started on request.
    pub diagnostics_run: u64,
    /// The monitor, when there is one: whether it is running.
    pub monitor_running: Option<bool>,
}

/// The response is a success carrying exactly this message.
pub open spec fn ok_with(r: IpcResponse, m: Seq<char>) -> bool {
    r matches IpcResponse::Success { message: Some(t) } && t@ == m
}

/// The response is an error carrying exactly this message.
pub open spec fn error_with(r: IpcResponse, m: Seq<char>) -> bool {
    r matches IpcResponse::Error { message: t } && t@ == m
}

/// Seconds since the start, as the status reports them (the difference
/// truncated to 64 bits), or zero before the start.
pub open spec fn uptime(started_at: Option<i64>, now: i64) -> u64 {
    match started_at {
        Some(t) => (now - t) as u64,
        None => 0,
    }
}

/// The effect of a request on the daemon's state.
pub open spec fn after_request(c: DaemonCore, req: IpcRequest) -> DaemonCore {
    match req {
        IpcRequest::Stop => DaemonCore { state: ServiceState::Stopping, ..c },
        IpcRequest::RunDiagnostic { .. } => DaemonCore { diagnostics_run: (c.diagnostics_run + 1) as u64, ..c },
        IpcRequest::PauseMonitoring => DaemonCore {
            monitor_running: if c.monitor_running is Some { Some(false) } else { None }, ..c },
        IpcRequest::ResumeMonitoring => DaemonCore {
            monitor_running: if c.monitor_running is Some { Some(true) } else { None }, ..c },
        _ => c,
    }
}

/// The reply to a request in a given state.
pub open spec fn reply_to(c: DaemonCore, req: IpcRequest, now: i64, r: Reply) -> bool {
    match req {
        IpcRequest::Ping => r matches Reply::Respond(IpcResponse::Pong),
        IpcRequest::Status => r matches Reply::Respond(IpcResponse::Status { state, uptime_secs, diagnostics_run, monitoring_active })
            && state == c.state && uptime_secs == uptime(c.started_at, now)
            && diagnostics_run == c.diagnostics_run
            && monitoring_active == (c.monitor_running == Some(true)),
        IpcRequest::Stop => r matches Reply::Respond(resp) && ok_with(resp, "Daemon stopping"@),
        IpcRequest::Reload => r matches Reply::Respond(resp) && ok_with(resp, "Configuration reloaded"@),
        IpcRequest::RunDiagnostic { .. } => r matches Reply::Respond(resp) && ok_with(resp, "Diagnostic started"@),
        IpcRequest::GetResults { .. } => r matches Reply::Respond(IpcResponse::Results { results }) && results@.len() == 0,
        IpcRequest::GetMonitoringData => if c.monitor_running is Some {
            r is SerializeMonitoringData
        } else {
            r matches Reply::Respond(resp) && error_with(resp, "Monitor not initialized"@)
        },
        IpcRequest::PauseMonitoring => r matches Reply::Respond(resp) && if c.monitor_running is Some {
            ok_with(resp, "Monitoring paused"@)
        } else {
            error_with(resp, "Monitor not initialized"@)
        },
        IpcRequest::ResumeMonitoring => r matches Reply::Respond(resp) && if c.monitor_running is Some {
            ok_with(resp, "Monitoring resumed"@)
        } else {
            error_with(resp, "Monitor not initialized"@)
        },
    }
}

fn ok_message(m: &str) -> (r: IpcResponse)
    ensures
        ok_with(r, m@),
{
    IpcResponse::Success { message: Some(str_to_string(m)) }
}

fn no_monitor() -> (r: IpcResponse)
    ensures
        error_with(r, "Monitor not initialized"@),
{
    IpcResponse::Error { message: str_to_string("Monitor not initialized") }
}

impl DaemonCore {
    /// A daemon that has not started.
    pub fn new() -> (r: Self)
        ensures
            r.state == ServiceState::Stopped,
            r.started_at is None,
            r.diagnostics_run == 0,
            r.monitor_running is None,
    {
        DaemonCore { state: ServiceState::Stopped, started_at: None, diagnostics_run: 0, monitor_running: None }
    }

    /// Handles an IPC request at time `now` (seconds since the Unix epoch).
    pub fn handle_request(&mut self, request: IpcRequest, now: i64) -> (r: Reply)
        requires
            old(self).diagnostics_run < u64::MAX,
        ensures
            reply_to(*old(self), request, now, r),
            *final(self) == after_request(*old(self), request),
    {
        match request {
            IpcRequest::Ping => Reply::Respond(IpcResponse::Pong),
            IpcRequest::Status => {
                let uptime_secs: u64 = match self.started_at {
                    Some(t) => {
                        let d: i128 = (now as i128) - (t as i128);
                        d as u64
                    },
                    None => 0,
                };
                let monitoring_active = match self.monitor_running {
                    Some(running) => running,
                    None => false,
                };
                Reply::Respond(IpcResponse::Status {
                    state: self.state,
                    uptime_secs,
                    diagnostics_run: self.diagnostics_run,
                    monitoring_active,
                })
            },
            IpcRequest::Stop => {
                self.state = ServiceState::Stopping;
                Reply::Respond(ok_message("Daemon stopping"))
            },
            IpcRequest::Reload => Reply::Respond(ok_message("Configuration reloaded")),
            IpcRequest::RunDiagnostic { diagnostic_type: _ } => {
                self.diagnostics_run = self.diagnostics_run + 1;
                Reply::Respond(ok_message("Diagnostic started"))
            },
            IpcRequest::GetResults { limit: _ } => Reply::Respond(IpcResponse::Results { results: Vec::new() }),
            IpcRequest::GetMonitoringData => {
                if self.monitor_running.is_some() {
                    Reply::SerializeMonitoringData
                } else {
                    Reply::Respond(no_monitor())
                }
            },
            IpcRequest::PauseMonitoring => {
                if self.monitor_running.is_some() {
                    self.monitor_running = Some(false);
                    Reply::Respond(ok_message("Monitoring paused"))
                } else {
                    Reply::Respond(no_monitor())
                }
            },
            IpcRequest::ResumeMonitoring => {
                if self.monitor_running.is_some() {
                    self.monitor_running = Some(true);
                    Reply::Respond(ok_message("Monitoring resumed"))
                } else {
                    Reply::Respond(no_monitor())
                }
            },
        }
    }

    /// The main loop serves requests while the service is running.
    pub fn keeps_serving(&self) -> (r: bool)
        ensures
            r == (self.state == ServiceState::Running),
    {
        self.state == ServiceState::Running
    }
}

/// The answer to a monitoring-data request once serialization was tried:
/// the JSON text, or an error quoting the serializer's message.
pub fn monitoring_reply(serialized: Result<String, String>) -> (r: IpcResponse)
    ensures
        serialized matches Ok(j) ==> (r matches IpcResponse::MonitoringData { data } && data@ == j@),
        serialized matches Err(e) ==> error_with(r, "Failed to serialize monitoring data: "@ + e@),
{
    match serialized {
        Ok(json) => IpcResponse::MonitoringData { data: json },
        Err(e) => {
            let mut m = str_to_string("Failed to serialize monitoring data: ");
            m.append(e.as_str());
            IpcResponse::Error { message: m }
        },
    }
}

/// After answering, a connection is closed when the answer was a success and
/// the daemon is stopping.
pub fn connection_continues(response: &IpcResponse, state: ServiceState) -> (r: bool)
    ensures
        r == !(response is Success && state == ServiceState::Stopping),
{
    let is_ok = match response {
        IpcResponse::Success { .. } => true,
        _ => false,
    };
    !(is_ok && state == ServiceState::Stopping)
}

/// A stop request is acknowledged and leaves the daemon stopping, so the
/// connection that carried it is closed and the main loop ends.
pub proof fn stop_ends_service(c: DaemonCore, now: i64, r: Reply)
    requires
        reply_to(c, IpcRequest::Stop, now, r),
    ensures
        after_request(c, IpcRequest::Stop).state == ServiceState::Stopping,
        r matches Reply::Respond(resp) && resp is Success,
{
}

/// Pausing the monitor, then asking for the status, reports monitoring as
/// inactive; resuming reports it active again (when there is a monitor).
pub proof fn pause_then_status(c: DaemonCore, now: i64, r: Reply)
    requires
        c.monitor_running is Some,
    ensures
        reply_to(after_request(c, IpcRequest::PauseMonitoring), IpcRequest::Status, now, r) ==>
            (r matches Reply::Respond(IpcResponse::Status { monitoring_active, .. }) && !monitoring_active),
        reply_to(after_request(c, IpcRequest::ResumeMonitoring), IpcRequest::Status, now, r) ==>
            (r matches Reply::Respond(IpcResponse::Status { monitoring_active, .. }) && monitoring_active),
{
}

/// Requests that only read leave the state as it was.
pub proof fn queries_change_nothing(c: DaemonCore)
    ensures
        after_request(c, IpcRequest::Ping) == c,
        after_request(c, IpcRequest::Status) == c,
        after_request(c, IpcRequest::GetMonitoringData) == c,
{
}

/// The state after serving the requests in turn.
pub open spec fn served(c: DaemonCore, reqs: Seq<IpcRequest>) -> DaemonCore
    decreases reqs.len(),
{
    if reqs.len() == 0 { c } else { after_request(served(c, reqs.drop_last()), reqs.last()) }
}

/// How many of the requests ask to run a diagnostic.
pub open spec fn diagnostic_requests(reqs: Seq<IpcRequest>) -> nat
    decreases reqs.len(),
{
    if reqs.len() == 0 {
        0
    } else {
        diagnostic_requests(reqs.drop_last()) + if reqs.last() is RunDiagnostic { 1nat } else { 0nat }
    }
}

/// Running a diagnostic shows in the next status: a status asked after a
/// run-diagnostic request reports one run more than a status asked before
/// it.
pub proof fn status_counts_a_new_run(c: DaemonCore, diagnostic_type: String, now: i64, before: Reply, after: Reply)
    requires
        c.diagnostics_run < u64::MAX,
        reply_to(c, IpcRequest::Status, now, before),
        reply_to(after_request(c, IpcRequest::RunDiagnostic { diagnostic_type }), IpcRequest::Status, now, after),
    ensures
        before matches Reply::Respond(IpcResponse::Status { diagnostics_run: n0, .. })
            && after matches Reply::Respond(IpcResponse::Status { diagnostics_run: n1, .. })
            && n1 == n0 + 1,
{
}

/// The runs a status reports are those the daemon had plus one for each
/// run-diagnostic request it has served since; no other request changes
/// the count.
pub proof fn status_counts_served_runs(c: DaemonCore, reqs: Seq<IpcRequest>, now: i64, r: Reply)
    requires
        c.diagnostics_run + reqs.len() <= u64::MAX,
        reply_to(served(c, reqs), IpcRequest::Status, now, r),
    ensures
        r matches Reply::Respond(IpcResponse::Status { diagnostics_run: n, .. })
            && n == c.diagnostics_run + diagnostic_requests(reqs),
{
    served_run_count(c, reqs);
}

/// Serving requests adds one run per run-diagnostic request.
proof fn served_run_count(c: DaemonCore, reqs: Seq<IpcRequest>)
    requires
        c.diagnostics_run + reqs.len() <= u64::MAX,
    ensures
        served(c, reqs).diagnostics_run == c.diagnostics_run + diagnostic_requests(reqs),
        diagnostic_requests(reqs) <= reqs.len(),
    decreases reqs.len(),
{
    if reqs.len() > 0 {
        served_run_count(c, reqs.drop_last());
    }
}

} // verus!
