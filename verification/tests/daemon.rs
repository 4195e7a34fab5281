use netdiag::daemon::config::{
    default_config_path, default_db_path, default_enabled, default_interval, default_latency_threshold,
    default_log_file, default_log_level, default_max_connections, default_pid_file, default_retention_days,
    default_schedules, default_socket_path, default_targets, default_wifi_threshold, validate_schedules,
    DiagnosticType, GeneralConfig, IpcConfig, MonitorTarget, ScheduleConfig, StorageConfig, TargetOs,
};
use netdiag::daemon::error::DaemonError;
use netdiag::daemon::ipc::{answers_ping, frame_line, peer_closed};
use netdiag::daemon::monitor::{
    calculate_overall_status, failure_alert_message, label_of, slot_for, target_status, HealthStatus, TargetSlot,
};
use netdiag::daemon::scheduler::{
    diagnostic_duration_secs, diagnostic_summary, DiagnosticRequest, JobTable, RunHistory,
};
use netdiag::daemon::service::{
    connection_continues, monitoring_reply, DaemonCore, IpcRequest, IpcResponse, Reply, ServiceState,
};
use netdiag::net::IpAddress;

#[test]
fn config_defaults_per_system() {
    assert_eq!(default_log_level(), "info");
    assert_eq!(default_log_file(TargetOs::Linux), "/var/log/netdiag/daemon.log");
    assert_eq!(default_log_file(TargetOs::Windows), "C:\\ProgramData\\netdiag\\logs\\daemon.log");
    assert_eq!(default_pid_file(TargetOs::MacOs), "/var/run/netdiag.pid");
    assert_eq!(default_socket_path(TargetOs::Linux), "/var/run/netdiag.sock");
    assert_eq!(default_socket_path(TargetOs::Windows), "\\\\.\\pipe\\netdiag");
    assert_eq!(default_db_path(TargetOs::MacOs), "/Library/Application Support/netdiag/data.db");
    assert_eq!(default_db_path(TargetOs::Linux), "/var/lib/netdiag/data.db");
    assert_eq!(default_config_path(TargetOs::Linux), "/etc/netdiag/daemon.toml");
    assert_eq!(default_config_path(TargetOs::Other), "daemon.toml");
    assert_eq!(default_max_connections(), 10);
    assert!(default_enabled());
    assert_eq!(default_interval(), 30);
    assert_eq!(default_latency_threshold(), 100);
    assert_eq!(default_wifi_threshold(), -70);
    assert_eq!(default_retention_days(), 30);
}

#[test]
fn config_sections_default() {
    let g = GeneralConfig::default_for(TargetOs::Linux);
    assert!(!g.foreground);
    assert_eq!(g.log_level, "info");
    assert_eq!(g.log_file.as_deref(), Some("/var/log/netdiag/daemon.log"));
    let i = IpcConfig::default_for(TargetOs::Linux);
    assert_eq!(i.socket_path, "/var/run/netdiag.sock");
    assert_eq!(i.max_connections, 10);
    let s = StorageConfig::default_for(TargetOs::Other);
    assert_eq!(s.db_path, "data.db");
    assert_eq!(s.retention_days, 30);
    assert!(!s.cloud_sync);
    let t = default_targets();
    assert_eq!(t.len(), 3);
    assert!(matches!(t[0], MonitorTarget::Gateway));
    assert!(matches!(t[1], MonitorTarget::Dns));
    assert!(matches!(t[2], MonitorTarget::Internet));
}

#[test]
fn schedules_validate() {
    let d = default_schedules();
    assert_eq!(d.len(), 2);
    assert_eq!(d[0].name, "quick-check");
    assert_eq!(d[0].cron, "*/5 * * * *");
    assert_eq!(d[1].cron, "0 * * * *");
    assert!(validate_schedules(&d).is_ok());
    let bad = vec![
        d[0].clone_config(),
        ScheduleConfig { name: "broken".to_string(), cron: String::new(), diagnostic: DiagnosticType::Wifi, enabled: true },
        ScheduleConfig { name: "later".to_string(), cron: String::new(), diagnostic: DiagnosticType::Quick, enabled: true },
    ];
    match validate_schedules(&bad) {
        Err(DaemonError::Config { message }) => assert_eq!(message, "Empty cron expression for schedule 'broken'"),
        other => panic!("unexpected {:?}", other),
    }
}

trait CloneConfig {
    fn clone_config(&self) -> ScheduleConfig;
}

impl CloneConfig for ScheduleConfig {
    fn clone_config(&self) -> ScheduleConfig {
        ScheduleConfig { name: self.name.clone(), cron: self.cron.clone(), diagnostic: self.diagnostic, enabled: self.enabled }
    }
}

#[test]
fn health_statuses() {
    assert_eq!(target_status(true, false), HealthStatus::Healthy);
    assert_eq!(target_status(true, true), HealthStatus::Degraded);
    assert_eq!(target_status(false, false), HealthStatus::Unhealthy);
    assert_eq!(calculate_overall_status(None, None, None), HealthStatus::Unknown);
    assert_eq!(
        calculate_overall_status(Some(HealthStatus::Healthy), Some(HealthStatus::Degraded), None),
        HealthStatus::Degraded
    );
    assert_eq!(
        calculate_overall_status(Some(HealthStatus::Healthy), Some(HealthStatus::Degraded), Some(HealthStatus::Unhealthy)),
        HealthStatus::Unhealthy
    );
    assert_eq!(calculate_overall_status(None, Some(HealthStatus::Healthy), None), HealthStatus::Healthy);
    // The order of the targets does not matter.
    assert_eq!(
        calculate_overall_status(Some(HealthStatus::Unhealthy), None, Some(HealthStatus::Healthy)),
        calculate_overall_status(Some(HealthStatus::Healthy), None, Some(HealthStatus::Unhealthy))
    );
}

#[test]
fn target_labels_and_alerts() {
    assert_eq!(slot_for(&"gateway".to_string()), TargetSlot::Gateway);
    assert_eq!(slot_for(&"dns".to_string()), TargetSlot::Dns);
    assert_eq!(slot_for(&"internet".to_string()), TargetSlot::Internet);
    assert_eq!(slot_for(&"example.com".to_string()), TargetSlot::Custom);
    assert_eq!(label_of(&MonitorTarget::Host("example.com".to_string())), "example.com");
    assert_eq!(label_of(&MonitorTarget::Ip(IpAddress::V4([1, 1, 1, 1]))), "1.1.1.1");
    assert_eq!(label_of(&MonitorTarget::Internet), "internet");
    assert_eq!(
        failure_alert_message(&"dns".to_string(), &Some("timeout".to_string())),
        "dns check failed: timeout"
    );
    assert_eq!(failure_alert_message(&"gateway".to_string(), &None), "gateway check failed: Unknown error");
}

#[test]
fn daemon_requests() {
    let mut core = DaemonCore::new();
    core.state = ServiceState::Running;
    core.started_at = Some(1000);
    assert!(core.keeps_serving());
    assert!(matches!(core.handle_request(IpcRequest::Ping, 1010), Reply::Respond(IpcResponse::Pong)));
    match core.handle_request(IpcRequest::Status, 1010) {
        Reply::Respond(IpcResponse::Status { state, uptime_secs, diagnostics_run, monitoring_active }) => {
            assert_eq!(state, ServiceState::Running);
            assert_eq!(uptime_secs, 10);
            assert_eq!(diagnostics_run, 0);
            assert!(!monitoring_active);
        }
        other => panic!("unexpected {:?}", other),
    }
    match core.handle_request(IpcRequest::PauseMonitoring, 1010) {
        Reply::Respond(IpcResponse::Error { message }) => assert_eq!(message, "Monitor not initialized"),
        other => panic!("unexpected {:?}", other),
    }
    match core.handle_request(IpcRequest::RunDiagnostic { diagnostic_type: "quick".to_string() }, 1010) {
        Reply::Respond(IpcResponse::Success { message }) => assert_eq!(message.as_deref(), Some("Diagnostic started")),
        other => panic!("unexpected {:?}", other),
    }
    assert_eq!(core.diagnostics_run, 1);
    match core.handle_request(IpcRequest::GetResults { limit: 5 }, 1010) {
        Reply::Respond(IpcResponse::Results { results }) => assert!(results.is_empty()),
        other => panic!("unexpected {:?}", other),
    }
    match core.handle_request(IpcRequest::Reload, 1010) {
        Reply::Respond(IpcResponse::Success { message }) => assert_eq!(message.as_deref(), Some("Configuration reloaded")),
        other => panic!("unexpected {:?}", other),
    }
    let stop = core.handle_request(IpcRequest::Stop, 1020);
    match &stop {
        Reply::Respond(resp @ IpcResponse::Success { message }) => {
            assert_eq!(message.as_deref(), Some("Daemon stopping"));
            assert!(!connection_continues(resp, core.state));
        }
        other => panic!("unexpected {:?}", other),
    }
    assert_eq!(core.state, ServiceState::Stopping);
    assert!(!core.keeps_serving());
}

#[test]
fn daemon_monitor_pause_resume() {
    let mut core = DaemonCore::new();
    core.monitor_running = Some(true);
    assert!(matches!(core.handle_request(IpcRequest::GetMonitoringData, 0), Reply::SerializeMonitoringData));
    match core.handle_request(IpcRequest::PauseMonitoring, 0) {
        Reply::Respond(IpcResponse::Success { message }) => assert_eq!(message.as_deref(), Some("Monitoring paused")),
        other => panic!("unexpected {:?}", other),
    }
    match core.handle_request(IpcRequest::Status, 0) {
        Reply::Respond(IpcResponse::Status { monitoring_active, uptime_secs, .. }) => {
            assert!(!monitoring_active);
            assert_eq!(uptime_secs, 0);
        }
        other => panic!("unexpected {:?}", other),
    }
    match core.handle_request(IpcRequest::ResumeMonitoring, 0) {
        Reply::Respond(IpcResponse::Success { message }) => assert_eq!(message.as_deref(), Some("Monitoring resumed")),
        other => panic!("unexpected {:?}", other),
    }
    assert_eq!(core.monitor_running, Some(true));
    match monitoring_reply(Err("bad".to_string())) {
        IpcResponse::Error { message } => assert_eq!(message, "Failed to serialize monitoring data: bad"),
        other => panic!("unexpected {:?}", other),
    }
    match monitoring_reply(Ok("{}".to_string())) {
        IpcResponse::MonitoringData { data } => assert_eq!(data, "{}"),
        other => panic!("unexpected {:?}", other),
    }
    assert!(connection_continues(&IpcResponse::Pong, ServiceState::Stopping));
}

#[test]
fn ipc_framing() {
    assert_eq!(frame_line("{\"type\":\"ping\"}"), b"{\"type\":\"ping\"}\n".to_vec());
    assert_eq!(frame_line(""), vec![10u8]);
    assert!(peer_closed(0));
    assert!(!peer_closed(3));
    assert!(answers_ping(&Some(IpcResponse::Pong)));
    assert!(!answers_ping(&None));
    assert!(!answers_ping(&Some(IpcResponse::Success { message: None })));
}

#[test]
fn scheduler_jobs() {
    let mut t = JobTable::new();
    for (k, s) in default_schedules().iter().enumerate() {
        t.add_schedule(s, k as u128 + 1);
    }
    assert_eq!(t.jobs.len(), 2);
    assert_eq!(t.jobs[1].name, "full-check");
    assert_eq!(t.jobs[1].id, 2);
    assert!(t.jobs[1].enabled);
    t.update_last_run("full-check", 99);
    assert_eq!(t.jobs[1].last_run, Some(99));
    assert_eq!(t.jobs[0].last_run, None);
    assert!(t.set_job_enabled("quick-check", false).is_ok());
    assert!(!t.jobs[0].enabled);
    match t.set_job_enabled("missing", true) {
        Err(DaemonError::Scheduler { message }) => assert_eq!(message, "Job 'missing' not found"),
        other => panic!("unexpected {:?}", other),
    }
}

#[test]
fn run_history_keeps_newest() {
    let mut h = RunHistory::new(2);
    for k in 0..3u128 {
        let req = DiagnosticRequest { run_id: k, job_name: format!("job{}", k), diagnostic_type: DiagnosticType::Quick };
        let outcome = if k == 1 { Err("failed".to_string()) } else { Ok(diagnostic_summary(DiagnosticType::Quick)) };
        h.record(req, 10 * k as i64, 10 * k as i64 + 1, outcome);
    }
    let recent = h.recent(10);
    assert_eq!(recent.len(), 2);
    assert_eq!(recent[0].id, 2);
    assert_eq!(recent[1].id, 1);
    assert!(!recent[1].success);
    assert_eq!(recent[1].error.as_deref(), Some("failed"));
    assert_eq!(recent[0].summary.as_deref(), Some("Gateway: OK, DNS: OK, Internet: OK"));
    assert_eq!(h.recent(1).len(), 1);
}

#[test]
fn diagnostic_kinds() {
    assert_eq!(diagnostic_summary(DiagnosticType::Speed), "Download: 100 Mbps, Upload: 50 Mbps, Latency: 15ms");
    assert_eq!(diagnostic_duration_secs(DiagnosticType::Full), 5);
    assert_eq!(diagnostic_duration_secs(DiagnosticType::Speed), 10);
}

#[test]
fn daemon_error_constructors() {
    match DaemonError::ipc("pipe".to_string()) {
        DaemonError::Ipc { message } => assert_eq!(message, "pipe"),
        other => panic!("unexpected {:?}", other),
    }
    assert!(matches!(DaemonError::platform("x".to_string()), DaemonError::Platform { .. }));
}
