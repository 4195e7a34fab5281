//! Daemon configuration.

use vstd::prelude::*;
use crate::net::IpAddress;
use crate::text::str_to_string;
use crate::daemon::error::DaemonError;

verus! {

/// The operating system a build targets, as far as default paths go.
#[derive(Clone, Copy, PartialEq, Eq, Structural, Debug)]
pub enum TargetOs {
    /// macOS.
    MacOs,
    /// Linux.
    Linux,
    /// Windows.
    Windows,
    /// Any other system.
    Other,
}

/// The default daemon log file on a system.
pub open spec fn log_file_path(os: TargetOs) -> Seq<char> {
    match os {
        TargetOs::MacOs => "/var/log/netdiag/daemon.log"@,
        TargetOs::Linux => "/var/log/netdiag/daemon.log"@,
        TargetOs::Windows => "C:\\ProgramData\\netdiag\\logs\\daemon.log"@,
        TargetOs::Other => "daemon.log"@,
    }
}

/// The default PID file on a system.
pub open spec fn pid_file_path(os: TargetOs) -> Seq<char> {
    match os {
        TargetOs::MacOs => "/var/run/netdiag.pid"@,
        TargetOs::Linux => "/var/run/netdiag.pid"@,
        TargetOs::Windows => "C:\\ProgramData\\netdiag\\netdiag.pid"@,
        TargetOs::Other => "netdiag.pid"@,
    }
}

/// The default database path on a system.
pub open spec fn db_file_path(os: TargetOs) -> Seq<char> {
    match os {
        TargetOs::MacOs => "/Library/Application Support/netdiag/data.db"@,
        TargetOs::Linux => "/var/lib/netdiag/data.db"@,
        TargetOs::Windows => "C:\\ProgramData\\netdiag\\data.db"@,
        TargetOs::Other => "data.db"@,
    }
}

/// The default configuration file on a system.
pub open spec fn config_file_path(os: TargetOs) -> Seq<char> {
    match os {
        TargetOs::MacOs => "/Library/Application Support/netdiag/daemon.toml"@,
        TargetOs::Linux => "/etc/netdiag/daemon.toml"@,
        TargetOs::Windows => "C:\\ProgramData\\netdiag\\daemon.toml"@,
        TargetOs::Other => "daemon.toml"@,
    }
}

/// The default control socket on a system.
pub open spec fn socket_path(os: TargetOs) -> Seq<char> {
    match os {
        TargetOs::Windows => "\\\\.\\pipe\\netdiag"@,
        _ => "/var/run/netdiag.sock"@,
    }
}

/// Default log level.
pub fn default_log_level() -> (r: String)
    ensures
        r@ == "info"@,
{
    str_to_string("info")
}

/// Default log file.
pub fn default_log_file(os: TargetOs) -> (r: String)
    ensures
        r@ == log_file_path(os),
{
    match os {
        TargetOs::MacOs => str_to_string("/var/log/netdiag/daemon.log"),
        TargetOs::Linux => str_to_string("/var/log/netdiag/daemon.log"),
        TargetOs::Windows => str_to_string("C:\\ProgramData\\netdiag\\logs\\daemon.log"),
        TargetOs::Other => str_to_string("daemon.log"),
    }
}

/// Default PID file.
pub fn default_pid_file(os: TargetOs) -> (r: String)
    ensures
        r@ == pid_file_path(os),
{
    match os {
        TargetOs::MacOs => str_to_string("/var/run/netdiag.pid"),
        TargetOs::Linux => str_to_string("/var/run/netdiag.pid"),
        TargetOs::Windows => str_to_string("C:\\ProgramData\\netdiag\\netdiag.pid"),
        TargetOs::Other => str_to_string("netdiag.pid"),
    }
}

/// Default socket path.
pub fn default_socket_path(os: TargetOs) -> (r: String)
    ensures
        r@ == socket_path(os),
{
    match os {
        TargetOs::Windows => str_to_string("\\\\.\\pipe\\netdiag"),
        _ => str_to_string("/var/run/netdiag.sock"),
    }
}

/// Default maximum number of concurrent connections.
pub fn default_max_connections() -> (r: usize)
    ensures
        r == 10,
{
    10
}

/// Default for flags that are on unless configured otherwise.
pub fn default_enabled() -> (r: bool)
    ensures
        r,
{
    true
}

/// Default monitoring interval, in seconds.
pub fn default_interval() -> (r: u64)
    ensures
        r == 30,
{
    30
}

/// Default alert latency threshold, in milliseconds.
pub fn default_latency_threshold() -> (r: u64)
    ensures
        r == 100,
{
    100
}

/// Default WiFi signal threshold, in dBm.
pub fn default_wifi_threshold() -> (r: i32)
    ensures
        r == -70,
{
    -70
}

/// Default database path.
pub fn default_db_path(os: TargetOs) -> (r: String)
    ensures
        r@ == db_file_path(os),
{
    match os {
        TargetOs::MacOs => str_to_string("/Library/Application Support/netdiag/data.db"),
        TargetOs::Linux => str_to_string("/var/lib/netdiag/data.db"),
        TargetOs::Windows => str_to_string("C:\\ProgramData\\netdiag\\data.db"),
        TargetOs::Other => str_to_string("data.db"),
    }
}

/// Default history retention, in days.
pub fn default_retention_days() -> (r: u32)
    ensures
        r == 30,
{
    30
}

/// Default configuration file path.
pub fn default_config_path(os: TargetOs) -> (r: String)
    ensures
        r@ == config_file_path(os),
{
    match os {
        TargetOs::MacOs => str_to_string("/Library/Application Support/netdiag/daemon.toml"),
        TargetOs::Linux => str_to_string("/etc/netdiag/daemon.toml"),
        TargetOs::Windows => str_to_string("C:\\ProgramData\\netdiag\\daemon.toml"),
        TargetOs::Other => str_to_string("daemon.toml"),
    }
}

/// General daemon settings.
#[derive(Debug)]
pub struct GeneralConfig {
    /// Whether to run in foreground mode (don't daemonize).
    pub foreground: bool,
    /// Log level.
    pub log_level: String,
    /// Log file path.
    pub log_file: Option<String>,
    /// PID file path.
    pub pid_file: Option<String>,
    /// Working directory.
    pub working_dir: Option<String>,
}

impl GeneralConfig {
    /// The default general settings on a system.
    pub fn default_for(os: TargetOs) -> (r: Self)
        ensures
            !r.foreground,
            r.log_level@ == "info"@,
            r.log_file matches Some(p) && p@ == log_file_path(os),
            r.pid_file matches Some(p) && p@ == pid_file_path(os),
            r.working_dir is None,
    {
        GeneralConfig {
            foreground: false,
            log_level: default_log_level(),
            log_file: Some(default_log_file(os)),
            pid_file: Some(default_pid_file(os)),
            working_dir: None,
        }
    }
}

/// IPC configuration.
#[derive(Debug)]
pub struct IpcConfig {
    /// Unix socket path (Unix) or named pipe path (Windows).
    pub socket_path: String,
    /// Maximum concurrent connections.
    pub max_connections: usize,
}

impl IpcConfig {
    /// The default IPC settings on a system.
    pub fn default_for(os: TargetOs) -> (r: Self)
        ensures
            r.socket_path@ == socket_path(os),
            r.max_connections == 10,
    {
        IpcConfig { socket_path: default_socket_path(os), max_connections: default_max_connections() }
    }
}

/// Monitor target types.
#[derive(Debug)]
pub enum MonitorTarget {
    /// Monitor the default gateway.
    Gateway,
    /// Monitor DNS servers.
    Dns,
    /// Monitor internet connectivity.
    Internet,
    /// Monitor a custom host.
    Host(String),
    /// Monitor a custom IP.
    Ip(IpAddress),
}

/// Default monitoring targets.
pub fn default_targets() -> (r: Vec<MonitorTarget>)
    ensures
        r@.len() == 3,
        r@[0] is Gateway,
        r@[1] is Dns,
        r@[2] is Internet,
{
    let mut v: Vec<MonitorTarget> = Vec::new();
    v.push(MonitorTarget::Gateway);
    v.push(MonitorTarget::Dns);
    v.push(MonitorTarget::Internet);
    v
}

/// Type of diagnostic to run.
#[derive(Clone, Copy, PartialEq, Eq, Structural, Debug)]
pub enum DiagnosticType {
    /// Quick connectivity check.
    Quick,
    /// Full diagnostic run.
    Full,
    /// WiFi-only analysis.
    Wifi,
    /// Speed test only.
    Speed,
    /// Custom diagnostic profile.
    Custom,
}

/// Scheduled diagnostic configuration.
#[derive(Debug)]
pub struct ScheduleConfig {
    /// Name of the schedule.
    pub name: String,
    /// Cron expression.
    pub cron: String,
    /// Type of diagnostic to run.
    pub diagnostic: DiagnosticType,
    /// Whether this schedule is enabled.
    pub enabled: bool,
}

/// The message of the error for a schedule without a cron expression.
pub open spec fn empty_cron_message(name: Seq<char>) -> Seq<char> {
    "Empty cron expression for schedule '"@ + name + "'"@
}

impl ScheduleConfig {
    /// Validates the schedule configuration: the cron expression must not
    /// be empty (its syntax is checked when the job is scheduled).
    pub fn validate(&self) -> (r: Result<(), DaemonError>)
        ensures
            r is Ok <==> self.cron@.len() > 0,
            r matches Err(DaemonError::Config { message }) ==> message@ == empty_cron_message(self.name@),
            r matches Err(e) ==> e is Config,
    {
        if self.cron.as_str().is_empty() {
            let mut m = str_to_string("Empty cron expression for schedule '");
            m.append(self.name.as_str());
            m.append("'");
            return Err(DaemonError::config(m));
        }
        Ok(())
    }
}

/// Validates every schedule in order, stopping at the first that fails.
pub fn validate_schedules(schedules: &Vec<ScheduleConfig>) -> (r: Result<(), DaemonError>)
    ensures
        r is Ok <==> forall|i: int| 0 <= i < schedules@.len() ==> schedules@[i].cron@.len() > 0,
        r matches Err(DaemonError::Config { message }) ==> exists|i: int| 0 <= i < schedules@.len()
            && schedules@[i].cron@.len() == 0
            && (forall|j: int| 0 <= j < i ==> schedules@[j].cron@.len() > 0)
            && message@ == empty_cron_message(schedules@[i].name@),
        r matches Err(e) ==> e is Config,
{
    let mut i: usize = 0;
    while i < schedules.len()
        invariant
            i <= schedules@.len(),
            forall|j: int| 0 <= j < i ==> schedules@[j].cron@.len() > 0,
        decreases schedules@.len() - i,
    {
        let r = schedules[i].validate();
        if r.is_err() {
            return r;
        }
        i = i + 1;
    }
    Ok(())
}

/// The default schedules: a quick check every five minutes and a full check
/// every hour.
pub fn default_schedules() -> (r: Vec<ScheduleConfig>)
    ensures
        r@.len() == 2,
        r@[0].name@ == "quick-check"@ && r@[0].cron@ == "*/5 * * * *"@
            && r@[0].diagnostic == DiagnosticType::Quick && r@[0].enabled,
        r@[1].name@ == "full-check"@ && r@[1].cron@ == "0 * * * *"@
            && r@[1].diagnostic == DiagnosticType::Full && r@[1].enabled,
{
    let mut v: Vec<ScheduleConfig> = Vec::new();
    v.push(ScheduleConfig {
        name: str_to_string("quick-check"),
        cron: str_to_string("*/5 * * * *"),
        diagnostic: DiagnosticType::Quick,
        enabled: true,
    });
    v.push(ScheduleConfig {
        name: str_to_string("full-check"),
        cron: str_to_string("0 * * * *"),
        diagnostic: DiagnosticType::Full,
        enabled: true,
    });
    v
}

/// Alert delivery method.
#[derive(Debug)]
pub enum AlertMethod {
    /// Log to file.
    Log,
    /// System notification (desktop).
    Notification,
    /// Write to file.
    File(String),
    /// Custom command.
    Command(String),
}

/// Storage configuration.
#[derive(Debug)]
pub struct StorageConfig {
    /// Database path.
    pub db_path: String,
    /// Maximum history retention (days).
    pub retention_days: u32,
    /// Enable cloud sync.
    pub cloud_sync: bool,
}

impl StorageConfig {
    /// The default storage settings on a system.
    pub fn default_for(os: TargetOs) -> (r: Self)
        ensures
            r.db_path@ == db_file_path(os),
            r.retention_days == 30,
            !r.cloud_sync,
    {
        StorageConfig { db_path: default_db_path(os), retention_days: default_retention_days(), cloud_sync: false }
    }
}

} // verus!
