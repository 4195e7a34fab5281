use netdiag::autofix::actions::{FixAction, FixCategory, FixPlan, FixPrerequisite, FixResult, FixSeverity, FixType};
use netdiag::autofix::clock::{now, random_uuid, uuid_text, Timestamp};
use netdiag::autofix::engine::{
    action_for, action_result, apply_verification, check_prerequisites, check_result, default_rollback_dir,
    dry_run_result, missing_prerequisites_message, plan_fixes, prerequisite_failure, severity_of, verification_for,
    wants_rollback_point, wants_verification, AutofixConfig, InterfaceStatus, NetworkIssue, VerifyCheck,
};
use netdiag::autofix::error::AutofixError;
use netdiag::autofix::rollback::{RollbackManager, RollbackPoint, RollbackState};
use netdiag::autofix::well_known_dns::{cloudflare, google, quad9};
use netdiag::daemon::config::TargetOs;
use netdiag::net::IpAddress;

#[test]
fn action_constructors() {
    let a = FixAction::flush_dns_cache();
    assert_eq!(a.name, "Flush DNS Cache");
    assert_eq!(a.category, FixCategory::Dns);
    assert_eq!(a.severity, FixSeverity::Low);
    assert!(!a.reversible);
    assert_eq!(a.estimated_time_secs, 1);
    assert!(a.prerequisites.is_empty());

    let d = FixAction::change_dns_servers("eth0".to_string(), vec![IpAddress::V4([1, 1, 1, 1]), IpAddress::V4([8, 8, 8, 8])]);
    assert_eq!(d.name, "Change DNS Servers");
    assert_eq!(d.description, "Changes DNS servers to [1.1.1.1, 8.8.8.8]");
    assert!(d.reversible);
    assert_eq!(d.prerequisites, vec![FixPrerequisite::AdminPrivileges]);

    let r = FixAction::reset_adapter("wlan0".to_string());
    assert_eq!(r.name, "Reset wlan0");
    assert_eq!(r.description, "Disables and re-enables the wlan0 adapter");
    assert_eq!(r.severity, FixSeverity::Medium);
    assert_eq!(r.estimated_time_secs, 10);

    let t = FixAction::reset_tcp_ip();
    assert_eq!(t.severity, FixSeverity::High);
    assert_eq!(t.prerequisites, vec![FixPrerequisite::AdminPrivileges, FixPrerequisite::RebootMayBeRequired]);
    assert_eq!(FixAction::reconnect_wifi("wlan0".to_string()).estimated_time_secs, 15);
    assert_eq!(FixAction::renew_dhcp("eth0".to_string()).category, FixCategory::Adapter);
    let s = FixAction::restart_network_service();
    assert_eq!(s.category, FixCategory::Service);
    assert_eq!(s.estimated_time_secs, 30);
    assert_ne!(a.id, d.id);
}

#[test]
fn uuids() {
    let v = random_uuid();
    assert_eq!((v >> 76) & 0xf, 4);
    assert_eq!((v >> 62) & 0x3, 2);
    assert_eq!(uuid_text(0), "00000000-0000-0000-0000-000000000000");
    assert_eq!(
        uuid_text(0x0123_4567_89ab_cdef_0011_2233_4455_6677),
        "01234567-89ab-cdef-0011-223344556677"
    );
    let t = uuid_text(v);
    assert_eq!(t.len(), 36);
    assert_eq!(&t[14..15], "4");
}

#[test]
fn timestamps() {
    let a = Timestamp { secs: 10, nanos: 5 };
    let b = Timestamp { secs: 10, nanos: 6 };
    let c = Timestamp { secs: 11, nanos: 0 };
    assert!(a.is_before(&b));
    assert!(b.is_before(&c));
    assert!(!c.is_before(&a));
    assert!(!a.is_before(&a));
    assert!(now().secs > 1_600_000_000);
}

#[test]
fn fix_results_and_plan() {
    let ok = FixResult::success(7, 12, Some("done".to_string()));
    assert!(ok.success);
    assert_eq!(ok.message.as_deref(), Some("done"));
    let bad = FixResult::failure(7, 3, "nope".to_string());
    assert!(!bad.success);
    assert_eq!(bad.error.as_deref(), Some("nope"));
    let plan = FixPlan::new(vec![FixAction::flush_dns_cache(), FixAction::reset_tcp_ip()], true);
    assert_eq!(plan.len(), 2);
    assert!(!plan.is_empty());
    assert_eq!(plan.estimated_total_time_secs, 6);
    assert!(plan.dry_run);
    assert!(FixPlan::new(vec![], false).is_empty());
}

#[test]
fn plan_orders_by_severity() {
    let issues = vec![
        NetworkIssue::NoConnectivity { interface: Some("eth0".to_string()) },
        NetworkIssue::DnsResolutionFailed,
        NetworkIssue::WifiDisconnected { interface: Some("wlan0".to_string()) },
        NetworkIssue::HighLatency { interface: None },
    ];
    let plan = plan_fixes(&issues);
    let names: Vec<&str> = plan.actions.iter().map(|a| a.name.as_str()).collect();
    assert_eq!(
        names,
        vec!["Flush DNS Cache", "Renew DHCP Lease", "Reset eth0", "Reconnect WiFi", "Reset TCP/IP Stack"]
    );
    let sev: Vec<FixSeverity> = plan.actions.iter().map(|a| a.severity).collect();
    assert!(sev.windows(2).all(|w| w[0] <= w[1]));
    assert_eq!(plan.estimated_total_time_secs, 1 + 5 + 10 + 15 + 5);
    assert!(!plan.dry_run);
    assert!(plan_fixes(&vec![]).is_empty());
}

#[test]
fn issue_interfaces_and_kinds() {
    assert_eq!(NetworkIssue::DnsResolutionFailed.interface(), None);
    assert_eq!(NetworkIssue::DhcpFailed { interface: Some("eth1".to_string()) }.interface().as_deref(), Some("eth1"));
    assert_eq!(severity_of(&FixType::RestartNetworkService), Some(FixSeverity::High));
    assert_eq!(severity_of(&FixType::ClearArpCache), None);
    assert!(action_for(FixType::ResetFirewall).is_none());
    let a = action_for(FixType::RenewDhcp { interface: "eth0".to_string() }).unwrap();
    assert_eq!(a.name, "Renew DHCP Lease");
}

fn iface(name: &str, up: bool, v4: bool) -> InterfaceStatus {
    InterfaceStatus { name: name.to_string(), is_up: up, has_ipv4: v4 }
}

#[test]
fn prerequisites() {
    let mut a = FixAction::reset_tcp_ip();
    assert!(check_prerequisites(&a, true, &None).is_empty());
    assert_eq!(check_prerequisites(&a, false, &None), vec!["Administrator/root privileges required".to_string()]);
    a.prerequisites = vec![
        FixPrerequisite::NetworkConnection,
        FixPrerequisite::InterfaceExists("eth9".to_string()),
        FixPrerequisite::RebootMayBeRequired,
    ];
    let ifaces = Some(vec![iface("lo", false, true), iface("eth0", false, true)]);
    let missing = check_prerequisites(&a, true, &ifaces);
    assert_eq!(missing, vec!["No network interface is up".to_string(), "Interface eth9 not found".to_string()]);
    let unknown = check_prerequisites(&a, true, &None);
    assert_eq!(
        unknown,
        vec!["Could not check network interfaces".to_string(), "Could not verify interface eth9".to_string()]
    );
    assert_eq!(
        missing_prerequisites_message(&missing),
        "Missing prerequisites: No network interface is up, Interface eth9 not found"
    );
    let f = prerequisite_failure(3, &missing);
    assert!(!f.success);
    assert_eq!(f.duration_ms, 0);
    assert_eq!(
        f.error.as_deref(),
        Some("Missing prerequisites: No network interface is up, Interface eth9 not found")
    );
}

#[test]
fn apply_decisions() {
    let cfg = AutofixConfig::default_for(TargetOs::Linux);
    assert_eq!(cfg.max_auto_severity, FixSeverity::Medium);
    assert_eq!(cfg.rollback_dir, "/var/lib/netdiag/rollback");
    assert_eq!(cfg.verify_timeout_secs, 30);
    assert_eq!(default_rollback_dir(TargetOs::Windows), "C:\\ProgramData\\netdiag\\rollback");
    let dns = FixAction::change_dns_servers("eth0".to_string(), cloudflare());
    assert!(wants_rollback_point(&dns, &cfg));
    assert!(!wants_rollback_point(&FixAction::flush_dns_cache(), &cfg));
    let dry = dry_run_result(9);
    assert!(dry.success);
    assert_eq!(dry.message.as_deref(), Some("Dry run - not applied"));
    assert!(wants_verification(&dry, &cfg));
    let failed = apply_verification(FixResult::success(1, 5, None), false);
    assert!(!failed.success);
    assert_eq!(failed.verification_passed, Some(false));
    assert_eq!(failed.error.as_deref(), Some("Verification failed after applying fix"));
    let passed = apply_verification(FixResult::success(1, 5, None), true);
    assert!(passed.success);
    assert_eq!(passed.verification_passed, Some(true));
    let r = action_result(4, 10, Err(AutofixError::fix_failed("boom")));
    assert!(!r.success);
    assert_eq!(r.error.as_deref(), Some("Fix failed: boom"));
    let r = action_result(4, 10, Ok(Some("ok".to_string())));
    assert!(r.success);
    assert_eq!(r.message.as_deref(), Some("ok"));
}

#[test]
fn verification_checks() {
    let ifaces = Some(vec![iface("eth0", true, false), iface("eth0", false, true), iface("wlan0", true, true)]);
    let c = verification_for(&FixType::ResetAdapter { interface: "eth0".to_string() });
    assert!(matches!(c, VerifyCheck::InterfaceUp(ref n) if n == "eth0"));
    assert!(check_result(&c, false, &ifaces));
    let h = verification_for(&FixType::RenewDhcp { interface: "eth0".to_string() });
    // The first interface with the name decides.
    assert!(!check_result(&h, false, &ifaces));
    assert!(!check_result(&h, false, &None));
    let d = verification_for(&FixType::FlushDnsCache);
    assert!(check_result(&d, true, &None));
    assert!(!check_result(&d, false, &None));
    assert!(check_result(&verification_for(&FixType::ResetTcpIp), false, &None));
}

#[test]
fn error_texts() {
    assert_eq!(AutofixError::rollback_failed("x").to_display_string(), "Rollback failed: x");
    assert_eq!(AutofixError::permission_denied("root").to_display_string(), "Permission denied: root");
    assert_eq!(AutofixError::not_supported("ipv9").to_display_string(), "Not supported on this platform: ipv9");
    assert_eq!(AutofixError::verification_failed("v").to_display_string(), "Verification failed: v");
    assert_eq!(AutofixError::Io("disk".to_string()).to_display_string(), "IO error: disk");
    assert_eq!(
        AutofixError::RollbackNotFound { id: "abc".to_string() }.to_display_string(),
        "Rollback point not found: abc"
    );
}

#[test]
fn well_known_servers() {
    assert_eq!(cloudflare()[0], IpAddress::V4([1, 1, 1, 1]));
    assert_eq!(google()[1], IpAddress::V4([8, 8, 4, 4]));
    assert_eq!(quad9()[0], IpAddress::V4([9, 9, 9, 9]));
    assert_eq!(cloudflare().len(), 4);
}

fn point(id: &str, secs: i64, valid: bool) -> RollbackPoint {
    RollbackPoint {
        id: id.to_string(),
        created_at: Timestamp { secs, nanos: 0 },
        description: format!("point {}", id),
        state: RollbackState::NoState,
        valid,
        action_id: None,
    }
}

#[test]
fn rollback_points_lifecycle() {
    let mut m = RollbackManager::new("/tmp/rb".to_string(), 10);
    assert_eq!(m.storage_dir(), "/tmp/rb");
    let id = m.create_dns_point("eth0", vec![IpAddress::V4([192, 168, 1, 1])], Some(5));
    assert_eq!(m.len(), 1);
    let p = m.get(&id).unwrap();
    assert_eq!(p.description, "DNS servers for eth0: [192.168.1.1]");
    assert!(p.valid);
    assert_eq!(p.action_id, Some(5));
    assert_eq!(id.len(), 36);
    assert!(m.begin_rollback(&id).is_ok());
    m.invalidate(&id);
    match m.begin_rollback(&id) {
        Err(AutofixError::RollbackFailed { message }) => assert_eq!(message, "Rollback point is no longer valid"),
        other => panic!("unexpected {:?}", other),
    }
    match m.begin_rollback("nope") {
        Err(AutofixError::RollbackNotFound { id }) => assert_eq!(id, "nope"),
        other => panic!("unexpected {:?}", other),
    }
    let cid = m.create_config_point("/etc/resolv.conf", "nameserver 1.1.1.1\n".to_string(), None);
    assert_eq!(m.get(&cid).unwrap().description, "Config file: /etc/resolv.conf");
    let mid = m.create_multi_point("both".to_string(), vec![RollbackState::NoState], None);
    assert!(matches!(m.get(&mid).unwrap().state, RollbackState::Multiple(ref v) if v.len() == 1));
    // The spent point is not listed.
    assert_eq!(m.list().len(), 2);
    // A cleanup with a cutoff in the future removes only the spent point.
    let removed = m.cleanup_before(Timestamp { secs: i64::MAX, nanos: 0 });
    assert_eq!(removed, 1);
    assert_eq!(m.len(), 2);
    assert!(m.get(&id).is_none());
    assert_eq!(m.cleanup(24), 0);
}

#[test]
fn rollback_limit_evicts_oldest() {
    let mut m = RollbackManager::new("d".to_string(), 2);
    m.add_point(point("b", 20, true));
    m.add_point(point("a", 10, true));
    m.add_point(point("c", 30, true));
    assert_eq!(m.len(), 2);
    assert!(m.get("a").is_none());
    assert!(m.get("b").is_some());
    let listed: Vec<String> = m.list().iter().map(|p| p.id.clone()).collect();
    assert_eq!(listed, vec!["c".to_string(), "b".to_string()]);
}

#[test]
fn rollback_load_keeps_valid() {
    let mut m = RollbackManager::new("d".to_string(), 10);
    m.load(vec![
        ("x".to_string(), point("x", 1, true)),
        ("y".to_string(), point("y", 2, false)),
        ("z".to_string(), point("z", 3, true)),
    ]);
    assert_eq!(m.len(), 2);
    assert!(m.get("y").is_none());
    assert_eq!(m.entries().len(), 2);
}
