//! The decisions of the auto-fix engine: which fixes a set of issues calls
//! for and in what order, which prerequisites are missing, and what a run
//! records of each action.
//!
//! Applying a fix, checking the system and sleeping between steps are the
//! caller's; the functions here take what those steps found.

use vstd::prelude::*;
use crate::autofix::actions::{
    standard_action, standard_severity, total_time, FixAction, FixPlan, FixPrerequisite, FixResult,
    FixSeverity, FixType,
};
use crate::autofix::error::AutofixError;
use crate::daemon::config::TargetOs;
use crate::text::{joined, push_joined, str_eq, str_to_string, views};

verus! {

/// Configuration for the autofix engine.
#[derive(Debug)]
pub struct AutofixConfig {
    /// Maximum severity level to auto-apply.
    pub max_auto_severity: FixSeverity,
    /// Whether to create rollback points.
    pub enable_rollback: bool,
    /// Directory for rollback data.
    pub rollback_dir: String,
    /// Whether to verify fixes after applying.
    pub verify_fixes: bool,
    /// Timeout for verification (seconds).
    pub verify_timeout_secs: u32,
}

/// The default rollback directory on a system.
pub open spec fn rollback_dir_path(os: TargetOs) -> Seq<char> {
    match os {
        TargetOs::MacOs => "/Library/Application Support/netdiag/rollback"@,
        TargetOs::Linux => "/var/lib/netdiag/rollback"@,
        TargetOs::Windows => "C:\\ProgramData\\netdiag\\rollback"@,
        TargetOs::Other => "rollback"@,
    }
}

/// The default rollback directory on a system.
pub fn default_rollback_dir(os: TargetOs) -> (r: String)
    ensures
        r@ == rollback_dir_path(os),
{
    match os {
        TargetOs::MacOs => str_to_string("/Library/Application Support/netdiag/rollback"),
        TargetOs::Linux => str_to_string("/var/lib/netdiag/rollback"),
        TargetOs::Windows => str_to_string("C:\\ProgramData\\netdiag\\rollback"),
        TargetOs::Other => str_to_string("rollback"),
    }
}

impl AutofixConfig {
    /// The default configuration on a system: auto-apply up to medium
    /// severity, with rollback and verification (30 s).
    pub fn default_for(os: TargetOs) -> (c: Self)
        ensures
            c.max_auto_severity == FixSeverity::Medium,
            c.enable_rollback,
            c.rollback_dir@ == rollback_dir_path(os),
            c.verify_fixes,
            c.verify_timeout_secs == 30,
    {
        AutofixConfig {
            max_auto_severity: FixSeverity::Medium,
            enable_rollback: true,
            rollback_dir: default_rollback_dir(os),
            verify_fixes: true,
            verify_timeout_secs: 30,
        }
    }
}

/// Types of network issues that can be detected and fixed.
#[derive(Debug, Clone)]
pub enum NetworkIssue {
    /// DNS resolution is failing.
    DnsResolutionFailed,
    /// High latency detected.
    HighLatency {
        /// Affected interface.
        interface: Option<String>,
    },
    /// Packet loss detected.
    PacketLoss {
        /// Affected interface.
        interface: Option<String>,
    },
    /// No connectivity.
    NoConnectivity {
        /// Affected interface.
        interface: Option<String>,
    },
    /// WiFi disconnected.
    WifiDisconnected {
        /// WiFi interface.
        interface: Option<String>,
    },
    /// DHCP failed.
    DhcpFailed {
        /// Affected interface.
        interface: Option<String>,
    },
}

/// The interface an issue names.
pub open spec fn issue_interface(i: NetworkIssue) -> Option<String> {
    match i {
        NetworkIssue::DnsResolutionFailed => None,
        NetworkIssue::HighLatency { interface } => interface,
        NetworkIssue::PacketLoss { interface } => interface,
        NetworkIssue::NoConnectivity { interface } => interface,
        NetworkIssue::WifiDisconnected { interface } => interface,
        NetworkIssue::DhcpFailed { interface } => interface,
    }
}

/// A copy of an optional name.
fn copy_name(o: &Option<String>) -> (r: Option<String>)
    ensures
        r == *o,
{
    match o {
        Some(s) => Some(s.clone()),
        None => None,
    }
}

impl NetworkIssue {
    /// Gets the interface associated with this issue.
    pub fn interface(&self) -> (r: Option<String>)
        ensures
            r == issue_interface(*self),
    {
        match self {
            NetworkIssue::DnsResolutionFailed => None,
            NetworkIssue::HighLatency { interface } => copy_name(interface),
            NetworkIssue::PacketLoss { interface } => copy_name(interface),
            NetworkIssue::NoConnectivity { interface } => copy_name(interface),
            NetworkIssue::WifiDisconnected { interface } => copy_name(interface),
            NetworkIssue::DhcpFailed { interface } => copy_name(interface),
        }
    }
}

/// `[f(n)]` for a named interface, nothing otherwise.
pub open spec fn for_interface(o: Option<String>, f: spec_fn(String) -> FixType) -> Seq<FixType> {
    match o {
        Some(n) => seq![f(n)],
        None => seq![],
    }
}

/// The fixes an issue calls for, in the order they are suggested: a DNS
/// failure flushes the cache; latency and loss reset the interface; no
/// connectivity renews DHCP and resets the interface, then resets TCP/IP;
/// a WiFi drop reconnects; a DHCP failure renews.  Fixes that need an
/// interface are left out when the issue names none.
pub open spec fn issue_fixes(i: NetworkIssue) -> Seq<FixType> {
    match i {
        NetworkIssue::DnsResolutionFailed => seq![FixType::FlushDnsCache],
        NetworkIssue::HighLatency { interface } =>
            for_interface(interface, |n: String| FixType::ResetAdapter { interface: n }),
        NetworkIssue::PacketLoss { interface } =>
            for_interface(interface, |n: String| FixType::ResetAdapter { interface: n }),
        NetworkIssue::NoConnectivity { interface } =>
            for_interface(interface, |n: String| FixType::RenewDhcp { interface: n })
                + for_interface(interface, |n: String| FixType::ResetAdapter { interface: n })
                + seq![FixType::ResetTcpIp],
        NetworkIssue::WifiDisconnected { interface } =>
            for_interface(interface, |n: String| FixType::ReconnectWifi { interface: n }),
        NetworkIssue::DhcpFailed { interface } =>
            for_interface(interface, |n: String| FixType::RenewDhcp { interface: n }),
    }
}

/// The fixes for the issues, issue by issue.
pub open spec fn planned_fixes(issues: Seq<NetworkIssue>) -> Seq<FixType>
    decreases issues.len(),
{
    if issues.len() == 0 {
        seq![]
    } else {
        planned_fixes(issues.drop_last()) + issue_fixes(issues.last())
    }
}

/// The fixes of the given severity, in their order.
pub open spec fn with_severity(ts: Seq<FixType>, sev: FixSeverity) -> Seq<FixType>
    decreases ts.len(),
{
    if ts.len() == 0 {
        seq![]
    } else if standard_severity(ts.last()) == Some(sev) {
        with_severity(ts.drop_last(), sev).push(ts.last())
    } else {
        with_severity(ts.drop_last(), sev)
    }
}

/// The fixes sorted by severity, low first, keeping their order within a
/// severity (a stable sort).
pub open spec fn by_severity(ts: Seq<FixType>) -> Seq<FixType> {
    with_severity(ts, FixSeverity::Low) + with_severity(ts, FixSeverity::Medium)
        + with_severity(ts, FixSeverity::High) + with_severity(ts, FixSeverity::Critical)
}

/// The estimated time of a fix of the kind, in seconds.
pub open spec fn fix_time(t: FixType) -> nat {
    match t {
        FixType::FlushDnsCache => 1,
        FixType::SetDnsServers { .. } => 2,
        FixType::ResetAdapter { .. } => 10,
        FixType::ResetTcpIp => 5,
        FixType::ReconnectWifi { .. } => 15,
        FixType::RenewDhcp { .. } => 5,
        FixType::RestartNetworkService => 30,
        _ => 0,
    }
}

/// The estimated times of the fixes, added up.
pub open spec fn fix_times(ts: Seq<FixType>) -> nat
    decreases ts.len(),
{
    if ts.len() == 0 {
        0
    } else {
        fix_times(ts.drop_last()) + fix_time(ts.last())
    }
}

/// `acts` are the library's actions for the fixes `ts`, one for one.
pub open spec fn realizes(acts: Seq<FixAction>, ts: Seq<FixType>) -> bool {
    &&& acts.len() == ts.len()
    &&& forall|i: int| 0 <= i < acts.len() ==> (#[trigger] acts[i]).fix_type == ts[i] && standard_action(acts[i])
}

/// Selecting a severity commutes with concatenation.
proof fn with_severity_concat(a: Seq<FixType>, b: Seq<FixType>, sev: FixSeverity)
    ensures
        with_severity(a + b, sev) == with_severity(a, sev) + with_severity(b, sev),
    decreases b.len(),
{
    if b.len() == 0 {
        assert(a + b =~= a);
        assert(with_severity(b, sev) =~= Seq::<FixType>::empty());
        assert(with_severity(a, sev) + with_severity(b, sev) =~= with_severity(a, sev));
    } else {
        with_severity_concat(a, b.drop_last(), sev);
        assert((a + b).drop_last() =~= a + b.drop_last());
        assert((a + b).last() == b.last());
        if standard_severity(b.last()) == Some(sev) {
            assert(with_severity(a, sev) + with_severity(b.drop_last(), sev).push(b.last())
                =~= (with_severity(a, sev) + with_severity(b.drop_last(), sev)).push(b.last()));
        }
    }
}

/// Adding up times commutes with concatenation.
proof fn fix_times_concat(a: Seq<FixType>, b: Seq<FixType>)
    ensures
        fix_times(a + b) == fix_times(a) + fix_times(b),
    decreases b.len(),
{
    if b.len() == 0 {
        assert(a + b =~= a);
    } else {
        fix_times_concat(a, b.drop_last());
        assert((a + b).drop_last() =~= a + b.drop_last());
    }
}

/// Every planned fix is of a kind the library has a constructor for.
proof fn planned_are_standard(issues: Seq<NetworkIssue>)
    ensures
        forall|i: int| 0 <= i < planned_fixes(issues).len() ==> #[trigger] standard_severity(planned_fixes(issues)[i]) is Some,
    decreases issues.len(),
{
    if issues.len() > 0 {
        planned_are_standard(issues.drop_last());
        let p = planned_fixes(issues.drop_last());
        let f = issue_fixes(issues.last());
        assert forall|i: int| 0 <= i < planned_fixes(issues).len() implies #[trigger] standard_severity(planned_fixes(issues)[i]) is Some by {
            if i >= p.len() {
                assert(planned_fixes(issues)[i] == f[i - p.len()]);
            } else {
                assert(planned_fixes(issues)[i] == p[i]);
            }
        }
    }
}

/// Sorting by severity keeps the total time of fixes that all have one.
proof fn by_severity_time(ts: Seq<FixType>)
    requires
        forall|i: int| 0 <= i < ts.len() ==> #[trigger] standard_severity(ts[i]) is Some,
    ensures
        fix_times(by_severity(ts)) == fix_times(ts),
    decreases ts.len(),
{
    if ts.len() > 0 {
        let d = ts.drop_last();
        let t = ts.last();
        assert forall|i: int| 0 <= i < d.len() implies #[trigger] standard_severity(d[i]) is Some by {
            assert(d[i] == ts[i]);
        }
        by_severity_time(d);
        assert(standard_severity(ts[ts.len() - 1]) is Some);
        let l = with_severity(d, FixSeverity::Low);
        let m = with_severity(d, FixSeverity::Medium);
        let h = with_severity(d, FixSeverity::High);
        let c = with_severity(d, FixSeverity::Critical);
        fix_times_concat(l + m + h, c);
        fix_times_concat(l + m, h);
        fix_times_concat(l, m);
        let l2 = with_severity(ts, FixSeverity::Low);
        let m2 = with_severity(ts, FixSeverity::Medium);
        let h2 = with_severity(ts, FixSeverity::High);
        let c2 = with_severity(ts, FixSeverity::Critical);
        fix_times_concat(l2 + m2 + h2, c2);
        fix_times_concat(l2 + m2, h2);
        fix_times_concat(l2, m2);
        assert(fix_times(seq![t]) == fix_time(t)) by {
            reveal_with_fuel(fix_times, 2);
        }
        match standard_severity(t) {
            Some(FixSeverity::Low) => {
                assert(l2 =~= l + seq![t]);
                fix_times_concat(l, seq![t]);
            }
            Some(FixSeverity::Medium) => {
                assert(m2 =~= m + seq![t]);
                fix_times_concat(m, seq![t]);
            }
            Some(FixSeverity::High) => {
                assert(h2 =~= h + seq![t]);
                fix_times_concat(h, seq![t]);
            }
            Some(FixSeverity::Critical) => {
                assert(c2 =~= c + seq![t]);
                fix_times_concat(c, seq![t]);
            }
            None => {}
        }
        fix_times_concat(d, seq![t]);
        assert(d + seq![t] =~= ts);
    }
}

/// The total time of the library's actions for some fixes is the fixes'.
proof fn realizes_time(acts: Seq<FixAction>, ts: Seq<FixType>)
    requires
        realizes(acts, ts),
    ensures
        total_time(acts) == fix_times(ts),
    decreases acts.len(),
{
    if acts.len() > 0 {
        let n = acts.len() - 1;
        assert(acts[n].fix_type == ts[n] && standard_action(acts[n]));
        assert(realizes(acts.drop_last(), ts.drop_last()));
        realizes_time(acts.drop_last(), ts.drop_last());
    }
}

/// The kinds of fix an issue calls for.
fn fix_types_of(issue: &NetworkIssue) -> (r: Vec<FixType>)
    ensures
        r@ == issue_fixes(*issue),
{
    let mut v: Vec<FixType> = Vec::new();
    match issue {
        NetworkIssue::DnsResolutionFailed => {
            v.push(FixType::FlushDnsCache);
        }
        NetworkIssue::HighLatency { interface } | NetworkIssue::PacketLoss { interface } => {
            match interface {
                Some(n) => v.push(FixType::ResetAdapter { interface: n.clone() }),
                None => {}
            }
        }
        NetworkIssue::NoConnectivity { interface } => {
            match interface {
                Some(n) => {
                    v.push(FixType::RenewDhcp { interface: n.clone() });
                    v.push(FixType::ResetAdapter { interface: n.clone() });
                }
                None => {}
            }
            v.push(FixType::ResetTcpIp);
        }
        NetworkIssue::WifiDisconnected { interface } => {
            match interface {
                Some(n) => v.push(FixType::ReconnectWifi { interface: n.clone() }),
                None => {}
            }
        }
        NetworkIssue::DhcpFailed { interface } => {
            match interface {
                Some(n) => v.push(FixType::RenewDhcp { interface: n.clone() }),
                None => {}
            }
        }
    }
    assert(v@ =~= issue_fixes(*issue));
    v
}

/// The severity the library gives a kind of fix.
pub fn severity_of(t: &FixType) -> (r: Option<FixSeverity>)
    ensures
        r == standard_severity(*t),
{
    match t {
        FixType::FlushDnsCache => Some(FixSeverity::Low),
        FixType::SetDnsServers { .. } => Some(FixSeverity::Low),
        FixType::ResetAdapter { .. } => Some(FixSeverity::Medium),
        FixType::ResetTcpIp => Some(FixSeverity::High),
        FixType::ReconnectWifi { .. } => Some(FixSeverity::Medium),
        FixType::RenewDhcp { .. } => Some(FixSeverity::Medium),
        FixType::RestartNetworkService => Some(FixSeverity::High),
        _ => None,
    }
}

/// The library's action for a kind of fix, when it has a constructor for
/// that kind.
pub fn action_for(t: FixType) -> (r: Option<FixAction>)
    ensures
        match r {
            Some(a) => a.fix_type == t && standard_action(a),
            None => standard_severity(t) is None,
        },
{
    match t {
        FixType::FlushDnsCache => Some(FixAction::flush_dns_cache()),
        FixType::SetDnsServers { interface, servers } => Some(FixAction::change_dns_servers(interface, servers)),
        FixType::ResetAdapter { interface } => Some(FixAction::reset_adapter(interface)),
        FixType::ResetTcpIp => Some(FixAction::reset_tcp_ip()),
        FixType::ReconnectWifi { interface } => Some(FixAction::reconnect_wifi(interface)),
        FixType::RenewDhcp { interface } => Some(FixAction::renew_dhcp(interface)),
        FixType::RestartNetworkService => Some(FixAction::restart_network_service()),
        _ => None,
    }
}

/// Appends the actions an issue calls for at one severity.
fn push_issue_fixes(out: &mut Vec<FixAction>, issue: &NetworkIssue, sev: FixSeverity, Ghost(done): Ghost<Seq<FixType>>)
    requires
        realizes(old(out)@, done),
    ensures
        realizes(final(out)@, done + with_severity(issue_fixes(*issue), sev)),
{
    let ts = fix_types_of(issue);
    let ghost all = ts@;
    let mut rest = ts;
    let mut k: usize = 0;
    assert(all.take(0) =~= Seq::<FixType>::empty());
    assert(done + with_severity(all.take(0), sev) =~= done);
    while rest.len() > 0
        invariant
            all.len() <= usize::MAX,
            k + rest@.len() == all.len(),
            rest@ == all.skip(k as int),
            realizes(out@, done + with_severity(all.take(k as int), sev)),
        decreases rest@.len(),
    {
        let t = rest.remove(0);
        assert(rest@ =~= all.skip(k + 1));
        assert(t == all[k as int]);
        assert(all.take(k + 1).drop_last() =~= all.take(k as int));
        let keep = match severity_of(&t) {
            Some(s) => s == sev,
            None => false,
        };
        if keep {
            let ghost before = out@;
            match action_for(t) {
                Some(a) => {
                    out.push(a);
                    assert(done + with_severity(all.take(k + 1), sev)
                        =~= (done + with_severity(all.take(k as int), sev)).push(all[k as int]));
                    assert(realizes(out@, done + with_severity(all.take(k + 1), sev))) by {
                        let target = done + with_severity(all.take(k + 1), sev);
                        assert forall|i: int| 0 <= i < out@.len() implies (#[trigger] out@[i]).fix_type == target[i] && standard_action(out@[i]) by {
                            if i < before.len() {
                                assert(out@[i] == before[i]);
                            }
                        }
                    }
                }
                None => {}
            }
        } else {
            assert(with_severity(all.take(k + 1), sev) == with_severity(all.take(k as int), sev));
        }
        k = k + 1;
    }
    assert(all.take(k as int) =~= all);
}

/// The fixes of all the issues at one severity, issue by issue.
pub open spec fn severity_pass(issues: Seq<NetworkIssue>, sev: FixSeverity) -> Seq<FixType>
    decreases issues.len(),
{
    if issues.len() == 0 {
        seq![]
    } else {
        severity_pass(issues.drop_last(), sev) + with_severity(issue_fixes(issues.last()), sev)
    }
}

/// Going issue by issue at one severity gives the planned fixes of that
/// severity.
proof fn severity_pass_is_selection(issues: Seq<NetworkIssue>, sev: FixSeverity)
    ensures
        severity_pass(issues, sev) == with_severity(planned_fixes(issues), sev),
    decreases issues.len(),
{
    if issues.len() > 0 {
        severity_pass_is_selection(issues.drop_last(), sev);
        with_severity_concat(planned_fixes(issues.drop_last()), issue_fixes(issues.last()), sev);
    }
}

/// Appends the actions of all the issues at one severity.
fn push_severity(out: &mut Vec<FixAction>, issues: &Vec<NetworkIssue>, sev: FixSeverity, Ghost(done): Ghost<Seq<FixType>>)
    requires
        realizes(old(out)@, done),
    ensures
        realizes(final(out)@, done + with_severity(planned_fixes(issues@), sev)),
{
    let mut k: usize = 0;
    assert(issues@.take(0) =~= Seq::<NetworkIssue>::empty());
    assert(done + severity_pass(issues@.take(0), sev) =~= done);
    while k < issues.len()
        invariant
            k <= issues@.len(),
            realizes(out@, done + severity_pass(issues@.take(k as int), sev)),
        decreases issues@.len() - k,
    {
        let ghost so_far = done + severity_pass(issues@.take(k as int), sev);
        push_issue_fixes(out, &issues[k], sev, Ghost(so_far));
        assert(issues@.take(k + 1).drop_last() =~= issues@.take(k as int));
        assert(so_far + with_severity(issue_fixes(issues@[k as int]), sev)
            =~= done + severity_pass(issues@.take(k + 1), sev));
        k = k + 1;
    }
    assert(issues@.take(issues@.len() as int) =~= issues@);
    proof { severity_pass_is_selection(issues@, sev); }
}

/// Plans fixes based on detected issues: the fixes each issue calls for,
/// sorted by severity (low first), keeping the issues' order within a
/// severity.  The estimated times must add up within `u32`.
pub fn plan_fixes(issues: &Vec<NetworkIssue>) -> (plan: FixPlan)
    requires
        fix_times(planned_fixes(issues@)) <= u32::MAX,
    ensures
        realizes(plan.actions@, by_severity(planned_fixes(issues@))),
        plan.estimated_total_time_secs == fix_times(planned_fixes(issues@)),
        !plan.dry_run,
{
    let ghost ts = planned_fixes(issues@);
    let mut actions: Vec<FixAction> = Vec::new();
    assert(realizes(actions@, Seq::<FixType>::empty()));
    push_severity(&mut actions, issues, FixSeverity::Low, Ghost(Seq::<FixType>::empty()));
    assert(Seq::<FixType>::empty() + with_severity(ts, FixSeverity::Low) =~= with_severity(ts, FixSeverity::Low));
    push_severity(&mut actions, issues, FixSeverity::Medium, Ghost(with_severity(ts, FixSeverity::Low)));
    push_severity(&mut actions, issues, FixSeverity::High,
        Ghost(with_severity(ts, FixSeverity::Low) + with_severity(ts, FixSeverity::Medium)));
    push_severity(&mut actions, issues, FixSeverity::Critical,
        Ghost(with_severity(ts, FixSeverity::Low) + with_severity(ts, FixSeverity::Medium) + with_severity(ts, FixSeverity::High)));
    proof {
        realizes_time(actions@, by_severity(ts));
        planned_are_standard(issues@);
        by_severity_time(ts);
    }
    FixPlan::new(actions, false)
}

/// The state of an interface as the prerequisite and verification checks
/// read it.
#[derive(Debug)]
pub struct InterfaceStatus {
    /// Interface name.
    pub name: String,
    /// Whether it is up.
    pub is_up: bool,
    /// Whether it has an IPv4 address.
    pub has_ipv4: bool,
}

/// Some interface is up.
pub open spec fn any_up(ifaces: Seq<InterfaceStatus>) -> bool {
    exists|i: int| 0 <= i < ifaces.len() && (#[trigger] ifaces[i]).is_up
}

/// Some interface has the name.
pub open spec fn has_interface(ifaces: Seq<InterfaceStatus>, name: Seq<char>) -> bool {
    exists|i: int| 0 <= i < ifaces.len() && (#[trigger] ifaces[i]).name@ == name
}

/// What one prerequisite lacks, given whether the process is privileged
/// and the interface list (none when it could not be read).
pub open spec fn prerequisite_gap(p: FixPrerequisite, privileged: bool, ifaces: Option<Seq<InterfaceStatus>>) -> Seq<Seq<char>> {
    match p {
        FixPrerequisite::AdminPrivileges => if privileged {
            seq![]
        } else {
            seq!["Administrator/root privileges required"@]
        },
        FixPrerequisite::RebootMayBeRequired => seq![],
        FixPrerequisite::NetworkConnection => match ifaces {
            Some(l) => if any_up(l) { seq![] } else { seq!["No network interface is up"@] },
            None => seq!["Could not check network interfaces"@],
        },
        FixPrerequisite::InterfaceExists(n) => match ifaces {
            Some(l) => if has_interface(l, n@) {
                seq![]
            } else {
                seq!["Interface "@ + n@ + " not found"@]
            },
            None => seq!["Could not verify interface "@ + n@],
        },
    }
}

/// What the prerequisites lack, in their order.
pub open spec fn prerequisite_gaps(ps: Seq<FixPrerequisite>, privileged: bool, ifaces: Option<Seq<InterfaceStatus>>) -> Seq<Seq<char>>
    decreases ps.len(),
{
    if ps.len() == 0 {
        seq![]
    } else {
        prerequisite_gaps(ps.drop_last(), privileged, ifaces) + prerequisite_gap(ps.last(), privileged, ifaces)
    }
}

/// The interface list as a sequence, if read.
pub open spec fn listed_interfaces(ifaces: Option<Vec<InterfaceStatus>>) -> Option<Seq<InterfaceStatus>> {
    match ifaces {
        Some(v) => Some(v@),
        None => None,
    }
}

/// Whether some interface is up.
fn some_interface_up(l: &Vec<InterfaceStatus>) -> (r: bool)
    ensures
        r == any_up(l@),
{
    let mut i: usize = 0;
    while i < l.len()
        invariant
            i <= l@.len(),
            forall|j: int| 0 <= j < i ==> !(#[trigger] l@[j]).is_up,
        decreases l@.len() - i,
    {
        if l[i].is_up {
            return true;
        }
        i = i + 1;
    }
    false
}

/// The position of the first interface with the name.
fn find_interface(l: &Vec<InterfaceStatus>, name: &str) -> (r: Option<usize>)
    ensures
        match r {
            Some(i) => i < l@.len() && l@[i as int].name@ == name@
                && forall|j: int| 0 <= j < i ==> (#[trigger] l@[j]).name@ != name@,
            None => !has_interface(l@, name@),
        },
{
    let mut i: usize = 0;
    while i < l.len()
        invariant
            i <= l@.len(),
            forall|j: int| 0 <= j < i ==> (#[trigger] l@[j]).name@ != name@,
        decreases l@.len() - i,
    {
        if str_eq(l[i].name.as_str(), name) {
            return Some(i);
        }
        i = i + 1;
    }
    None
}

/// Checks which prerequisites of an action are missing, given whether the
/// process runs privileged and the interface list as read (none when it
/// could not be read); reboot notices never block.
pub fn check_prerequisites(action: &FixAction, privileged: bool, interfaces: &Option<Vec<InterfaceStatus>>) -> (missing: Vec<String>)
    ensures
        views(missing@) == prerequisite_gaps(action.prerequisites@, privileged, listed_interfaces(*interfaces)),
{
    let ps = &action.prerequisites;
    let ghost li = listed_interfaces(*interfaces);
    let mut missing: Vec<String> = Vec::new();
    let mut k: usize = 0;
    assert(views(missing@) =~= prerequisite_gaps(ps@.take(0), privileged, li));
    while k < ps.len()
        invariant
            k <= ps@.len(),
            li == listed_interfaces(*interfaces),
            views(missing@) == prerequisite_gaps(ps@.take(k as int), privileged, li),
        decreases ps@.len() - k,
    {
        let ghost before = views(missing@);
        assert(ps@.take(k + 1).drop_last() =~= ps@.take(k as int));
        match &ps[k] {
            FixPrerequisite::AdminPrivileges => {
                if !privileged {
                    missing.push(str_to_string("Administrator/root privileges required"));
                }
            }
            FixPrerequisite::RebootMayBeRequired => {}
            FixPrerequisite::NetworkConnection => {
                match interfaces {
                    Some(l) => {
                        if !some_interface_up(l) {
                            missing.push(str_to_string("No network interface is up"));
                        }
                    }
                    None => {
                        missing.push(str_to_string("Could not check network interfaces"));
                    }
                }
            }
            FixPrerequisite::InterfaceExists(name) => {
                match interfaces {
                    Some(l) => {
                        if find_interface(l, name.as_str()).is_none() {
                            let mut m = str_to_string("Interface ");
                            m.append(name.as_str());
                            m.append(" not found");
                            missing.push(m);
                        }
                    }
                    None => {
                        let mut m = str_to_string("Could not verify interface ");
                        m.append(name.as_str());
                        missing.push(m);
                    }
                }
            }
        }
        assert(views(missing@) =~= before + prerequisite_gap(ps@[k as int], privileged, li));
        k = k + 1;
    }
    assert(ps@.take(ps@.len() as int) =~= ps@);
    missing
}

/// The error text of a skipped action: "Missing prerequisites: " and the
/// gaps separated by commas.
pub fn missing_prerequisites_message(missing: &Vec<String>) -> (m: String)
    ensures
        m@ == "Missing prerequisites: "@ + joined(views(missing@), ", "@),
{
    let mut m = str_to_string("Missing prerequisites: ");
    push_joined(&mut m, missing, ", ");
    m
}

/// The record of an action skipped for missing prerequisites.
pub fn prerequisite_failure(action_id: u128, missing: &Vec<String>) -> (r: FixResult)
    ensures
        r.action_id == action_id,
        !r.success,
        r.duration_ms == 0,
        r.error matches Some(e) && e@ == "Missing prerequisites: "@ + joined(views(missing@), ", "@),
        r.message is None,
        r.verification_passed is None,
        r.rollback_id is None,
{
    FixResult::failure(action_id, 0, missing_prerequisites_message(missing))
}

/// The record of an action in a dry run: a success that applied nothing.
pub fn dry_run_result(action_id: u128) -> (r: FixResult)
    ensures
        r.action_id == action_id,
        r.success,
        r.duration_ms == 0,
        r.message matches Some(m) && m@ == "Dry run - not applied"@,
        r.error is None,
        r.verification_passed is None,
        r.rollback_id is None,
{
    FixResult::success(action_id, 0, Some(str_to_string("Dry run - not applied")))
}

/// A rollback point is taken before an action when the action can be
/// undone and rollback is enabled.
pub fn wants_rollback_point(action: &FixAction, config: &AutofixConfig) -> (r: bool)
    ensures
        r == (action.reversible && config.enable_rollback),
{
    action.reversible && config.enable_rollback
}

/// A fix is verified when it succeeded and verification is enabled.
pub fn wants_verification(result: &FixResult, config: &AutofixConfig) -> (r: bool)
    ensures
        r == (result.success && config.verify_fixes),
{
    result.success && config.verify_fixes
}

/// Records a verification outcome: a failed verification turns the result
/// into a failure.
pub fn apply_verification(result: FixResult, verified: bool) -> (r: FixResult)
    ensures
        r.verification_passed == Some(verified),
        r.action_id == result.action_id,
        r.applied_at == result.applied_at,
        r.duration_ms == result.duration_ms,
        r.message == result.message,
        r.rollback_id == result.rollback_id,
        verified ==> r.success == result.success && r.error == result.error,
        !verified ==> !r.success && (r.error matches Some(e) && e@ == "Verification failed after applying fix"@),
{
    let mut r = result;
    r.verification_passed = Some(verified);
    if !verified {
        r.success = false;
        r.error = Some(str_to_string("Verification failed after applying fix"));
    }
    r
}

/// How a fix is checked after it is applied.
#[derive(Debug)]
pub enum VerifyCheck {
    /// A well-known name must resolve.
    DnsResolution,
    /// The interface must be up.
    InterfaceUp(String),
    /// The interface must have an IPv4 address.
    HasAddress(String),
    /// Nothing to check: the fix counts as verified.
    Assumed,
}

/// The check for a kind of fix.
pub open spec fn check_for(t: FixType) -> VerifyCheck {
    match t {
        FixType::FlushDnsCache => VerifyCheck::DnsResolution,
        FixType::SetDnsServers { .. } => VerifyCheck::DnsResolution,
        FixType::ResetAdapter { interface } => VerifyCheck::InterfaceUp(interface),
        FixType::ReconnectWifi { interface } => VerifyCheck::InterfaceUp(interface),
        FixType::RenewDhcp { interface } => VerifyCheck::HasAddress(interface),
        _ => VerifyCheck::Assumed,
    }
}

/// How a fix of the kind is checked after it is applied.
pub fn verification_for(t: &FixType) -> (c: VerifyCheck)
    ensures
        c == check_for(*t),
{
    match t {
        FixType::FlushDnsCache | FixType::SetDnsServers { .. } => VerifyCheck::DnsResolution,
        FixType::ResetAdapter { interface } => VerifyCheck::InterfaceUp(interface.clone()),
        FixType::ReconnectWifi { interface } => VerifyCheck::InterfaceUp(interface.clone()),
        FixType::RenewDhcp { interface } => VerifyCheck::HasAddress(interface.clone()),
        _ => VerifyCheck::Assumed,
    }
}

/// The first interface with the name, if any.
pub open spec fn first_named(l: Seq<InterfaceStatus>, name: Seq<char>) -> Option<InterfaceStatus>
    decreases l.len(),
{
    if l.len() == 0 {
        None
    } else if l[0].name@ == name {
        Some(l[0])
    } else {
        first_named(l.drop_first(), name)
    }
}

/// Whether a check passes, given whether the name resolved and the
/// interface list as read (none when it could not be read).
pub open spec fn check_passes(c: VerifyCheck, resolved: bool, ifaces: Option<Seq<InterfaceStatus>>) -> bool {
    match c {
        VerifyCheck::DnsResolution => resolved,
        VerifyCheck::InterfaceUp(n) => match ifaces {
            Some(l) => match first_named(l, n@) { Some(i) => i.is_up, None => false },
            None => false,
        },
        VerifyCheck::HasAddress(n) => match ifaces {
            Some(l) => match first_named(l, n@) { Some(i) => i.has_ipv4, None => false },
            None => false,
        },
        VerifyCheck::Assumed => true,
    }
}

/// The first interface with the name is the one `find_interface` finds.
proof fn first_named_found(l: Seq<InterfaceStatus>, name: Seq<char>, i: int)
    requires
        0 <= i < l.len(),
        l[i].name@ == name,
        forall|j: int| 0 <= j < i ==> (#[trigger] l[j]).name@ != name,
    ensures
        first_named(l, name) == Some(l[i]),
    decreases i,
{
    if i > 0 {
        assert forall|j: int| 0 <= j < i - 1 implies (#[trigger] l.drop_first()[j]).name@ != name by {
            assert(l.drop_first()[j] == l[j + 1]);
        }
        first_named_found(l.drop_first(), name, i - 1);
    }
}

/// No interface with the name means none is found.
proof fn first_named_absent(l: Seq<InterfaceStatus>, name: Seq<char>)
    requires
        !has_interface(l, name),
    ensures
        first_named(l, name) is None,
    decreases l.len(),
{
    if l.len() > 0 {
        assert(l[0].name@ != name);
        assert(!has_interface(l.drop_first(), name)) by {
            if has_interface(l.drop_first(), name) {
                let j = choose|j: int| 0 <= j < l.drop_first().len() && (#[trigger] l.drop_first()[j]).name@ == name;
                assert(l[j + 1] == l.drop_first()[j]);
            }
        }
        first_named_absent(l.drop_first(), name);
    }
}

/// Whether a fix passed its check.
pub fn check_result(c: &VerifyCheck, resolved: bool, interfaces: &Option<Vec<InterfaceStatus>>) -> (r: bool)
    ensures
        r == check_passes(*c, resolved, listed_interfaces(*interfaces)),
{
    match c {
        VerifyCheck::DnsResolution => resolved,
        VerifyCheck::InterfaceUp(n) => match interfaces {
            Some(l) => match find_interface(l, n.as_str()) {
                Some(i) => {
                    proof { first_named_found(l@, n@, i as int); }
                    l[i].is_up
                }
                None => {
                    proof { first_named_absent(l@, n@); }
                    false
                }
            },
            None => false,
        },
        VerifyCheck::HasAddress(n) => match interfaces {
            Some(l) => match find_interface(l, n.as_str()) {
                Some(i) => {
                    proof { first_named_found(l@, n@, i as int); }
                    l[i].has_ipv4
                }
                None => {
                    proof { first_named_absent(l@, n@); }
                    false
                }
            },
            None => false,
        },
        VerifyCheck::Assumed => true,
    }
}

/// The record of an applied action: a success with the fix's message, or
/// a failure with the error's text.
pub fn action_result(action_id: u128, duration_ms: u64, outcome: Result<Option<String>, AutofixError>) -> (r: FixResult)
    ensures
        r.action_id == action_id,
        r.duration_ms == duration_ms,
        r.verification_passed is None,
        r.rollback_id is None,
        match outcome {
            Ok(m) => r.success && r.message == m && r.error is None,
            Err(e) => !r.success && r.message is None && (r.error matches Some(t) && t@ == error_text(e)),
        },
{
    match outcome {
        Ok(m) => FixResult::success(action_id, duration_ms, m),
        Err(e) => FixResult::failure(action_id, duration_ms, e.to_display_string()),
    }
}

/// How an auto-fix error reads.
pub open spec fn error_text(e: AutofixError) -> Seq<char> {
    match e {
        AutofixError::Io(m) => "IO error: "@ + m@,
        AutofixError::FixFailed { message } => "Fix failed: "@ + message@,
        AutofixError::RollbackFailed { message } => "Rollback failed: "@ + message@,
        AutofixError::RollbackNotFound { id } => "Rollback point not found: "@ + id@,
        AutofixError::PermissionDenied { message } => "Permission denied: "@ + message@,
        AutofixError::NotSupported { feature } => "Not supported on this platform: "@ + feature@,
        AutofixError::VerificationFailed { message } => "Verification failed: "@ + message@,
        AutofixError::Serialization(m) => "Serialization error: "@ + m@,
        AutofixError::Platform(m) => "Platform error: "@ + m@,
    }
}

impl AutofixError {
    /// The error as text.
    pub fn to_display_string(&self) -> (r: String)
        ensures
            r@ == error_text(*self),
    {
        let (prefix, text) = match self {
            AutofixError::Io(m) => ("IO error: ", m),
            AutofixError::FixFailed { message } => ("Fix failed: ", message),
            AutofixError::RollbackFailed { message } => ("Rollback failed: ", message),
            AutofixError::RollbackNotFound { id } => ("Rollback point not found: ", id),
            AutofixError::PermissionDenied { message } => ("Permission denied: ", message),
            AutofixError::NotSupported { feature } => ("Not supported on this platform: ", feature),
            AutofixError::VerificationFailed { message } => ("Verification failed: ", message),
            AutofixError::Serialization(m) => ("Serialization error: ", m),
            AutofixError::Platform(m) => ("Platform error: ", m),
        };
        let mut r = str_to_string(prefix);
        r.append(text.as_str());
        r
    }
}

/// The order of severities: low, medium, high, critical.
pub open spec fn severity_rank(s: FixSeverity) -> nat {
    match s {
        FixSeverity::Low => 0,
        FixSeverity::Medium => 1,
        FixSeverity::High => 2,
        FixSeverity::Critical => 3,
    }
}

/// Every fix selected at a severity has that severity.
proof fn with_severity_members(ts: Seq<FixType>, sev: FixSeverity)
    ensures
        forall|i: int| 0 <= i < with_severity(ts, sev).len() ==> #[trigger] standard_severity(with_severity(ts, sev)[i]) == Some(sev),
    decreases ts.len(),
{
    if ts.len() > 0 {
        with_severity_members(ts.drop_last(), sev);
    }
}

/// A plan never puts a fix before one of lower severity: the actions come
/// low first, then medium, high and critical.
pub proof fn plan_is_ordered_by_severity(issues: Seq<NetworkIssue>, i: int, j: int)
    requires
        0 <= i < j < by_severity(planned_fixes(issues)).len(),
    ensures
        severity_rank(standard_severity(by_severity(planned_fixes(issues))[i]).unwrap())
            <= severity_rank(standard_severity(by_severity(planned_fixes(issues))[j]).unwrap()),
{
    let ts = planned_fixes(issues);
    let l = with_severity(ts, FixSeverity::Low);
    let m = with_severity(ts, FixSeverity::Medium);
    let h = with_severity(ts, FixSeverity::High);
    let c = with_severity(ts, FixSeverity::Critical);
    with_severity_members(ts, FixSeverity::Low);
    with_severity_members(ts, FixSeverity::Medium);
    with_severity_members(ts, FixSeverity::High);
    with_severity_members(ts, FixSeverity::Critical);
    let b = by_severity(ts);
    let rank_at = |x: int| if x < l.len() { 0int } else if x < l.len() + m.len() { 1int }
        else if x < l.len() + m.len() + h.len() { 2int } else { 3int };
    assert forall|x: int| 0 <= x < b.len() implies severity_rank(standard_severity(#[trigger] b[x]).unwrap()) == rank_at(x) by {
        if x < l.len() {
            assert(b[x] == l[x]);
        } else if x < l.len() + m.len() {
            assert(b[x] == m[x - l.len()]);
        } else if x < l.len() + m.len() + h.len() {
            assert(b[x] == h[x - l.len() - m.len()]);
        } else {
            assert(b[x] == c[x - l.len() - m.len() - h.len()]);
        }
    }
    assert(severity_rank(standard_severity(b[i]).unwrap()) == rank_at(i));
    assert(severity_rank(standard_severity(b[j]).unwrap()) == rank_at(j));
}

/// The fixes of each severity together are all the fixes, when each has a
/// severity.
proof fn with_severity_lengths(ts: Seq<FixType>)
    requires
        forall|i: int| 0 <= i < ts.len() ==> #[trigger] standard_severity(ts[i]) is Some,
    ensures
        with_severity(ts, FixSeverity::Low).len() + with_severity(ts, FixSeverity::Medium).len()
            + with_severity(ts, FixSeverity::High).len() + with_severity(ts, FixSeverity::Critical).len() == ts.len(),
    decreases ts.len(),
{
    if ts.len() > 0 {
        let d = ts.drop_last();
        assert forall|i: int| 0 <= i < d.len() implies #[trigger] standard_severity(d[i]) is Some by {
            assert(d[i] == ts[i]);
        }
        with_severity_lengths(d);
        assert(standard_severity(ts[ts.len() - 1]) is Some);
    }
}

/// A plan keeps every fix its issues call for: sorting by severity drops
/// none and adds none.
pub proof fn plan_keeps_every_fix(issues: Seq<NetworkIssue>)
    ensures
        by_severity(planned_fixes(issues)).len() == planned_fixes(issues).len(),
{
    planned_are_standard(issues);
    with_severity_lengths(planned_fixes(issues));
}

/// The fixes of a severity are among the fixes.
proof fn with_severity_from(ts: Seq<FixType>, sev: FixSeverity)
    ensures
        forall|i: int| 0 <= i < with_severity(ts, sev).len() ==> ts.contains(#[trigger] with_severity(ts, sev)[i]),
    decreases ts.len(),
{
    if ts.len() > 0 {
        let d = ts.drop_last();
        with_severity_from(d, sev);
        assert forall|i: int| 0 <= i < with_severity(ts, sev).len() implies ts.contains(#[trigger] with_severity(ts, sev)[i]) by {
            if i < with_severity(d, sev).len() {
                assert(with_severity(ts, sev)[i] == with_severity(d, sev)[i]);
                let j = choose|j: int| 0 <= j < d.len() && d[j] == with_severity(d, sev)[i];
                assert(ts[j] == d[j]);
            } else {
                assert(ts[ts.len() - 1] == ts.last());
            }
        }
    }
}

/// No issue calls for changing the DNS servers.
proof fn planned_never_set_dns(issues: Seq<NetworkIssue>)
    ensures
        forall|i: int| 0 <= i < planned_fixes(issues).len() ==> !(#[trigger] planned_fixes(issues)[i] is SetDnsServers),
    decreases issues.len(),
{
    if issues.len() > 0 {
        planned_never_set_dns(issues.drop_last());
        let p = planned_fixes(issues.drop_last());
        let f = issue_fixes(issues.last());
        assert forall|i: int| 0 <= i < planned_fixes(issues).len() implies !(#[trigger] planned_fixes(issues)[i] is SetDnsServers) by {
            if i >= p.len() {
                assert(planned_fixes(issues)[i] == f[i - p.len()]);
            } else {
                assert(planned_fixes(issues)[i] == p[i]);
            }
        }
    }
}

/// A plan never changes the DNS servers: no issue calls for it.
pub proof fn plan_never_sets_dns_servers(issues: Seq<NetworkIssue>, i: int)
    requires
        0 <= i < by_severity(planned_fixes(issues)).len(),
    ensures
        !(by_severity(planned_fixes(issues))[i] is SetDnsServers),
{
    let ts = planned_fixes(issues);
    planned_never_set_dns(issues);
    let l = with_severity(ts, FixSeverity::Low);
    let m = with_severity(ts, FixSeverity::Medium);
    let h = with_severity(ts, FixSeverity::High);
    let c = with_severity(ts, FixSeverity::Critical);
    with_severity_from(ts, FixSeverity::Low);
    with_severity_from(ts, FixSeverity::Medium);
    with_severity_from(ts, FixSeverity::High);
    with_severity_from(ts, FixSeverity::Critical);
    let b = by_severity(ts);
    let x = b[i];
    if i < l.len() {
        assert(x == l[i]);
    } else if i < l.len() + m.len() {
        assert(x == m[i - l.len()]);
    } else if i < l.len() + m.len() + h.len() {
        assert(x == h[i - l.len() - m.len()]);
    } else {
        assert(x == c[i - l.len() - m.len() - h.len()]);
    }
    assert(ts.contains(x));
    let j = choose|j: int| 0 <= j < ts.len() && ts[j] == x;
    assert(!(ts[j] is SetDnsServers));
}

/// How many fixes an issue calls for: one for a DNS failure; three for
/// lost connectivity on a named interface, one without; one for any other
/// issue on a named interface, none without.
pub open spec fn fix_count(i: NetworkIssue) -> nat {
    match i {
        NetworkIssue::DnsResolutionFailed => 1,
        NetworkIssue::NoConnectivity { interface } => if interface is Some { 3 } else { 1 },
        NetworkIssue::HighLatency { interface } => if interface is Some { 1 } else { 0 },
        NetworkIssue::PacketLoss { interface } => if interface is Some { 1 } else { 0 },
        NetworkIssue::WifiDisconnected { interface } => if interface is Some { 1 } else { 0 },
        NetworkIssue::DhcpFailed { interface } => if interface is Some { 1 } else { 0 },
    }
}

/// The fix counts of the issues, added up.
pub open spec fn fix_counts(issues: Seq<NetworkIssue>) -> nat
    decreases issues.len(),
{
    if issues.len() == 0 { 0 } else { fix_counts(issues.drop_last()) + fix_count(issues.last()) }
}

/// A plan has one action per fix its issues call for, counted issue by
/// issue.
pub proof fn plan_size(issues: Seq<NetworkIssue>)
    ensures
        by_severity(planned_fixes(issues)).len() == fix_counts(issues),
{
    plan_keeps_every_fix(issues);
    planned_count(issues);
}

/// The fixes of the issues number their fix counts.
proof fn planned_count(issues: Seq<NetworkIssue>)
    ensures
        planned_fixes(issues).len() == fix_counts(issues),
    decreases issues.len(),
{
    if issues.len() > 0 {
        planned_count(issues.drop_last());
        assert(issue_fixes(issues.last()).len() == fix_count(issues.last()));
    }
}

/// A fix of one issue is among the fixes of all the issues.
proof fn planned_holds_issue_fix(issues: Seq<NetworkIssue>, k: int, f: FixType)
    requires
        0 <= k < issues.len(),
        issue_fixes(issues[k]).contains(f),
    ensures
        planned_fixes(issues).contains(f),
    decreases issues.len(),
{
    let d = issues.drop_last();
    let p = planned_fixes(d);
    let q = issue_fixes(issues.last());
    assert(planned_fixes(issues) == p + q);
    if k == issues.len() - 1 {
        let j = choose|j: int| 0 <= j < q.len() && q[j] == f;
        assert((p + q)[p.len() + j] == f);
    } else {
        assert(d[k] == issues[k]);
        planned_holds_issue_fix(d, k, f);
        let j = choose|j: int| 0 <= j < p.len() && p[j] == f;
        assert((p + q)[j] == f);
    }
}

/// A fix is among the fixes of its severity.
proof fn with_severity_holds(ts: Seq<FixType>, f: FixType, sev: FixSeverity)
    requires
        ts.contains(f),
        standard_severity(f) == Some(sev),
    ensures
        with_severity(ts, sev).contains(f),
    decreases ts.len(),
{
    let d = ts.drop_last();
    if ts.last() == f {
        let w = with_severity(ts, sev);
        assert(w[w.len() - 1] == f);
    } else {
        let j = choose|j: int| 0 <= j < ts.len() && ts[j] == f;
        assert(j < ts.len() - 1);
        assert(d[j] == f);
        with_severity_holds(d, f, sev);
        let w = with_severity(d, sev);
        let i = choose|i: int| 0 <= i < w.len() && w[i] == f;
        if standard_severity(ts.last()) == Some(sev) {
            assert(w.push(ts.last())[i] == f);
        }
    }
}

/// A fix the issues call for is in their plan.
proof fn plan_holds_fix(issues: Seq<NetworkIssue>, k: int, f: FixType)
    requires
        0 <= k < issues.len(),
        issue_fixes(issues[k]).contains(f),
        standard_severity(f) is Some,
    ensures
        by_severity(planned_fixes(issues)).contains(f),
{
    let ts = planned_fixes(issues);
    planned_holds_issue_fix(issues, k, f);
    let sev = standard_severity(f).unwrap();
    with_severity_holds(ts, f, sev);
    let l = with_severity(ts, FixSeverity::Low);
    let m = with_severity(ts, FixSeverity::Medium);
    let h = with_severity(ts, FixSeverity::High);
    let c = with_severity(ts, FixSeverity::Critical);
    let b = by_severity(ts);
    assert(b == l + m + h + c);
    let w = with_severity(ts, sev);
    let i = choose|i: int| 0 <= i < w.len() && w[i] == f;
    match sev {
        FixSeverity::Low => { assert(b[i] == f); }
        FixSeverity::Medium => { assert(b[l.len() + i] == f); }
        FixSeverity::High => { assert(b[l.len() + m.len() + i] == f); }
        FixSeverity::Critical => { assert(b[l.len() + m.len() + h.len() + i] == f); }
    }
}

/// Each issue gets the fixes made for it, on the interface it names: a
/// DNS failure a cache flush; high latency or packet loss an adapter
/// reset; lost connectivity a DHCP renewal and an adapter reset, and in
/// any case a TCP/IP reset; a WiFi drop a reconnect; a DHCP failure a
/// lease renewal.
pub proof fn plan_answers_each_issue(issues: Seq<NetworkIssue>, k: int)
    requires
        0 <= k < issues.len(),
    ensures
        issues[k] is DnsResolutionFailed ==> by_severity(planned_fixes(issues)).contains(FixType::FlushDnsCache),
        issues[k] matches NetworkIssue::HighLatency { interface: Some(n) }
            ==> by_severity(planned_fixes(issues)).contains(FixType::ResetAdapter { interface: n }),
        issues[k] matches NetworkIssue::PacketLoss { interface: Some(n) }
            ==> by_severity(planned_fixes(issues)).contains(FixType::ResetAdapter { interface: n }),
        issues[k] matches NetworkIssue::NoConnectivity { interface: Some(n) }
            ==> by_severity(planned_fixes(issues)).contains(FixType::RenewDhcp { interface: n })
                && by_severity(planned_fixes(issues)).contains(FixType::ResetAdapter { interface: n }),
        issues[k] is NoConnectivity ==> by_severity(planned_fixes(issues)).contains(FixType::ResetTcpIp),
        issues[k] matches NetworkIssue::WifiDisconnected { interface: Some(n) }
            ==> by_severity(planned_fixes(issues)).contains(FixType::ReconnectWifi { interface: n }),
        issues[k] matches NetworkIssue::DhcpFailed { interface: Some(n) }
            ==> by_severity(planned_fixes(issues)).contains(FixType::RenewDhcp { interface: n }),
{
    let fs = issue_fixes(issues[k]);
    match issues[k] {
        NetworkIssue::DnsResolutionFailed => {
            assert(fs[0] == FixType::FlushDnsCache);
            plan_holds_fix(issues, k, FixType::FlushDnsCache);
        }
        NetworkIssue::HighLatency { interface } => {
            if let Some(n) = interface {
                assert(fs[0] == FixType::ResetAdapter { interface: n });
                plan_holds_fix(issues, k, FixType::ResetAdapter { interface: n });
            }
        }
        NetworkIssue::PacketLoss { interface } => {
            if let Some(n) = interface {
                assert(fs[0] == FixType::ResetAdapter { interface: n });
                plan_holds_fix(issues, k, FixType::ResetAdapter { interface: n });
            }
        }
        NetworkIssue::NoConnectivity { interface } => {
            if let Some(n) = interface {
                assert(fs[0] == FixType::RenewDhcp { interface: n });
                assert(fs[1] == FixType::ResetAdapter { interface: n });
                assert(fs[2] == FixType::ResetTcpIp);
                plan_holds_fix(issues, k, FixType::RenewDhcp { interface: n });
                plan_holds_fix(issues, k, FixType::ResetAdapter { interface: n });
                plan_holds_fix(issues, k, FixType::ResetTcpIp);
            } else {
                assert(fs[0] == FixType::ResetTcpIp);
                plan_holds_fix(issues, k, FixType::ResetTcpIp);
            }
        }
        NetworkIssue::WifiDisconnected { interface } => {
            if let Some(n) = interface {
                assert(fs[0] == FixType::ReconnectWifi { interface: n });
                plan_holds_fix(issues, k, FixType::ReconnectWifi { interface: n });
            }
        }
        NetworkIssue::DhcpFailed { interface } => {
            if let Some(n) = interface {
                assert(fs[0] == FixType::RenewDhcp { interface: n });
                plan_holds_fix(issues, k, FixType::RenewDhcp { interface: n });
            }
        }
    }
}

} // verus!
