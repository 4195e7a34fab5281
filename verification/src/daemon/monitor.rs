//! Health aggregation and alert wording of the continuous monitor.

use vstd::prelude::*;
use crate::daemon::config::MonitorTarget;
use crate::net::{ip_text, ip_to_text};
use crate::text::str_to_string;

verus! {

/// Network health status.
#[derive(Clone, Copy, PartialEq, Eq, Structural, Debug)]
pub enum HealthStatus {
    /// Everything is working normally.
    Healthy,
    /// Some issues detected but connectivity exists.
    Degraded,
    /// Connectivity is failing.
    Unhealthy,
    /// Status unknown (not yet tested).
    Unknown,
}

/// Alert severity level.
#[derive(Clone, Copy, PartialEq, Eq, Structural, Debug)]
pub enum AlertSeverity {
    /// Informational.
    Info,
    /// Warning.
    Warning,
    /// Critical.
    Critical,
}

/// The status of one check: unhealthy when it failed, degraded when it
/// succeeded above the latency threshold, healthy otherwise.
pub open spec fn check_status(success: bool, over_threshold: bool) -> HealthStatus {
    if !success {
        HealthStatus::Unhealthy
    } else if over_threshold {
        HealthStatus::Degraded
    } else {
        HealthStatus::Healthy
    }
}

/// The status of one check (`over_threshold`: a latency was measured and
/// it exceeds the alert threshold).
pub fn target_status(success: bool, over_threshold: bool) -> (r: HealthStatus)
    ensures
        r == check_status(success, over_threshold),
{
    if success {
        if over_threshold { HealthStatus::Degraded } else { HealthStatus::Healthy }
    } else {
        HealthStatus::Unhealthy
    }
}

/// Some status among the three is `s`.
pub open spec fn any_is(a: Option<HealthStatus>, b: Option<HealthStatus>, c: Option<HealthStatus>, s: HealthStatus) -> bool {
    a == Some(s) || b == Some(s) || c == Some(s)
}

/// The overall status of gateway, DNS and internet: the worst of the known
/// statuses (unhealthy over degraded over healthy), unknown when none is
/// known.
pub open spec fn overall(a: Option<HealthStatus>, b: Option<HealthStatus>, c: Option<HealthStatus>) -> HealthStatus {
    if any_is(a, b, c, HealthStatus::Unhealthy) {
        HealthStatus::Unhealthy
    } else if any_is(a, b, c, HealthStatus::Degraded) {
        HealthStatus::Degraded
    } else if any_is(a, b, c, HealthStatus::Healthy) {
        HealthStatus::Healthy
    } else {
        HealthStatus::Unknown
    }
}

/// Calculates overall health status from the gateway, DNS and internet
/// statuses.
pub fn calculate_overall_status(gateway: Option<HealthStatus>, dns: Option<HealthStatus>, internet: Option<HealthStatus>) -> (r: HealthStatus)
    ensures
        r == overall(gateway, dns, internet),
{
    let statuses = [gateway, dns, internet];
    let mut has_unhealthy = false;
    let mut has_degraded = false;
    let mut has_healthy = false;
    let mut i: usize = 0;
    while i < 3
        invariant
            i <= 3,
            statuses@ == seq![gateway, dns, internet],
            has_unhealthy == exists|j: int| 0 <= j < i && statuses@[j] == Some(HealthStatus::Unhealthy),
            has_degraded == exists|j: int| 0 <= j < i && statuses@[j] == Some(HealthStatus::Degraded),
            has_healthy == exists|j: int| 0 <= j < i && statuses@[j] == Some(HealthStatus::Healthy),
        decreases 3 - i,
    {
        match statuses[i] {
            Some(HealthStatus::Unhealthy) => has_unhealthy = true,
            Some(HealthStatus::Degraded) => has_degraded = true,
            Some(HealthStatus::Healthy) => has_healthy = true,
            _ => {},
        }
        i = i + 1;
    }
    assert(has_unhealthy == any_is(gateway, dns, internet, HealthStatus::Unhealthy)) by {
        if any_is(gateway, dns, internet, HealthStatus::Unhealthy) {
            if gateway == Some(HealthStatus::Unhealthy) { assert(statuses@[0] == gateway); }
            else if dns == Some(HealthStatus::Unhealthy) { assert(statuses@[1] == dns); }
            else { assert(statuses@[2] == internet); }
        }
    }
    assert(has_degraded == any_is(gateway, dns, internet, HealthStatus::Degraded)) by {
        if any_is(gateway, dns, internet, HealthStatus::Degraded) {
            if gateway == Some(HealthStatus::Degraded) { assert(statuses@[0] == gateway); }
            else if dns == Some(HealthStatus::Degraded) { assert(statuses@[1] == dns); }
            else { assert(statuses@[2] == internet); }
        }
    }
    assert(has_healthy == any_is(gateway, dns, internet, HealthStatus::Healthy)) by {
        if any_is(gateway, dns, internet, HealthStatus::Healthy) {
            if gateway == Some(HealthStatus::Healthy) { assert(statuses@[0] == gateway); }
            else if dns == Some(HealthStatus::Healthy) { assert(statuses@[1] == dns); }
            else { assert(statuses@[2] == internet); }
        }
    }
    if has_unhealthy {
        HealthStatus::Unhealthy
    } else if has_degraded {
        HealthStatus::Degraded
    } else if has_healthy {
        HealthStatus::Healthy
    } else {
        HealthStatus::Unknown
    }
}

/// The overall status does not depend on which of the three targets
/// reported which status.
pub proof fn overall_ignores_order(a: Option<HealthStatus>, b: Option<HealthStatus>, c: Option<HealthStatus>)
    ensures
        overall(a, b, c) == overall(b, a, c),
        overall(a, b, c) == overall(a, c, b),
        overall(a, b, c) == overall(c, b, a),
{
}

/// One failing target makes the whole network unhealthy, whatever the
/// others report; and the network is only healthy when no known status is
/// worse than healthy.
pub proof fn one_failure_is_unhealthy(a: Option<HealthStatus>, b: Option<HealthStatus>, c: Option<HealthStatus>)
    ensures
        a == Some(HealthStatus::Unhealthy) ==> overall(a, b, c) == HealthStatus::Unhealthy,
        overall(a, b, c) == HealthStatus::Healthy ==> {
            &&& a != Some(HealthStatus::Unhealthy) && a != Some(HealthStatus::Degraded)
            &&& b != Some(HealthStatus::Unhealthy) && b != Some(HealthStatus::Degraded)
            &&& c != Some(HealthStatus::Unhealthy) && c != Some(HealthStatus::Degraded)
        },
{
}

/// Where a check result is recorded.
#[derive(Clone, Copy, PartialEq, Eq, Structural, Debug)]
pub enum TargetSlot {
    /// The gateway status.
    Gateway,
    /// The DNS status.
    Dns,
    /// The internet status.
    Internet,
    /// A custom target, keyed by its label.
    Custom,
}

/// The slot for a result labelled `label`.
pub open spec fn slot_of(label: Seq<char>) -> TargetSlot {
    if label == "gateway"@ {
        TargetSlot::Gateway
    } else if label == "dns"@ {
        TargetSlot::Dns
    } else if label == "internet"@ {
        TargetSlot::Internet
    } else {
        TargetSlot::Custom
    }
}

/// The slot for a result labelled `label`.
pub fn slot_for(label: &String) -> (r: TargetSlot)
    ensures
        r == slot_of(label@),
{
    if *label == str_to_string("gateway") {
        TargetSlot::Gateway
    } else if *label == str_to_string("dns") {
        TargetSlot::Dns
    } else if *label == str_to_string("internet") {
        TargetSlot::Internet
    } else {
        TargetSlot::Custom
    }
}

/// The label under which a target's results are reported.
pub open spec fn target_label(t: MonitorTarget) -> Seq<char> {
    match t {
        MonitorTarget::Gateway => "gateway"@,
        MonitorTarget::Dns => "dns"@,
        MonitorTarget::Internet => "internet"@,
        MonitorTarget::Host(h) => h@,
        MonitorTarget::Ip(ip) => ip_text(ip),
    }
}

/// The label under which a target's results are reported.
pub fn label_of(t: &MonitorTarget) -> (r: String)
    ensures
        r@ == target_label(*t),
{
    match t {
        MonitorTarget::Gateway => str_to_string("gateway"),
        MonitorTarget::Dns => str_to_string("dns"),
        MonitorTarget::Internet => str_to_string("internet"),
        MonitorTarget::Host(h) => h.clone(),
        MonitorTarget::Ip(ip) => ip_to_text(ip),
    }
}

/// The message of the alert for a failed check.
pub open spec fn failure_message(target: Seq<char>, error: Option<Seq<char>>) -> Seq<char> {
    target + " check failed: "@ + match error { Some(e) => e, None => "Unknown error"@ }
}

/// The message of the alert for a failed check.
pub fn failure_alert_message(target: &String, error: &Option<String>) -> (r: String)
    ensures
        r@ == failure_message(target@, match error { Some(e) => Some(e@), None => None }),
{
    let mut m = target.clone();
    m.append(" check failed: ");
    match error {
        Some(e) => m.append(e.as_str()),
        None => m.append("Unknown error"),
    }
    m
}

} // verus!
