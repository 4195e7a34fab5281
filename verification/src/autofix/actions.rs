//! Fix actions and their definitions.

use vstd::prelude::*;
use crate::autofix::clock::{is_v4_uuid, now, random_uuid, Timestamp};
use crate::net::{ip_list_text, push_ip_list, IpAddress};
use crate::text::str_to_string;

verus! {

/// Category of fix action.
#[derive(Debug, Clone, Copy, PartialEq, Eq, Hash, Structural)]
pub enum FixCategory {
    /// DNS-related fixes.
    Dns,
    /// Network adapter fixes.
    Adapter,
    /// TCP/IP stack fixes.
    TcpIp,
    /// WiFi-related fixes.
    Wifi,
    /// Routing fixes.
    Routing,
    /// Firewall fixes.
    Firewall,
    /// Service-related fixes.
    Service,
}

/// Severity/impact level of a fix.
#[derive(Debug, Clone, Copy, PartialEq, Eq, PartialOrd, Ord, Structural)]
pub enum FixSeverity {
    /// Low impact, safe to apply.
    Low,
    /// Medium impact, may briefly disrupt connectivity.
    Medium,
    /// High impact, will disrupt connectivity.
    High,
    /// Critical impact, requires system restart.
    Critical,
}

/// Specific type of fix to apply.
#[derive(Debug, Clone)]
pub enum FixType {
    /// Flush the DNS cache.
    FlushDnsCache,
    /// Set DNS servers for an interface.
    SetDnsServers {
        /// Interface name.
        interface: String,
        /// DNS servers to set.
        servers: Vec<IpAddress>,
    },
    /// Reset a network adapter.
    ResetAdapter {
        /// Interface name.
        interface: String,
    },
    /// Reset the TCP/IP stack.
    ResetTcpIp,
    /// Reconnect WiFi.
    ReconnectWifi {
        /// Interface name.
        interface: String,
    },
    /// Renew DHCP lease.
    RenewDhcp {
        /// Interface name.
        interface: String,
    },
    /// Restart the network service.
    RestartNetworkService,
    /// Clear ARP cache.
    ClearArpCache,
    /// Reset firewall rules.
    ResetFirewall,
    /// Custom command.
    CustomCommand {
        /// Command to execute.
        command: String,
        /// Arguments.
        args: Vec<String>,
    },
}

/// Prerequisite for applying a fix.
#[derive(Debug, Clone, PartialEq, Eq)]
pub enum FixPrerequisite {
    /// Requires administrator/root privileges.
    AdminPrivileges,
    /// May require a system reboot to take effect.
    RebootMayBeRequired,
    /// Requires active network connection.
    NetworkConnection,
    /// Requires specific interface to exist.
    InterfaceExists(String),
}

/// A fix action that can be applied.
#[derive(Debug)]
pub struct FixAction {
    /// Unique identifier for this action (a random UUID's value).
    pub id: u128,
    /// Human-readable name.
    pub name: String,
    /// Description of what this fix does.
    pub description: String,
    /// Category of the fix.
    pub category: FixCategory,
    /// Severity/impact level.
    pub severity: FixSeverity,
    /// The specific fix to apply.
    pub fix_type: FixType,
    /// Whether this fix can be rolled back.
    pub reversible: bool,
    /// Estimated time to apply (seconds).
    pub estimated_time_secs: u32,
    /// Prerequisites for this fix.
    pub prerequisites: Vec<FixPrerequisite>,
}

/// The severity the library gives a kind of fix; the kinds it has no
/// constructor for have none.
pub open spec fn standard_severity(t: FixType) -> Option<FixSeverity> {
    match t {
        FixType::FlushDnsCache => Some(FixSeverity::Low),
        FixType::SetDnsServers { .. } => Some(FixSeverity::Low),
        FixType::ResetAdapter { .. } => Some(FixSeverity::Medium),
        FixType::ResetTcpIp => Some(FixSeverity::High),
        FixType::ReconnectWifi { .. } => Some(FixSeverity::Medium),
        FixType::RenewDhcp { .. } => Some(FixSeverity::Medium),
        FixType::RestartNetworkService => Some(FixSeverity::High),
        _ => None,
    }
}

/// The fields a constructor gives an action of its kind.
pub open spec fn standard_fields(
    a: FixAction,
    name: Seq<char>,
    description: Seq<char>,
    category: FixCategory,
    reversible: bool,
    secs: u32,
    prerequisites: Seq<FixPrerequisite>,
) -> bool {
    &&& is_v4_uuid(a.id)
    &&& a.name@ == name
    &&& a.description@ == description
    &&& a.category == category
    &&& Some(a.severity) == standard_severity(a.fix_type)
    &&& a.reversible == reversible
    &&& a.estimated_time_secs == secs
    &&& a.prerequisites@ == prerequisites
}

/// `a` is the action the library's constructor makes for its kind of fix
/// (any id).
pub open spec fn standard_action(a: FixAction) -> bool {
    match a.fix_type {
        FixType::FlushDnsCache => standard_fields(a, "Flush DNS Cache"@,
            "Clears the DNS resolver cache to remove stale entries"@, FixCategory::Dns, false, 1, seq![]),
        FixType::SetDnsServers { interface, servers } => standard_fields(a, "Change DNS Servers"@,
            "Changes DNS servers to "@ + ip_list_text(servers@), FixCategory::Dns, true, 2,
            seq![FixPrerequisite::AdminPrivileges]),
        FixType::ResetAdapter { interface } => standard_fields(a, "Reset "@ + interface@,
            "Disables and re-enables the "@ + interface@ + " adapter"@, FixCategory::Adapter, false, 10,
            seq![FixPrerequisite::AdminPrivileges]),
        FixType::ResetTcpIp => standard_fields(a, "Reset TCP/IP Stack"@,
            "Resets the TCP/IP networking stack to default settings"@, FixCategory::TcpIp, false, 5,
            seq![FixPrerequisite::AdminPrivileges, FixPrerequisite::RebootMayBeRequired]),
        FixType::ReconnectWifi { interface } => standard_fields(a, "Reconnect WiFi"@,
            "Disconnects and reconnects to the current WiFi network"@, FixCategory::Wifi, false, 15, seq![]),
        FixType::RenewDhcp { interface } => standard_fields(a, "Renew DHCP Lease"@,
            "Releases and renews the DHCP lease to get a fresh IP"@, FixCategory::Adapter, false, 5, seq![]),
        FixType::RestartNetworkService => standard_fields(a, "Restart Network Service"@,
            "Restarts the system network service"@, FixCategory::Service, false, 30,
            seq![FixPrerequisite::AdminPrivileges]),
        _ => false,
    }
}

impl FixAction {
    /// Creates a DNS cache flush action.
    pub fn flush_dns_cache() -> (a: Self)
        ensures
            a.fix_type == FixType::FlushDnsCache,
            standard_action(a),
    {
        let prerequisites: Vec<FixPrerequisite> = Vec::new();
        FixAction {
            id: random_uuid(),
            name: str_to_string("Flush DNS Cache"),
            description: str_to_string("Clears the DNS resolver cache to remove stale entries"),
            category: FixCategory::Dns,
            severity: FixSeverity::Low,
            fix_type: FixType::FlushDnsCache,
            reversible: false,
            estimated_time_secs: 1,
            prerequisites,
        }
    }

    /// Creates a DNS server change action.
    pub fn change_dns_servers(interface: String, servers: Vec<IpAddress>) -> (a: Self)
        ensures
            a.fix_type == (FixType::SetDnsServers { interface, servers }),
            standard_action(a),
    {
        let mut description = str_to_string("Changes DNS servers to ");
        push_ip_list(&mut description, &servers);
        let mut prerequisites: Vec<FixPrerequisite> = Vec::new();
        prerequisites.push(FixPrerequisite::AdminPrivileges);
        assert(prerequisites@ =~= seq![FixPrerequisite::AdminPrivileges]);
        FixAction {
            id: random_uuid(),
            name: str_to_string("Change DNS Servers"),
            description,
            category: FixCategory::Dns,
            severity: FixSeverity::Low,
            fix_type: FixType::SetDnsServers { interface, servers },
            reversible: true,
            estimated_time_secs: 2,
            prerequisites,
        }
    }

    /// Creates a network adapter reset action.
    pub fn reset_adapter(interface: String) -> (a: Self)
        ensures
            a.fix_type == (FixType::ResetAdapter { interface }),
            standard_action(a),
    {
        let mut name = str_to_string("Reset ");
        name.append(interface.as_str());
        let mut description = str_to_string("Disables and re-enables the ");
        description.append(interface.as_str());
        description.append(" adapter");
        let mut prerequisites: Vec<FixPrerequisite> = Vec::new();
        prerequisites.push(FixPrerequisite::AdminPrivileges);
        assert(prerequisites@ =~= seq![FixPrerequisite::AdminPrivileges]);
        FixAction {
            id: random_uuid(),
            name,
            description,
            category: FixCategory::Adapter,
            severity: FixSeverity::Medium,
            fix_type: FixType::ResetAdapter { interface },
            reversible: false,
            estimated_time_secs: 10,
            prerequisites,
        }
    }

    /// Creates a TCP/IP stack reset action.
    pub fn reset_tcp_ip() -> (a: Self)
        ensures
            a.fix_type == FixType::ResetTcpIp,
            standard_action(a),
    {
        let mut prerequisites: Vec<FixPrerequisite> = Vec::new();
        prerequisites.push(FixPrerequisite::AdminPrivileges);
        prerequisites.push(FixPrerequisite::RebootMayBeRequired);
        assert(prerequisites@ =~= seq![FixPrerequisite::AdminPrivileges, FixPrerequisite::RebootMayBeRequired]);
        FixAction {
            id: random_uuid(),
            name: str_to_string("Reset TCP/IP Stack"),
            description: str_to_string("Resets the TCP/IP networking stack to default settings"),
            category: FixCategory::TcpIp,
            severity: FixSeverity::High,
            fix_type: FixType::ResetTcpIp,
            reversible: false,
            estimated_time_secs: 5,
            prerequisites,
        }
    }

    /// Creates a WiFi reconnect action.
    pub fn reconnect_wifi(interface: String) -> (a: Self)
        ensures
            a.fix_type == (FixType::ReconnectWifi { interface }),
            standard_action(a),
    {
        let prerequisites: Vec<FixPrerequisite> = Vec::new();
        FixAction {
            id: random_uuid(),
            name: str_to_string("Reconnect WiFi"),
            description: str_to_string("Disconnects and reconnects to the current WiFi network"),
            category: FixCategory::Wifi,
            severity: FixSeverity::Medium,
            fix_type: FixType::ReconnectWifi { interface },
            reversible: false,
            estimated_time_secs: 15,
            prerequisites,
        }
    }

    /// Creates a release/renew DHCP action.
    pub fn renew_dhcp(interface: String) -> (a: Self)
        ensures
            a.fix_type == (FixType::RenewDhcp { interface }),
            standard_action(a),
    {
        let prerequisites: Vec<FixPrerequisite> = Vec::new();
        FixAction {
            id: random_uuid(),
            name: str_to_string("Renew DHCP Lease"),
            description: str_to_string("Releases and renews the DHCP lease to get a fresh IP"),
            category: FixCategory::Adapter,
            severity: FixSeverity::Medium,
            fix_type: FixType::RenewDhcp { interface },
            reversible: false,
            estimated_time_secs: 5,
            prerequisites,
        }
    }

    /// Creates a restart network service action.
    pub fn restart_network_service() -> (a: Self)
        ensures
            a.fix_type == FixType::RestartNetworkService,
            standard_action(a),
    {
        let mut prerequisites: Vec<FixPrerequisite> = Vec::new();
        prerequisites.push(FixPrerequisite::AdminPrivileges);
        assert(prerequisites@ =~= seq![FixPrerequisite::AdminPrivileges]);
        FixAction {
            id: random_uuid(),
            name: str_to_string("Restart Network Service"),
            description: str_to_string("Restarts the system network service"),
            category: FixCategory::Service,
            severity: FixSeverity::High,
            fix_type: FixType::RestartNetworkService,
            reversible: false,
            estimated_time_secs: 30,
            prerequisites,
        }
    }
}

/// Result of applying a fix.
#[derive(Debug)]
pub struct FixResult {
    /// The action that was applied.
    pub action_id: u128,
    /// Whether the fix was successful.
    pub success: bool,
    /// When the fix was applied.
    pub applied_at: Timestamp,
    /// Time taken to apply (milliseconds).
    pub duration_ms: u64,
    /// Output message.
    pub message: Option<String>,
    /// Error message if failed.
    pub error: Option<String>,
    /// Whether verification passed.
    pub verification_passed: Option<bool>,
    /// Rollback point ID if created.
    pub rollback_id: Option<String>,
}

impl FixResult {
    /// Creates a successful result, stamped with the current time.
    pub fn success(action_id: u128, duration_ms: u64, message: Option<String>) -> (r: Self)
        ensures
            r.action_id == action_id,
            r.success,
            r.duration_ms == duration_ms,
            r.message == message,
            r.error is None,
            r.verification_passed is None,
            r.rollback_id is None,
    {
        FixResult {
            action_id,
            success: true,
            applied_at: now(),
            duration_ms,
            message,
            error: None,
            verification_passed: None,
            rollback_id: None,
        }
    }

    /// Creates a failed result, stamped with the current time.
    pub fn failure(action_id: u128, duration_ms: u64, error: String) -> (r: Self)
        ensures
            r.action_id == action_id,
            !r.success,
            r.duration_ms == duration_ms,
            r.message is None,
            r.error == Some(error),
            r.verification_passed is None,
            r.rollback_id is None,
    {
        FixResult {
            action_id,
            success: false,
            applied_at: now(),
            duration_ms,
            message: None,
            error: Some(error),
            verification_passed: None,
            rollback_id: None,
        }
    }
}

/// A plan of fixes to apply.
#[derive(Debug)]
pub struct FixPlan {
    /// Unique plan ID (a random UUID's value).
    pub id: u128,
    /// Actions in the plan, in order.
    pub actions: Vec<FixAction>,
    /// When the plan was created.
    pub created_at: Timestamp,
    /// Total estimated time (seconds).
    pub estimated_total_time_secs: u32,
    /// Whether this is a dry run.
    pub dry_run: bool,
}

/// The estimated times of the actions, added up.
pub open spec fn total_time(s: Seq<FixAction>) -> nat
    decreases s.len(),
{
    if s.len() == 0 {
        0
    } else {
        total_time(s.drop_last()) + s.last().estimated_time_secs as nat
    }
}

/// The total of a prefix is at most the total of the whole.
pub proof fn total_time_prefix(s: Seq<FixAction>, k: int)
    requires
        0 <= k <= s.len(),
    ensures
        total_time(s.take(k)) <= total_time(s),
    decreases s.len(),
{
    if k < s.len() {
        total_time_prefix(s.drop_last(), k);
        assert(s.drop_last().take(k) =~= s.take(k));
    } else {
        assert(s.take(k) =~= s);
    }
}

impl FixPlan {
    /// Creates a new fix plan.  The times must add up within `u32`.
    pub fn new(actions: Vec<FixAction>, dry_run: bool) -> (p: Self)
        requires
            total_time(actions@) <= u32::MAX,
        ensures
            is_v4_uuid(p.id),
            p.actions == actions,
            p.estimated_total_time_secs == total_time(actions@),
            p.dry_run == dry_run,
    {
        let mut total: u32 = 0;
        let mut i: usize = 0;
        while i < actions.len()
            invariant
                i <= actions@.len(),
                total == total_time(actions@.take(i as int)),
                total_time(actions@) <= u32::MAX,
            decreases actions@.len() - i,
        {
            assert(actions@.take(i + 1).drop_last() =~= actions@.take(i as int));
            proof { total_time_prefix(actions@, i + 1); }
            total = total + actions[i].estimated_time_secs;
            i = i + 1;
        }
        assert(actions@.take(actions@.len() as int) =~= actions@);
        FixPlan {
            id: random_uuid(),
            actions,
            created_at: now(),
            estimated_total_time_secs: total,
            dry_run,
        }
    }

    /// Returns true if the plan is empty.
    pub fn is_empty(&self) -> (r: bool)
        ensures
            r == (self.actions@.len() == 0),
    {
        self.actions.len() == 0
    }

    /// Returns the number of actions in the plan.
    pub fn len(&self) -> (r: usize)
        ensures
            r == self.actions@.len(),
    {
        self.actions.len()
    }
}

} // verus!
