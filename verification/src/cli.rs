//! The command-line front end: its arguments as data, and the pieces of
//! its commands that decide rather than print: how many steps a diagnosis
//! takes, what a hostname says about the ISP, how text is shortened.

use vstd::prelude::*;
use vstd::utf8::{encode_utf8, is_char_boundary};
use crate::daemon::config::TargetOs;
use crate::text::{
    all_ascii, ascii_lower_seq, ascii_upper, char_to_uppercase, contains, contains_seq, has_prefix, is_ascii_char,
    starts_with, is_alphanumeric, split_on, split_pieces, split_pieces_nonempty, str_to_string, to_lowercase,
    unicode_alphanumeric, unicode_char_uppercase, unicode_lowercase, views,
};

verus! {

/// Output format for results.
#[derive(Clone, Copy, Debug, PartialEq, Eq, Structural)]
pub enum OutputFormat {
    /// Human-readable text output.
    Text,
    /// JSON output.
    Json,
    /// Compact single-line output.
    Compact,
}

impl Default for OutputFormat {
    fn default() -> (r: Self)
        ensures
            r == OutputFormat::Text,
    {
        OutputFormat::Text
    }
}

/// Arguments for the diagnose command.
#[derive(Debug)]
pub struct DiagnoseArgs {
    /// Run quick diagnostics only.
    pub quick: bool,
    /// Include speed test.
    pub speed: bool,
    /// Include WiFi analysis.
    pub wifi: bool,
    /// Include packet capture.
    pub capture: bool,
    /// Attempt automatic fixes.
    pub fix: bool,
    /// Output file for report.
    pub output: Option<String>,
}

/// Traceroute protocol.
#[derive(Clone, Copy, Debug, PartialEq, Eq, Structural)]
pub enum TracerouteProtocol {
    /// ICMP probes.
    Icmp,
    /// UDP probes.
    Udp,
    /// TCP probes.
    Tcp,
}

impl Default for TracerouteProtocol {
    fn default() -> (r: Self)
        ensures
            r == TracerouteProtocol::Icmp,
    {
        TracerouteProtocol::Icmp
    }
}

/// Arguments for the speed command.
#[derive(Debug)]
pub struct SpeedArgs {
    /// Test server.
    pub server: Option<String>,
    /// Test duration in seconds.
    pub duration: u64,
    /// Number of parallel connections.
    pub connections: usize,
    /// Only test download.
    pub download_only: bool,
    /// Only test upload.
    pub upload_only: bool,
    /// iperf3 server.
    pub iperf: Option<String>,
}

/// Arguments for the wifi command.
#[derive(Debug)]
pub struct WifiArgs {
    /// The WiFi subcommand.
    pub command: Option<WifiCommands>,
}

/// WiFi subcommands.
#[derive(Clone, Copy, Debug, PartialEq, Eq, Structural)]
pub enum WifiCommands {
    /// Scan for networks.
    Scan,
    /// Show connection status.
    Status,
    /// Analyze channels.
    Channels,
    /// Check interference.
    Interference,
}

/// Arguments for the report command.
#[derive(Debug)]
pub struct ReportArgs {
    /// Report format.
    pub report_format: ReportFormat,
    /// Output file.
    pub output: Option<String>,
    /// Include raw data.
    pub raw: bool,
}

/// Report output format.
#[derive(Clone, Copy, Debug, PartialEq, Eq, Structural)]
pub enum ReportFormat {
    /// Plain text.
    Text,
    /// JSON.
    Json,
    /// Markdown.
    Markdown,
    /// HTML.
    Html,
    /// PDF.
    Pdf,
}

impl Default for ReportFormat {
    fn default() -> (r: Self)
        ensures
            r == ReportFormat::Text,
    {
        ReportFormat::Text
    }
}

/// Arguments for the capture command.
#[derive(Debug)]
pub struct CaptureArgs {
    /// Interface to capture on.
    pub interface: Option<String>,
    /// BPF filter.
    pub filter: Option<String>,
    /// Number of packets.
    pub count: usize,
    /// Duration in seconds (0 for none).
    pub duration: u64,
    /// Promiscuous mode.
    pub promiscuous: bool,
    /// Output file.
    pub output: Option<String>,
    /// List interfaces instead of capturing.
    pub list_interfaces: bool,
}

/// Arguments for the config command.
#[derive(Debug)]
pub struct ConfigArgs {
    /// The config subcommand.
    pub command: Option<ConfigCommands>,
}

/// Config subcommands.
#[derive(Debug)]
pub enum ConfigCommands {
    /// Show the configuration.
    Show,
    /// Set a value.
    SetValue {
        /// Key.
        key: String,
        /// Value.
        value: String,
    },
    /// Get a value.
    Get {
        /// Key.
        key: String,
    },
    /// Reset to defaults.
    Reset,
}

/// Arguments for the completions command.
#[derive(Debug)]
pub struct CompletionsArgs {
    /// Shell to generate completions for.
    pub shell: Shell,
}

/// Shells with completions.
#[derive(Clone, Copy, Debug, PartialEq, Eq, Structural)]
pub enum Shell {
    /// Bash.
    Bash,
    /// Zsh.
    Zsh,
    /// Fish.
    Fish,
    /// PowerShell.
    PowerShell,
    /// Elvish.
    Elvish,
}

/// Arguments for the daemon command.
#[derive(Debug)]
pub struct DaemonArgs {
    /// The daemon subcommand.
    pub command: Option<DaemonCommands>,
}

/// Daemon subcommands.
#[derive(Debug)]
pub enum DaemonCommands {
    /// Start the daemon.
    Start {
        /// Run in the foreground.
        foreground: bool,
        /// Configuration file.
        config: Option<String>,
    },
    /// Stop the daemon.
    Stop,
    /// Restart the daemon.
    Restart,
    /// Show status.
    Status,
    /// Install as a service.
    Install,
    /// Uninstall the service.
    Uninstall,
    /// Show logs.
    Logs {
        /// Lines to show.
        lines: usize,
        /// Follow the log.
        follow: bool,
    },
}

/// Arguments for the fix command.
#[derive(Debug)]
pub struct FixArgs {
    /// The fix subcommand.
    pub command: Option<FixCommands>,
}

/// Fix subcommands.
#[derive(Debug)]
pub enum FixCommands {
    /// Analyze issues.
    Analyze {
        /// Show details.
        verbose: bool,
    },
    /// Apply fixes.
    Apply {
        /// Only show what would be done.
        dry_run: bool,
        /// Only apply low-impact fixes.
        safe_only: bool,
        /// Do not ask for confirmation.
        yes: bool,
    },
    /// Flush the DNS cache.
    FlushDns,
    /// Reset an adapter.
    ResetAdapter {
        /// Interface.
        interface: Option<String>,
    },
    /// Renew the DHCP lease.
    RenewDhcp {
        /// Interface.
        interface: Option<String>,
    },
    /// List rollback points.
    Rollbacks,
    /// Roll back to a point.
    Rollback {
        /// Rollback point ID.
        id: String,
    },
}

/// The result of one diagnostic check.
#[derive(Debug)]
pub struct DiagnosticCheck {
    /// Check name.
    pub name: String,
    /// Whether it passed.
    pub passed: bool,
    /// Details.
    pub details: String,
    /// What to try when it failed.
    pub suggestion: Option<String>,
    /// Further details, shown with `-v`.
    pub verbose_details: Vec<String>,
}

impl DiagnosticCheck {
    /// A passed check.
    pub fn pass(name: &str, details: &str) -> (c: Self)
        ensures
            c.name@ == name@,
            c.passed,
            c.details@ == details@,
            c.suggestion is None,
            c.verbose_details@.len() == 0,
    {
        DiagnosticCheck {
            name: str_to_string(name),
            passed: true,
            details: str_to_string(details),
            suggestion: None,
            verbose_details: Vec::new(),
        }
    }

    /// A failed check, with an optional suggestion.
    pub fn fail(name: &str, details: &str, suggestion: Option<&str>) -> (c: Self)
        ensures
            c.name@ == name@,
            !c.passed,
            c.details@ == details@,
            match suggestion {
                Some(s) => c.suggestion matches Some(t) && t@ == s@,
                None => c.suggestion is None,
            },
            c.verbose_details@.len() == 0,
    {
        let suggestion = match suggestion {
            Some(s) => Some(str_to_string(s)),
            None => None,
        };
        DiagnosticCheck {
            name: str_to_string(name),
            passed: false,
            details: str_to_string(details),
            suggestion,
            verbose_details: Vec::new(),
        }
    }

    /// The same check with these further details.
    pub fn with_verbose(self, details: Vec<String>) -> (c: Self)
        ensures
            c.name == self.name,
            c.passed == self.passed,
            c.details == self.details,
            c.suggestion == self.suggestion,
            c.verbose_details == details,
    {
        let mut c = self;
        c.verbose_details = details;
        c
    }
}

/// The number of steps a diagnosis takes: interfaces, gateway, DNS
/// configuration and resolution always; connectivity, latency, path and
/// ISP unless quick; WiFi when asked; the speed test unless quick or
/// skipped.
pub open spec fn diagnosis_steps(quick: bool, wifi: bool, no_speed: bool) -> nat {
    4 + (if !quick { 4nat } else { 0nat }) + (if wifi { 1nat } else { 0nat })
        + (if !quick && !no_speed { 1nat } else { 0nat })
}

/// The number of steps a diagnosis takes.
pub fn calculate_steps(quick: bool, wifi: bool, no_speed: bool) -> (n: usize)
    ensures
        n == diagnosis_steps(quick, wifi, no_speed),
{
    let mut steps: usize = 4;
    if !quick {
        steps = steps + 4;
    }
    if wifi {
        steps = steps + 1;
    }
    if !quick && !no_speed {
        steps = steps + 1;
    }
    steps
}

/// The network domains of known ISPs and transit networks, with their
/// names, in the order they are tried.
pub open spec fn isp_patterns() -> Seq<(Seq<char>, Seq<char>)> {
    seq![
        ("comcast.net"@, "Comcast"@), ("xfinity.com"@, "Comcast/Xfinity"@), ("verizon.net"@, "Verizon"@),
        ("verizon.com"@, "Verizon"@), ("att.net"@, "AT&T"@), ("sbcglobal.net"@, "AT&T"@),
        ("spectrum.net"@, "Spectrum"@), ("charter.com"@, "Spectrum/Charter"@), ("cox.net"@, "Cox"@),
        ("centurylink.net"@, "CenturyLink"@), ("lumen.com"@, "Lumen"@), ("cogentco.com"@, "Cogent"@),
        ("level3.net"@, "Level3/Lumen"@), ("ntt.net"@, "NTT"@), ("telia.net"@, "Telia"@),
        ("gtt.net"@, "GTT"@), ("zayo.com"@, "Zayo"@), ("he.net"@, "Hurricane Electric"@),
        ("google.com"@, "Google"@), ("googlefiber.net"@, "Google Fiber"@), ("1e100.net"@, "Google"@),
        ("akamai.com"@, "Akamai"@), ("cloudflare.com"@, "Cloudflare"@), ("fastly.net"@, "Fastly"@),
        ("amazonaws.com"@, "AWS"@), ("azure.com"@, "Microsoft Azure"@), ("frontier.com"@, "Frontier"@),
        ("suddenlink.net"@, "Suddenlink/Altice"@), ("optimum.net"@, "Optimum/Altice"@), ("rcn.net"@, "RCN"@),
        ("sonic.net"@, "Sonic"@), ("t-mobile.com"@, "T-Mobile"@), ("sprint.net"@, "Sprint/T-Mobile"@),
        ("tmus.net"@, "T-Mobile"@),
    ]
}

/// The name of the first pattern (from position `i` on) that occurs in
/// the text.
pub open spec fn first_pattern_match(text: Seq<char>, ps: Seq<(Seq<char>, Seq<char>)>, i: nat) -> Option<Seq<char>>
    decreases ps.len() - i,
{
    if i >= ps.len() {
        None
    } else if contains_seq(text, ps[i as int].0) {
        Some(ps[i as int].1)
    } else {
        first_pattern_match(text, ps, i + 1)
    }
}

/// The ISP a hostname names: a known network domain occurring in it
/// (case-insensitively); else its second-to-last label, capitalized,
/// when that is longer than two bytes and all letters and digits.
pub open spec fn isp_of_hostname(h: Seq<char>) -> Option<Seq<char>> {
    match first_pattern_match(unicode_lowercase(h), isp_patterns(), 0) {
        Some(n) => Some(n),
        None => {
            let parts = split_pieces(h, '.');
            if parts.len() >= 2 {
                let d = parts[parts.len() - 2];
                if encode_utf8(d).len() > 2 && (forall|i: int| 0 <= i < d.len() ==> #[trigger] unicode_alphanumeric(d[i])) && d.len() > 0 {
                    Some(unicode_char_uppercase(d[0]) + d.drop_first())
                } else {
                    None
                }
            } else {
                None
            }
        }
    }
}

/// An ASCII letter or digit.
pub open spec fn ascii_alnum(c: char) -> bool {
    (48 <= (c as u32) <= 57) || (65 <= (c as u32) <= 90) || (97 <= (c as u32) <= 122)
}

/// `isp_of_hostname` for an ASCII host name, with the case mappings and
/// the letter-or-digit test spelled out: a known network domain in the
/// lower-cased name, else the second-to-last label, its first letter
/// upper-cased, when it is longer than two characters and all ASCII
/// letters and digits.
pub open spec fn isp_of_ascii_hostname(h: Seq<char>) -> Option<Seq<char>> {
    match first_pattern_match(ascii_lower_seq(h), isp_patterns(), 0) {
        Some(n) => Some(n),
        None => {
            let parts = split_pieces(h, '.');
            if parts.len() >= 2 {
                let d = parts[parts.len() - 2];
                if d.len() > 2 && (forall|i: int| 0 <= i < d.len() ==> #[trigger] ascii_alnum(d[i])) {
                    Some(seq![ascii_upper(d[0])] + d.drop_first())
                } else {
                    None
                }
            } else {
                None
            }
        }
    }
}

/// The pieces of an ASCII text are ASCII.
proof fn split_pieces_ascii(s: Seq<char>, sep: char)
    requires
        all_ascii(s),
    ensures
        forall|k: int| 0 <= k < split_pieces(s, sep).len() ==> all_ascii(#[trigger] split_pieces(s, sep)[k]),
    decreases s.len(),
{
    if s.len() > 0 {
        let d = s.drop_last();
        assert forall|i: int| 0 <= i < d.len() implies is_ascii_char(#[trigger] d[i]) by {
            assert(d[i] == s[i]);
        }
        split_pieces_ascii(d, sep);
        split_pieces_nonempty(d, sep);
        let p = split_pieces(d, sep);
        assert(is_ascii_char(s[s.len() - 1]));
        if s.last() != sep {
            let q = p.last().push(s.last());
            assert(all_ascii(p[p.len() - 1]));
            assert forall|i: int| 0 <= i < q.len() implies is_ascii_char(#[trigger] q[i]) by {
                if i < p.last().len() {
                    assert(q[i] == p[p.len() - 1][i]);
                }
            }
        }
    }
}

/// The pattern table.
fn isp_pattern_list() -> (v: Vec<(&'static str, &'static str)>)
    ensures
        v@.len() == isp_patterns().len(),
        forall|i: int| 0 <= i < v@.len() ==> (#[trigger] v@[i]).0@ == isp_patterns()[i].0 && v@[i].1@ == isp_patterns()[i].1,
{
    let v = vec![
        ("comcast.net", "Comcast"), ("xfinity.com", "Comcast/Xfinity"), ("verizon.net", "Verizon"),
        ("verizon.com", "Verizon"), ("att.net", "AT&T"), ("sbcglobal.net", "AT&T"),
        ("spectrum.net", "Spectrum"), ("charter.com", "Spectrum/Charter"), ("cox.net", "Cox"),
        ("centurylink.net", "CenturyLink"), ("lumen.com", "Lumen"), ("cogentco.com", "Cogent"),
        ("level3.net", "Level3/Lumen"), ("ntt.net", "NTT"), ("telia.net", "Telia"),
        ("gtt.net", "GTT"), ("zayo.com", "Zayo"), ("he.net", "Hurricane Electric"),
        ("google.com", "Google"), ("googlefiber.net", "Google Fiber"), ("1e100.net", "Google"),
        ("akamai.com", "Akamai"), ("cloudflare.com", "Cloudflare"), ("fastly.net", "Fastly"),
        ("amazonaws.com", "AWS"), ("azure.com", "Microsoft Azure"), ("frontier.com", "Frontier"),
        ("suddenlink.net", "Suddenlink/Altice"), ("optimum.net", "Optimum/Altice"), ("rcn.net", "RCN"),
        ("sonic.net", "Sonic"), ("t-mobile.com", "T-Mobile"), ("sprint.net", "Sprint/T-Mobile"),
        ("tmus.net", "T-Mobile"),
    ];
    v
}

/// Whether every character of a label is a letter or digit.
fn all_alphanumeric(cs: &Vec<char>) -> (r: bool)
    ensures
        r == (forall|i: int| 0 <= i < cs@.len() ==> #[trigger] unicode_alphanumeric(cs@[i])),
        all_ascii(cs@) ==> r == (forall|i: int| 0 <= i < cs@.len() ==> #[trigger] ascii_alnum(cs@[i])),
{
    let mut i: usize = 0;
    while i < cs.len()
        invariant
            i <= cs@.len(),
            forall|j: int| 0 <= j < i ==> #[trigger] unicode_alphanumeric(cs@[j]),
            all_ascii(cs@) ==> forall|j: int| 0 <= j < i ==> #[trigger] ascii_alnum(cs@[j]),
        decreases cs@.len() - i,
    {
        proof {
            if all_ascii(cs@) {
                assert(is_ascii_char(cs@[i as int]));
            }
        }
        if !is_alphanumeric(cs[i]) {
            proof {
                if all_ascii(cs@) {
                    assert(!ascii_alnum(cs@[i as int]));
                }
            }
            return false;
        }
        i = i + 1;
    }
    true
}

/// Extracts an ISP name from a router hostname.
pub fn extract_isp_from_hostname(hostname: &str) -> (r: Option<String>)
    ensures
        match isp_of_hostname(hostname@) {
            Some(n) => r matches Some(s) && s@ == n,
            None => r is None,
        },
        all_ascii(hostname@) ==> match isp_of_ascii_hostname(hostname@) {
            Some(n) => r matches Some(s) && s@ == n,
            None => r is None,
        },
{
    let lower = to_lowercase(hostname);
    let patterns = isp_pattern_list();
    let mut i: usize = 0;
    while i < patterns.len()
        invariant
            i <= patterns@.len(),
            patterns@.len() == isp_patterns().len(),
            forall|k: int| 0 <= k < patterns@.len() ==> (#[trigger] patterns@[k]).0@ == isp_patterns()[k].0 && patterns@[k].1@ == isp_patterns()[k].1,
            lower@ == unicode_lowercase(hostname@),
            all_ascii(hostname@) ==> lower@ == ascii_lower_seq(hostname@),
            first_pattern_match(lower@, isp_patterns(), 0) == first_pattern_match(lower@, isp_patterns(), i as nat),
        decreases patterns@.len() - i,
    {
        let (pattern, name) = patterns[i];
        if contains(lower.as_str(), pattern) {
            return Some(str_to_string(name));
        }
        i = i + 1;
    }
    let parts = split_on(hostname, '.');
    if parts.len() >= 2 {
        let domain = parts[parts.len() - 2].as_str();
        assert(views(parts@)[parts@.len() - 2] == domain@);
        proof {
            if all_ascii(hostname@) {
                split_pieces_ascii(hostname@, '.');
                assert(all_ascii(domain@));
                assert(vstd::utf8::is_ascii_chars(domain@)) by {
                    assert forall|i: int| 0 <= i < domain@.len() implies '\0' <= #[trigger] domain@[i] <= '\u{7f}' by {
                        assert(is_ascii_char(domain@[i]));
                    }
                }
                vstd::utf8::is_ascii_chars_encode_utf8(domain@);
            }
        }
        if domain.as_bytes().len() > 2 {
            let cs = crate::text::chars_of(domain);
            if all_alphanumeric(&cs) && cs.len() > 0 {
                let mut out = char_to_uppercase(cs[0]);
                proof {
                    if all_ascii(hostname@) {
                        assert(is_ascii_char(cs@[0]));
                    }
                }
                let mut k: usize = 1;
                while k < cs.len()
                    invariant
                        1 <= k <= cs@.len(),
                        out@ == unicode_char_uppercase(cs@[0]) + cs@.subrange(1, k as int),
                    decreases cs@.len() - k,
                {
                    crate::text::push_char(&mut out, cs[k]);
                    assert(out@ =~= unicode_char_uppercase(cs@[0]) + cs@.subrange(1, k + 1));
                    k = k + 1;
                }
                assert(cs@.subrange(1, cs@.len() as int) =~= cs@.drop_first());
                return Some(out);
            }
            proof {
                if cs@.len() == 0 {
                    assert(domain@.len() == 0);
                    assert(encode_utf8(domain@) =~= Seq::<u8>::empty()) by {
                        assert(domain@ =~= Seq::<char>::empty());
                        reveal_with_fuel(encode_utf8, 1);
                    }
                }
            }
        }
    }
    None
}

/// Shortens text to at most `max_len` bytes, marking a cut with "...".
/// A cut needs room for the marker and must fall between characters.
pub fn truncate(s: &str, max_len: usize) -> (r: String)
    requires
        encode_utf8(s@).len() > max_len ==> max_len >= 3 && is_char_boundary(encode_utf8(s@), max_len - 3),
    ensures
        encode_utf8(s@).len() <= max_len ==> r@ == s@,
        encode_utf8(s@).len() > max_len ==> exists|h: Seq<char>|
            #[trigger] encode_utf8(h) == encode_utf8(s@).take(max_len - 3) && r@ == h + "..."@,
{
    if s.as_bytes().len() <= max_len {
        str_to_string(s)
    } else {
        let (head, _) = s.split_at(max_len - 3);
        let mut r = str_to_string(head);
        r.append("...");
        assert(encode_utf8(head@) == encode_utf8(s@).take(max_len - 3));
        r
    }
}

/// The interface a fix uses when none is named.
pub open spec fn default_interface_name(os: TargetOs) -> Seq<char> {
    match os {
        TargetOs::MacOs => "en0"@,
        TargetOs::Linux => "eth0"@,
        TargetOs::Windows => "Ethernet"@,
        TargetOs::Other => "eth0"@,
    }
}

/// The interface a fix uses when none is named.
pub fn get_default_interface(os: TargetOs) -> (r: String)
    ensures
        r@ == default_interface_name(os),
{
    match os {
        TargetOs::MacOs => str_to_string("en0"),
        TargetOs::Linux => str_to_string("eth0"),
        TargetOs::Windows => str_to_string("Ethernet"),
        TargetOs::Other => str_to_string("eth0"),
    }
}

/// A hop name that looks like it lies past the local network: it names no
/// local host, router or gateway, and is no private 192./10. address.
pub open spec fn public_hop_name(h: Seq<char>) -> bool {
    &&& !contains_seq(h, "local"@)
    &&& !contains_seq(h, "router"@)
    &&& !contains_seq(h, "gateway"@)
    &&& !has_prefix(h, "192."@)
    &&& !has_prefix(h, "10."@)
}

/// A hop with a name that looks public.
pub open spec fn public_hop(h: Option<String>) -> bool {
    h matches Some(s) && public_hop_name(s@)
}

/// Hop `i` is the first after the local gateway (the hop at index 0) with a
/// public-looking name.
pub open spec fn is_first_public(hs: Seq<Option<String>>, i: int) -> bool {
    &&& 1 <= i < hs.len()
    &&& public_hop(hs[i])
    &&& forall|j: int| 1 <= j < i ==> !public_hop(#[trigger] hs[j])
}

/// There is at most one first public hop.
proof fn first_public_unique(hs: Seq<Option<String>>, i: int, k: int)
    requires
        is_first_public(hs, i),
        is_first_public(hs, k),
    ensures
        i == k,
{
    if i < k {
        assert(!public_hop(hs[i]));
    } else if k < i {
        assert(!public_hop(hs[k]));
    }
}

/// Name check of one hop.
fn public_name(h: &Option<String>) -> (r: bool)
    ensures
        r == public_hop(*h),
{
    match h {
        Some(s) => {
            let n = s.as_str();
            !contains(n, "local") && !contains(n, "router") && !contains(n, "gateway")
                && !starts_with(n, "192.") && !starts_with(n, "10.")
        }
        None => false,
    }
}

/// The index of the first hop past the local gateway whose name looks
/// public, if any.
pub fn first_public_hop(hostnames: &Vec<Option<String>>) -> (r: Option<usize>)
    ensures
        match r {
            Some(i) => is_first_public(hostnames@, i as int),
            None => forall|j: int| 1 <= j < hostnames@.len() ==> !public_hop(#[trigger] hostnames@[j]),
        },
{
    let mut i: usize = 1;
    while i < hostnames.len()
        invariant
            1 <= i,
            forall|j: int| 1 <= j < i && j < hostnames@.len() ==> !public_hop(#[trigger] hostnames@[j]),
        decreases hostnames@.len() - i,
    {
        if public_name(&hostnames[i]) {
            return Some(i);
        }
        i = i + 1;
    }
    None
}

/// The ISP named by the first public-looking hop past the local gateway,
/// read from its host name.
pub open spec fn isp_of_hops(hs: Seq<Option<String>>) -> Option<Seq<char>> {
    if exists|i: int| is_first_public(hs, i) {
        let i = choose|i: int| is_first_public(hs, i);
        isp_of_hostname(hs[i].unwrap()@)
    } else {
        None
    }
}

/// The ISP a traceroute's host names reveal: what the first hop past the
/// local gateway whose name looks public says of it.
pub fn isp_from_hops(hostnames: &Vec<Option<String>>) -> (r: Option<String>)
    ensures
        match isp_of_hops(hostnames@) {
            Some(n) => r matches Some(s) && s@ == n,
            None => r is None,
        },
{
    match first_public_hop(hostnames) {
        Some(i) => {
            proof {
                let k = choose|k: int| is_first_public(hostnames@, k);
                first_public_unique(hostnames@, i as int, k);
            }
            match &hostnames[i] {
                Some(h) => extract_isp_from_hostname(h.as_str()),
                None => None,
            }
        }
        None => {
            assert(!exists|k: int| is_first_public(hostnames@, k)) by {
                if exists|k: int| is_first_public(hostnames@, k) {
                    let k = choose|k: int| is_first_public(hostnames@, k);
                    assert(!public_hop(hostnames@[k]));
                }
            }
            None
        }
    }
}

/// What the ISP check reports when no autonomous system named the ISP: the
/// provider read from the first public-looking hop's name, else that hop's
/// name, else that no external hop was found.
pub open spec fn isp_hop_details(hs: Seq<Option<String>>) -> Seq<char> {
    if exists|i: int| is_first_public(hs, i) {
        let h = hs[choose|i: int| is_first_public(hs, i)].unwrap()@;
        match isp_of_hostname(h) {
            Some(n) => "Provider: "@ + n + " (detected from hostname)"@,
            None => "ISP hop detected: "@ + h,
        }
    } else {
        "Unable to identify ISP (no external hops found)"@
    }
}

/// The ISP identification check from the hops' host names (the hop at
/// index 0 is the local gateway).  It always passes.
pub fn isp_hostname_check(hostnames: &Vec<Option<String>>) -> (c: DiagnosticCheck)
    ensures
        c.name@ == "ISP Identification"@,
        c.passed,
        c.details@ == isp_hop_details(hostnames@),
        c.suggestion is None,
        c.verbose_details@.len() == 0,
{
    match first_public_hop(hostnames) {
        Some(i) => {
            proof {
                let k = choose|k: int| is_first_public(hostnames@, k);
                first_public_unique(hostnames@, i as int, k);
            }
            match &hostnames[i] {
                Some(h) => match extract_isp_from_hostname(h.as_str()) {
                    Some(n) => {
                        let mut d = str_to_string("Provider: ");
                        d.append(n.as_str());
                        d.append(" (detected from hostname)");
                        DiagnosticCheck::pass("ISP Identification", d.as_str())
                    }
                    None => {
                        let mut d = str_to_string("ISP hop detected: ");
                        d.append(h.as_str());
                        DiagnosticCheck::pass("ISP Identification", d.as_str())
                    }
                },
                None => DiagnosticCheck::pass("ISP Identification", "Unable to identify ISP (no external hops found)"),
            }
        }
        None => {
            assert(!exists|k: int| is_first_public(hostnames@, k)) by {
                if exists|k: int| is_first_public(hostnames@, k) {
                    let k = choose|k: int| is_first_public(hostnames@, k);
                    assert(!public_hop(hostnames@[k]));
                }
            }
            DiagnosticCheck::pass("ISP Identification", "Unable to identify ISP (no external hops found)")
        }
    }
}

/// The path analysis check: it passes at a health score of 60 or more;
/// when it fails, its suggestion is the first recommendation, else to
/// check the network configuration.
pub fn network_path_check(details: &str, score: u8, recommendations: &Vec<String>) -> (c: DiagnosticCheck)
    ensures
        c.name@ == "Network Path Analysis"@,
        c.passed == (score >= 60),
        c.details@ == details@,
        score >= 60 ==> c.suggestion is None,
        score < 60 ==> (c.suggestion matches Some(t) && t@ == (if recommendations@.len() > 0 {
            recommendations@[0]@
        } else {
            "Check network configuration"@
        })),
        c.verbose_details@.len() == 0,
{
    if score >= 60 {
        DiagnosticCheck::pass("Network Path Analysis", details)
    } else if recommendations.len() > 0 {
        DiagnosticCheck::fail("Network Path Analysis", details, Some(recommendations[0].as_str()))
    } else {
        DiagnosticCheck::fail("Network Path Analysis", details, Some("Check network configuration"))
    }
}

} // verus!
