//! Network path analysis: which segment of the path (local network,
//! router, ISP, backbone, destination) each traceroute hop belongs to, who
//! the ISP is, how healthy the path is, and what to do about its issues.

use vstd::prelude::*;
use crate::text::{contains, contains_seq, decimal, push_decimal, str_to_string, to_lowercase, unicode_lowercase, views, list_contains};

verus! {

/// A segment of the network path.
#[derive(Debug, Clone, Copy, PartialEq, Eq, Structural)]
pub enum SegmentType {
    /// The local network (first hop, the default gateway).
    Local,
    /// The router and access network.
    Router,
    /// The ISP's network.
    Isp,
    /// Transit and backbone networks.
    Backbone,
    /// The destination's network.
    Destination,
    /// Not known.
    Unknown,
}

/// The state of a segment.
#[derive(Debug, Clone, Copy, PartialEq, Eq, Structural)]
pub enum SegmentStatus {
    /// Working normally.
    Healthy,
    /// Some problems.
    Degraded,
    /// Serious problems.
    Impaired,
    /// Not working.
    Down,
    /// Not known (no hops).
    Unknown,
}

/// How serious an issue is.
#[derive(Debug, Clone, Copy, PartialEq, Eq, Structural)]
pub enum IssueSeverity {
    /// For information.
    Info,
    /// Worth a look.
    Warning,
    /// Affects connectivity.
    Error,
    /// Breaks connectivity.
    Critical,
}

/// The kind of an issue.
#[derive(Debug, Clone, Copy, PartialEq, Eq, Structural)]
pub enum IssueType {
    /// A segment adds much latency.
    HighLatency,
    /// Packets are lost in a segment.
    PacketLoss,
    /// A segment or the destination cannot be reached.
    Unreachable,
    /// Latency jumps between two hops.
    LatencySpike,
}

/// The kind of service an ISP sells, guessed from its name.
#[derive(Debug, Clone, Copy, PartialEq, Eq, Structural)]
pub enum IspServiceType {
    /// Fiber to the home.
    Fiber,
    /// Cable.
    Cable,
    /// DSL.
    Dsl,
    /// Fixed wireless.
    Wireless,
    /// Satellite.
    Satellite,
    /// Mobile network.
    Cellular,
    /// Not known.
    Unknown,
}

/// One hop of a path, as the analysis reads it.
#[derive(Debug)]
pub struct HopInfo {
    /// Hop number (1 for the first hop).
    pub hop_number: u8,
    /// Reverse-resolved host name.
    pub hostname: Option<String>,
    /// Autonomous system number.
    pub asn: Option<u32>,
    /// Autonomous system name.
    pub as_name: Option<String>,
    /// Whether the hop answered any probe.
    pub responsive: bool,
}

/// The ISP a path goes through.
#[derive(Debug)]
pub struct IspInfo {
    /// ISP name (its AS name).
    pub name: String,
    /// Its AS number.
    pub asn: Option<u32>,
    /// The kind of service, guessed from the name.
    pub service_type: IspServiceType,
}

/// An issue found on the path.
#[derive(Debug)]
pub struct PathIssue {
    /// The segment it lies in.
    pub segment: SegmentType,
    /// Its kind.
    pub issue_type: IssueType,
    /// How serious it is.
    pub severity: IssueSeverity,
    /// What was found.
    pub description: String,
    /// More detail.
    pub details: Option<String>,
    /// What to do about it.
    pub remediation: Option<String>,
}

/// A host name that suggests a backbone or exchange router.
pub open spec fn backbone_name(lower: Seq<char>) -> bool {
    contains_seq(lower, "backbone"@) || contains_seq(lower, "core"@) || contains_seq(lower, "bb"@)
        || contains_seq(lower, "ix"@) || contains_seq(lower, "peer"@)
}

/// The hop names an AS not seen earlier on the path.
pub open spec fn new_asn(asn: Option<u32>, seen: Seq<Option<u32>>) -> bool {
    asn is Some && !seen.contains(asn)
}

/// The segment of a hop, given the AS numbers seen before it and the
/// segment of the hop before: the first hop is local, hops up to the third
/// are the router's; a backbone-like name means backbone, and a named hop
/// up to the sixth that enters no new AS is the ISP's; otherwise the AS
/// numbers decide (the first AS is the ISP, a second new one the backbone,
/// later new ones the destination, and a hop in a known AS stays in the
/// segment before it).
pub open spec fn classify(hop: HopInfo, seen: Seq<Option<u32>>, current: SegmentType) -> SegmentType {
    if hop.hop_number == 1 {
        SegmentType::Local
    } else if hop.hop_number <= 3 {
        SegmentType::Router
    } else if hop.hostname is Some && backbone_name(unicode_lowercase(hop.hostname.unwrap()@)) {
        SegmentType::Backbone
    } else if hop.hostname is Some && hop.hop_number <= 6 && !new_asn(hop.asn, seen) {
        SegmentType::Isp
    } else if seen.len() <= 1 {
        SegmentType::Isp
    } else if seen.len() == 2 {
        if new_asn(hop.asn, seen) { SegmentType::Backbone } else { current }
    } else {
        if new_asn(hop.asn, seen) { SegmentType::Destination } else { current }
    }
}

/// Walking the hops in order: the segment of each, the AS numbers seen
/// (each once, in order of appearance), and the segment of the last hop.
pub open spec fn segment_walk(hops: Seq<HopInfo>) -> (Seq<SegmentType>, Seq<Option<u32>>, SegmentType)
    decreases hops.len(),
{
    if hops.len() == 0 {
        (seq![], seq![], SegmentType::Local)
    } else {
        let (segs, seen, current) = segment_walk(hops.drop_last());
        let h = hops.last();
        let s = classify(h, seen, current);
        let seen2 = if new_asn(h.asn, seen) { seen.push(h.asn) } else { seen };
        (segs.push(s), seen2, s)
    }
}

/// Whether an AS number is among those seen.
fn seen_contains(seen: &Vec<Option<u32>>, asn: Option<u32>) -> (r: bool)
    ensures
        r == seen@.contains(asn),
{
    let mut i: usize = 0;
    while i < seen.len()
        invariant
            i <= seen@.len(),
            forall|j: int| 0 <= j < i ==> seen@[j] != asn,
        decreases seen@.len() - i,
    {
        if seen[i] == asn {
            assert(seen@[i as int] == asn);
            return true;
        }
        i = i + 1;
    }
    false
}

/// Classifies a hop into a network segment.
pub fn classify_hop(hop: &HopInfo, seen_asns: &Vec<Option<u32>>, current_segment: SegmentType) -> (r: SegmentType)
    ensures
        r == classify(*hop, seen_asns@, current_segment),
{
    if hop.hop_number == 1 {
        return SegmentType::Local;
    }
    if hop.hop_number <= 3 {
        return SegmentType::Router;
    }
    let is_new_asn = hop.asn.is_some() && !seen_contains(seen_asns, hop.asn);
    match &hop.hostname {
        Some(hostname) => {
            let lower = to_lowercase(hostname.as_str());
            let l = lower.as_str();
            if contains(l, "backbone") || contains(l, "core") || contains(l, "bb") || contains(l, "ix")
                || contains(l, "peer") {
                return SegmentType::Backbone;
            }
            if hop.hop_number <= 6 && !is_new_asn {
                return SegmentType::Isp;
            }
        }
        None => {}
    }
    if seen_asns.len() <= 1 {
        SegmentType::Isp
    } else if seen_asns.len() == 2 {
        if is_new_asn { SegmentType::Backbone } else { current_segment }
    } else {
        if is_new_asn { SegmentType::Destination } else { current_segment }
    }
}

/// The segment of each hop, in order.
pub fn identify_segments(hops: &Vec<HopInfo>) -> (r: Vec<SegmentType>)
    ensures
        r@ == segment_walk(hops@).0,
{
    let mut segs: Vec<SegmentType> = Vec::new();
    let mut seen: Vec<Option<u32>> = Vec::new();
    let mut current = SegmentType::Local;
    let mut k: usize = 0;
    while k < hops.len()
        invariant
            k <= hops@.len(),
            segment_walk(hops@.take(k as int)) == (segs@, seen@, current),
        decreases hops@.len() - k,
    {
        let h = &hops[k];
        assert(hops@.take(k + 1).drop_last() =~= hops@.take(k as int));
        let s = classify_hop(h, &seen, current);
        if h.asn.is_some() && !seen_contains(&seen, h.asn) {
            seen.push(h.asn);
        }
        segs.push(s);
        current = s;
        k = k + 1;
    }
    assert(hops@.take(hops@.len() as int) =~= hops@);
    segs
}

/// The kind of service a name suggests (matched in lower case, in the
/// order fiber, cable, DSL, wireless, satellite, cellular).
pub open spec fn service_of(lower: Seq<char>) -> IspServiceType {
    if contains_seq(lower, "fiber"@) || contains_seq(lower, "fios"@) || contains_seq(lower, "ftth"@) {
        IspServiceType::Fiber
    } else if contains_seq(lower, "cable"@) || contains_seq(lower, "comcast"@) || contains_seq(lower, "cox"@) {
        IspServiceType::Cable
    } else if contains_seq(lower, "dsl"@) || contains_seq(lower, "at&t"@) || contains_seq(lower, "centurylink"@) {
        IspServiceType::Dsl
    } else if contains_seq(lower, "wireless"@) || contains_seq(lower, "wisp"@) {
        IspServiceType::Wireless
    } else if contains_seq(lower, "starlink"@) || contains_seq(lower, "satellite"@) || contains_seq(lower, "viasat"@) {
        IspServiceType::Satellite
    } else if contains_seq(lower, "mobile"@) || contains_seq(lower, "cellular"@) || contains_seq(lower, "verizon"@)
        || contains_seq(lower, "t-mobile"@) {
        IspServiceType::Cellular
    } else {
        IspServiceType::Unknown
    }
}

/// Guesses ISP service type from name.
pub fn guess_service_type(name: &str) -> (r: IspServiceType)
    ensures
        r == service_of(unicode_lowercase(name@)),
{
    let lower = to_lowercase(name);
    let l = lower.as_str();
    if contains(l, "fiber") || contains(l, "fios") || contains(l, "ftth") {
        IspServiceType::Fiber
    } else if contains(l, "cable") || contains(l, "comcast") || contains(l, "cox") {
        IspServiceType::Cable
    } else if contains(l, "dsl") || contains(l, "at&t") || contains(l, "centurylink") {
        IspServiceType::Dsl
    } else if contains(l, "wireless") || contains(l, "wisp") {
        IspServiceType::Wireless
    } else if contains(l, "starlink") || contains(l, "satellite") || contains(l, "viasat") {
        IspServiceType::Satellite
    } else if contains(l, "mobile") || contains(l, "cellular") || contains(l, "verizon") || contains(l, "t-mobile") {
        IspServiceType::Cellular
    } else {
        IspServiceType::Unknown
    }
}

/// The hop names its AS by number and by name.
pub open spec fn names_as(h: HopInfo) -> bool {
    h.asn is Some && h.as_name is Some
}

/// Identifies the ISP from traceroute hops: the first hop past the local
/// network (from the third on) that names its AS by number and name.
pub fn identify_isp(hops: &Vec<HopInfo>) -> (r: Option<IspInfo>)
    ensures
        match r {
            Some(info) => exists|i: int| 2 <= i < hops@.len() && names_as(#[trigger] hops@[i])
                && (forall|j: int| 2 <= j < i ==> !names_as(#[trigger] hops@[j]))
                && Some(info.name) == hops@[i].as_name && info.asn == hops@[i].asn
                && info.service_type == service_of(unicode_lowercase(hops@[i].as_name.unwrap()@)),
            None => forall|i: int| 2 <= i < hops@.len() ==> !names_as(#[trigger] hops@[i]),
        },
{
    let mut i: usize = 2;
    while i < hops.len()
        invariant
            2 <= i,
            forall|j: int| 2 <= j < i && j < hops@.len() ==> !names_as(#[trigger] hops@[j]),
        decreases hops@.len() - i,
    {
        let h = &hops[i];
        match (&h.asn, &h.as_name) {
            (Some(asn), Some(name)) => {
                assert(names_as(hops@[i as int]));
                return Some(IspInfo { name: name.clone(), asn: Some(*asn), service_type: guess_service_type(name.as_str()) });
            }
            _ => {}
        }
        i = i + 1;
    }
    None
}

/// The advice for high latency in a segment.
pub open spec fn latency_advice(s: SegmentType) -> Seq<char> {
    match s {
        SegmentType::Local => "Check local network congestion and WiFi signal strength"@,
        SegmentType::Router => "Restart router, check for firmware updates"@,
        SegmentType::Isp => "Contact ISP about high latency; check for local outages"@,
        SegmentType::Backbone => "Latency may be geographic; consider CDN or different routing"@,
        SegmentType::Destination => "Destination server may be overloaded or geographically distant"@,
        SegmentType::Unknown => "Unable to determine cause of latency"@,
    }
}

/// Gets remediation advice for latency issues.
pub fn get_latency_remediation(segment: SegmentType) -> (r: String)
    ensures
        r@ == latency_advice(segment),
{
    str_to_string(match segment {
        SegmentType::Local => "Check local network congestion and WiFi signal strength",
        SegmentType::Router => "Restart router, check for firmware updates",
        SegmentType::Isp => "Contact ISP about high latency; check for local outages",
        SegmentType::Backbone => "Latency may be geographic; consider CDN or different routing",
        SegmentType::Destination => "Destination server may be overloaded or geographically distant",
        SegmentType::Unknown => "Unable to determine cause of latency",
    })
}

/// The advice for packet loss in a segment.
pub open spec fn loss_advice(s: SegmentType) -> Seq<char> {
    match s {
        SegmentType::Local => "Check cables, WiFi interference, or local network congestion"@,
        SegmentType::Router => "Restart router, check for overheating or hardware issues"@,
        SegmentType::Isp => "Contact ISP; packet loss at ISP level requires provider intervention"@,
        SegmentType::Backbone => "Transit network issues; usually resolve automatically"@,
        SegmentType::Destination => "Destination network may be congested or experiencing issues"@,
        SegmentType::Unknown => "Unable to determine source of packet loss"@,
    }
}

/// Gets remediation advice for packet loss issues.
pub fn get_packet_loss_remediation(segment: SegmentType) -> (r: String)
    ensures
        r@ == loss_advice(segment),
{
    str_to_string(match segment {
        SegmentType::Local => "Check cables, WiFi interference, or local network congestion",
        SegmentType::Router => "Restart router, check for overheating or hardware issues",
        SegmentType::Isp => "Contact ISP; packet loss at ISP level requires provider intervention",
        SegmentType::Backbone => "Transit network issues; usually resolve automatically",
        SegmentType::Destination => "Destination network may be congested or experiencing issues",
        SegmentType::Unknown => "Unable to determine source of packet loss",
    })
}

/// The points an issue of a severity costs.
pub open spec fn deduction(s: IssueSeverity) -> nat {
    match s {
        IssueSeverity::Info => 2,
        IssueSeverity::Warning => 10,
        IssueSeverity::Error => 25,
        IssueSeverity::Critical => 40,
    }
}

/// The health score: 100, less the points of each issue, never below 0.
pub open spec fn score_after(issues: Seq<PathIssue>) -> nat
    decreases issues.len(),
{
    if issues.len() == 0 {
        100
    } else {
        let s = score_after(issues.drop_last());
        let d = deduction(issues.last().severity);
        if s >= d { (s - d) as nat } else { 0 }
    }
}

/// The health score of a path with these issues.
pub fn health_score(issues: &Vec<PathIssue>) -> (score: u8)
    ensures
        score == score_after(issues@),
{
    let mut score: u8 = 100;
    let mut k: usize = 0;
    while k < issues.len()
        invariant
            k <= issues@.len(),
            score == score_after(issues@.take(k as int)),
        decreases issues@.len() - k,
    {
        assert(issues@.take(k + 1).drop_last() =~= issues@.take(k as int));
        let d: u8 = match issues[k].severity {
            IssueSeverity::Info => 2,
            IssueSeverity::Warning => 10,
            IssueSeverity::Error => 25,
            IssueSeverity::Critical => 40,
        };
        score = score.saturating_sub(d);
        k = k + 1;
    }
    assert(issues@.take(issues@.len() as int) =~= issues@);
    score
}

/// The status is a serious one.
pub open spec fn troubled(s: SegmentStatus) -> bool {
    s is Impaired || s is Down
}

/// The first segment, from local to destination, that is impaired or down.
pub fn problematic_segment(
    local: SegmentStatus,
    router: SegmentStatus,
    isp: SegmentStatus,
    backbone: SegmentStatus,
    destination: SegmentStatus,
) -> (r: Option<SegmentType>)
    ensures
        r == (if troubled(local) { Some(SegmentType::Local) }
            else if troubled(router) { Some(SegmentType::Router) }
            else if troubled(isp) { Some(SegmentType::Isp) }
            else if troubled(backbone) { Some(SegmentType::Backbone) }
            else if troubled(destination) { Some(SegmentType::Destination) }
            else { None }),
{
    let bad = |s: SegmentStatus| -> (b: bool)
        ensures b == troubled(s),
    {
        match s {
            SegmentStatus::Impaired | SegmentStatus::Down => true,
            _ => false,
        }
    };
    if bad(local) {
        Some(SegmentType::Local)
    } else if bad(router) {
        Some(SegmentType::Router)
    } else if bad(isp) {
        Some(SegmentType::Isp)
    } else if bad(backbone) {
        Some(SegmentType::Backbone)
    } else if bad(destination) {
        Some(SegmentType::Destination)
    } else {
        None
    }
}

/// Some issue lies in one of these segments.
pub open spec fn some_issue_in(issues: Seq<PathIssue>, a: SegmentType, b: SegmentType) -> bool {
    exists|i: int| 0 <= i < issues.len() && ((#[trigger] issues[i]).segment == a || issues[i].segment == b)
}

/// The remediations of the critical issues, in order.
pub open spec fn critical_remediations(issues: Seq<PathIssue>) -> Seq<Seq<char>>
    decreases issues.len(),
{
    if issues.len() == 0 {
        seq![]
    } else {
        let rest = critical_remediations(issues.drop_last());
        let last = issues.last();
        if last.severity == IssueSeverity::Critical && last.remediation is Some {
            rest.push(last.remediation.unwrap()@)
        } else {
            rest
        }
    }
}

/// `acc` followed by the items of `xs` it does not hold yet, each once.
pub open spec fn append_new(acc: Seq<Seq<char>>, xs: Seq<Seq<char>>) -> Seq<Seq<char>>
    decreases xs.len(),
{
    if xs.len() == 0 {
        acc
    } else {
        let before = append_new(acc, xs.drop_last());
        if before.contains(xs.last()) { before } else { before.push(xs.last()) }
    }
}

/// The recommendations for a set of issues: one per troubled part of the
/// path (local, ISP, destination), then the remediations of critical issues
/// not given yet; a reassurance when there is nothing to recommend.
pub open spec fn recommendations_for(issues: Seq<PathIssue>) -> Seq<Seq<char>> {
    let base = (if some_issue_in(issues, SegmentType::Local, SegmentType::Router) {
            seq!["Check local network: restart router, verify WiFi signal, check for interference"@]
        } else { seq![] })
        + (if some_issue_in(issues, SegmentType::Isp, SegmentType::Isp) {
            seq!["Contact your ISP: report connectivity issues and request a line test"@]
        } else { seq![] })
        + (if some_issue_in(issues, SegmentType::Destination, SegmentType::Destination) {
            seq!["Destination issue: check if the service has reported outages"@]
        } else { seq![] });
    let all = append_new(base, critical_remediations(issues));
    if all.len() == 0 { seq!["No specific actions required at this time"@] } else { all }
}

/// Generates recommendations based on identified issues.
pub fn generate_recommendations(issues: &Vec<PathIssue>) -> (r: Vec<String>)
    ensures
        views(r@) == recommendations_for(issues@),
{
    let mut has_local = false;
    let mut has_isp = false;
    let mut has_destination = false;
    let mut k: usize = 0;
    while k < issues.len()
        invariant
            k <= issues@.len(),
            has_local == some_issue_in(issues@.take(k as int), SegmentType::Local, SegmentType::Router),
            has_isp == some_issue_in(issues@.take(k as int), SegmentType::Isp, SegmentType::Isp),
            has_destination == some_issue_in(issues@.take(k as int), SegmentType::Destination, SegmentType::Destination),
        decreases issues@.len() - k,
    {
        let ghost t0 = issues@.take(k as int);
        let ghost t1 = issues@.take(k + 1);
        match issues[k].segment {
            SegmentType::Local | SegmentType::Router => has_local = true,
            SegmentType::Isp => has_isp = true,
            SegmentType::Destination => has_destination = true,
            _ => {}
        }
        assert(t1[k as int] == issues@[k as int]);
        assert forall|a: SegmentType, b: SegmentType| some_issue_in(t1, a, b) == (some_issue_in(t0, a, b) || issues@[k as int].segment == a || issues@[k as int].segment == b) by {
            if some_issue_in(t0, a, b) {
                let i = choose|i: int| 0 <= i < t0.len() && ((#[trigger] t0[i]).segment == a || t0[i].segment == b);
                assert(t1[i] == t0[i]);
            }
            if some_issue_in(t1, a, b) {
                let i = choose|i: int| 0 <= i < t1.len() && ((#[trigger] t1[i]).segment == a || t1[i].segment == b);
                if i < k {
                    assert(t0[i] == t1[i]);
                }
            }
        }
        k = k + 1;
    }
    assert(issues@.take(issues@.len() as int) =~= issues@);
    let mut r: Vec<String> = Vec::new();
    if has_local {
        r.push(str_to_string("Check local network: restart router, verify WiFi signal, check for interference"));
    }
    if has_isp {
        r.push(str_to_string("Contact your ISP: report connectivity issues and request a line test"));
    }
    if has_destination {
        r.push(str_to_string("Destination issue: check if the service has reported outages"));
    }
    let ghost base = views(r@);
    let mut m: usize = 0;
    while m < issues.len()
        invariant
            m <= issues@.len(),
            views(r@) == append_new(base, critical_remediations(issues@.take(m as int))),
        decreases issues@.len() - m,
    {
        let ghost before = views(r@);
        let ghost crit = critical_remediations(issues@.take(m as int));
        assert(issues@.take(m + 1).drop_last() =~= issues@.take(m as int));
        assert(issues@.take(m + 1).last() == issues@[m as int]);
        let issue = &issues[m];
        proof {
            if issue.severity == IssueSeverity::Critical && issue.remediation is Some {
                let x = issue.remediation.unwrap()@;
                assert(critical_remediations(issues@.take(m + 1)) == crit.push(x));
                assert(crit.push(x).drop_last() =~= crit);
            } else {
                assert(critical_remediations(issues@.take(m + 1)) == crit);
            }
        }
        if issue.severity == IssueSeverity::Critical {
            match &issue.remediation {
                Some(text) => {
                    if !list_contains(&r, text.as_str()) {
                        r.push(text.clone());
                        assert(views(r@) =~= before.push(text@));
                    }
                }
                None => {}
            }
        }
        m = m + 1;
    }
    assert(issues@.take(issues@.len() as int) =~= issues@);
    proof {
        let base_spec = (if some_issue_in(issues@, SegmentType::Local, SegmentType::Router) {
                seq!["Check local network: restart router, verify WiFi signal, check for interference"@]
            } else { seq![] })
            + (if some_issue_in(issues@, SegmentType::Isp, SegmentType::Isp) {
                seq!["Contact your ISP: report connectivity issues and request a line test"@]
            } else { seq![] })
            + (if some_issue_in(issues@, SegmentType::Destination, SegmentType::Destination) {
                seq!["Destination issue: check if the service has reported outages"@]
            } else { seq![] });
        assert(base =~= base_spec);
    }
    if r.len() == 0 {
        r.push(str_to_string("No specific actions required at this time"));
        assert(views(r@) =~= seq!["No specific actions required at this time"@]);
    }
    r
}

/// The health score lies between 0 and 100, and one more issue never
/// raises it.
pub proof fn score_never_rises(issues: Seq<PathIssue>, extra: PathIssue)
    ensures
        score_after(issues) <= 100,
        score_after(issues.push(extra)) <= score_after(issues),
    decreases issues.len(),
{
    if issues.len() > 0 {
        score_never_rises(issues.drop_last(), issues.last());
    }
    assert(issues.push(extra).drop_last() =~= issues);
}

/// `append_new` keeps what it starts from, adds only what is new, and so
/// holds nothing twice when its start holds nothing twice.
proof fn append_new_distinct(acc: Seq<Seq<char>>, xs: Seq<Seq<char>>)
    requires
        acc.no_duplicates(),
    ensures
        append_new(acc, xs).no_duplicates(),
        append_new(acc, xs).len() >= acc.len(),
    decreases xs.len(),
{
    if xs.len() > 0 {
        append_new_distinct(acc, xs.drop_last());
        let before = append_new(acc, xs.drop_last());
        if !before.contains(xs.last()) {
            assert forall|i: int, j: int| 0 <= i < j < before.push(xs.last()).len()
                implies before.push(xs.last())[i] != before.push(xs.last())[j] by {
                if j == before.len() {
                    assert(before[i] == before.push(xs.last())[i]);
                }
            }
        }
    }
}

/// There is always at least one recommendation, and no recommendation is
/// given twice.
pub proof fn recommendations_distinct_and_present(issues: Seq<PathIssue>)
    ensures
        recommendations_for(issues).len() > 0,
        recommendations_for(issues).no_duplicates(),
{
    reveal_strlit("Check local network: restart router, verify WiFi signal, check for interference");
    reveal_strlit("Contact your ISP: report connectivity issues and request a line test");
    reveal_strlit("Destination issue: check if the service has reported outages");
    let l = "Check local network: restart router, verify WiFi signal, check for interference"@;
    let i = "Contact your ISP: report connectivity issues and request a line test"@;
    let d = "Destination issue: check if the service has reported outages"@;
    assert(l[1] != i[1] && l[1] != d[1] && i[1] != d[1]);
    let base = (if some_issue_in(issues, SegmentType::Local, SegmentType::Router) { seq![l] } else { seq![] })
        + (if some_issue_in(issues, SegmentType::Isp, SegmentType::Isp) { seq![i] } else { seq![] })
        + (if some_issue_in(issues, SegmentType::Destination, SegmentType::Destination) { seq![d] } else { seq![] });
    assert forall|a: int, b: int| 0 <= a < b < base.len() implies base[a] != base[b] by {
        assert(base[a][1] != base[b][1]);
    }
    append_new_distinct(base, critical_remediations(issues));
}

/// The name a segment goes by in issue descriptions.
pub open spec fn segment_label(s: SegmentType) -> Seq<char> {
    match s {
        SegmentType::Local => "Local"@,
        SegmentType::Router => "Router"@,
        SegmentType::Isp => "ISP"@,
        SegmentType::Backbone => "Backbone"@,
        SegmentType::Destination => "Destination"@,
        SegmentType::Unknown => "Unknown"@,
    }
}

/// The name of a segment.
pub fn segment_label_text(s: SegmentType) -> (r: &'static str)
    ensures
        r@ == segment_label(s),
{
    match s {
        SegmentType::Local => "Local",
        SegmentType::Router => "Router",
        SegmentType::Isp => "ISP",
        SegmentType::Backbone => "Backbone",
        SegmentType::Destination => "Destination",
        SegmentType::Unknown => "Unknown",
    }
}

/// A finding measured on a segment (latency or packet loss): whether it
/// is severe, and its description with the measured values.
#[derive(Debug)]
pub struct SegmentFinding {
    /// Whether it crosses the severe threshold.
    pub severe: bool,
    /// What was measured.
    pub description: String,
}

/// What the measurements of a segment came to.  The comparisons of the
/// measured (floating-point) latency and loss with their thresholds are
/// made by the caller.
#[derive(Debug)]
pub struct SegmentReport {
    /// Which segment.
    pub segment: SegmentType,
    /// The segment contributes most of the latency, beyond the limit.
    pub high_latency: Option<SegmentFinding>,
    /// The segment loses more packets than allowed.
    pub packet_loss: Option<SegmentFinding>,
    /// The segment's status.
    pub status: SegmentStatus,
}

/// A latency jump between two hops.
#[derive(Debug)]
pub struct LatencyJump {
    /// The hop after the jump.
    pub hop: u8,
    /// The size of the jump (milliseconds).
    pub diff_ms: u64,
    /// The hop's host name, else its address, else "unknown".
    pub name: String,
    /// The hop's AS name.
    pub as_name: Option<String>,
}

/// An issue as plain values: segment, kind, severity, description,
/// details, remediation.
pub type IssueView = (SegmentType, IssueType, IssueSeverity, Seq<char>, Option<Seq<char>>, Option<Seq<char>>);

/// The characters of an optional string.
pub open spec fn opt_chars(o: Option<String>) -> Option<Seq<char>> {
    match o {
        Some(s) => Some(s@),
        None => None,
    }
}

/// An issue as plain values.
pub open spec fn issue_view(i: PathIssue) -> IssueView {
    (i.segment, i.issue_type, i.severity, i.description@, opt_chars(i.details), opt_chars(i.remediation))
}

/// The high-latency issue of a segment, if any.
pub open spec fn latency_issues(r: SegmentReport) -> Seq<IssueView> {
    match r.high_latency {
        Some(f) => seq![(r.segment, IssueType::HighLatency,
            if f.severe { IssueSeverity::Error } else { IssueSeverity::Warning },
            f.description@, None::<Seq<char>>, Some(latency_advice(r.segment)))],
        None => seq![],
    }
}

/// The packet-loss issue of a segment, if any.
pub open spec fn loss_issues(r: SegmentReport) -> Seq<IssueView> {
    match r.packet_loss {
        Some(f) => seq![(r.segment, IssueType::PacketLoss,
            if f.severe { IssueSeverity::Error } else { IssueSeverity::Warning },
            f.description@, None::<Seq<char>>, Some(loss_advice(r.segment)))],
        None => seq![],
    }
}

/// The issue of a segment that is down, if it is.
pub open spec fn down_issues(r: SegmentReport) -> Seq<IssueView> {
    if r.status == SegmentStatus::Down {
        seq![(r.segment, IssueType::Unreachable, IssueSeverity::Critical,
            segment_label(r.segment) + " segment is unreachable"@, None::<Seq<char>>,
            Some("Check physical connectivity and network configuration"@))]
    } else {
        seq![]
    }
}

/// The issues of one segment: high latency, packet loss, and being down,
/// in that order.
pub open spec fn segment_issues(r: SegmentReport) -> Seq<IssueView> {
    latency_issues(r) + loss_issues(r) + down_issues(r)
}

/// The issues of the segments, segment by segment.
pub open spec fn all_segment_issues(rs: Seq<SegmentReport>) -> Seq<IssueView>
    decreases rs.len(),
{
    if rs.len() == 0 { seq![] } else { all_segment_issues(rs.drop_last()) + segment_issues(rs.last()) }
}

/// The issue of a latency jump: a spike, an error beyond 100 ms.
pub open spec fn jump_issue(j: LatencyJump) -> IssueView {
    (SegmentType::Unknown, IssueType::LatencySpike,
        if j.diff_ms > 100 { IssueSeverity::Error } else { IssueSeverity::Warning },
        "Latency spike of "@ + decimal(j.diff_ms as nat) + "ms at hop "@ + decimal(j.hop as nat) + " ("@ + j.name@ + ")"@,
        opt_chars(j.as_name), None::<Seq<char>>)
}

/// The issues of the latency jumps, in order.
pub open spec fn jump_issues(js: Seq<LatencyJump>) -> Seq<IssueView>
    decreases js.len(),
{
    if js.len() == 0 { seq![] } else { jump_issues(js.drop_last()).push(jump_issue(js.last())) }
}

/// The issue of a destination that was not reached, naming the last hop
/// that answered.
pub open spec fn unreached_issue(last_responding: Option<u8>) -> IssueView {
    (SegmentType::Destination, IssueType::Unreachable, IssueSeverity::Critical, "Destination unreachable"@,
        Some("Last responding hop: "@ + match last_responding {
            Some(h) => "hop "@ + decimal(h as nat),
            None => "none"@,
        }),
        Some("Destination may be blocking ICMP or experiencing an outage"@))
}

/// The issues of a path: those of its segments, then its latency jumps,
/// then the destination not being reached.
pub open spec fn issues_of(rs: Seq<SegmentReport>, js: Seq<LatencyJump>, reached: bool, last_responding: Option<u8>) -> Seq<IssueView> {
    all_segment_issues(rs) + jump_issues(js) + (if reached { seq![] } else { seq![unreached_issue(last_responding)] })
}

/// A copy of a string.
fn copy_text(s: &String) -> (r: String)
    ensures
        r@ == s@,
{
    str_to_string(s.as_str())
}

/// A copy of an optional string.
fn copy_opt(s: &Option<String>) -> (r: Option<String>)
    ensures
        opt_chars(r) == opt_chars(*s),
{
    match s {
        Some(t) => Some(copy_text(t)),
        None => None,
    }
}

/// Adds the issues of one segment.
fn push_segment_issues(out: &mut Vec<PathIssue>, r: &SegmentReport)
    ensures
        final(out)@.map_values(|i: PathIssue| issue_view(i)) == old(out)@.map_values(|i: PathIssue| issue_view(i)) + segment_issues(*r),
{
    let ghost start = out@.map_values(|i: PathIssue| issue_view(i));
    let ghost lat = latency_issues(*r);
    let ghost loss = loss_issues(*r);
    match &r.high_latency {
        Some(f) => {
            out.push(PathIssue {
                segment: r.segment,
                issue_type: IssueType::HighLatency,
                severity: if f.severe { IssueSeverity::Error } else { IssueSeverity::Warning },
                description: copy_text(&f.description),
                details: None,
                remediation: Some(get_latency_remediation(r.segment)),
            });
        }
        None => {}
    }
    assert(out@.map_values(|i: PathIssue| issue_view(i)) =~= start + lat);
    let ghost mid = out@.map_values(|i: PathIssue| issue_view(i));
    match &r.packet_loss {
        Some(f) => {
            out.push(PathIssue {
                segment: r.segment,
                issue_type: IssueType::PacketLoss,
                severity: if f.severe { IssueSeverity::Error } else { IssueSeverity::Warning },
                description: copy_text(&f.description),
                details: None,
                remediation: Some(get_packet_loss_remediation(r.segment)),
            });
        }
        None => {}
    }
    assert(out@.map_values(|i: PathIssue| issue_view(i)) =~= mid + loss);
    let ghost mid2 = out@.map_values(|i: PathIssue| issue_view(i));
    if r.status == SegmentStatus::Down {
        let mut d = str_to_string(segment_label_text(r.segment));
        d.append(" segment is unreachable");
        out.push(PathIssue {
            segment: r.segment,
            issue_type: IssueType::Unreachable,
            severity: IssueSeverity::Critical,
            description: d,
            details: None,
            remediation: Some(str_to_string("Check physical connectivity and network configuration")),
        });
        assert(out@.map_values(|i: PathIssue| issue_view(i)) =~= mid2.push(
            (r.segment, IssueType::Unreachable, IssueSeverity::Critical,
            segment_label(r.segment) + " segment is unreachable"@, None::<Seq<char>>,
            Some("Check physical connectivity and network configuration"@))));
    } else {
        assert(out@.map_values(|i: PathIssue| issue_view(i)) =~= mid2);
    }
    assert(final(out)@.map_values(|i: PathIssue| issue_view(i)) =~= start + segment_issues(*r));
}

/// The issues found on a path: for each segment (in the order given) its
/// high latency, packet loss and being down; then each latency jump; then
/// the destination not being reached.
pub fn path_issues(
    segments: &Vec<SegmentReport>,
    jumps: &Vec<LatencyJump>,
    reached: bool,
    last_responding: Option<u8>,
) -> (r: Vec<PathIssue>)
    ensures
        r@.map_values(|i: PathIssue| issue_view(i)) == issues_of(segments@, jumps@, reached, last_responding),
{
    let mut out: Vec<PathIssue> = Vec::new();
    let mut k: usize = 0;
    while k < segments.len()
        invariant
            k <= segments@.len(),
            out@.map_values(|i: PathIssue| issue_view(i)) == all_segment_issues(segments@.take(k as int)),
        decreases segments@.len() - k,
    {
        assert(segments@.take(k + 1).drop_last() =~= segments@.take(k as int));
        push_segment_issues(&mut out, &segments[k]);
        k = k + 1;
    }
    assert(segments@.take(segments@.len() as int) =~= segments@);
    let ghost base = out@.map_values(|i: PathIssue| issue_view(i));
    let mut m: usize = 0;
    while m < jumps.len()
        invariant
            m <= jumps@.len(),
            out@.map_values(|i: PathIssue| issue_view(i)) == base + jump_issues(jumps@.take(m as int)),
        decreases jumps@.len() - m,
    {
        assert(jumps@.take(m + 1).drop_last() =~= jumps@.take(m as int));
        let j = &jumps[m];
        let ghost before = out@.map_values(|i: PathIssue| issue_view(i));
        let mut d = str_to_string("Latency spike of ");
        push_decimal(&mut d, j.diff_ms);
        d.append("ms at hop ");
        push_decimal(&mut d, j.hop as u64);
        d.append(" (");
        d.append(j.name.as_str());
        d.append(")");
        out.push(PathIssue {
            segment: SegmentType::Unknown,
            issue_type: IssueType::LatencySpike,
            severity: if j.diff_ms > 100 { IssueSeverity::Error } else { IssueSeverity::Warning },
            description: d,
            details: copy_opt(&j.as_name),
            remediation: None,
        });
        assert(out@.map_values(|i: PathIssue| issue_view(i)) =~= before.push(jump_issue(jumps@[m as int])));
        m = m + 1;
    }
    assert(jumps@.take(jumps@.len() as int) =~= jumps@);
    if !reached {
        let ghost before = out@.map_values(|i: PathIssue| issue_view(i));
        let mut details = str_to_string("Last responding hop: ");
        match last_responding {
            Some(h) => {
                details.append("hop ");
                push_decimal(&mut details, h as u64);
                assert(details@ =~= "Last responding hop: "@ + ("hop "@ + decimal(h as nat)));
            }
            None => {
                details.append("none");
            }
        }
        out.push(PathIssue {
            segment: SegmentType::Destination,
            issue_type: IssueType::Unreachable,
            severity: IssueSeverity::Critical,
            description: str_to_string("Destination unreachable"),
            details: Some(details),
            remediation: Some(str_to_string("Destination may be blocking ICMP or experiencing an outage")),
        });
        assert(out@.map_values(|i: PathIssue| issue_view(i)) =~= before.push(unreached_issue(last_responding)));
    }
    out
}

/// The hop number of the last hop that answered, if any.
pub open spec fn last_answering(hops: Seq<HopInfo>) -> Option<u8>
    decreases hops.len(),
{
    if hops.len() == 0 {
        None
    } else if hops.last().responsive {
        Some(hops.last().hop_number)
    } else {
        last_answering(hops.drop_last())
    }
}

/// The hop number of the last hop that answered, if any.
pub fn last_responding_hop(hops: &Vec<HopInfo>) -> (r: Option<u8>)
    ensures
        r == last_answering(hops@),
{
    let mut k: usize = hops.len();
    assert(hops@.take(k as int) =~= hops@);
    while k > 0
        invariant
            k <= hops@.len(),
            last_answering(hops@) == last_answering(hops@.take(k as int)),
        decreases k,
    {
        assert(hops@.take(k as int).drop_last() =~= hops@.take(k - 1));
        if hops[k - 1].responsive {
            return Some(hops[k - 1].hop_number);
        }
        k = k - 1;
    }
    None
}

/// A trace reached its destination when its last hop answered.
pub open spec fn trace_reached(hops: Seq<HopInfo>) -> bool {
    hops.len() > 0 && hops.last().responsive
}

/// Whether a trace reached its destination: its last hop answered.
pub fn destination_reached(hops: &Vec<HopInfo>) -> (r: bool)
    ensures
        r == trace_reached(hops@),
{
    hops.len() > 0 && hops[hops.len() - 1].responsive
}

/// The points that silent hops cost a segment: two when more than half of
/// its hops are silent, one when more than a fifth are.
pub open spec fn silence_points(total: nat, silent: nat) -> nat {
    if 2 * silent > total { 2 } else if 5 * silent > total { 1 } else { 0 }
}

/// The status of a segment: unknown without hops, down when none answered;
/// otherwise by its points (those of its latency and loss, measured by the
/// caller, and those of its silent hops): none healthy, up to two degraded,
/// up to four impaired, more down.
pub open spec fn status_of(total: nat, silent: nat, measured_points: nat) -> SegmentStatus {
    if total == 0 {
        SegmentStatus::Unknown
    } else if silent >= total {
        SegmentStatus::Down
    } else {
        let p = measured_points + silence_points(total, silent);
        if p == 0 {
            SegmentStatus::Healthy
        } else if p <= 2 {
            SegmentStatus::Degraded
        } else if p <= 4 {
            SegmentStatus::Impaired
        } else {
            SegmentStatus::Down
        }
    }
}

/// The status of a segment with `total` hops of which `silent` never
/// answered, given the points its latency and packet loss earned.
pub fn segment_status(total: usize, silent: usize, measured_points: u8) -> (r: SegmentStatus)
    requires
        silent <= total,
    ensures
        r == status_of(total as nat, silent as nat, measured_points as nat),
{
    if total == 0 {
        return SegmentStatus::Unknown;
    }
    if silent == total {
        return SegmentStatus::Down;
    }
    let t = total as u128;
    let s = silent as u128;
    let sp: u32 = if 2 * s > t { 2 } else if 5 * s > t { 1 } else { 0 };
    let p: u32 = measured_points as u32 + sp;
    if p == 0 {
        SegmentStatus::Healthy
    } else if p <= 2 {
        SegmentStatus::Degraded
    } else if p <= 4 {
        SegmentStatus::Impaired
    } else {
        SegmentStatus::Down
    }
}

/// `append_new` keeps what it starts from, in front.
proof fn append_new_keeps_start(acc: Seq<Seq<char>>, xs: Seq<Seq<char>>)
    ensures
        append_new(acc, xs).len() >= acc.len(),
        forall|i: int| 0 <= i < acc.len() ==> #[trigger] append_new(acc, xs)[i] == acc[i],
    decreases xs.len(),
{
    if xs.len() > 0 {
        append_new_keeps_start(acc, xs.drop_last());
    }
}

/// Issues on the path get the advice for where they lie: an issue in the
/// local network or at the router brings the local-network advice first;
/// one at the ISP brings the advice to contact the ISP; one at the
/// destination brings the advice to check the service.  With any of
/// these, the first recommendation is advice, never the reassurance that
/// nothing needs doing.
pub proof fn issues_get_their_advice(issues: Seq<PathIssue>, k: int)
    requires
        0 <= k < issues.len(),
    ensures
        (issues[k].segment == SegmentType::Local || issues[k].segment == SegmentType::Router) ==> (
            recommendations_for(issues).len() > 0
            && recommendations_for(issues)[0] == "Check local network: restart router, verify WiFi signal, check for interference"@),
        issues[k].segment == SegmentType::Isp ==> recommendations_for(issues).contains(
            "Contact your ISP: report connectivity issues and request a line test"@),
        issues[k].segment == SegmentType::Destination ==> recommendations_for(issues).contains(
            "Destination issue: check if the service has reported outages"@),
        (issues[k].segment == SegmentType::Local || issues[k].segment == SegmentType::Router
            || issues[k].segment == SegmentType::Isp || issues[k].segment == SegmentType::Destination) ==> (
            recommendations_for(issues).len() > 0
            && recommendations_for(issues)[0] != "No specific actions required at this time"@),
{
    reveal_strlit("Check local network: restart router, verify WiFi signal, check for interference");
    reveal_strlit("Contact your ISP: report connectivity issues and request a line test");
    reveal_strlit("Destination issue: check if the service has reported outages");
    reveal_strlit("No specific actions required at this time");
    let l = "Check local network: restart router, verify WiFi signal, check for interference"@;
    let i = "Contact your ISP: report connectivity issues and request a line test"@;
    let d = "Destination issue: check if the service has reported outages"@;
    let none = "No specific actions required at this time"@;
    let has_l = some_issue_in(issues, SegmentType::Local, SegmentType::Router);
    let has_i = some_issue_in(issues, SegmentType::Isp, SegmentType::Isp);
    let has_d = some_issue_in(issues, SegmentType::Destination, SegmentType::Destination);
    let bl: Seq<Seq<char>> = if has_l { seq![l] } else { seq![] };
    let bi: Seq<Seq<char>> = if has_i { seq![i] } else { seq![] };
    let bd: Seq<Seq<char>> = if has_d { seq![d] } else { seq![] };
    let base = bl + bi + bd;
    let crit = critical_remediations(issues);
    append_new_keeps_start(base, crit);
    let all = append_new(base, crit);
    assert(issues[k] == issues[k]);
    if issues[k].segment == SegmentType::Local || issues[k].segment == SegmentType::Router {
        assert(has_l);
        assert(base[0] == l);
    }
    if issues[k].segment == SegmentType::Isp {
        assert(has_i);
        assert(base[bl.len() as int] == i);
        assert(all[bl.len() as int] == i);
    }
    if issues[k].segment == SegmentType::Destination {
        assert(has_d);
        assert(base[(bl.len() + bi.len()) as int] == d);
        assert(all[(bl.len() + bi.len()) as int] == d);
    }
    if has_l || has_i || has_d {
        assert(base.len() > 0);
        assert(base[0] == l || base[0] == i || base[0] == d);
        assert(l[0] != none[0] && i[0] != none[0] && d[0] != none[0]);
        assert(all[0] == base[0]);
    }
}

} // verus!
