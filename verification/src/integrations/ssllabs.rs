//! SSL Labs: the grades it gives, the report it sends back, and what an
//! analysis reply becomes.
//!
//! The HTTP exchange itself is the caller's; the functions here take the
//! reply as it came back.

use vstd::prelude::*;
use crate::integrations::error::{HttpReply, IntegrationError};
use crate::text::{insert_sorted_unique, lex_total, str_eq, str_to_string, strictly_sorted, views};

verus! {

/// SSL grade.
#[derive(Debug, Clone, Copy, PartialEq, Eq, Structural, PartialOrd, Ord, Hash)]
pub enum SslGrade {
    /// A+ grade.
    APlus,
    /// A grade.
    A,
    /// A- grade.
    AMinus,
    /// B grade.
    B,
    /// C grade.
    C,
    /// D grade.
    D,
    /// E grade.
    E,
    /// F grade.
    F,
    /// T grade (trust issues).
    T,
    /// M grade (certificate mismatch).
    M,
}

/// How a grade is written.
pub open spec fn grade_text(g: SslGrade) -> Seq<char> {
    match g {
        SslGrade::APlus => seq!['A', '+'],
        SslGrade::A => seq!['A'],
        SslGrade::AMinus => seq!['A', '-'],
        SslGrade::B => seq!['B'],
        SslGrade::C => seq!['C'],
        SslGrade::D => seq!['D'],
        SslGrade::E => seq!['E'],
        SslGrade::F => seq!['F'],
        SslGrade::T => seq!['T'],
        SslGrade::M => seq!['M'],
    }
}

/// The grade written as `t`, if `t` is one.
pub open spec fn grade_from_text(t: Seq<char>) -> Option<SslGrade> {
    if t == grade_text(SslGrade::APlus) { Some(SslGrade::APlus) }
    else if t == grade_text(SslGrade::A) { Some(SslGrade::A) }
    else if t == grade_text(SslGrade::AMinus) { Some(SslGrade::AMinus) }
    else if t == grade_text(SslGrade::B) { Some(SslGrade::B) }
    else if t == grade_text(SslGrade::C) { Some(SslGrade::C) }
    else if t == grade_text(SslGrade::D) { Some(SslGrade::D) }
    else if t == grade_text(SslGrade::E) { Some(SslGrade::E) }
    else if t == grade_text(SslGrade::F) { Some(SslGrade::F) }
    else if t == grade_text(SslGrade::T) { Some(SslGrade::T) }
    else if t == grade_text(SslGrade::M) { Some(SslGrade::M) }
    else { None }
}

/// A passing grade: B or better.
pub open spec fn grade_passes(g: SslGrade) -> bool {
    g is APlus || g is A || g is AMinus || g is B
}

/// The place of a letter grade, best first (A+ is 0, F is 7); the trust
/// and mismatch grades T and M are no letter grades.
pub open spec fn letter_rank(g: SslGrade) -> Option<nat> {
    match g {
        SslGrade::APlus => Some(0),
        SslGrade::A => Some(1),
        SslGrade::AMinus => Some(2),
        SslGrade::B => Some(3),
        SslGrade::C => Some(4),
        SslGrade::D => Some(5),
        SslGrade::E => Some(6),
        SslGrade::F => Some(7),
        SslGrade::T => None,
        SslGrade::M => None,
    }
}

/// Passing goes by the letter: any letter grade at least as good as a
/// passing one passes too.
pub proof fn better_grades_pass(good: SslGrade, passing: SslGrade)
    requires
        letter_rank(good) is Some,
        letter_rank(passing) is Some,
        letter_rank(good).unwrap() <= letter_rank(passing).unwrap(),
        grade_passes(passing),
    ensures
        grade_passes(good),
{
}

/// B is the worst grade that passes: B passes, C and every grade below it
/// fail, and so do the trust and mismatch grades.
pub proof fn b_is_the_pass_mark(g: SslGrade)
    ensures
        grade_passes(SslGrade::B),
        letter_rank(g) is Some && letter_rank(g).unwrap() > 3 ==> !grade_passes(g),
        letter_rank(g) is None ==> !grade_passes(g),
{
}

/// Reading back how a grade is written gives the grade.
pub proof fn grade_text_round_trip(g: SslGrade)
    ensures
        grade_from_text(grade_text(g)) == Some(g),
{
    let a = grade_text(g);
    assert(a.len() == 1 ==> a[0] != '+' && a[0] != '-');
    match g {
        SslGrade::APlus => {}
        SslGrade::A => { assert(a != grade_text(SslGrade::APlus)); }
        SslGrade::AMinus => {
            assert(a[1] != grade_text(SslGrade::APlus)[1]);
        }
        _ => {
            assert(a != grade_text(SslGrade::APlus));
            assert(a[0] != 'A');
        }
    }
}

impl SslGrade {
    /// Parse grade from string.
    pub fn from_str(s: &str) -> (r: Option<SslGrade>)
        ensures
            r == grade_from_text(s@),
    {
        proof {
            reveal_strlit("A+");
            reveal_strlit("A");
            reveal_strlit("A-");
            reveal_strlit("B");
            reveal_strlit("C");
            reveal_strlit("D");
            reveal_strlit("E");
            reveal_strlit("F");
            reveal_strlit("T");
            reveal_strlit("M");
            assert("A+"@ =~= grade_text(SslGrade::APlus));
            assert("A"@ =~= grade_text(SslGrade::A));
            assert("A-"@ =~= grade_text(SslGrade::AMinus));
            assert("B"@ =~= grade_text(SslGrade::B));
            assert("C"@ =~= grade_text(SslGrade::C));
            assert("D"@ =~= grade_text(SslGrade::D));
            assert("E"@ =~= grade_text(SslGrade::E));
            assert("F"@ =~= grade_text(SslGrade::F));
            assert("T"@ =~= grade_text(SslGrade::T));
            assert("M"@ =~= grade_text(SslGrade::M));
        }
        if str_eq(s, "A+") {
            Some(SslGrade::APlus)
        } else if str_eq(s, "A") {
            Some(SslGrade::A)
        } else if str_eq(s, "A-") {
            Some(SslGrade::AMinus)
        } else if str_eq(s, "B") {
            Some(SslGrade::B)
        } else if str_eq(s, "C") {
            Some(SslGrade::C)
        } else if str_eq(s, "D") {
            Some(SslGrade::D)
        } else if str_eq(s, "E") {
            Some(SslGrade::E)
        } else if str_eq(s, "F") {
            Some(SslGrade::F)
        } else if str_eq(s, "T") {
            Some(SslGrade::T)
        } else if str_eq(s, "M") {
            Some(SslGrade::M)
        } else {
            None
        }
    }

    /// Get grade as string.
    pub fn as_str(&self) -> (r: &'static str)
        ensures
            r@ == grade_text(*self),
    {
        match self {
            SslGrade::APlus => { proof { reveal_strlit("A+"); } "A+" }
            SslGrade::A => { proof { reveal_strlit("A"); } "A" }
            SslGrade::AMinus => { proof { reveal_strlit("A-"); } "A-" }
            SslGrade::B => { proof { reveal_strlit("B"); } "B" }
            SslGrade::C => { proof { reveal_strlit("C"); } "C" }
            SslGrade::D => { proof { reveal_strlit("D"); } "D" }
            SslGrade::E => { proof { reveal_strlit("E"); } "E" }
            SslGrade::F => { proof { reveal_strlit("F"); } "F" }
            SslGrade::T => { proof { reveal_strlit("T"); } "T" }
            SslGrade::M => { proof { reveal_strlit("M"); } "M" }
        }
    }

    /// Is this grade passing?
    pub fn is_passing(&self) -> (r: bool)
        ensures
            r == grade_passes(*self),
    {
        match self {
            SslGrade::APlus | SslGrade::A | SslGrade::AMinus | SslGrade::B => true,
            _ => false,
        }
    }
}

/// A protocol the server offers, as the report names it.
#[derive(Debug)]
pub struct SslLabsProtocol {
    /// Protocol name ("TLS").
    pub name: String,
    /// Protocol version ("1.3").
    pub version: String,
}

/// The HSTS policy the report found.
#[derive(Debug)]
pub struct SslLabsHstsPolicy {
    /// Policy status ("present", "absent", ...).
    pub status: Option<String>,
    /// Whether the policy asks for preloading.
    pub preload: Option<bool>,
}

/// The certificate the report found.
#[derive(Debug)]
pub struct SslLabsCert {
    /// Certificate subject.
    pub subject: Option<String>,
    /// Certificate issuer.
    pub issuer: Option<String>,
    /// Expiry, in milliseconds since the epoch.
    pub not_after: Option<u64>,
    /// Key algorithm.
    pub key_alg: Option<String>,
    /// Key size in bits.
    pub key_size: Option<u32>,
}

/// The details of one endpoint, reduced to what the analysis reads.
#[derive(Debug)]
pub struct SslLabsDetails {
    /// Protocols offered.
    pub protocols: Vec<SslLabsProtocol>,
    /// Vulnerable to BEAST.
    pub vuln_beast: Option<bool>,
    /// Vulnerable to Heartbleed.
    pub heartbleed: Option<bool>,
    /// Vulnerable to POODLE.
    pub poodle: Option<bool>,
    /// Vulnerable to FREAK.
    pub freak: Option<bool>,
    /// Vulnerable to Logjam.
    pub logjam: Option<bool>,
    /// The OpenSSL CCS test result (1 and 2 mean vulnerable).
    pub openssl_ccs: Option<i32>,
    /// HSTS policy.
    pub hsts_policy: Option<SslLabsHstsPolicy>,
    /// Certificate.
    pub cert: Option<SslLabsCert>,
}

/// One endpoint of the report.
#[derive(Debug)]
pub struct SslLabsEndpoint {
    /// IP address.
    pub ip_address: String,
    /// Server name.
    pub server_name: Option<String>,
    /// Grade as written.
    pub grade: Option<String>,
    /// Has warnings.
    pub has_warnings: Option<bool>,
    /// Details, when the analysis got that far.
    pub details: Option<SslLabsDetails>,
}

/// The analysis report, reduced to what the analysis reads.
#[derive(Debug)]
pub struct SslLabsResponse {
    /// Host analyzed.
    pub host: String,
    /// Port.
    pub port: u16,
    /// Assessment status ("READY", "IN_PROGRESS", "DNS", "ERROR").
    pub status: String,
    /// Status message.
    pub status_message: Option<String>,
    /// Analysis timestamp.
    pub test_time: Option<u64>,
    /// Engine version.
    pub engine_version: Option<String>,
    /// Endpoints.
    pub endpoints: Vec<SslLabsEndpoint>,
}

/// SSL endpoint analysis.
#[derive(Debug)]
pub struct SslEndpoint {
    /// IP address.
    pub ip_address: String,
    /// Server name.
    pub server_name: Option<String>,
    /// Grade.
    pub grade: Option<SslGrade>,
    /// Has warnings.
    pub has_warnings: bool,
    /// Supported protocols.
    pub protocols: Vec<String>,
    /// Certificate subject.
    pub cert_subject: Option<String>,
    /// Certificate issuer.
    pub cert_issuer: Option<String>,
    /// Certificate expiry.
    pub cert_not_after: Option<u64>,
    /// Key algorithm.
    pub key_algorithm: Option<String>,
    /// Key size.
    pub key_size: Option<u32>,
    /// HSTS enabled.
    pub hsts_enabled: bool,
    /// HSTS preload.
    pub hsts_preload: bool,
    /// Vulnerabilities.
    pub vulnerabilities: Vec<String>,
}

/// SSL analysis result.
#[derive(Debug)]
pub struct SslAnalysis {
    /// Host analyzed.
    pub host: String,
    /// Port.
    pub port: u16,
    /// Overall grade (A+, A, A-, B, C, D, E, F, T, M).
    pub grade: Option<SslGrade>,
    /// Analysis timestamp.
    pub test_time: Option<u64>,
    /// Engine version used.
    pub engine_version: Option<String>,
    /// Endpoints (multiple IPs may serve the same host).
    pub endpoints: Vec<SslEndpoint>,
    /// Does the host support HSTS?
    pub hsts_enabled: bool,
    /// Does the host have HSTS preload?
    pub hsts_preload: bool,
    /// Vulnerabilities detected.
    pub vulnerabilities: Vec<String>,
}

/// SSL Labs API info.
#[derive(Debug)]
pub struct SslLabsInfo {
    /// Engine version.
    pub engine_version: String,
    /// Criteria version.
    pub criteria_version: String,
    /// Max assessments allowed.
    pub max_assessments: u32,
    /// Current assessments running.
    pub current_assessments: u32,
}

/// `[name]` when `on`, else nothing.
pub open spec fn flagged(on: bool, name: Seq<char>) -> Seq<Seq<char>> {
    if on { seq![name] } else { seq![] }
}

/// The vulnerabilities the details report, in the order BEAST, Heartbleed,
/// POODLE, FREAK, Logjam, OpenSSL CCS.
pub open spec fn details_vulnerabilities(d: SslLabsDetails) -> Seq<Seq<char>> {
    flagged(d.vuln_beast == Some(true), "BEAST"@)
        + flagged(d.heartbleed == Some(true), "Heartbleed"@)
        + flagged(d.poodle == Some(true), "POODLE"@)
        + flagged(d.freak == Some(true), "FREAK"@)
        + flagged(d.logjam == Some(true), "Logjam"@)
        + flagged(d.openssl_ccs == Some(1i32) || d.openssl_ccs == Some(2i32), "OpenSSL CCS"@)
}

/// A protocol as the analysis lists it: name, a space, version.
pub open spec fn protocol_text(p: SslLabsProtocol) -> Seq<char> {
    p.name@ + " "@ + p.version@
}

/// The protocols of an endpoint as the analysis lists them.
pub open spec fn protocol_texts(ps: Seq<SslLabsProtocol>) -> Seq<Seq<char>> {
    ps.map_values(|p: SslLabsProtocol| protocol_text(p))
}

/// The certificate of an endpoint's details, if any.
pub open spec fn endpoint_cert(e: SslLabsEndpoint) -> Option<SslLabsCert> {
    match e.details {
        Some(d) => d.cert,
        None => None,
    }
}

/// The HSTS policy of an endpoint's details, if any.
pub open spec fn endpoint_hsts(e: SslLabsEndpoint) -> Option<SslLabsHstsPolicy> {
    match e.details {
        Some(d) => d.hsts_policy,
        None => None,
    }
}

/// `x` is the analysis of report endpoint `e`.
pub open spec fn endpoint_from(e: SslLabsEndpoint, x: SslEndpoint) -> bool {
    &&& x.ip_address == e.ip_address
    &&& x.server_name == e.server_name
    &&& x.grade == (match e.grade {
        Some(g) => grade_from_text(g@),
        None => None,
    })
    &&& x.has_warnings == (e.has_warnings == Some(true))
    &&& views(x.protocols@) == (match e.details {
        Some(d) => protocol_texts(d.protocols@),
        None => seq![],
    })
    &&& x.cert_subject == (match endpoint_cert(e) { Some(c) => c.subject, None => None })
    &&& x.cert_issuer == (match endpoint_cert(e) { Some(c) => c.issuer, None => None })
    &&& x.cert_not_after == (match endpoint_cert(e) { Some(c) => c.not_after, None => None })
    &&& x.key_algorithm == (match endpoint_cert(e) { Some(c) => c.key_alg, None => None })
    &&& x.key_size == (match endpoint_cert(e) { Some(c) => c.key_size, None => None })
    &&& x.hsts_enabled == (match endpoint_hsts(e) {
        Some(h) => (match h.status { Some(s) => s@ == "present"@, None => false }),
        None => false,
    })
    &&& x.hsts_preload == (match endpoint_hsts(e) {
        Some(h) => h.preload == Some(true),
        None => false,
    })
    &&& views(x.vulnerabilities@) == (match e.details {
        Some(d) => details_vulnerabilities(d),
        None => seq![],
    })
}

/// The vulnerabilities of all the endpoints, together.
pub open spec fn vulnerability_set(eps: Seq<SslEndpoint>) -> Set<Seq<char>>
    decreases eps.len(),
{
    if eps.len() == 0 {
        Set::empty()
    } else {
        vulnerability_set(eps.drop_last()).union(views(eps.last().vulnerabilities@).to_set())
    }
}

/// Some endpoint has HSTS enabled.
pub open spec fn any_hsts(eps: Seq<SslEndpoint>) -> bool {
    exists|i: int| 0 <= i < eps.len() && (#[trigger] eps[i]).hsts_enabled
}

/// Some endpoint has HSTS preload.
pub open spec fn any_preload(eps: Seq<SslEndpoint>) -> bool {
    exists|i: int| 0 <= i < eps.len() && (#[trigger] eps[i]).hsts_preload
}

/// `a` is the analysis of report `r`: its endpoints are those of the report,
/// its grade that of the first endpoint, HSTS is on where any endpoint has
/// it, and the vulnerabilities of all endpoints are listed once each, in
/// `String` order.
pub open spec fn analysis_from(r: SslLabsResponse, a: SslAnalysis) -> bool {
    &&& a.host == r.host
    &&& a.port == r.port
    &&& a.test_time == r.test_time
    &&& a.engine_version == r.engine_version
    &&& a.endpoints@.len() == r.endpoints@.len()
    &&& forall|i: int| 0 <= i < r.endpoints@.len() ==> endpoint_from(#[trigger] r.endpoints@[i], a.endpoints@[i])
    &&& a.grade == (if a.endpoints@.len() > 0 { a.endpoints@[0].grade } else { None })
    &&& a.hsts_enabled == any_hsts(a.endpoints@)
    &&& a.hsts_preload == any_preload(a.endpoints@)
    &&& strictly_sorted(views(a.vulnerabilities@))
    &&& views(a.vulnerabilities@).to_set() == vulnerability_set(a.endpoints@)
}

/// Appends a vulnerability name to a list.
fn push_name(v: &mut Vec<String>, name: &str)
    ensures
        views(final(v)@) == views(old(v)@).push(name@),
{
    v.push(str_to_string(name));
    assert(views(v@) =~= views(old(v)@).push(name@));
}

/// The vulnerabilities that endpoint details report.
fn details_vulnerability_list(d: &SslLabsDetails) -> (r: Vec<String>)
    ensures
        views(r@) == details_vulnerabilities(*d),
{
    let mut v: Vec<String> = Vec::new();
    let ghost mut expect: Seq<Seq<char>> = seq![];
    assert(views(v@) =~= expect);
    if d.vuln_beast == Some(true) {
        push_name(&mut v, "BEAST");
    }
    proof { expect = expect + flagged(d.vuln_beast == Some(true), "BEAST"@); }
    assert(views(v@) =~= expect);
    if d.heartbleed == Some(true) {
        push_name(&mut v, "Heartbleed");
    }
    proof { expect = expect + flagged(d.heartbleed == Some(true), "Heartbleed"@); }
    assert(views(v@) =~= expect);
    if d.poodle == Some(true) {
        push_name(&mut v, "POODLE");
    }
    proof { expect = expect + flagged(d.poodle == Some(true), "POODLE"@); }
    assert(views(v@) =~= expect);
    if d.freak == Some(true) {
        push_name(&mut v, "FREAK");
    }
    proof { expect = expect + flagged(d.freak == Some(true), "FREAK"@); }
    assert(views(v@) =~= expect);
    if d.logjam == Some(true) {
        push_name(&mut v, "Logjam");
    }
    proof { expect = expect + flagged(d.logjam == Some(true), "Logjam"@); }
    assert(views(v@) =~= expect);
    if d.openssl_ccs == Some(1i32) || d.openssl_ccs == Some(2i32) {
        push_name(&mut v, "OpenSSL CCS");
    }
    proof {
        expect = expect + flagged(d.openssl_ccs == Some(1i32) || d.openssl_ccs == Some(2i32), "OpenSSL CCS"@);
    }
    assert(views(v@) =~= expect);
    v
}

/// The protocols as the analysis lists them.
fn protocol_list(ps: &Vec<SslLabsProtocol>) -> (r: Vec<String>)
    ensures
        views(r@) == protocol_texts(ps@),
{
    let mut v: Vec<String> = Vec::new();
    let mut i: usize = 0;
    while i < ps.len()
        invariant
            i <= ps@.len(),
            views(v@) == protocol_texts(ps@.take(i as int)),
        decreases ps@.len() - i,
    {
        let p = &ps[i];
        let mut t = p.name.clone();
        t.append(" ");
        t.append(p.version.as_str());
        let ghost before = v@;
        v.push(t);
        assert(views(v@) =~= views(before).push(protocol_text(ps@[i as int])));
        assert(protocol_texts(ps@.take(i + 1)) =~= protocol_texts(ps@.take(i as int)).push(protocol_text(ps@[i as int])));
        i = i + 1;
    }
    assert(ps@.take(ps@.len() as int) =~= ps@);
    v
}

impl SslEndpoint {
    /// The analysis of one report endpoint.
    pub fn from(e: SslLabsEndpoint) -> (x: SslEndpoint)
        ensures
            endpoint_from(e, x),
    {
        let ghost e0 = e;
        let SslLabsEndpoint { ip_address, server_name, grade, has_warnings, details } = e;
        let g = match &grade {
            Some(t) => SslGrade::from_str(t.as_str()),
            None => None,
        };
        let warn = match has_warnings {
            Some(b) => b,
            None => false,
        };
        let mut vulnerabilities: Vec<String> = Vec::new();
        let mut protocols: Vec<String> = Vec::new();
        let mut hsts_enabled = false;
        let mut hsts_preload = false;
        let mut cert_subject: Option<String> = None;
        let mut cert_issuer: Option<String> = None;
        let mut cert_not_after: Option<u64> = None;
        let mut key_algorithm: Option<String> = None;
        let mut key_size: Option<u32> = None;
        assert(views(vulnerabilities@) =~= seq![]);
        assert(views(protocols@) =~= seq![]);
        match details {
            Some(d) => {
                vulnerabilities = details_vulnerability_list(&d);
                protocols = protocol_list(&d.protocols);
                match &d.hsts_policy {
                    Some(h) => {
                        hsts_enabled = match &h.status {
                            Some(s) => str_eq(s.as_str(), "present"),
                            None => false,
                        };
                        hsts_preload = h.preload == Some(true);
                    }
                    None => {}
                }
                match d.cert {
                    Some(c) => {
                        cert_subject = c.subject;
                        cert_issuer = c.issuer;
                        cert_not_after = c.not_after;
                        key_algorithm = c.key_alg;
                        key_size = c.key_size;
                    }
                    None => {}
                }
            }
            None => {}
        }
        SslEndpoint {
            ip_address,
            server_name,
            grade: g,
            has_warnings: warn,
            protocols,
            cert_subject,
            cert_issuer,
            cert_not_after,
            key_algorithm,
            key_size,
            hsts_enabled,
            hsts_preload,
            vulnerabilities,
        }
    }
}

/// The analyses of report endpoints, in order.
fn endpoint_list(src: Vec<SslLabsEndpoint>) -> (r: Vec<SslEndpoint>)
    ensures
        r@.len() == src@.len(),
        forall|i: int| 0 <= i < src@.len() ==> endpoint_from(#[trigger] src@[i], r@[i]),
{
    let ghost orig = src@;
    let mut rest = src;
    let mut out: Vec<SslEndpoint> = Vec::new();
    while rest.len() > 0
        invariant
            out@.len() + rest@.len() == orig.len(),
            rest@ == orig.skip(out@.len() as int),
            forall|i: int| 0 <= i < out@.len() ==> endpoint_from(#[trigger] orig[i], out@[i]),
        decreases rest@.len(),
    {
        let ghost k = out@.len() as int;
        let e = rest.remove(0);
        assert(rest@ =~= orig.skip(k + 1));
        out.push(SslEndpoint::from(e));
    }
    out
}

/// Gathers the vulnerabilities of all endpoints, once each, in order.
fn gather_vulnerabilities(eps: &Vec<SslEndpoint>) -> (r: Vec<String>)
    ensures
        strictly_sorted(views(r@)),
        views(r@).to_set() == vulnerability_set(eps@),
{
    let mut acc: Vec<String> = Vec::new();
    assert(views(acc@).to_set() =~= Set::empty());
    let mut k: usize = 0;
    while k < eps.len()
        invariant
            k <= eps@.len(),
            strictly_sorted(views(acc@)),
            views(acc@).to_set() == vulnerability_set(eps@.take(k as int)),
        decreases eps@.len() - k,
    {
        let vs = &eps[k].vulnerabilities;
        let ghost base = vulnerability_set(eps@.take(k as int));
        let mut j: usize = 0;
        assert(views(vs@).take(0).to_set() =~= Set::empty());
        while j < vs.len()
            invariant
                j <= vs@.len(),
                strictly_sorted(views(acc@)),
                views(acc@).to_set() == base.union(views(vs@).take(j as int).to_set()),
            decreases vs@.len() - j,
        {
            insert_sorted_unique(&mut acc, vs[j].clone());
            assert(views(vs@).take(j + 1) =~= views(vs@).take(j as int).push(vs@[j as int]@));
            proof {
                views(vs@).take(j as int).lemma_push_to_set_commute(vs@[j as int]@);
            }
            assert(views(acc@).to_set() =~= base.union(views(vs@).take(j + 1).to_set()));
            j = j + 1;
        }
        assert(views(vs@).take(vs@.len() as int) =~= views(vs@));
        assert(eps@.take(k + 1).drop_last() =~= eps@.take(k as int));
        k = k + 1;
    }
    assert(eps@.take(eps@.len() as int) =~= eps@);
    acc
}

impl SslAnalysis {
    /// The analysis of a finished report.
    pub fn from(r: SslLabsResponse) -> (a: SslAnalysis)
        ensures
            analysis_from(r, a),
    {
        let SslLabsResponse { host, port, status, status_message, test_time, engine_version, endpoints } = r;
        let eps = endpoint_list(endpoints);
        let grade = if eps.len() > 0 { eps[0].grade } else { None };
        let mut hsts_enabled = false;
        let mut hsts_preload = false;
        let mut i: usize = 0;
        while i < eps.len()
            invariant
                i <= eps@.len(),
                hsts_enabled == exists|j: int| 0 <= j < i && (#[trigger] eps@[j]).hsts_enabled,
                hsts_preload == exists|j: int| 0 <= j < i && (#[trigger] eps@[j]).hsts_preload,
            decreases eps@.len() - i,
        {
            if eps[i].hsts_enabled {
                hsts_enabled = true;
            }
            if eps[i].hsts_preload {
                hsts_preload = true;
            }
            i = i + 1;
        }
        let vulnerabilities = gather_vulnerabilities(&eps);
        SslAnalysis {
            host,
            port,
            grade,
            test_time,
            engine_version,
            endpoints: eps,
            hsts_enabled,
            hsts_preload,
            vulnerabilities,
        }
    }
}

/// What a report of status 200 becomes: an analysis when it is ready,
/// "in progress" while it runs, and an API error otherwise.
pub open spec fn report_outcome(r: SslLabsResponse, out: Result<SslAnalysis, IntegrationError>) -> bool {
    let st = r.status@;
    if st == "READY"@ {
        out matches Ok(a) && analysis_from(r, a)
    } else if st == "IN_PROGRESS"@ || st == "DNS"@ {
        out matches Err(IntegrationError::AnalysisInProgress)
    } else if st == "ERROR"@ {
        out matches Err(IntegrationError::Api(m)) && m@ == (match r.status_message {
            Some(s) => s@,
            None => "Unknown error"@,
        })
    } else {
        out matches Err(IntegrationError::Api(m)) && m@ == "Unknown status: "@ + st
    }
}

/// What an analysis reply becomes: the report's outcome for a 200, the
/// client's message when its body did not parse, a rate-limit error for
/// 429, "unavailable" for 503, and the body text as an API error otherwise.
pub open spec fn reply_outcome(reply: HttpReply<SslLabsResponse>, out: Result<SslAnalysis, IntegrationError>) -> bool {
    match reply {
        HttpReply::Parsed(r) => report_outcome(r, out),
        HttpReply::Unparsable(m) => out matches Err(IntegrationError::Http(x)) && x == m,
        HttpReply::Status(code, body) => {
            if code == 429 {
                out matches Err(IntegrationError::RateLimited(s)) && s@ == "SSL Labs"@
            } else if code == 503 {
                out matches Err(IntegrationError::ServiceUnavailable(s)) && s@ == "SSL Labs"@
            } else {
                out matches Err(IntegrationError::Api(b)) && b == body
            }
        }
    }
}

/// The outcome of a finished report of status 200.
pub fn report_result(r: SslLabsResponse) -> (out: Result<SslAnalysis, IntegrationError>)
    ensures
        report_outcome(r, out),
{
    if str_eq(r.status.as_str(), "READY") {
        Ok(SslAnalysis::from(r))
    } else if str_eq(r.status.as_str(), "IN_PROGRESS") || str_eq(r.status.as_str(), "DNS") {
        Err(IntegrationError::AnalysisInProgress)
    } else if str_eq(r.status.as_str(), "ERROR") {
        match r.status_message {
            Some(m) => Err(IntegrationError::Api(m)),
            None => Err(IntegrationError::Api(str_to_string("Unknown error"))),
        }
    } else {
        let mut m = str_to_string("Unknown status: ");
        m.append(r.status.as_str());
        Err(IntegrationError::Api(m))
    }
}

/// The outcome of an analysis reply.
pub fn handle_response(reply: HttpReply<SslLabsResponse>) -> (out: Result<SslAnalysis, IntegrationError>)
    ensures
        reply_outcome(reply, out),
{
    match reply {
        HttpReply::Parsed(r) => report_result(r),
        HttpReply::Unparsable(m) => Err(IntegrationError::Http(m)),
        HttpReply::Status(code, body) => {
            if code == 429 {
                Err(IntegrationError::RateLimited("SSL Labs"))
            } else if code == 503 {
                Err(IntegrationError::ServiceUnavailable(str_to_string("SSL Labs")))
            } else {
                Err(IntegrationError::Api(body))
            }
        }
    }
}

/// The outcome of a reply for a cached analysis: a running analysis means
/// there is none yet.
pub fn cached_result(reply: HttpReply<SslLabsResponse>) -> (out: Result<Option<SslAnalysis>, IntegrationError>)
    ensures
        match out {
            Ok(Some(a)) => reply_outcome(reply, Ok(a)),
            Ok(None) => reply_outcome(reply, Err(IntegrationError::AnalysisInProgress)),
            Err(e) => reply_outcome(reply, Err(e)) && !(e is AnalysisInProgress) && !(e is NotFound),
        },
{
    match handle_response(reply) {
        Ok(a) => Ok(Some(a)),
        Err(IntegrationError::NotFound(m)) => Ok(None),
        Err(IntegrationError::AnalysisInProgress) => Ok(None),
        Err(e) => Err(e),
    }
}

/// The outcome of an API-info reply: the info for a 200, the client's
/// message when its body did not parse, the body text as an API error
/// otherwise.
pub fn info_result(reply: HttpReply<SslLabsInfo>) -> (out: Result<SslLabsInfo, IntegrationError>)
    ensures
        match reply {
            HttpReply::Parsed(i) => out == Ok::<SslLabsInfo, IntegrationError>(i),
            HttpReply::Unparsable(m) => out matches Err(IntegrationError::Http(x)) && x == m,
            HttpReply::Status(_, body) => out matches Err(IntegrationError::Api(b)) && b == body,
        },
{
    match reply {
        HttpReply::Parsed(i) => Ok(i),
        HttpReply::Unparsable(m) => Err(IntegrationError::Http(m)),
        HttpReply::Status(_, body) => Err(IntegrationError::Api(body)),
    }
}

} // verus!
