//! Regional Internet Registries (RIPE, ARIN, ...): which registry to ask,
//! what to ask it, and what its RDAP answer says.
//!
//! The HTTP exchange itself is the caller's; the functions here build the
//! query and take the reply as it came back.

use vstd::prelude::*;
use crate::integrations::error::{HttpReply, IntegrationError};
use crate::text::{has_prefix, list_contains, str_eq, str_to_string, trim_prefixes, trim_start_matches, u32_value, parse_u32, starts_with, views};

verus! {

/// Regional Internet Registry type.
#[derive(Debug, Clone, Copy, PartialEq, Eq, Structural)]
pub enum RegistryType {
    /// ARIN (North America).
    Arin,
    /// RIPE NCC (Europe, Middle East, Central Asia).
    Ripe,
    /// APNIC (Asia Pacific).
    Apnic,
    /// LACNIC (Latin America and Caribbean).
    Lacnic,
    /// AFRINIC (Africa).
    Afrinic,
}

/// The RDAP base URL of a registry.
pub open spec fn registry_url(r: RegistryType) -> Seq<char> {
    match r {
        RegistryType::Arin => "https://rdap.arin.net/registry"@,
        RegistryType::Ripe => "https://rdap.db.ripe.net"@,
        RegistryType::Apnic => "https://rdap.apnic.net"@,
        RegistryType::Lacnic => "https://rdap.lacnic.net/rdap"@,
        RegistryType::Afrinic => "https://rdap.afrinic.net/rdap"@,
    }
}

/// The display name of a registry.
pub open spec fn registry_name(r: RegistryType) -> Seq<char> {
    match r {
        RegistryType::Arin => "ARIN"@,
        RegistryType::Ripe => "RIPE NCC"@,
        RegistryType::Apnic => "APNIC"@,
        RegistryType::Lacnic => "LACNIC"@,
        RegistryType::Afrinic => "AFRINIC"@,
    }
}

impl RegistryType {
    /// Get the API base URL for this registry.
    pub fn api_url(&self) -> (r: &'static str)
        ensures
            r@ == registry_url(*self),
    {
        match self {
            RegistryType::Arin => "https://rdap.arin.net/registry",
            RegistryType::Ripe => "https://rdap.db.ripe.net",
            RegistryType::Apnic => "https://rdap.apnic.net",
            RegistryType::Lacnic => "https://rdap.lacnic.net/rdap",
            RegistryType::Afrinic => "https://rdap.afrinic.net/rdap",
        }
    }

    /// Get display name.
    pub fn name(&self) -> (r: &'static str)
        ensures
            r@ == registry_name(*self),
    {
        match self {
            RegistryType::Arin => "ARIN",
            RegistryType::Ripe => "RIPE NCC",
            RegistryType::Apnic => "APNIC",
            RegistryType::Lacnic => "LACNIC",
            RegistryType::Afrinic => "AFRINIC",
        }
    }
}

/// The registries a WHOIS lookup asks, in the order it asks them.
pub open spec fn registry_sequence() -> Seq<RegistryType> {
    seq![RegistryType::Arin, RegistryType::Ripe, RegistryType::Apnic, RegistryType::Lacnic, RegistryType::Afrinic]
}

/// The registries a WHOIS lookup asks, in order.
pub fn registry_order() -> (r: Vec<RegistryType>)
    ensures
        r@ == registry_sequence(),
{
    let v = vec![RegistryType::Arin, RegistryType::Ripe, RegistryType::Apnic, RegistryType::Lacnic, RegistryType::Afrinic];
    assert(v@ =~= registry_sequence());
    v
}

/// The RDAP object kind a query asks for: an AS number (`AS...` or plain
/// digits) is an "autnum", anything else an "ip".
pub open spec fn query_kind(q: Seq<char>) -> Seq<char> {
    if has_prefix(q, "AS"@) || u32_value(q) is Some { "autnum"@ } else { "ip"@ }
}

/// The URL of a registry query: base, kind, and the query without its
/// leading `AS`s.
pub open spec fn query_url_text(registry: RegistryType, q: Seq<char>) -> Seq<char> {
    registry_url(registry) + "/"@ + query_kind(q) + "/"@ + trim_prefixes(q, "AS"@)
}

/// The URL that asks `registry` about `query`.
pub fn query_url(registry: RegistryType, query: &str) -> (r: String)
    ensures
        r@ == query_url_text(registry, query@),
{
    let kind = if starts_with(query, "AS") || parse_u32(query).is_some() { "autnum" } else { "ip" };
    let clean = trim_start_matches(query, "AS");
    let mut url = str_to_string(registry.api_url());
    url.append("/");
    url.append(kind);
    url.append("/");
    url.append(clean.as_str());
    url
}

/// A JSON value, reduced to what a vCard lookup reads: strings, arrays,
/// and everything else.
#[derive(Debug)]
pub enum JsonItem {
    /// A string.
    Text(String),
    /// An array.
    List(Vec<JsonItem>),
    /// Any other value.
    Other,
}

/// A vCard property names `key`: an array whose first element is that string.
pub open spec fn names_key(p: JsonItem, key: Seq<char>) -> bool {
    match p {
        JsonItem::List(xs) => xs@.len() > 0 && (xs@[0] matches JsonItem::Text(k) && k@ == key),
        _ => false,
    }
}

/// The value of a vCard property: its last element, when that is a string.
pub open spec fn property_value(p: JsonItem) -> Option<String> {
    match p {
        JsonItem::List(xs) => if xs@.len() > 0 {
            match xs@.last() {
                JsonItem::Text(v) => Some(v),
                _ => None,
            }
        } else {
            None
        },
        _ => None,
    }
}

/// The first property of `ps` that names `key`.
pub open spec fn first_property(ps: Seq<JsonItem>, key: Seq<char>) -> Option<JsonItem>
    decreases ps.len(),
{
    if ps.len() == 0 {
        None
    } else if names_key(ps[0], key) {
        Some(ps[0])
    } else {
        first_property(ps.drop_first(), key)
    }
}

/// The first property naming `key`, scanning the property arrays in order.
pub open spec fn first_in_groups(items: Seq<JsonItem>, key: Seq<char>) -> Option<JsonItem>
    decreases items.len(),
{
    if items.len() == 0 {
        None
    } else {
        let here = match items[0] {
            JsonItem::List(ps) => first_property(ps@, key),
            _ => None,
        };
        if here is Some { here } else { first_in_groups(items.drop_first(), key) }
    }
}

/// The value of the first vCard property named `key`, after the leading
/// "vcard" element; nothing when that property's value is not a string.
pub open spec fn vcard_field(v: Option<JsonItem>, key: Seq<char>) -> Option<String> {
    match v {
        Some(JsonItem::List(arr)) => if arr@.len() > 0 {
            match first_in_groups(arr@.drop_first(), key) {
                Some(p) => property_value(p),
                None => None,
            }
        } else {
            None
        },
        _ => None,
    }
}

/// Whether a vCard property names `key`.
fn names(p: &JsonItem, key: &str) -> (b: bool)
    ensures
        b == names_key(*p, key@),
{
    match p {
        JsonItem::List(xs) => {
            if xs.len() > 0 {
                match &xs[0] {
                    JsonItem::Text(k) => str_eq(k.as_str(), key),
                    _ => false,
                }
            } else {
                false
            }
        }
        _ => false,
    }
}

/// The value of a vCard property.
fn value_of(p: &JsonItem) -> (r: Option<String>)
    ensures
        r == property_value(*p),
{
    match p {
        JsonItem::List(xs) => {
            if xs.len() > 0 {
                match &xs[xs.len() - 1] {
                    JsonItem::Text(v) => Some(v.clone()),
                    _ => None,
                }
            } else {
                None
            }
        }
        _ => None,
    }
}

/// Looks up a field of a vCard array.
pub fn vcard_lookup(v: &Option<JsonItem>, key: &str) -> (r: Option<String>)
    ensures
        r == vcard_field(*v, key@),
{
    match v {
        Some(JsonItem::List(arr)) => {
            if arr.len() == 0 {
                return None;
            }
            let ghost groups = arr@.drop_first();
            let mut i: usize = 1;
            assert(arr@.skip(1) =~= groups);
            while i < arr.len()
                invariant
                    1 <= i <= arr@.len(),
                    groups == arr@.drop_first(),
                    first_in_groups(groups, key@) == first_in_groups(arr@.skip(i as int), key@),
                    *v == Some(JsonItem::List(*arr)),
                decreases arr@.len() - i,
            {
                assert(arr@.skip(i as int).drop_first() =~= arr@.skip(i + 1));
                match &arr[i] {
                    JsonItem::List(ps) => {
                        let mut j: usize = 0;
                        assert(ps@.skip(0) =~= ps@);
                        while j < ps.len()
                            invariant
                                j <= ps@.len(),
                                first_property(ps@, key@) == first_property(ps@.skip(j as int), key@),
                                1 <= i < arr@.len(),
                                groups == arr@.drop_first(),
                                first_in_groups(groups, key@) == first_in_groups(arr@.skip(i as int), key@),
                                arr@[i as int] == JsonItem::List(*ps),
                                *v == Some(JsonItem::List(*arr)),
                            decreases ps@.len() - j,
                        {
                            assert(ps@.skip(j as int).drop_first() =~= ps@.skip(j + 1));
                            if names(&ps[j], key) {
                                assert(first_property(ps@.skip(j as int), key@) == Some(ps@[j as int]));
                                assert(first_in_groups(arr@.skip(i as int), key@) == Some(ps@[j as int]));
                                return value_of(&ps[j]);
                            }
                            j = j + 1;
                        }
                    }
                    _ => {}
                }
                i = i + 1;
            }
            None
        }
        _ => None,
    }
}

/// An RDAP entity: its roles and its vCard.
#[derive(Debug)]
pub struct RdapEntity {
    /// Roles ("registrant", "abuse", "technical", ...).
    pub roles: Vec<String>,
    /// The vCard array.
    pub vcard_array: Option<JsonItem>,
}

/// An RDAP remark.
#[derive(Debug)]
pub struct RdapRemark {
    /// Description lines.
    pub description: Option<Vec<String>>,
}

/// An RDAP event.
#[derive(Debug)]
pub struct RdapEvent {
    /// What happened ("registration", "last changed", ...).
    pub event_action: Option<String>,
    /// When.
    pub event_date: Option<String>,
}

/// An RDAP answer, reduced to what the lookup reads.
#[derive(Debug)]
pub struct RdapResponse {
    /// Handle.
    pub handle: Option<String>,
    /// Start address.
    pub start_address: Option<String>,
    /// End address.
    pub end_address: Option<String>,
    /// IP version.
    pub ip_version: Option<String>,
    /// Name.
    pub name: Option<String>,
    /// Network type.
    pub network_type: Option<String>,
    /// Country.
    pub country: Option<String>,
    /// Entities.
    pub entities: Vec<RdapEntity>,
    /// Remarks.
    pub remarks: Vec<RdapRemark>,
    /// Events.
    pub events: Vec<RdapEvent>,
}

/// WHOIS information.
#[derive(Debug)]
pub struct WhoisInfo {
    /// Handle/identifier.
    pub handle: Option<String>,
    /// Network name.
    pub name: Option<String>,
    /// Network type.
    pub network_type: Option<String>,
    /// Start address (for IP ranges).
    pub start_address: Option<String>,
    /// End address (for IP ranges).
    pub end_address: Option<String>,
    /// IP version.
    pub ip_version: Option<String>,
    /// Country code.
    pub country: Option<String>,
    /// Registry that provided the information.
    pub registry: RegistryType,
    /// Organization name.
    pub organization: Option<String>,
    /// Abuse contact email.
    pub abuse_email: Option<String>,
    /// Technical contact email.
    pub tech_email: Option<String>,
    /// Registration date.
    pub registration_date: Option<String>,
    /// Last changed date.
    pub last_changed: Option<String>,
    /// Remarks/description.
    pub remarks: Vec<String>,
}

/// The entity has the role.
pub open spec fn has_role(e: RdapEntity, role: Seq<char>) -> bool {
    views(e.roles@).contains(role)
}

/// The vCard field `key` of the last entity that has `role` (nothing when
/// no entity has it).
pub open spec fn role_field(ents: Seq<RdapEntity>, role: Seq<char>, key: Seq<char>) -> Option<String>
    decreases ents.len(),
{
    if ents.len() == 0 {
        None
    } else if has_role(ents.last(), role) {
        vcard_field(ents.last().vcard_array, key)
    } else {
        role_field(ents.drop_last(), role, key)
    }
}

/// The date of the last event with the action.
pub open spec fn event_date(evs: Seq<RdapEvent>, action: Seq<char>) -> Option<String>
    decreases evs.len(),
{
    if evs.len() == 0 {
        None
    } else if evs.last().event_action matches Some(a) && a@ == action {
        evs.last().event_date
    } else {
        event_date(evs.drop_last(), action)
    }
}

/// The description lines of a remark.
pub open spec fn remark_lines(r: RdapRemark) -> Seq<String> {
    match r.description {
        Some(d) => d@,
        None => seq![],
    }
}

/// All description lines of the remarks, in order.
pub open spec fn all_remark_lines(rs: Seq<RdapRemark>) -> Seq<String> {
    rs.map_values(|r: RdapRemark| remark_lines(r)).flatten()
}

/// `w` is what the RDAP answer `r` from `registry` says.
pub open spec fn whois_from(r: RdapResponse, registry: RegistryType, w: WhoisInfo) -> bool {
    &&& w.handle == r.handle
    &&& w.name == r.name
    &&& w.network_type == r.network_type
    &&& w.start_address == r.start_address
    &&& w.end_address == r.end_address
    &&& w.ip_version == r.ip_version
    &&& w.country == r.country
    &&& w.registry == registry
    &&& w.organization == role_field(r.entities@, "registrant"@, "fn"@)
    &&& w.abuse_email == role_field(r.entities@, "abuse"@, "email"@)
    &&& w.tech_email == role_field(r.entities@, "technical"@, "email"@)
    &&& w.registration_date == event_date(r.events@, "registration"@)
    &&& w.last_changed == event_date(r.events@, "last changed"@)
    &&& w.remarks@ == all_remark_lines(r.remarks@)
}

/// The description lines of the remarks, in order.
fn remark_list(rs: &Vec<RdapRemark>) -> (r: Vec<String>)
    ensures
        r@ == all_remark_lines(rs@),
{
    let mut out: Vec<String> = Vec::new();
    let mut k: usize = 0;
    assert(rs@.take(0).map_values(|r: RdapRemark| remark_lines(r)) =~= Seq::<Seq<String>>::empty());
    while k < rs.len()
        invariant
            k <= rs@.len(),
            out@ == all_remark_lines(rs@.take(k as int)),
        decreases rs@.len() - k,
    {
        let ghost before = out@;
        match &rs[k].description {
            Some(d) => {
                let mut j: usize = 0;
                while j < d.len()
                    invariant
                        j <= d@.len(),
                        out@ == before + d@.take(j as int),
                    decreases d@.len() - j,
                {
                    out.push(d[j].clone());
                    assert(out@ =~= before + d@.take(j + 1));
                    j = j + 1;
                }
                assert(d@.take(d@.len() as int) =~= d@);
            }
            None => {
                assert(out@ =~= before + seq![]);
            }
        }
        proof {
            let f = |r: RdapRemark| remark_lines(r);
            assert(rs@.take(k + 1).map_values(f) =~= rs@.take(k as int).map_values(f).push(remark_lines(rs@[k as int])));
            rs@.take(k as int).map_values(f).lemma_flatten_push(remark_lines(rs@[k as int]));
        }
        k = k + 1;
    }
    assert(rs@.take(rs@.len() as int) =~= rs@);
    out
}

impl WhoisInfo {
    /// What the RDAP answer from `registry` says.
    pub fn from_rdap(rdap: RdapResponse, registry: RegistryType) -> (w: WhoisInfo)
        ensures
            whois_from(rdap, registry, w),
    {
        let mut org_name: Option<String> = None;
        let mut abuse_email: Option<String> = None;
        let mut tech_email: Option<String> = None;
        let mut k: usize = 0;
        while k < rdap.entities.len()
            invariant
                k <= rdap.entities@.len(),
                org_name == role_field(rdap.entities@.take(k as int), "registrant"@, "fn"@),
                abuse_email == role_field(rdap.entities@.take(k as int), "abuse"@, "email"@),
                tech_email == role_field(rdap.entities@.take(k as int), "technical"@, "email"@),
            decreases rdap.entities@.len() - k,
        {
            let ent = &rdap.entities[k];
            assert(rdap.entities@.take(k + 1).drop_last() =~= rdap.entities@.take(k as int));
            if list_contains(&ent.roles, "abuse") {
                abuse_email = vcard_lookup(&ent.vcard_array, "email");
            }
            if list_contains(&ent.roles, "technical") {
                tech_email = vcard_lookup(&ent.vcard_array, "email");
            }
            if list_contains(&ent.roles, "registrant") {
                org_name = vcard_lookup(&ent.vcard_array, "fn");
            }
            k = k + 1;
        }
        assert(rdap.entities@.take(rdap.entities@.len() as int) =~= rdap.entities@);
        let mut reg_date: Option<String> = None;
        let mut changed_date: Option<String> = None;
        let mut e: usize = 0;
        while e < rdap.events.len()
            invariant
                e <= rdap.events@.len(),
                reg_date == event_date(rdap.events@.take(e as int), "registration"@),
                changed_date == event_date(rdap.events@.take(e as int), "last changed"@),
            decreases rdap.events@.len() - e,
        {
            let ev = &rdap.events[e];
            assert(rdap.events@.take(e + 1).drop_last() =~= rdap.events@.take(e as int));
            match &ev.event_action {
                Some(a) => {
                    if str_eq(a.as_str(), "registration") {
                        reg_date = ev.event_date.clone();
                    }
                    if str_eq(a.as_str(), "last changed") {
                        changed_date = ev.event_date.clone();
                    }
                }
                None => {}
            }
            e = e + 1;
        }
        assert(rdap.events@.take(rdap.events@.len() as int) =~= rdap.events@);
        let remarks = remark_list(&rdap.remarks);
        WhoisInfo {
            handle: rdap.handle,
            name: rdap.name,
            network_type: rdap.network_type,
            start_address: rdap.start_address,
            end_address: rdap.end_address,
            ip_version: rdap.ip_version,
            country: rdap.country,
            registry,
            organization: org_name,
            abuse_email,
            tech_email,
            registration_date: reg_date,
            last_changed: changed_date,
            remarks,
        }
    }
}

/// The outcome of a registry reply: the WHOIS information for a 200, the
/// client's message when its body did not parse, "not found" (naming the
/// query) for 404, and the body text as an API error otherwise.
pub fn query_result(registry: RegistryType, query: &str, reply: HttpReply<RdapResponse>) -> (out: Result<WhoisInfo, IntegrationError>)
    ensures
        match reply {
            HttpReply::Parsed(r) => out matches Ok(w) && whois_from(r, registry, w),
            HttpReply::Unparsable(m) => out matches Err(IntegrationError::Http(x)) && x == m,
            HttpReply::Status(code, body) => if code == 404 {
                out matches Err(IntegrationError::NotFound(q)) && q@ == query@
            } else {
                out matches Err(IntegrationError::Api(b)) && b == body
            },
        },
{
    match reply {
        HttpReply::Parsed(r) => Ok(WhoisInfo::from_rdap(r, registry)),
        HttpReply::Unparsable(m) => Err(IntegrationError::Http(m)),
        HttpReply::Status(code, body) => {
            if code == 404 {
                Err(IntegrationError::NotFound(str_to_string(query)))
            } else {
                Err(IntegrationError::Api(body))
            }
        }
    }
}

/// What a WHOIS lookup does after asking one registry.
#[derive(Debug)]
pub enum WhoisStep {
    /// The registry knew the resource: the lookup is done.
    Found(WhoisInfo),
    /// Ask the next registry; this error stands if none is left.
    Next(IntegrationError),
}

/// The step after one registry's outcome: stop at the first answer,
/// otherwise remember the error ("not found" names the query).
pub fn whois_step(query: &str, outcome: Result<WhoisInfo, IntegrationError>) -> (r: WhoisStep)
    ensures
        match outcome {
            Ok(w) => r == WhoisStep::Found(w),
            Err(IntegrationError::NotFound(_)) => r matches WhoisStep::Next(IntegrationError::NotFound(q)) && q@ == query@,
            Err(e) => r == WhoisStep::Next(e),
        },
{
    match outcome {
        Ok(w) => WhoisStep::Found(w),
        Err(IntegrationError::NotFound(_)) => WhoisStep::Next(IntegrationError::NotFound(str_to_string(query))),
        Err(e) => WhoisStep::Next(e),
    }
}

/// The error of a WHOIS lookup that no registry answered: the last
/// registry's error, or "not found" when none was asked.
pub fn whois_failure(last: Option<IntegrationError>, query: &str) -> (r: IntegrationError)
    ensures
        match last {
            Some(e) => r == e,
            None => r matches IntegrationError::NotFound(q) && q@ == query@,
        },
{
    match last {
        Some(e) => e,
        None => IntegrationError::NotFound(str_to_string(query)),
    }
}

/// One record of a RIPE stat answer.
#[derive(Debug)]
pub struct RipeStatRecord {
    /// Key.
    pub key: String,
    /// Value.
    pub value: String,
}

/// The data of a RIPE stat answer.
#[derive(Debug)]
pub struct RipeStatData {
    /// Record groups.
    pub records: Vec<Vec<RipeStatRecord>>,
}

/// A RIPE stat answer.
#[derive(Debug)]
pub struct RipeStatResponse {
    /// Its data.
    pub data: RipeStatData,
}

/// RIPE stat information.
#[derive(Debug)]
pub struct RipeStatInfo {
    /// All key-value pairs from WHOIS.
    pub records: Vec<(String, String)>,
}

/// A group of records as key-value pairs.
pub open spec fn record_pairs(g: Vec<RipeStatRecord>) -> Seq<(String, String)> {
    g@.map_values(|rec: RipeStatRecord| (rec.key, rec.value))
}

/// All records of all groups, in order, as key-value pairs.
pub open spec fn all_record_pairs(gs: Seq<Vec<RipeStatRecord>>) -> Seq<(String, String)> {
    gs.map_values(|g: Vec<RipeStatRecord>| record_pairs(g)).flatten()
}

impl RipeStatInfo {
    /// The key-value pairs of a RIPE stat answer.
    pub fn from(r: RipeStatResponse) -> (info: RipeStatInfo)
        ensures
            info.records@ == all_record_pairs(r.data.records@),
    {
        let gs = &r.data.records;
        let mut out: Vec<(String, String)> = Vec::new();
        let mut k: usize = 0;
        assert(gs@.take(0).map_values(|g: Vec<RipeStatRecord>| record_pairs(g)) =~= Seq::<Seq<(String, String)>>::empty());
        while k < gs.len()
            invariant
                k <= gs@.len(),
                out@ == all_record_pairs(gs@.take(k as int)),
            decreases gs@.len() - k,
        {
            let g = &gs[k];
            let ghost before = out@;
            let mut j: usize = 0;
            while j < g.len()
                invariant
                    j <= g@.len(),
                    out@ == before + record_pairs(*g).take(j as int),
                decreases g@.len() - j,
            {
                out.push((g[j].key.clone(), g[j].value.clone()));
                assert(out@ =~= before + record_pairs(*g).take(j + 1));
                j = j + 1;
            }
            assert(record_pairs(*g).take(g@.len() as int) =~= record_pairs(*g));
            proof {
                let f = |g: Vec<RipeStatRecord>| record_pairs(g);
                assert(gs@.take(k + 1).map_values(f) =~= gs@.take(k as int).map_values(f).push(record_pairs(gs@[k as int])));
                gs@.take(k as int).map_values(f).lemma_flatten_push(record_pairs(gs@[k as int]));
            }
            k = k + 1;
        }
        assert(gs@.take(gs@.len() as int) =~= gs@);
        RipeStatInfo { records: out }
    }
}

/// The outcome of a RIPE stat reply: the records for a 200, the client's
/// message when its body did not parse, the body text as an API error
/// otherwise.
pub fn ripe_stat_result(reply: HttpReply<RipeStatResponse>) -> (out: Result<RipeStatInfo, IntegrationError>)
    ensures
        match reply {
            HttpReply::Parsed(r) => out matches Ok(i) && i.records@ == all_record_pairs(r.data.records@),
            HttpReply::Unparsable(m) => out matches Err(IntegrationError::Http(x)) && x == m,
            HttpReply::Status(_, body) => out matches Err(IntegrationError::Api(b)) && b == body,
        },
{
    match reply {
        HttpReply::Parsed(r) => Ok(RipeStatInfo::from(r)),
        HttpReply::Unparsable(m) => Err(IntegrationError::Http(m)),
        HttpReply::Status(_, body) => Err(IntegrationError::Api(body)),
    }
}

} // verus!
