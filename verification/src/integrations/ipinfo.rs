//! IPinfo: AS numbers as it writes them, and what an AS answer says.
//!
//! The HTTP exchange itself is the caller's; the functions here take the
//! reply as it came back.

use vstd::prelude::*;
use crate::integrations::error::{lookup_error, lookup_status_error, HttpReply, IntegrationError};
use crate::text::{decimal, parse_u32, push_decimal, str_to_string, trim_prefixes, trim_start_matches, u32_value};

verus! {

/// The AS number in IPinfo's notation (`AS13335`), as the number after any
/// leading `AS`s, when that reads as a `u32`.
pub open spec fn asn_value(s: Seq<char>) -> Option<u32> {
    u32_value(trim_prefixes(s, "AS"@))
}

/// Reads an AS number written as IPinfo writes it.
pub fn asn_number(s: &str) -> (r: Option<u32>)
    ensures
        r == asn_value(s@),
{
    let clean = trim_start_matches(s, "AS");
    parse_u32(clean.as_str())
}

/// A prefix an AS announces.
#[derive(Debug)]
pub struct AsnPrefix {
    /// The netblock ("1.1.1.0/24").
    pub netblock: String,
}

/// An IPinfo AS answer, reduced to what the lookup reads.
#[derive(Debug)]
pub struct AsnInfoResponse {
    /// AS number as written ("AS13335").
    pub asn: String,
    /// Name.
    pub name: String,
    /// Country.
    pub country: Option<String>,
    /// Allocation date.
    pub allocated: Option<String>,
    /// Registry.
    pub registry: Option<String>,
    /// Domain.
    pub domain: Option<String>,
    /// Number of addresses.
    pub num_ips: Option<u64>,
    /// Type.
    pub asn_type: Option<String>,
    /// IPv4 prefixes.
    pub prefixes: Option<Vec<AsnPrefix>>,
    /// IPv6 prefixes.
    pub prefixes6: Option<Vec<AsnPrefix>>,
    /// Peers.
    pub peers: Option<Vec<String>>,
    /// Upstreams.
    pub upstreams: Option<Vec<String>>,
    /// Downstreams.
    pub downstreams: Option<Vec<String>>,
}

/// ASN information result.
#[derive(Debug)]
pub struct AsnInfo {
    /// ASN number.
    pub asn: u32,
    /// ASN name.
    pub name: String,
    /// Country.
    pub country: Option<String>,
    /// Allocation date.
    pub allocated: Option<String>,
    /// Registry (ARIN, RIPE, etc).
    pub registry: Option<String>,
    /// Domain.
    pub domain: Option<String>,
    /// Number of IPs.
    pub num_ips: Option<u64>,
    /// ASN type (isp, business, education, etc).
    pub asn_type: Option<String>,
    /// IPv4 prefixes.
    pub prefixes: Vec<String>,
    /// IPv6 prefixes.
    pub prefixes6: Vec<String>,
    /// Peer ASNs.
    pub peers: Vec<String>,
    /// Upstream ASNs.
    pub upstreams: Vec<String>,
    /// Downstream ASNs.
    pub downstreams: Vec<String>,
}

/// The netblocks of an optional prefix list (none for an absent one).
pub open spec fn netblocks(o: Option<Vec<AsnPrefix>>) -> Seq<String> {
    match o {
        Some(v) => v@.map_values(|p: AsnPrefix| p.netblock),
        None => seq![],
    }
}

/// The strings of an optional list (none for an absent one).
pub open spec fn strings_of(o: Option<Vec<String>>) -> Seq<String> {
    match o {
        Some(v) => v@,
        None => seq![],
    }
}

/// `a` is the AS information of answer `r`; an AS number that does not
/// read is 0.
pub open spec fn asn_info_from(r: AsnInfoResponse, a: AsnInfo) -> bool {
    &&& a.asn == (match asn_value(r.asn@) { Some(n) => n, None => 0u32 })
    &&& a.name == r.name
    &&& a.country == r.country
    &&& a.allocated == r.allocated
    &&& a.registry == r.registry
    &&& a.domain == r.domain
    &&& a.num_ips == r.num_ips
    &&& a.asn_type == r.asn_type
    &&& a.prefixes@ == netblocks(r.prefixes)
    &&& a.prefixes6@ == netblocks(r.prefixes6)
    &&& a.peers@ == strings_of(r.peers)
    &&& a.upstreams@ == strings_of(r.upstreams)
    &&& a.downstreams@ == strings_of(r.downstreams)
}

/// The netblocks of an optional prefix list.
fn netblock_list(o: Option<Vec<AsnPrefix>>) -> (r: Vec<String>)
    ensures
        r@ == netblocks(o),
{
    match o {
        Some(v) => {
            let ghost orig = v@;
            let mut rest = v;
            let mut out: Vec<String> = Vec::new();
            while rest.len() > 0
                invariant
                    out@.len() + rest@.len() == orig.len(),
                    rest@ == orig.skip(out@.len() as int),
                    out@ == orig.take(out@.len() as int).map_values(|p: AsnPrefix| p.netblock),
                decreases rest@.len(),
            {
                let ghost k = out@.len() as int;
                let p = rest.remove(0);
                assert(rest@ =~= orig.skip(k + 1));
                out.push(p.netblock);
                assert(out@ =~= orig.take(k + 1).map_values(|p: AsnPrefix| p.netblock));
            }
            assert(orig.take(orig.len() as int) =~= orig);
            out
        }
        None => Vec::new(),
    }
}

/// An optional list, or an empty one.
fn strings_or_empty(o: Option<Vec<String>>) -> (r: Vec<String>)
    ensures
        r@ == strings_of(o),
{
    match o {
        Some(v) => v,
        None => Vec::new(),
    }
}

impl AsnInfo {
    /// The AS information of an IPinfo answer.
    pub fn from(r: AsnInfoResponse) -> (a: AsnInfo)
        ensures
            asn_info_from(r, a),
    {
        let asn = match asn_number(r.asn.as_str()) {
            Some(n) => n,
            None => 0,
        };
        AsnInfo {
            asn,
            name: r.name,
            country: r.country,
            allocated: r.allocated,
            registry: r.registry,
            domain: r.domain,
            num_ips: r.num_ips,
            asn_type: r.asn_type,
            prefixes: netblock_list(r.prefixes),
            prefixes6: netblock_list(r.prefixes6),
            peers: strings_or_empty(r.peers),
            upstreams: strings_or_empty(r.upstreams),
            downstreams: strings_or_empty(r.downstreams),
        }
    }
}

/// The message for an AS IPinfo does not know.
pub open spec fn asn_missing(asn: u32) -> Seq<char> {
    "ASN not found: AS"@ + decimal(asn as nat)
}

/// The outcome of an AS lookup reply: the information for a 200, the
/// client's message when its body did not parse, and the lookup error of
/// the status otherwise.
pub fn asn_lookup_result(asn: u32, reply: HttpReply<AsnInfoResponse>) -> (out: Result<AsnInfo, IntegrationError>)
    ensures
        match reply {
            HttpReply::Parsed(r) => out matches Ok(a) && asn_info_from(r, a),
            HttpReply::Unparsable(m) => out matches Err(IntegrationError::Http(x)) && x == m,
            HttpReply::Status(code, body) => out matches Err(e) && lookup_error(code, body@, asn_missing(asn), e)
                && (e matches IntegrationError::InvalidApiKey(s) ==> s@ == "IPinfo"@)
                && (e matches IntegrationError::RateLimited(s) ==> s@ == "IPinfo"@),
        },
{
    match reply {
        HttpReply::Parsed(r) => Ok(AsnInfo::from(r)),
        HttpReply::Unparsable(m) => Err(IntegrationError::Http(m)),
        HttpReply::Status(code, body) => {
            let mut missing = str_to_string("ASN not found: AS");
            push_decimal(&mut missing, asn as u64);
            Err(lookup_status_error(code, body, "IPinfo", missing))
        }
    }
}

} // verus!
