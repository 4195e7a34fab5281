//! BGP looking glasses (BGPView, RIPE stat): what their answers say about
//! routes, AS numbers, peers and AS paths.
//!
//! The HTTP exchange itself is the caller's; the functions here take the
//! reply as it came back.

use vstd::prelude::*;
use crate::integrations::error::{HttpReply, IntegrationError};
use crate::text::{decimal, push_decimal, split_on, split_pieces, str_eq, str_to_string, views};

verus! {

/// A BGPView answer: its status ("ok" when it found something) and data.
#[derive(Debug)]
pub struct BgpViewResponse<T> {
    /// Status.
    pub status: String,
    /// Data (empty when the status is not "ok").
    pub data: T,
}

/// An origin AS of a prefix.
#[derive(Debug)]
pub struct BgpViewAsnShort {
    /// AS number.
    pub asn: u32,
    /// AS name.
    pub name: Option<String>,
}

/// The parent of a prefix.
#[derive(Debug)]
pub struct BgpViewParent {
    /// Parent prefix.
    pub prefix: Option<String>,
}

/// The RIR allocation of a prefix.
#[derive(Debug)]
pub struct BgpViewRirAllocation {
    /// RIR name.
    pub rir_name: Option<String>,
    /// Allocation date.
    pub date_allocated: Option<String>,
}

/// BGPView prefix data.
#[derive(Debug)]
pub struct BgpViewPrefix {
    /// Prefix.
    pub prefix: String,
    /// Network address.
    pub ip: String,
    /// Mask length.
    pub cidr: u8,
    /// Origin ASes.
    pub asns: Vec<BgpViewAsnShort>,
    /// Name.
    pub name: Option<String>,
    /// Short description.
    pub description_short: Option<String>,
    /// Country code.
    pub country_code: Option<String>,
    /// Parent.
    pub parent: Option<BgpViewParent>,
    /// RIR allocation.
    pub rir_allocation: Option<BgpViewRirAllocation>,
    /// Last update.
    pub date_updated: Option<String>,
}

/// The RIR of an AS.
#[derive(Debug)]
pub struct BgpViewAsnRir {
    /// RIR name.
    pub rir_name: Option<String>,
}

/// BGPView AS data.
#[derive(Debug)]
pub struct BgpViewAsn {
    /// AS number.
    pub asn: u32,
    /// Name.
    pub name: Option<String>,
    /// Short description.
    pub description_short: Option<String>,
    /// Full description.
    pub description_full: Option<Vec<String>>,
    /// Country code.
    pub country_code: Option<String>,
    /// Website.
    pub website: Option<String>,
    /// Email contacts.
    pub email_contacts: Option<Vec<String>>,
    /// Abuse contacts.
    pub abuse_contacts: Option<Vec<String>>,
    /// Looking glass.
    pub looking_glass: Option<String>,
    /// Traffic estimation.
    pub traffic_estimation: Option<String>,
    /// Traffic ratio.
    pub traffic_ratio: Option<String>,
    /// Owner address.
    pub owner_address: Option<Vec<String>>,
    /// RIR allocation.
    pub rir_allocation: Option<BgpViewAsnRir>,
    /// Last update.
    pub date_updated: Option<String>,
}

/// A prefix an AS announces.
#[derive(Debug)]
pub struct BgpViewPrefixShort {
    /// Prefix.
    pub prefix: String,
}

/// The prefixes an AS announces.
#[derive(Debug)]
pub struct BgpViewAsnPrefixes {
    /// IPv4 prefixes.
    pub ipv4_prefixes: Vec<BgpViewPrefixShort>,
    /// IPv6 prefixes.
    pub ipv6_prefixes: Vec<BgpViewPrefixShort>,
}

/// A peer of an AS.
#[derive(Debug)]
pub struct BgpViewPeer {
    /// Peer AS number.
    pub asn: u32,
    /// Name.
    pub name: Option<String>,
    /// Description.
    pub description: Option<String>,
    /// Country code.
    pub country_code: Option<String>,
}

/// The peers of an AS.
#[derive(Debug)]
pub struct BgpViewAsnPeers {
    /// IPv4 peers.
    pub ipv4_peers: Vec<BgpViewPeer>,
    /// IPv6 peers.
    pub ipv6_peers: Vec<BgpViewPeer>,
}

/// A peer's view of a prefix at a route collector.
#[derive(Debug)]
pub struct RipeStatPeer {
    /// Origin AS of the peer.
    pub asn_origin: u32,
    /// AS path, space-separated.
    pub as_path: String,
    /// Prefix.
    pub prefix: String,
    /// Origin.
    pub origin: Option<String>,
}

/// A route collector and its peers.
#[derive(Debug)]
pub struct RipeStatRrc {
    /// Collector name.
    pub rrc: String,
    /// Peers.
    pub peers: Vec<RipeStatPeer>,
}

/// The data of a RIPE stat looking-glass answer.
#[derive(Debug)]
pub struct RipeStatLookingGlassData {
    /// Route collectors.
    pub rrcs: Vec<RipeStatRrc>,
}

/// A RIPE stat looking-glass answer.
#[derive(Debug)]
pub struct RipeStatLookingGlass {
    /// Its data.
    pub data: RipeStatLookingGlassData,
}

/// Route information.
#[derive(Debug)]
pub struct RouteInfo {
    /// IP prefix.
    pub prefix: String,
    /// Network address.
    pub ip: String,
    /// CIDR mask length.
    pub cidr: u8,
    /// Origin ASNs.
    pub origin_asns: Vec<u32>,
    /// Origin ASN names.
    pub origin_names: Vec<String>,
    /// Country code.
    pub country_code: Option<String>,
    /// Network name.
    pub name: Option<String>,
    /// Description.
    pub description: Option<String>,
    /// Parent prefix.
    pub parent_prefix: Option<String>,
    /// RIR name (ARIN, RIPE, etc).
    pub rir_name: Option<String>,
    /// Allocation date.
    pub allocation_date: Option<String>,
    /// Last updated.
    pub date_updated: Option<String>,
}

/// BGP ASN information.
#[derive(Debug)]
pub struct BgpAsn {
    /// ASN number.
    pub asn: u32,
    /// Name.
    pub name: Option<String>,
    /// Short description.
    pub description: Option<String>,
    /// Full description.
    pub description_full: Vec<String>,
    /// Country code.
    pub country_code: Option<String>,
    /// Website.
    pub website: Option<String>,
    /// Email contacts.
    pub email_contacts: Vec<String>,
    /// Abuse contacts.
    pub abuse_contacts: Vec<String>,
    /// Looking glass URL.
    pub looking_glass: Option<String>,
    /// Traffic estimation.
    pub traffic_estimation: Option<String>,
    /// Traffic ratio.
    pub traffic_ratio: Option<String>,
    /// Owner address.
    pub owner_address: Vec<String>,
    /// RIR name.
    pub rir_name: Option<String>,
    /// Date updated.
    pub date_updated: Option<String>,
}

/// BGP peer information.
#[derive(Debug)]
pub struct BgpPeer {
    /// Peer ASN.
    pub asn: u32,
    /// Peer name.
    pub name: Option<String>,
    /// Peer description.
    pub description: Option<String>,
    /// Peer country.
    pub country_code: Option<String>,
}

/// AS path information.
#[derive(Debug)]
pub struct AsPath {
    /// Route collector.
    pub collector: String,
    /// Peer ASN that reported this path.
    pub peer_asn: u32,
    /// AS path as list of ASNs.
    pub as_path: Vec<String>,
    /// Prefix.
    pub prefix: String,
    /// Origin.
    pub origin: Option<String>,
}

/// The names of the origin ASes that have one, in order.
pub open spec fn present_names(asns: Seq<BgpViewAsnShort>) -> Seq<String>
    decreases asns.len(),
{
    if asns.len() == 0 {
        seq![]
    } else {
        present_names(asns.drop_last()) + (match asns.last().name {
            Some(n) => seq![n],
            None => seq![],
        })
    }
}

/// `r` is the route information of prefix data `p`.
pub open spec fn route_from(p: BgpViewPrefix, r: RouteInfo) -> bool {
    &&& r.prefix == p.prefix
    &&& r.ip == p.ip
    &&& r.cidr == p.cidr
    &&& r.origin_asns@ == p.asns@.map_values(|a: BgpViewAsnShort| a.asn)
    &&& r.origin_names@ == present_names(p.asns@)
    &&& r.country_code == p.country_code
    &&& r.name == p.name
    &&& r.description == p.description_short
    &&& r.parent_prefix == (match p.parent { Some(x) => x.prefix, None => None })
    &&& r.rir_name == (match p.rir_allocation { Some(x) => x.rir_name, None => None })
    &&& r.allocation_date == (match p.rir_allocation { Some(x) => x.date_allocated, None => None })
    &&& r.date_updated == p.date_updated
}

impl RouteInfo {
    /// The route information of BGPView prefix data.
    pub fn from_bgpview(p: BgpViewPrefix) -> (r: RouteInfo)
        ensures
            route_from(p, r),
    {
        let mut origin_asns: Vec<u32> = Vec::new();
        let mut origin_names: Vec<String> = Vec::new();
        let mut i: usize = 0;
        while i < p.asns.len()
            invariant
                i <= p.asns@.len(),
                origin_asns@ == p.asns@.take(i as int).map_values(|a: BgpViewAsnShort| a.asn),
                origin_names@ == present_names(p.asns@.take(i as int)),
            decreases p.asns@.len() - i,
        {
            let a = &p.asns[i];
            origin_asns.push(a.asn);
            match &a.name {
                Some(n) => origin_names.push(n.clone()),
                None => {}
            }
            assert(p.asns@.take(i + 1).drop_last() =~= p.asns@.take(i as int));
            assert(origin_asns@ =~= p.asns@.take(i + 1).map_values(|a: BgpViewAsnShort| a.asn));
            assert(origin_names@ =~= present_names(p.asns@.take(i + 1)));
            i = i + 1;
        }
        assert(p.asns@.take(p.asns@.len() as int) =~= p.asns@);
        let parent_prefix = match p.parent {
            Some(x) => x.prefix,
            None => None,
        };
        let (rir_name, allocation_date) = match p.rir_allocation {
            Some(x) => (x.rir_name, x.date_allocated),
            None => (None, None),
        };
        RouteInfo {
            prefix: p.prefix,
            ip: p.ip,
            cidr: p.cidr,
            origin_asns,
            origin_names,
            country_code: p.country_code,
            name: p.name,
            description: p.description_short,
            parent_prefix,
            rir_name,
            allocation_date,
            date_updated: p.date_updated,
        }
    }
}

/// The strings of an optional list (none for an absent one).
pub open spec fn listed(o: Option<Vec<String>>) -> Seq<String> {
    match o {
        Some(v) => v@,
        None => seq![],
    }
}

/// An optional list, or an empty one.
fn list_or_empty(o: Option<Vec<String>>) -> (r: Vec<String>)
    ensures
        r@ == listed(o),
{
    match o {
        Some(v) => v,
        None => Vec::new(),
    }
}

/// `b` is the AS information of BGPView AS data `a`.
pub open spec fn asn_from(a: BgpViewAsn, b: BgpAsn) -> bool {
    &&& b.asn == a.asn
    &&& b.name == a.name
    &&& b.description == a.description_short
    &&& b.description_full@ == listed(a.description_full)
    &&& b.country_code == a.country_code
    &&& b.website == a.website
    &&& b.email_contacts@ == listed(a.email_contacts)
    &&& b.abuse_contacts@ == listed(a.abuse_contacts)
    &&& b.looking_glass == a.looking_glass
    &&& b.traffic_estimation == a.traffic_estimation
    &&& b.traffic_ratio == a.traffic_ratio
    &&& b.owner_address@ == listed(a.owner_address)
    &&& b.rir_name == (match a.rir_allocation { Some(r) => r.rir_name, None => None })
    &&& b.date_updated == a.date_updated
}

impl BgpAsn {
    /// The AS information of BGPView AS data.
    pub fn from(a: BgpViewAsn) -> (b: BgpAsn)
        ensures
            asn_from(a, b),
    {
        let rir_name = match a.rir_allocation {
            Some(r) => r.rir_name,
            None => None,
        };
        BgpAsn {
            asn: a.asn,
            name: a.name,
            description: a.description_short,
            description_full: list_or_empty(a.description_full),
            country_code: a.country_code,
            website: a.website,
            email_contacts: list_or_empty(a.email_contacts),
            abuse_contacts: list_or_empty(a.abuse_contacts),
            looking_glass: a.looking_glass,
            traffic_estimation: a.traffic_estimation,
            traffic_ratio: a.traffic_ratio,
            owner_address: list_or_empty(a.owner_address),
            rir_name,
            date_updated: a.date_updated,
        }
    }
}

/// The peer information of a BGPView peer.
pub open spec fn peer_of(p: BgpViewPeer) -> BgpPeer {
    BgpPeer { asn: p.asn, name: p.name, description: p.description, country_code: p.country_code }
}

impl BgpPeer {
    /// The peer information of a BGPView peer.
    pub fn from(p: BgpViewPeer) -> (r: BgpPeer)
        ensures
            r == peer_of(p),
    {
        BgpPeer { asn: p.asn, name: p.name, description: p.description, country_code: p.country_code }
    }
}

/// How a missing AS is named: `AS` and its number.
pub open spec fn asn_label(asn: u32) -> Seq<char> {
    "AS"@ + decimal(asn as nat)
}

/// `AS` and the number.
fn asn_text(asn: u32) -> (r: String)
    ensures
        r@ == asn_label(asn),
{
    let mut m = str_to_string("AS");
    push_decimal(&mut m, asn as u64);
    m
}

/// What a BGPView reply becomes: `answer` of its data when the status is
/// "ok"; "not found" (naming `missing`) when it is not, or for a 404; the
/// client's message when the body did not parse; the body text as an API
/// error otherwise.
pub open spec fn bgpview_outcome<T, U>(
    reply: HttpReply<BgpViewResponse<T>>,
    missing: Seq<char>,
    out: Result<U, IntegrationError>,
    answer: spec_fn(T, U) -> bool,
) -> bool {
    match reply {
        HttpReply::Parsed(r) => if r.status@ == "ok"@ {
            out matches Ok(u) && answer(r.data, u)
        } else {
            out matches Err(IntegrationError::NotFound(m)) && m@ == missing
        },
        HttpReply::Unparsable(m) => out matches Err(IntegrationError::Http(x)) && x == m,
        HttpReply::Status(code, body) => if code == 404 {
            out matches Err(IntegrationError::NotFound(m)) && m@ == missing
        } else {
            out matches Err(IntegrationError::Api(b)) && b == body
        },
    }
}

/// The outcome of a route lookup reply for `prefix`.
pub fn route_result(prefix: &str, reply: HttpReply<BgpViewResponse<BgpViewPrefix>>) -> (out: Result<RouteInfo, IntegrationError>)
    ensures
        bgpview_outcome(reply, prefix@, out, |p: BgpViewPrefix, r: RouteInfo| route_from(p, r)),
{
    match reply {
        HttpReply::Parsed(r) => {
            if str_eq(r.status.as_str(), "ok") {
                Ok(RouteInfo::from_bgpview(r.data))
            } else {
                Err(IntegrationError::NotFound(str_to_string(prefix)))
            }
        }
        HttpReply::Unparsable(m) => Err(IntegrationError::Http(m)),
        HttpReply::Status(code, body) => {
            if code == 404 {
                Err(IntegrationError::NotFound(str_to_string(prefix)))
            } else {
                Err(IntegrationError::Api(body))
            }
        }
    }
}

/// The outcome of an AS lookup reply for `asn`.
pub fn asn_result(asn: u32, reply: HttpReply<BgpViewResponse<BgpViewAsn>>) -> (out: Result<BgpAsn, IntegrationError>)
    ensures
        bgpview_outcome(reply, asn_label(asn), out, |a: BgpViewAsn, b: BgpAsn| asn_from(a, b)),
{
    match reply {
        HttpReply::Parsed(r) => {
            if str_eq(r.status.as_str(), "ok") {
                Ok(BgpAsn::from(r.data))
            } else {
                Err(IntegrationError::NotFound(asn_text(asn)))
            }
        }
        HttpReply::Unparsable(m) => Err(IntegrationError::Http(m)),
        HttpReply::Status(code, body) => {
            if code == 404 {
                Err(IntegrationError::NotFound(asn_text(asn)))
            } else {
                Err(IntegrationError::Api(body))
            }
        }
    }
}

/// The prefixes of a list, in order.
pub open spec fn prefix_names(ps: Seq<BgpViewPrefixShort>) -> Seq<String> {
    ps.map_values(|p: BgpViewPrefixShort| p.prefix)
}

/// The announced prefixes: the IPv4 ones, then the IPv6 ones.
pub open spec fn announced(d: BgpViewAsnPrefixes) -> Seq<String> {
    prefix_names(d.ipv4_prefixes@) + prefix_names(d.ipv6_prefixes@)
}

/// Appends the prefixes of `src` to `out`, in order.
fn append_prefixes(out: &mut Vec<String>, src: Vec<BgpViewPrefixShort>)
    ensures
        final(out)@ == old(out)@ + prefix_names(src@),
{
    let ghost start = out@;
    let mut rest = src;
    let ghost orig = rest@;
    while rest.len() > 0
        invariant
            out@ == start + prefix_names(orig.take(orig.len() - rest@.len())),
            rest@.len() <= orig.len(),
            rest@ == orig.skip(orig.len() - rest@.len()),
        decreases rest@.len(),
    {
        let ghost k = orig.len() - rest@.len();
        let p = rest.remove(0);
        out.push(p.prefix);
        assert(rest@ =~= orig.skip(k + 1));
        assert(prefix_names(orig.take(k + 1)) =~= prefix_names(orig.take(k)).push(orig[k].prefix));
        assert(out@ =~= start + prefix_names(orig.take(k + 1)));
    }
    assert(orig.take(orig.len() as int) =~= orig);
}

/// The outcome of an announced-prefixes reply for `asn`.
pub fn prefixes_result(asn: u32, reply: HttpReply<BgpViewResponse<BgpViewAsnPrefixes>>) -> (out: Result<Vec<String>, IntegrationError>)
    ensures
        bgpview_outcome(reply, asn_label(asn), out, |d: BgpViewAsnPrefixes, v: Vec<String>| v@ == announced(d)),
{
    match reply {
        HttpReply::Parsed(r) => {
            if str_eq(r.status.as_str(), "ok") {
                let ghost d = r.data;
                let mut v: Vec<String> = Vec::new();
                append_prefixes(&mut v, r.data.ipv4_prefixes);
                append_prefixes(&mut v, r.data.ipv6_prefixes);
                assert(v@ =~= announced(d));
                Ok(v)
            } else {
                Err(IntegrationError::NotFound(asn_text(asn)))
            }
        }
        HttpReply::Unparsable(m) => Err(IntegrationError::Http(m)),
        HttpReply::Status(code, body) => {
            if code == 404 {
                Err(IntegrationError::NotFound(asn_text(asn)))
            } else {
                Err(IntegrationError::Api(body))
            }
        }
    }
}

/// The peers: the IPv4 ones, then the IPv6 ones.
pub open spec fn peer_list(d: BgpViewAsnPeers) -> Seq<BgpPeer> {
    (d.ipv4_peers@ + d.ipv6_peers@).map_values(|p: BgpViewPeer| peer_of(p))
}

/// Appends the peer information of `src` to `out`, in order.
fn append_peers(out: &mut Vec<BgpPeer>, src: Vec<BgpViewPeer>)
    ensures
        final(out)@ == old(out)@ + src@.map_values(|p: BgpViewPeer| peer_of(p)),
{
    let ghost start = out@;
    let mut rest = src;
    let ghost orig = rest@;
    while rest.len() > 0
        invariant
            out@ == start + orig.take(orig.len() - rest@.len()).map_values(|p: BgpViewPeer| peer_of(p)),
            rest@.len() <= orig.len(),
            rest@ == orig.skip(orig.len() - rest@.len()),
        decreases rest@.len(),
    {
        let ghost k = orig.len() - rest@.len();
        let p = rest.remove(0);
        out.push(BgpPeer::from(p));
        assert(rest@ =~= orig.skip(k + 1));
        assert(out@ =~= start + orig.take(k + 1).map_values(|p: BgpViewPeer| peer_of(p)));
    }
    assert(orig.take(orig.len() as int) =~= orig);
}

/// The outcome of a peers reply for `asn`.
pub fn peers_result(asn: u32, reply: HttpReply<BgpViewResponse<BgpViewAsnPeers>>) -> (out: Result<Vec<BgpPeer>, IntegrationError>)
    ensures
        bgpview_outcome(reply, asn_label(asn), out, |d: BgpViewAsnPeers, v: Vec<BgpPeer>| v@ == peer_list(d)),
{
    match reply {
        HttpReply::Parsed(r) => {
            if str_eq(r.status.as_str(), "ok") {
                let ghost d = r.data;
                let mut v: Vec<BgpPeer> = Vec::new();
                append_peers(&mut v, r.data.ipv4_peers);
                append_peers(&mut v, r.data.ipv6_peers);
                assert(v@ =~= peer_list(d));
                Ok(v)
            } else {
                Err(IntegrationError::NotFound(asn_text(asn)))
            }
        }
        HttpReply::Unparsable(m) => Err(IntegrationError::Http(m)),
        HttpReply::Status(code, body) => {
            if code == 404 {
                Err(IntegrationError::NotFound(asn_text(asn)))
            } else {
                Err(IntegrationError::Api(body))
            }
        }
    }
}

/// `x` is the AS path a peer of collector `c` reports: the path is split at
/// every space.
pub open spec fn path_from(c: String, p: RipeStatPeer, x: AsPath) -> bool {
    &&& x.collector == c
    &&& x.peer_asn == p.asn_origin
    &&& views(x.as_path@) == split_pieces(p.as_path@, ' ')
    &&& x.prefix == p.prefix
    &&& x.origin == p.origin
}

/// Each peer of each collector, with the collector's name, in order.
pub open spec fn path_sources(rrcs: Seq<RipeStatRrc>) -> Seq<(String, RipeStatPeer)> {
    rrcs.map_values(|r: RipeStatRrc| r.peers@.map_values(|p: RipeStatPeer| (r.rrc, p))).flatten()
}

/// `paths` holds one AS path for each peer of each collector, in order.
pub open spec fn paths_from(rrcs: Seq<RipeStatRrc>, paths: Seq<AsPath>) -> bool {
    &&& paths.len() == path_sources(rrcs).len()
    &&& forall|i: int| 0 <= i < paths.len() ==> path_from(#[trigger] path_sources(rrcs)[i].0, path_sources(rrcs)[i].1, paths[i])
}

/// The AS paths of a looking-glass answer.
fn collect_paths(rrcs: &Vec<RipeStatRrc>) -> (r: Vec<AsPath>)
    ensures
        paths_from(rrcs@, r@),
{
    let mut out: Vec<AsPath> = Vec::new();
    let mut k: usize = 0;
    assert(path_sources(rrcs@.take(0)) =~= Seq::<(String, RipeStatPeer)>::empty());
    while k < rrcs.len()
        invariant
            k <= rrcs@.len(),
            paths_from(rrcs@.take(k as int), out@),
        decreases rrcs@.len() - k,
    {
        let rrc = &rrcs[k];
        let ghost base = path_sources(rrcs@.take(k as int));
        let ghost row = rrc.peers@.map_values(|p: RipeStatPeer| (rrc.rrc, p));
        let ghost start = out@;
        let mut j: usize = 0;
        while j < rrc.peers.len()
            invariant
                j <= rrc.peers@.len(),
                row == rrc.peers@.map_values(|p: RipeStatPeer| (rrc.rrc, p)),
                out@.len() == base.len() + j,
                start.len() == base.len(),
                forall|i: int| 0 <= i < base.len() ==> out@[i] == start[i],
                forall|i: int| 0 <= i < base.len() ==> path_from(#[trigger] base[i].0, base[i].1, start[i]),
                forall|i: int| 0 <= i < j ==> path_from(#[trigger] row[i].0, row[i].1, out@[base.len() + i]),
            decreases rrc.peers@.len() - j,
        {
            let peer = &rrc.peers[j];
            let path = AsPath {
                collector: rrc.rrc.clone(),
                peer_asn: peer.asn_origin,
                as_path: split_on(peer.as_path.as_str(), ' '),
                prefix: peer.prefix.clone(),
                origin: peer.origin.clone(),
            };
            out.push(path);
            j = j + 1;
        }
        proof {
            let f = |r: RipeStatRrc| r.peers@.map_values(|p: RipeStatPeer| (r.rrc, p));
            assert(rrcs@.take(k + 1).map_values(f) =~= rrcs@.take(k as int).map_values(f).push(row));
            rrcs@.take(k as int).map_values(f).lemma_flatten_push(row);
            assert(path_sources(rrcs@.take(k + 1)) == base + row);
            assert forall|i: int| 0 <= i < out@.len() implies path_from(#[trigger] path_sources(rrcs@.take(k + 1))[i].0, path_sources(rrcs@.take(k + 1))[i].1, out@[i]) by {
                if i < base.len() {
                    assert(path_sources(rrcs@.take(k + 1))[i] == base[i]);
                } else {
                    assert(path_sources(rrcs@.take(k + 1))[i] == row[i - base.len()]);
                }
            }
        }
        k = k + 1;
    }
    assert(rrcs@.take(rrcs@.len() as int) =~= rrcs@);
    out
}

/// The outcome of a looking-glass reply: the AS paths for a 200, the
/// client's message when its body did not parse, the body text as an API
/// error otherwise.
pub fn as_path_result(reply: HttpReply<RipeStatLookingGlass>) -> (out: Result<Vec<AsPath>, IntegrationError>)
    ensures
        match reply {
            HttpReply::Parsed(r) => out matches Ok(v) && paths_from(r.data.rrcs@, v@),
            HttpReply::Unparsable(m) => out matches Err(IntegrationError::Http(x)) && x == m,
            HttpReply::Status(_, body) => out matches Err(IntegrationError::Api(b)) && b == body,
        },
{
    match reply {
        HttpReply::Parsed(r) => Ok(collect_paths(&r.data.rrcs)),
        HttpReply::Unparsable(m) => Err(IntegrationError::Http(m)),
        HttpReply::Status(_, body) => Err(IntegrationError::Api(body)),
    }
}

} // verus!
