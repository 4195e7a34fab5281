//! Traffic counts: per protocol, per address and per port, and the
//! busiest addresses and ports of a capture.

use vstd::prelude::*;
use std::collections::HashMap;
use crate::capture::decode::Protocol;
use crate::text::{str_eq, str_to_string};

verus! {

broadcast use vstd::std_specs::hash::group_hash_axioms;

/// Per-protocol statistics.
#[derive(Debug)]
pub struct ProtocolStats {
    /// Number of packets.
    pub packets: u64,
    /// Total bytes.
    pub bytes: u64,
    /// IP address counts (for top talkers); no address occurs twice.
    pub ip_counts: Vec<(String, u64)>,
    /// Port counts.
    pub port_counts: HashMap<u16, u64>,
}

/// The counts keyed by address, later entries replacing earlier ones.
pub open spec fn counts_map(s: Seq<(String, u64)>) -> Map<Seq<char>, u64>
    decreases s.len(),
{
    if s.len() == 0 {
        Map::empty()
    } else {
        counts_map(s.drop_last()).insert(s.last().0@, s.last().1)
    }
}

/// No address occurs twice.
pub open spec fn addresses_unique(s: Seq<(String, u64)>) -> bool {
    forall|i: int, j: int| 0 <= i < j < s.len() ==> (#[trigger] s[i]).0@ != (#[trigger] s[j]).0@
}

/// The count of an address (zero when unseen).
pub open spec fn count_of(m: Map<Seq<char>, u64>, k: Seq<char>) -> nat {
    if m.contains_key(k) { m[k] as nat } else { 0 }
}

/// With unique addresses, each entry's count is the map's, and the map
/// holds nothing else.
proof fn counts_map_facts(s: Seq<(String, u64)>)
    requires
        addresses_unique(s),
    ensures
        forall|i: int| 0 <= i < s.len() ==> counts_map(s).contains_key((#[trigger] s[i]).0@) && counts_map(s)[s[i].0@] == s[i].1,
        forall|k: Seq<char>| #[trigger] counts_map(s).contains_key(k) ==> exists|i: int| 0 <= i < s.len() && s[i].0@ == k,
    decreases s.len(),
{
    if s.len() > 0 {
        let d = s.drop_last();
        assert forall|i: int, j: int| 0 <= i < j < d.len() implies (#[trigger] d[i]).0@ != (#[trigger] d[j]).0@ by {
            assert(d[i] == s[i] && d[j] == s[j]);
        }
        counts_map_facts(d);
        assert forall|i: int| 0 <= i < s.len() implies counts_map(s).contains_key((#[trigger] s[i]).0@) && counts_map(s)[s[i].0@] == s[i].1 by {
            if i < s.len() - 1 {
                assert(d[i] == s[i]);
                assert(s[i].0@ != s[s.len() - 1].0@);
            }
        }
        assert forall|k: Seq<char>| #[trigger] counts_map(s).contains_key(k) implies exists|i: int| 0 <= i < s.len() && s[i].0@ == k by {
            if k != s.last().0@ {
                assert(counts_map(d).contains_key(k));
                let i = choose|i: int| 0 <= i < d.len() && d[i].0@ == k;
                assert(s[i] == d[i]);
            } else {
                assert(s[s.len() - 1].0@ == k);
            }
        }
    }
}

/// Replacing the count at an index by one under the same address replaces
/// it in the map.
proof fn counts_map_update(s: Seq<(String, u64)>, i: int, e: (String, u64))
    requires
        addresses_unique(s),
        0 <= i < s.len(),
        e.0@ == s[i].0@,
    ensures
        addresses_unique(s.update(i, e)),
        counts_map(s.update(i, e)) == counts_map(s).insert(e.0@, e.1),
{
    let t = s.update(i, e);
    assert forall|a: int, b: int| 0 <= a < b < t.len() implies (#[trigger] t[a]).0@ != (#[trigger] t[b]).0@ by {
        assert(t[a].0@ == s[a].0@ && t[b].0@ == s[b].0@);
    }
    counts_map_facts(s);
    counts_map_facts(t);
    let target = counts_map(s).insert(e.0@, e.1);
    assert forall|k: Seq<char>| #[trigger] counts_map(t).contains_key(k) <==> target.contains_key(k) by {
        if counts_map(t).contains_key(k) {
            let j = choose|j: int| 0 <= j < t.len() && t[j].0@ == k;
            assert(counts_map(s)[s[j].0@] == s[j].1);
        }
        if counts_map(s).contains_key(k) {
            let j = choose|j: int| 0 <= j < s.len() && s[j].0@ == k;
            assert(counts_map(t)[t[j].0@] == t[j].1);
        }
        if k == e.0@ {
            assert(counts_map(t)[t[i].0@] == t[i].1);
        }
    }
    assert forall|k: Seq<char>| #[trigger] counts_map(t).contains_key(k) implies counts_map(t)[k] == target[k] by {
        let j = choose|j: int| 0 <= j < t.len() && t[j].0@ == k;
        assert(counts_map(t)[t[j].0@] == t[j].1);
        if j != i {
            assert(t[j] == s[j]);
            assert(counts_map(s)[s[j].0@] == s[j].1);
        }
    }
    assert(counts_map(t) =~= target);
}

/// The position of an address among the counts.
fn position_of(v: &Vec<(String, u64)>, ip: &str) -> (r: Option<usize>)
    ensures
        match r {
            Some(i) => i < v@.len() && v@[i as int].0@ == ip@,
            None => forall|j: int| 0 <= j < v@.len() ==> (#[trigger] v@[j]).0@ != ip@,
        },
{
    let mut i: usize = 0;
    while i < v.len()
        invariant
            i <= v@.len(),
            forall|j: int| 0 <= j < i ==> (#[trigger] v@[j]).0@ != ip@,
        decreases v@.len() - i,
    {
        if str_eq(v[i].0.as_str(), ip) {
            return Some(i);
        }
        i = i + 1;
    }
    None
}

impl ProtocolStats {
    /// The addresses are distinct.
    pub open spec fn wf(&self) -> bool {
        addresses_unique(self.ip_counts@)
    }

    /// The count of each address seen.
    pub open spec fn ip_map(&self) -> Map<Seq<char>, u64> {
        counts_map(self.ip_counts@)
    }

    /// Create new protocol stats.
    pub fn new() -> (r: Self)
        ensures
            r.wf(),
            r.packets == 0,
            r.bytes == 0,
            r.ip_map() == Map::<Seq<char>, u64>::empty(),
            r.port_counts@ == Map::<u16, u64>::empty(),
    {
        ProtocolStats { packets: 0, bytes: 0, ip_counts: Vec::new(), port_counts: HashMap::new() }
    }

    /// The address counts, for reading.
    pub fn ip_counts(&self) -> (r: &Vec<(String, u64)>)
        requires
            self.wf(),
        ensures
            addresses_unique(r@),
            counts_map(r@) == self.ip_map(),
    {
        &self.ip_counts
    }

    /// How often an address was seen.
    pub fn ip_count(&self, ip: &str) -> (r: u64)
        requires
            self.wf(),
        ensures
            r == count_of(self.ip_map(), ip@),
    {
        proof { counts_map_facts(self.ip_counts@); }
        match position_of(&self.ip_counts, ip) {
            Some(i) => self.ip_counts[i].1,
            None => {
                proof {
                    if counts_map(self.ip_counts@).contains_key(ip@) {
                        let j = choose|j: int| 0 <= j < self.ip_counts@.len() && self.ip_counts@[j].0@ == ip@;
                        assert(self.ip_counts@[j].0@ == ip@);
                    }
                }
                0
            }
        }
    }

    /// Update IP count (the count must not be at its maximum).
    pub fn update_ip(&mut self, ip: &str)
        requires
            old(self).wf(),
            count_of(old(self).ip_map(), ip@) < u64::MAX,
        ensures
            final(self).wf(),
            final(self).ip_map() == old(self).ip_map().insert(ip@, (count_of(old(self).ip_map(), ip@) + 1) as u64),
            final(self).packets == old(self).packets,
            final(self).bytes == old(self).bytes,
            final(self).port_counts@ == old(self).port_counts@,
    {
        proof { counts_map_facts(self.ip_counts@); }
        let ghost before = self.ip_counts@;
        match position_of(&self.ip_counts, ip) {
            Some(i) => {
                let c = self.ip_counts[i].1;
                let k = self.ip_counts[i].0.clone();
                let ghost e = (k, (c + 1) as u64);
                self.ip_counts.set(i, (k, c + 1));
                proof { counts_map_update(before, i as int, e); }
            }
            None => {
                proof {
                    if counts_map(before).contains_key(ip@) {
                        let j = choose|j: int| 0 <= j < before.len() && before[j].0@ == ip@;
                        assert(before[j].0@ == ip@);
                    }
                }
                self.ip_counts.push((str_to_string(ip), 1));
                proof {
                    let after = self.ip_counts@;
                    assert(after.drop_last() =~= before);
                    assert forall|a: int, b: int| 0 <= a < b < after.len() implies (#[trigger] after[a]).0@ != (#[trigger] after[b]).0@ by {
                        assert(after[a] == before[a]);
                        if b < before.len() {
                            assert(after[b] == before[b]);
                        }
                    }
                }
            }
        }
    }

    /// Update port count (the count must not be at its maximum).
    pub fn update_port(&mut self, port: u16)
        requires
            !old(self).port_counts@.contains_key(port) || old(self).port_counts@[port] < u64::MAX,
        ensures
            final(self).port_counts@ == old(self).port_counts@.insert(port,
                (if old(self).port_counts@.contains_key(port) { old(self).port_counts@[port] + 1 } else { 1 }) as u64),
            final(self).packets == old(self).packets,
            final(self).bytes == old(self).bytes,
            final(self).ip_map() == old(self).ip_map(),
            final(self).wf() == old(self).wf(),
    {
        let current: u64 = match self.port_counts.get(&port) {
            Some(c) => *c,
            None => 0,
        };
        self.port_counts.insert(port, current + 1);
    }
}

impl Default for ProtocolStats {
    fn default() -> (r: Self)
        ensures
            r.wf(),
            r.packets == 0,
            r.bytes == 0,
            r.ip_map() == Map::<Seq<char>, u64>::empty(),
            r.port_counts@ == Map::<u16, u64>::empty(),
    {
        ProtocolStats::new()
    }
}

/// The count of a port (zero when unseen).
pub open spec fn port_count(m: Map<u16, u64>, p: u16) -> nat {
    if m.contains_key(p) { m[p] as nat } else { 0 }
}

/// No address or port was counted more than twice per packet (a packet
/// names two endpoints).
pub open spec fn counts_bounded(ps: ProtocolStats) -> bool {
    &&& forall|ip: Seq<char>| #[trigger] count_of(ps.ip_map(), ip) <= 2 * ps.packets
    &&& forall|p: u16| #[trigger] port_count(ps.port_counts@, p) <= 2 * ps.packets
}

/// One more sighting of an address, when there is one.
pub open spec fn bump_ip(m: Map<Seq<char>, u64>, ip: Option<Seq<char>>) -> Map<Seq<char>, u64> {
    match ip {
        Some(a) => m.insert(a, (count_of(m, a) + 1) as u64),
        None => m,
    }
}

/// One more sighting of a port, when there is one.
pub open spec fn bump_port(m: Map<u16, u64>, p: Option<u16>) -> Map<u16, u64> {
    match p {
        Some(x) => m.insert(x, (port_count(m, x) + 1) as u64),
        None => m,
    }
}

/// An optional text as a character sequence.
pub open spec fn opt_text(o: Option<&str>) -> Option<Seq<char>> {
    match o {
        Some(s) => Some(s@),
        None => None,
    }
}

/// `after` is `before` (nothing when the protocol was not seen yet) with
/// one more packet of `length` bytes between the given endpoints.
pub open spec fn recorded(
    before: Option<ProtocolStats>,
    after: ProtocolStats,
    length: nat,
    src_ip: Option<Seq<char>>,
    dst_ip: Option<Seq<char>>,
    src_port: Option<u16>,
    dst_port: Option<u16>,
) -> bool {
    let (packets, bytes, ips, ports) = match before {
        Some(b) => (b.packets as nat, b.bytes as nat, b.ip_map(), b.port_counts@),
        None => (0nat, 0nat, Map::<Seq<char>, u64>::empty(), Map::<u16, u64>::empty()),
    };
    &&& after.packets == packets + 1
    &&& after.bytes == bytes + length
    &&& after.ip_map() == bump_ip(bump_ip(ips, src_ip), dst_ip)
    &&& after.port_counts@ == bump_port(bump_port(ports, src_port), dst_port)
}

/// Records one packet in a protocol's counts.
fn record_in(ps: &mut ProtocolStats, length: usize, src_ip: Option<&str>, dst_ip: Option<&str>, src_port: Option<u16>, dst_port: Option<u16>)
    requires
        old(ps).wf(),
        counts_bounded(*old(ps)),
        2 * (old(ps).packets + 1) <= u64::MAX,
        old(ps).bytes + length <= u64::MAX,
    ensures
        final(ps).wf(),
        counts_bounded(*final(ps)),
        recorded(Some(*old(ps)), *final(ps), length as nat, opt_text(src_ip), opt_text(dst_ip), src_port, dst_port),
{
    let ghost m0 = ps.ip_map();
    let ghost p0 = ps.port_counts@;
    let ghost n0 = ps.packets;
    ps.packets = ps.packets + 1;
    ps.bytes = ps.bytes + length as u64;
    match src_ip {
        Some(a) => {
            assert(count_of(ps.ip_map(), a@) <= 2 * n0);
            ps.update_ip(a);
        }
        None => {}
    }
    let ghost m1 = ps.ip_map();
    assert(m1 == bump_ip(m0, opt_text(src_ip)));
    match dst_ip {
        Some(a) => {
            assert(count_of(m0, a@) <= 2 * n0);
            ps.update_ip(a);
        }
        None => {}
    }
    assert(ps.ip_map() == bump_ip(m1, opt_text(dst_ip)));
    match src_port {
        Some(p) => {
            assert(port_count(p0, p) <= 2 * n0);
            ps.update_port(p);
        }
        None => {}
    }
    let ghost q1 = ps.port_counts@;
    assert(q1 == bump_port(p0, src_port));
    match dst_port {
        Some(p) => {
            assert(port_count(p0, p) <= 2 * n0);
            ps.update_port(p);
        }
        None => {}
    }
    assert(ps.port_counts@ == bump_port(q1, dst_port));
    assert forall|ip: Seq<char>| #[trigger] count_of(ps.ip_map(), ip) <= 2 * ps.packets by {
        assert(count_of(m0, ip) <= 2 * n0);
    }
    assert forall|p: u16| #[trigger] port_count(ps.port_counts@, p) <= 2 * ps.packets by {
        assert(port_count(p0, p) <= 2 * n0);
    }
}

/// The packets of the per-protocol counts, added up.
pub open spec fn packets_sum(s: Seq<(Protocol, ProtocolStats)>) -> nat
    decreases s.len(),
{
    if s.len() == 0 {
        0
    } else {
        packets_sum(s.drop_last()) + s.last().1.packets as nat
    }
}

/// How often an address was seen, over all protocols.
pub open spec fn ip_total(s: Seq<(Protocol, ProtocolStats)>, ip: Seq<char>) -> nat
    decreases s.len(),
{
    if s.len() == 0 {
        0
    } else {
        ip_total(s.drop_last(), ip) + count_of(s.last().1.ip_map(), ip)
    }
}

/// How often a port was seen, over all protocols.
pub open spec fn port_total(s: Seq<(Protocol, ProtocolStats)>, p: u16) -> nat
    decreases s.len(),
{
    if s.len() == 0 {
        0
    } else {
        port_total(s.drop_last(), p) + port_count(s.last().1.port_counts@, p)
    }
}

/// No protocol has two entries.
pub open spec fn protocols_unique(s: Seq<(Protocol, ProtocolStats)>) -> bool {
    forall|i: int, j: int| 0 <= i < j < s.len() ==> (#[trigger] s[i]).0 != (#[trigger] s[j]).0
}

/// Changing one entry's packets changes the sum by the difference.
proof fn packets_sum_update(s: Seq<(Protocol, ProtocolStats)>, k: int, e: (Protocol, ProtocolStats))
    requires
        0 <= k < s.len(),
    ensures
        packets_sum(s.update(k, e)) == packets_sum(s) - s[k].1.packets + e.1.packets,
    decreases s.len(),
{
    let t = s.update(k, e);
    if k == s.len() - 1 {
        assert(t.drop_last() =~= s.drop_last());
    } else {
        packets_sum_update(s.drop_last(), k, e);
        assert(t.drop_last() =~= s.drop_last().update(k, e));
    }
}

/// Each protocol's packets are part of the sum.
proof fn packets_sum_member(s: Seq<(Protocol, ProtocolStats)>, k: int)
    requires
        0 <= k < s.len(),
    ensures
        s[k].1.packets <= packets_sum(s),
    decreases s.len(),
{
    if k < s.len() - 1 {
        packets_sum_member(s.drop_last(), k);
    }
}

/// With every protocol's counts bounded, an address was seen at most twice
/// per packet overall.
proof fn ip_total_bounded(s: Seq<(Protocol, ProtocolStats)>, ip: Seq<char>)
    requires
        forall|i: int| 0 <= i < s.len() ==> counts_bounded(#[trigger] s[i].1),
    ensures
        ip_total(s, ip) <= 2 * packets_sum(s),
    decreases s.len(),
{
    if s.len() > 0 {
        ip_total_bounded(s.drop_last(), ip);
        assert(counts_bounded(s[s.len() - 1].1));
        assert(count_of(s.last().1.ip_map(), ip) <= 2 * s.last().1.packets);
    }
}

/// With every protocol's counts bounded, a port was seen at most twice per
/// packet overall.
proof fn port_total_bounded(s: Seq<(Protocol, ProtocolStats)>, p: u16)
    requires
        forall|i: int| 0 <= i < s.len() ==> counts_bounded(#[trigger] s[i].1),
    ensures
        port_total(s, p) <= 2 * packets_sum(s),
    decreases s.len(),
{
    if s.len() > 0 {
        port_total_bounded(s.drop_last(), p);
        assert(counts_bounded(s[s.len() - 1].1));
        assert(port_count(s.last().1.port_counts@, p) <= 2 * s.last().1.packets);
    }
}

/// The totals over a prefix of the protocols are at most the totals over
/// all of them.
proof fn totals_prefix(s: Seq<(Protocol, ProtocolStats)>, k: int, ip: Seq<char>, p: u16)
    requires
        0 <= k <= s.len(),
    ensures
        ip_total(s.take(k), ip) <= ip_total(s, ip),
        port_total(s.take(k), p) <= port_total(s, p),
    decreases s.len(),
{
    if k < s.len() {
        totals_prefix(s.drop_last(), k, ip, p);
        assert(s.drop_last().take(k) =~= s.take(k));
    } else {
        assert(s.take(k) =~= s);
    }
}

/// An address seen overall was seen under some protocol.
proof fn ip_total_positive(s: Seq<(Protocol, ProtocolStats)>, ip: Seq<char>)
    requires
        ip_total(s, ip) > 0,
    ensures
        exists|k: int| 0 <= k < s.len() && (#[trigger] s[k]).1.ip_map().contains_key(ip),
    decreases s.len(),
{
    if count_of(s.last().1.ip_map(), ip) > 0 {
        assert(s[s.len() - 1].1.ip_map().contains_key(ip));
    } else {
        ip_total_positive(s.drop_last(), ip);
        let k = choose|k: int| 0 <= k < s.drop_last().len() && (#[trigger] s.drop_last()[k]).1.ip_map().contains_key(ip);
        assert(s[k] == s.drop_last()[k]);
    }
}

/// The positions of the `limit` largest counts, largest first (the first
/// of equal counts first): distinct, in range, each count at least the
/// next, every position left out no larger than any taken, and all
/// positions taken when fewer than `limit` are.
pub fn select_top(counts: &Vec<u64>, limit: usize) -> (r: Vec<usize>)
    ensures
        r@.len() <= limit,
        forall|i: int| 0 <= i < r@.len() ==> (#[trigger] r@[i]) < counts@.len(),
        forall|i: int, j: int| 0 <= i < j < r@.len() ==> (#[trigger] r@[i]) != (#[trigger] r@[j]),
        forall|i: int, j: int| 0 <= i < j < r@.len() ==> counts@[(#[trigger] r@[i]) as int] >= counts@[(#[trigger] r@[j]) as int],
        forall|x: int| #![trigger counts@[x]] 0 <= x < counts@.len() && (forall|i: int| 0 <= i < r@.len() ==> r@[i] != x) ==> {
            &&& r@.len() == limit
            &&& forall|i: int| 0 <= i < r@.len() ==> counts@[x] <= counts@[#[trigger] r@[i] as int]
        },
{
    let n = counts.len();
    let mut taken: Vec<bool> = Vec::new();
    let mut k: usize = 0;
    while k < n
        invariant
            k <= n == counts@.len(),
            taken@.len() == k,
            forall|x: int| 0 <= x < k ==> !taken@[x],
        decreases n - k,
    {
        taken.push(false);
        k = k + 1;
    }
    let mut r: Vec<usize> = Vec::new();
    while r.len() < limit
        invariant_except_break
            r@.len() <= limit,
        invariant
            n == counts@.len(),
            taken@.len() == n,
            forall|i: int| 0 <= i < r@.len() ==> (#[trigger] r@[i]) < n,
            forall|i: int, j: int| 0 <= i < j < r@.len() ==> (#[trigger] r@[i]) != (#[trigger] r@[j]),
            forall|x: int| 0 <= x < n ==> (taken@[x] <==> exists|i: int| 0 <= i < r@.len() && r@[i] == x),
            forall|i: int, j: int| 0 <= i < j < r@.len() ==> counts@[(#[trigger] r@[i]) as int] >= counts@[(#[trigger] r@[j]) as int],
            forall|x: int| 0 <= x < n && !taken@[x] ==> forall|i: int| 0 <= i < r@.len() ==> counts@[x] <= counts@[#[trigger] r@[i] as int],
        ensures
            r@.len() <= limit,
            r@.len() < limit ==> forall|x: int| 0 <= x < n ==> taken@[x],
        decreases limit - r@.len(),
    {
        let mut best: usize = n;
        let mut i: usize = 0;
        while i < n
            invariant
                i <= n == counts@.len(),
                taken@.len() == n,
                best == n || (best < n && !taken@[best as int]),
                best == n ==> forall|y: int| 0 <= y < i ==> taken@[y],
                best < n ==> forall|y: int| 0 <= y < i && !taken@[y] ==> counts@[y] <= counts@[best as int],
            decreases n - i,
        {
            if !taken[i] && (best == n || counts[i] > counts[best]) {
                best = i;
            }
            i = i + 1;
        }
        if best == n {
            break;
        }
        let ghost r0 = r@;
        let ghost t0 = taken@;
        r.push(best);
        taken.set(best, true);
        assert forall|x: int| 0 <= x < n implies (taken@[x] <==> exists|i: int| 0 <= i < r@.len() && r@[i] == x) by {
            if x == best as int {
                assert(r@[r@.len() - 1] == x);
            } else {
                if t0[x] {
                    let i = choose|i: int| 0 <= i < r0.len() && r0[i] == x;
                    assert(r@[i] == x);
                }
                if exists|i: int| 0 <= i < r@.len() && r@[i] == x {
                    let i = choose|i: int| 0 <= i < r@.len() && r@[i] == x;
                    assert(i < r0.len());
                    assert(r0[i] == x);
                }
            }
        }
        assert forall|a: int, b: int| 0 <= a < b < r@.len() implies (#[trigger] r@[a]) != (#[trigger] r@[b]) by {
            if b == r@.len() - 1 {
                assert(r0[a] == r@[a]);
                assert(t0[r0[a] as int]);
            }
        }
        assert forall|a: int, b: int| 0 <= a < b < r@.len() implies counts@[(#[trigger] r@[a]) as int] >= counts@[(#[trigger] r@[b]) as int] by {
            if b == r@.len() - 1 {
                assert(r0[a] == r@[a]);
            }
        }
        assert forall|x: int| 0 <= x < n && !taken@[x] implies forall|i: int| 0 <= i < r@.len() ==> counts@[x] <= counts@[#[trigger] r@[i] as int] by {
            assert(!t0[x]);
            assert forall|i: int| 0 <= i < r@.len() implies counts@[x] <= counts@[#[trigger] r@[i] as int] by {
                if i < r0.len() {
                    assert(r0[i] == r@[i]);
                }
            }
        }
    }
    assert forall|x: int| #![trigger counts@[x]] 0 <= x < counts@.len() && (forall|i: int| 0 <= i < r@.len() ==> r@[i] != x) implies {
        &&& r@.len() == limit
        &&& forall|i: int| 0 <= i < r@.len() ==> counts@[x] <= counts@[#[trigger] r@[i] as int]
    } by {
        if taken@[x] {
            let i = choose|i: int| 0 <= i < r@.len() && r@[i] == x;
            assert(r@[i] != x);
        }
    }
    r
}

/// Capture statistics: what was captured and dropped, and the counts of
/// each protocol seen.
#[derive(Debug)]
pub struct CaptureStats {
    /// Total packets captured.
    pub packets_captured: u64,
    /// Total packets dropped (by the kernel).
    pub packets_dropped: u64,
    /// Total packets dropped by the interface.
    pub packets_dropped_interface: u64,
    /// Total bytes captured.
    pub bytes_captured: u64,
    /// The counts of each protocol seen; no protocol occurs twice.
    pub protocols: Vec<(Protocol, ProtocolStats)>,
}

impl CaptureStats {
    /// The counts agree: each protocol once, its counts well formed and
    /// bounded by its packets, its bytes within the total, the packets of
    /// the protocols adding up to the packets captured (which stay within
    /// half the range of a `u64`, so that no total overflows).
    pub open spec fn wf(&self) -> bool {
        &&& protocols_unique(self.protocols@)
        &&& forall|i: int| 0 <= i < self.protocols@.len() ==> {
            &&& (#[trigger] self.protocols@[i]).1.wf()
            &&& counts_bounded(self.protocols@[i].1)
            &&& self.protocols@[i].1.bytes <= self.bytes_captured
        }
        &&& packets_sum(self.protocols@) == self.packets_captured
        &&& 2 * self.packets_captured <= u64::MAX
    }

    /// Create new empty stats.
    pub fn new() -> (r: Self)
        ensures
            r.wf(),
            r.packets_captured == 0,
            r.packets_dropped == 0,
            r.packets_dropped_interface == 0,
            r.bytes_captured == 0,
            r.protocols@.len() == 0,
    {
        CaptureStats { packets_captured: 0, packets_dropped: 0, packets_dropped_interface: 0, bytes_captured: 0, protocols: Vec::new() }
    }

    /// The position of a protocol's entry.
    fn find_protocol(&self, protocol: Protocol) -> (r: Option<usize>)
        ensures
            match r {
                Some(i) => i < self.protocols@.len() && self.protocols@[i as int].0 == protocol,
                None => forall|j: int| 0 <= j < self.protocols@.len() ==> (#[trigger] self.protocols@[j]).0 != protocol,
            },
    {
        let mut i: usize = 0;
        while i < self.protocols.len()
            invariant
                i <= self.protocols@.len(),
                forall|j: int| 0 <= j < i ==> (#[trigger] self.protocols@[j]).0 != protocol,
            decreases self.protocols@.len() - i,
        {
            if self.protocols[i].0 == protocol {
                return Some(i);
            }
            i = i + 1;
        }
        None
    }

    /// Update stats with a new packet: the totals, and the counts of its
    /// protocol (an entry is added for a protocol not seen yet).
    pub fn update(
        &mut self,
        protocol: Protocol,
        length: usize,
        src_ip: Option<&str>,
        dst_ip: Option<&str>,
        src_port: Option<u16>,
        dst_port: Option<u16>,
    )
        requires
            old(self).wf(),
            2 * (old(self).packets_captured + 1) <= u64::MAX,
            old(self).bytes_captured + length <= u64::MAX,
        ensures
            final(self).wf(),
            final(self).packets_captured == old(self).packets_captured + 1,
            final(self).bytes_captured == old(self).bytes_captured + length,
            final(self).packets_dropped == old(self).packets_dropped,
            final(self).packets_dropped_interface == old(self).packets_dropped_interface,
            forall|i: int| 0 <= i < old(self).protocols@.len() && old(self).protocols@[i].0 != protocol
                ==> final(self).protocols@[i] == old(self).protocols@[i],
            forall|i: int| 0 <= i < old(self).protocols@.len() && old(self).protocols@[i].0 == protocol ==> {
                &&& final(self).protocols@.len() == old(self).protocols@.len()
                &&& final(self).protocols@[i].0 == protocol
                &&& recorded(Some(old(self).protocols@[i].1), final(self).protocols@[i].1, length as nat,
                    opt_text(src_ip), opt_text(dst_ip), src_port, dst_port)
            },
            (forall|i: int| 0 <= i < old(self).protocols@.len() ==> old(self).protocols@[i].0 != protocol) ==> {
                &&& final(self).protocols@.len() == old(self).protocols@.len() + 1
                &&& final(self).protocols@.last().0 == protocol
                &&& recorded(None, final(self).protocols@.last().1, length as nat,
                    opt_text(src_ip), opt_text(dst_ip), src_port, dst_port)
            },
    {
        let ghost before = self.protocols@;
        self.packets_captured = self.packets_captured + 1;
        self.bytes_captured = self.bytes_captured + length as u64;
        match self.find_protocol(protocol) {
            Some(i) => {
                let (key, mut ps) = self.protocols.remove(i);
                assert(ps == before[i as int].1);
                proof { packets_sum_member(before, i as int); }
                record_in(&mut ps, length, src_ip, dst_ip, src_port, dst_port);
                let ghost e = (key, ps);
                self.protocols.insert(i, (key, ps));
                assert(self.protocols@ =~= before.update(i as int, e));
                proof { packets_sum_update(before, i as int, e); }
            }
            None => {
                let mut ps = ProtocolStats::new();
                assert(ps.ip_map() =~= Map::<Seq<char>, u64>::empty());
                assert(counts_bounded(ps));
                record_in(&mut ps, length, src_ip, dst_ip, src_port, dst_port);
                let ghost e = (protocol, ps);
                self.protocols.push((protocol, ps));
                assert(self.protocols@.drop_last() =~= before);
            }
        }
    }

    /// How often an address was seen, over all protocols.
    pub fn ip_total_of(&self, ip: &str) -> (r: u64)
        requires
            self.wf(),
        ensures
            r == ip_total(self.protocols@, ip@),
    {
        let ghost s = self.protocols@;
        proof {
            ip_total_bounded(s, ip@);
        }
        let mut sum: u64 = 0;
        let mut k: usize = 0;
        while k < self.protocols.len()
            invariant
                k <= s.len(),
                s == self.protocols@,
                self.wf(),
                sum == ip_total(s.take(k as int), ip@),
                ip_total(s, ip@) <= u64::MAX,
            decreases s.len() - k,
        {
            assert(s.take(k + 1).drop_last() =~= s.take(k as int));
            proof { totals_prefix(s, k + 1, ip@, 0u16); }
            assert(self.protocols@[k as int].1.wf());
            let c = self.protocols[k].1.ip_count(ip);
            sum = sum + c;
            k = k + 1;
        }
        assert(s.take(s.len() as int) =~= s);
        sum
    }

    /// How often a port was seen, over all protocols.
    pub fn port_total_of(&self, port: u16) -> (r: u64)
        requires
            self.wf(),
        ensures
            r == port_total(self.protocols@, port),
    {
        let ghost s = self.protocols@;
        proof {
            port_total_bounded(s, port);
        }
        let mut sum: u64 = 0;
        let mut k: usize = 0;
        while k < self.protocols.len()
            invariant
                k <= s.len(),
                s == self.protocols@,
                self.wf(),
                sum == port_total(s.take(k as int), port),
                port_total(s, port) <= u64::MAX,
            decreases s.len() - k,
        {
            assert(s.take(k + 1).drop_last() =~= s.take(k as int));
            proof { totals_prefix(s, k + 1, Seq::empty(), port); }
            let c: u64 = match self.protocols[k].1.port_counts.get(&port) {
                Some(c) => *c,
                None => 0,
            };
            sum = sum + c;
            k = k + 1;
        }
        assert(s.take(s.len() as int) =~= s);
        sum
    }

    /// Every address seen, once, with how often it was seen overall.
    fn ip_entries(&self) -> (r: Vec<(String, u64)>)
        requires
            self.wf(),
        ensures
            addresses_unique(r@),
            forall|i: int| 0 <= i < r@.len() ==> (#[trigger] r@[i]).1 == ip_total(self.protocols@, r@[i].0@) && r@[i].1 > 0,
            forall|ip: Seq<char>| #[trigger] ip_total(self.protocols@, ip) > 0 ==> exists|i: int| 0 <= i < r@.len() && r@[i].0@ == ip,
    {
        let ghost s = self.protocols@;
        let mut out: Vec<(String, u64)> = Vec::new();
        let mut k: usize = 0;
        while k < self.protocols.len()
            invariant
                k <= s.len(),
                s == self.protocols@,
                self.wf(),
                addresses_unique(out@),
                forall|i: int| 0 <= i < out@.len() ==> (#[trigger] out@[i]).1 == ip_total(s, out@[i].0@) && out@[i].1 > 0,
                forall|ip: Seq<char>, k2: int| 0 <= k2 < k && #[trigger] s[k2].1.ip_map().contains_key(ip) && ip_total(s, ip) > 0
                    ==> exists|i: int| 0 <= i < out@.len() && out@[i].0@ == ip,
            decreases s.len() - k,
        {
            let es = &self.protocols[k].1.ip_counts;
            assert(self.protocols@[k as int].1.wf());
            let mut j: usize = 0;
            while j < es.len()
                invariant
                    k < s.len(),
                    s == self.protocols@,
                    self.wf(),
                    *es == s[k as int].1.ip_counts,
                    j <= es@.len(),
                    addresses_unique(out@),
                    forall|i: int| 0 <= i < out@.len() ==> (#[trigger] out@[i]).1 == ip_total(s, out@[i].0@) && out@[i].1 > 0,
                    forall|ip: Seq<char>, k2: int| 0 <= k2 < k && #[trigger] s[k2].1.ip_map().contains_key(ip) && ip_total(s, ip) > 0
                        ==> exists|i: int| 0 <= i < out@.len() && out@[i].0@ == ip,
                    forall|j2: int| 0 <= j2 < j && ip_total(s, (#[trigger] es@[j2]).0@) > 0
                        ==> exists|i: int| 0 <= i < out@.len() && out@[i].0@ == es@[j2].0@,
                decreases es@.len() - j,
            {
                let key = &es[j].0;
                let ghost out0 = out@;
                match position_of(&out, key.as_str()) {
                    Some(_) => {}
                    None => {
                        let t = self.ip_total_of(key.as_str());
                        if t > 0 {
                            out.push((key.clone(), t));
                            assert forall|a: int, b: int| 0 <= a < b < out@.len() implies (#[trigger] out@[a]).0@ != (#[trigger] out@[b]).0@ by {
                                if b == out@.len() - 1 {
                                    assert(out0[a] == out@[a]);
                                } else {
                                    assert(out0[a] == out@[a] && out0[b] == out@[b]);
                                }
                            }
                            assert forall|i: int| 0 <= i < out@.len() implies (#[trigger] out@[i]).1 == ip_total(s, out@[i].0@) && out@[i].1 > 0 by {
                                if i < out0.len() {
                                    assert(out0[i] == out@[i]);
                                }
                            }
                            assert(out@[out@.len() - 1].0@ == key@);
                        }
                    }
                }
                assert forall|ip: Seq<char>, k2: int| 0 <= k2 < k && #[trigger] s[k2].1.ip_map().contains_key(ip) && ip_total(s, ip) > 0
                    implies exists|i: int| 0 <= i < out@.len() && out@[i].0@ == ip by {
                    let i = choose|i: int| 0 <= i < out0.len() && out0[i].0@ == ip;
                    assert(out@[i] == out0[i]);
                }
                assert forall|j2: int| 0 <= j2 < j + 1 && ip_total(s, (#[trigger] es@[j2]).0@) > 0
                    implies exists|i: int| 0 <= i < out@.len() && out@[i].0@ == es@[j2].0@ by {
                    if j2 < j {
                        let i = choose|i: int| 0 <= i < out0.len() && out0[i].0@ == es@[j2].0@;
                        assert(out@[i] == out0[i]);
                    } else if exists|i: int| 0 <= i < out0.len() && out0[i].0@ == key@ {
                        let i = choose|i: int| 0 <= i < out0.len() && out0[i].0@ == key@;
                        assert(out@[i] == out0[i]);
                    } else {
                        assert(out@[out@.len() - 1].0@ == key@);
                    }
                }
                j = j + 1;
            }
            proof {
                counts_map_facts(es@);
                assert forall|ip: Seq<char>, k2: int| 0 <= k2 < k + 1 && #[trigger] s[k2].1.ip_map().contains_key(ip) && ip_total(s, ip) > 0
                    implies exists|i: int| 0 <= i < out@.len() && out@[i].0@ == ip by {
                    if k2 == k {
                        let j2 = choose|j2: int| 0 <= j2 < es@.len() && es@[j2].0@ == ip;
                        assert(ip_total(s, es@[j2].0@) > 0);
                    }
                }
            }
            k = k + 1;
        }
        assert forall|ip: Seq<char>| #[trigger] ip_total(s, ip) > 0 implies exists|i: int| 0 <= i < out@.len() && out@[i].0@ == ip by {
            ip_total_positive(s, ip);
            let k2 = choose|k2: int| 0 <= k2 < s.len() && (#[trigger] s[k2]).1.ip_map().contains_key(ip);
            assert(s[k2].1.ip_map().contains_key(ip));
        }
        out
    }

    /// Every port seen, once and in ascending order, with how often it was
    /// seen overall.
    fn port_entries(&self) -> (r: Vec<(u16, u64)>)
        requires
            self.wf(),
        ensures
            forall|i: int, j: int| 0 <= i < j < r@.len() ==> (#[trigger] r@[i]).0 < (#[trigger] r@[j]).0,
            forall|i: int| 0 <= i < r@.len() ==> (#[trigger] r@[i]).1 == port_total(self.protocols@, r@[i].0) && r@[i].1 > 0,
            forall|p: u16| #[trigger] port_total(self.protocols@, p) > 0 ==> exists|i: int| 0 <= i < r@.len() && r@[i].0 == p,
    {
        let mut out: Vec<(u16, u64)> = Vec::new();
        let mut q: u32 = 0;
        while q < 65536
            invariant
                q <= 65536,
                self.wf(),
                forall|i: int| 0 <= i < out@.len() ==> (#[trigger] out@[i]).0 < q,
                forall|i: int, j: int| 0 <= i < j < out@.len() ==> (#[trigger] out@[i]).0 < (#[trigger] out@[j]).0,
                forall|i: int| 0 <= i < out@.len() ==> (#[trigger] out@[i]).1 == port_total(self.protocols@, out@[i].0) && out@[i].1 > 0,
                forall|p: u16| p < q && #[trigger] port_total(self.protocols@, p) > 0 ==> exists|i: int| 0 <= i < out@.len() && out@[i].0 == p,
            decreases 65536 - q,
        {
            let port = q as u16;
            let t = self.port_total_of(port);
            let ghost out0 = out@;
            if t > 0 {
                out.push((port, t));
                assert forall|i: int| 0 <= i < out@.len() implies (#[trigger] out@[i]).1 == port_total(self.protocols@, out@[i].0) && out@[i].1 > 0 by {
                    if i < out0.len() {
                        assert(out0[i] == out@[i]);
                    }
                }
                assert forall|a: int, b: int| 0 <= a < b < out@.len() implies (#[trigger] out@[a]).0 < (#[trigger] out@[b]).0 by {
                    assert(out0.len() == out@.len() - 1);
                    if b < out0.len() {
                        assert(out0[a] == out@[a] && out0[b] == out@[b]);
                    } else {
                        assert(out0[a] == out@[a]);
                    }
                }
            }
            assert forall|p: u16| p < q + 1 && #[trigger] port_total(self.protocols@, p) > 0 implies exists|i: int| 0 <= i < out@.len() && out@[i].0 == p by {
                if p < q {
                    let i = choose|i: int| 0 <= i < out0.len() && out0[i].0 == p;
                    assert(out@[i] == out0[i]);
                } else {
                    assert(p == port);
                    assert(out@[out@.len() - 1].0 == p);
                }
            }
            q = q + 1;
        }
        out
    }

    /// The `limit` addresses seen most often over all protocols, busiest
    /// first, with their counts; an address left out was seen no more often
    /// than any listed one, and none is left out when fewer than `limit`
    /// are listed.
    pub fn top_talkers(&self, limit: usize) -> (r: Vec<(String, u64)>)
        requires
            self.wf(),
        ensures
            r@.len() <= limit,
            addresses_unique(r@),
            forall|i: int| 0 <= i < r@.len() ==> (#[trigger] r@[i]).1 == ip_total(self.protocols@, r@[i].0@) && r@[i].1 > 0,
            forall|i: int, j: int| 0 <= i < j < r@.len() ==> (#[trigger] r@[i]).1 >= (#[trigger] r@[j]).1,
            forall|ip: Seq<char>| #[trigger] ip_total(self.protocols@, ip) > 0 && (forall|i: int| 0 <= i < r@.len() ==> r@[i].0@ != ip) ==> {
                &&& r@.len() == limit
                &&& forall|i: int| 0 <= i < r@.len() ==> ip_total(self.protocols@, ip) <= (#[trigger] r@[i]).1
            },
    {
        let entries = self.ip_entries();
        let mut counts: Vec<u64> = Vec::new();
        let mut k: usize = 0;
        while k < entries.len()
            invariant
                k <= entries@.len(),
                counts@.len() == k,
                forall|i: int| 0 <= i < k ==> counts@[i] == (#[trigger] entries@[i]).1,
            decreases entries@.len() - k,
        {
            counts.push(entries[k].1);
            k = k + 1;
        }
        let idx = select_top(&counts, limit);
        let mut r: Vec<(String, u64)> = Vec::new();
        let mut m: usize = 0;
        while m < idx.len()
            invariant
                m <= idx@.len(),
                counts@.len() == entries@.len(),
                forall|i: int| 0 <= i < entries@.len() ==> counts@[i] == (#[trigger] entries@[i]).1,
                forall|i: int| 0 <= i < idx@.len() ==> (#[trigger] idx@[i]) < counts@.len(),
                r@.len() == m,
                forall|i: int| 0 <= i < m ==> (#[trigger] r@[i]).0@ == entries@[idx@[i] as int].0@ && r@[i].1 == entries@[idx@[i] as int].1,
            decreases idx@.len() - m,
        {
            let e = &entries[idx[m]];
            r.push((e.0.clone(), e.1));
            m = m + 1;
        }
        let ghost s = self.protocols@;
        assert forall|a: int, b: int| 0 <= a < b < r@.len() implies (#[trigger] r@[a]).0@ != (#[trigger] r@[b]).0@ by {
            assert(idx@[a] != idx@[b]);
            assert(entries@[idx@[a] as int].0@ != entries@[idx@[b] as int].0@) by {
                if idx@[a] < idx@[b] {
                    assert(entries@[idx@[a] as int].0@ != entries@[idx@[b] as int].0@);
                } else {
                    assert(entries@[idx@[b] as int].0@ != entries@[idx@[a] as int].0@);
                }
            }
        }
        assert forall|i: int| 0 <= i < r@.len() implies (#[trigger] r@[i]).1 == ip_total(s, r@[i].0@) && r@[i].1 > 0 by {
            assert(entries@[idx@[i] as int].1 == ip_total(s, entries@[idx@[i] as int].0@));
        }
        assert forall|a: int, b: int| 0 <= a < b < r@.len() implies (#[trigger] r@[a]).1 >= (#[trigger] r@[b]).1 by {
            assert(counts@[idx@[a] as int] >= counts@[idx@[b] as int]);
        }
        assert forall|ip: Seq<char>| #[trigger] ip_total(s, ip) > 0 && (forall|i: int| 0 <= i < r@.len() ==> r@[i].0@ != ip) implies {
            &&& r@.len() == limit
            &&& forall|i: int| 0 <= i < r@.len() ==> ip_total(s, ip) <= (#[trigger] r@[i]).1
        } by {
            let x = choose|x: int| 0 <= x < entries@.len() && entries@[x].0@ == ip;
            assert(entries@[x].1 == ip_total(s, ip));
            assert forall|i: int| 0 <= i < idx@.len() implies idx@[i] != x by {
                assert(r@[i].0@ != ip);
            }
            assert(counts@[x] == entries@[x].1);
            assert forall|i: int| 0 <= i < r@.len() implies ip_total(s, ip) <= (#[trigger] r@[i]).1 by {
                assert(counts@[x] <= counts@[idx@[i] as int]);
            }
        }
        r
    }

    /// The `limit` ports seen most often over all protocols, busiest first,
    /// with their counts; a port left out was seen no more often than any
    /// listed one, and none is left out when fewer than `limit` are listed.
    pub fn top_ports(&self, limit: usize) -> (r: Vec<(u16, u64)>)
        requires
            self.wf(),
        ensures
            r@.len() <= limit,
            forall|i: int, j: int| 0 <= i < j < r@.len() ==> (#[trigger] r@[i]).0 != (#[trigger] r@[j]).0,
            forall|i: int| 0 <= i < r@.len() ==> (#[trigger] r@[i]).1 == port_total(self.protocols@, r@[i].0) && r@[i].1 > 0,
            forall|i: int, j: int| 0 <= i < j < r@.len() ==> (#[trigger] r@[i]).1 >= (#[trigger] r@[j]).1,
            forall|p: u16| #[trigger] port_total(self.protocols@, p) > 0 && (forall|i: int| 0 <= i < r@.len() ==> r@[i].0 != p) ==> {
                &&& r@.len() == limit
                &&& forall|i: int| 0 <= i < r@.len() ==> port_total(self.protocols@, p) <= (#[trigger] r@[i]).1
            },
    {
        let entries = self.port_entries();
        let mut counts: Vec<u64> = Vec::new();
        let mut k: usize = 0;
        while k < entries.len()
            invariant
                k <= entries@.len(),
                counts@.len() == k,
                forall|i: int| 0 <= i < k ==> counts@[i] == (#[trigger] entries@[i]).1,
            decreases entries@.len() - k,
        {
            counts.push(entries[k].1);
            k = k + 1;
        }
        let idx = select_top(&counts, limit);
        let mut r: Vec<(u16, u64)> = Vec::new();
        let mut m: usize = 0;
        while m < idx.len()
            invariant
                m <= idx@.len(),
                counts@.len() == entries@.len(),
                forall|i: int| 0 <= i < entries@.len() ==> counts@[i] == (#[trigger] entries@[i]).1,
                forall|i: int| 0 <= i < idx@.len() ==> (#[trigger] idx@[i]) < counts@.len(),
                r@.len() == m,
                forall|i: int| 0 <= i < m ==> (#[trigger] r@[i]) == entries@[idx@[i] as int],
            decreases idx@.len() - m,
        {
            r.push(entries[idx[m]]);
            m = m + 1;
        }
        let ghost s = self.protocols@;
        assert forall|a: int, b: int| 0 <= a < b < r@.len() implies (#[trigger] r@[a]).0 != (#[trigger] r@[b]).0 by {
            assert(idx@[a] != idx@[b]);
            if idx@[a] < idx@[b] {
                assert(entries@[idx@[a] as int].0 < entries@[idx@[b] as int].0);
            } else {
                assert(entries@[idx@[b] as int].0 < entries@[idx@[a] as int].0);
            }
        }
        assert forall|a: int, b: int| 0 <= a < b < r@.len() implies (#[trigger] r@[a]).1 >= (#[trigger] r@[b]).1 by {
            assert(counts@[idx@[a] as int] >= counts@[idx@[b] as int]);
        }
        assert forall|p: u16| #[trigger] port_total(s, p) > 0 && (forall|i: int| 0 <= i < r@.len() ==> r@[i].0 != p) implies {
            &&& r@.len() == limit
            &&& forall|i: int| 0 <= i < r@.len() ==> port_total(s, p) <= (#[trigger] r@[i]).1
        } by {
            let x = choose|x: int| 0 <= x < entries@.len() && entries@[x].0 == p;
            assert(entries@[x].1 == port_total(s, p));
            assert forall|i: int| 0 <= i < idx@.len() implies idx@[i] != x by {
                assert(r@[i].0 != p);
            }
            assert(counts@[x] == entries@[x].1);
            assert forall|i: int| 0 <= i < r@.len() implies port_total(s, p) <= (#[trigger] r@[i]).1 by {
                assert(counts@[x] <= counts@[idx@[i] as int]);
            }
        }
        r
    }
}

} // verus!
