//! IP addresses as plain octets, and their textual forms.

use vstd::prelude::*;
use crate::text::{decimal, push_decimal, push_char};

verus! {

/// An IPv4 or IPv6 address, held as its octets in network order.
#[derive(PartialEq, Eq, Clone, Copy, Debug)]
pub enum IpAddress {
    /// IPv4 address.
    V4([u8; 4]),
    /// IPv6 address.
    V6([u8; 16]),
}

/// Dotted-quad text of an IPv4 address.
pub open spec fn ipv4_text(o: Seq<u8>) -> Seq<char> {
    decimal(o[0] as nat) + seq!['.'] + decimal(o[1] as nat) + seq!['.'] + decimal(o[2] as nat)
        + seq!['.'] + decimal(o[3] as nat)
}

/// The lower-case hexadecimal digit for a value below sixteen.
pub open spec fn hex_lower_char(d: nat) -> char {
    if d < 10 { crate::text::digit_char(d) }
    else if d == 10 { 'a' }
    else if d == 11 { 'b' }
    else if d == 12 { 'c' }
    else if d == 13 { 'd' }
    else if d == 14 { 'e' }
    else { 'f' }
}

/// Lower-case hexadecimal without leading zeros (`{:x}`).
pub open spec fn hex_lower(n: nat) -> Seq<char>
    decreases n,
{
    if n < 16 {
        seq![hex_lower_char(n)]
    } else {
        hex_lower(n / 16).push(hex_lower_char(n % 16))
    }
}

/// The `i`-th 16-bit group of an IPv6 address.
pub open spec fn group(o: Seq<u8>, i: int) -> nat {
    (o[2 * i] as nat) * 256 + (o[2 * i + 1] as nat)
}

/// Groups `from..to` in hexadecimal, separated by colons.
pub open spec fn groups_text(o: Seq<u8>, from: int, to: int) -> Seq<char>
    decreases to - from,
{
    if to <= from {
        Seq::empty()
    } else if to == from + 1 {
        hex_lower(group(o, from))
    } else {
        groups_text(o, from, to - 1) + seq![':'] + hex_lower(group(o, to - 1))
    }
}

/// The first longest run of zero groups among groups `i..8`, given the run
/// in progress (`cur_start`, `cur_len`) and the best run so far; as
/// `(start, len)`.
pub open spec fn zero_run_from(o: Seq<u8>, i: int, cur_start: int, cur_len: int, best_start: int, best_len: int) -> (int, int)
    decreases 8 - i,
{
    if i >= 8 {
        (best_start, best_len)
    } else if group(o, i) == 0 {
        let cs = if cur_len == 0 { i } else { cur_start };
        let cl = cur_len + 1;
        if cl > best_len {
            zero_run_from(o, i + 1, cs, cl, cs, cl)
        } else {
            zero_run_from(o, i + 1, cs, cl, best_start, best_len)
        }
    } else {
        zero_run_from(o, i + 1, 0, 0, best_start, best_len)
    }
}

/// The first longest run of zero groups of an IPv6 address.
pub open spec fn zero_run(o: Seq<u8>) -> (int, int) {
    zero_run_from(o, 0, 0, 0, 0, 0)
}

/// The address is an IPv4-mapped IPv6 address (`::ffff:a.b.c.d`).
pub open spec fn is_ipv4_mapped(o: Seq<u8>) -> bool {
    &&& forall|i: int| 0 <= i < 10 ==> o[i] == 0
    &&& o[10] == 0xff
    &&& o[11] == 0xff
}

/// The text of an IPv6 address as `Ipv6Addr`'s `Display` writes it: the
/// IPv4-mapped form, or the groups with the first longest run of two or more
/// zero groups written as `::`.
pub open spec fn ipv6_text(o: Seq<u8>) -> Seq<char> {
    if is_ipv4_mapped(o) {
        seq![':', ':', 'f', 'f', 'f', 'f', ':'] + ipv4_text(o.subrange(12, 16))
    } else {
        let (s, l) = zero_run(o);
        if l > 1 {
            groups_text(o, 0, s) + seq![':', ':'] + groups_text(o, s + l, 8)
        } else {
            groups_text(o, 0, 8)
        }
    }
}

/// The text of an address, as `IpAddr`'s `Display` writes it.
pub open spec fn ip_text(a: IpAddress) -> Seq<char> {
    match a {
        IpAddress::V4(o) => ipv4_text(o@),
        IpAddress::V6(o) => ipv6_text(o@),
    }
}

fn push_hex_lower(s: &mut String, n: u64)
    ensures
        final(s)@ == old(s)@ + hex_lower(n as nat),
    decreases n,
{
    if n >= 16 {
        push_hex_lower(s, n / 16);
    }
    let d = n % 16;
    let c = if d == 0 { '0' } else if d == 1 { '1' } else if d == 2 { '2' }
        else if d == 3 { '3' } else if d == 4 { '4' } else if d == 5 { '5' }
        else if d == 6 { '6' } else if d == 7 { '7' } else if d == 8 { '8' }
        else if d == 9 { '9' } else if d == 10 { 'a' } else if d == 11 { 'b' }
        else if d == 12 { 'c' } else if d == 13 { 'd' } else if d == 14 { 'e' } else { 'f' };
    push_char(s, c);
    assert(s@ == old(s)@ + hex_lower(n as nat)) by {
        if n >= 16 {
            assert(hex_lower(n as nat) == hex_lower((n / 16) as nat).push(hex_lower_char((n % 16) as nat)));
        }
    }
}

fn push_ipv4(s: &mut String, o0: u8, o1: u8, o2: u8, o3: u8)
    ensures
        final(s)@ == old(s)@ + ipv4_text(seq![o0, o1, o2, o3]),
{
    push_decimal(s, o0 as u64);
    push_char(s, '.');
    push_decimal(s, o1 as u64);
    push_char(s, '.');
    push_decimal(s, o2 as u64);
    push_char(s, '.');
    push_decimal(s, o3 as u64);
    assert(s@ =~= old(s)@ + ipv4_text(seq![o0, o1, o2, o3]));
}

fn group_of(o: &[u8; 16], i: usize) -> (g: u64)
    requires
        i < 8,
    ensures
        g == group(o@, i as int),
{
    (o[2 * i] as u64) * 256 + (o[2 * i + 1] as u64)
}

fn push_groups(s: &mut String, o: &[u8; 16], from: usize, to: usize)
    requires
        from <= to <= 8,
    ensures
        final(s)@ == old(s)@ + groups_text(o@, from as int, to as int),
{
    let mut i = from;
    while i < to
        invariant
            from <= i <= to <= 8,
            s@ == old(s)@ + groups_text(o@, from as int, i as int),
        decreases to - i,
    {
        if i > from {
            push_char(s, ':');
        }
        let g = group_of(o, i);
        push_hex_lower(s, g);
        assert(groups_text(o@, from as int, i + 1) == if i == from {
            hex_lower(group(o@, from as int))
        } else {
            groups_text(o@, from as int, i as int) + seq![':'] + hex_lower(group(o@, i as int))
        });
        assert(s@ =~= old(s)@ + groups_text(o@, from as int, i + 1));
        i = i + 1;
    }
}

fn find_zero_run(o: &[u8; 16]) -> (r: (usize, usize))
    ensures
        r.0 as int == zero_run(o@).0,
        r.1 as int == zero_run(o@).1,
        r.0 + r.1 <= 8,
{
    let mut i: usize = 0;
    let mut cur_start: usize = 0;
    let mut cur_len: usize = 0;
    let mut best_start: usize = 0;
    let mut best_len: usize = 0;
    while i < 8
        invariant
            i <= 8,
            cur_start + cur_len == i || cur_len == 0,
            cur_len <= i,
            best_start + best_len <= i,
            zero_run_from(o@, i as int, cur_start as int, cur_len as int, best_start as int, best_len as int)
                == zero_run(o@),
        decreases 8 - i,
    {
        if group_of(o, i) == 0 {
            if cur_len == 0 {
                cur_start = i;
            }
            cur_len = cur_len + 1;
            if cur_len > best_len {
                best_start = cur_start;
                best_len = cur_len;
            }
        } else {
            cur_start = 0;
            cur_len = 0;
        }
        i = i + 1;
    }
    (best_start, best_len)
}

fn ipv6_to_text(o: &[u8; 16]) -> (r: String)
    ensures
        r@ == ipv6_text(o@),
{
    let mut mapped = o[10] == 0xff && o[11] == 0xff;
    let mut k: usize = 0;
    while k < 10
        invariant
            k <= 10,
            mapped == (o@[10] == 0xff && o@[11] == 0xff && forall|i: int| 0 <= i < k ==> o@[i] == 0),
        decreases 10 - k,
    {
        if o[k] != 0 {
            mapped = false;
        }
        k = k + 1;
    }
    let mut s = String::new();
    if mapped {
        s.append("::ffff:");
        proof { reveal_strlit("::ffff:"); }
        push_ipv4(&mut s, o[12], o[13], o[14], o[15]);
        assert(o@.subrange(12, 16) =~= seq![o@[12], o@[13], o@[14], o@[15]]);
        assert(s@ =~= ipv6_text(o@));
        s
    } else {
        let (start, len) = find_zero_run(o);
        if len > 1 {
            push_groups(&mut s, o, 0, start);
            s.append("::");
            proof { reveal_strlit("::"); }
            push_groups(&mut s, o, start + len, 8);
            assert(s@ =~= ipv6_text(o@));
        } else {
            push_groups(&mut s, o, 0, 8);
            assert(s@ =~= ipv6_text(o@));
        }
        s
    }
}

/// Renders an address as text.
pub fn ip_to_text(a: &IpAddress) -> (r: String)
    ensures
        r@ == ip_text(*a),
{
    match a {
        IpAddress::V4(o) => {
            let mut s = String::new();
            push_ipv4(&mut s, o[0], o[1], o[2], o[3]);
            assert(o@ =~= seq![o@[0], o@[1], o@[2], o@[3]]);
            assert(s@ =~= ipv4_text(o@));
            s
        },
        IpAddress::V6(o) => ipv6_to_text(o),
    }
}

/// Addresses separated by ", ".
pub open spec fn joined_ips(s: Seq<IpAddress>) -> Seq<char>
    decreases s.len(),
{
    if s.len() == 0 {
        seq![]
    } else if s.len() == 1 {
        ip_text(s[0])
    } else {
        joined_ips(s.drop_last()) + ", "@ + ip_text(s.last())
    }
}

/// A list of addresses as `{:?}` shows it: `[a, b, c]`.
pub open spec fn ip_list_text(s: Seq<IpAddress>) -> Seq<char> {
    "["@ + joined_ips(s) + "]"@
}

/// Appends a list of addresses as `{:?}` shows it.
pub fn push_ip_list(out: &mut String, v: &Vec<IpAddress>)
    ensures
        final(out)@ == old(out)@ + ip_list_text(v@),
{
    out.append("[");
    let mut i: usize = 0;
    while i < v.len()
        invariant
            i <= v@.len(),
            out@ == old(out)@ + "["@ + joined_ips(v@.take(i as int)),
        decreases v@.len() - i,
    {
        if i > 0 {
            out.append(", ");
        }
        let t = ip_to_text(&v[i]);
        out.append(t.as_str());
        assert(v@.take(i + 1).drop_last() =~= v@.take(i as int));
        if i == 0 {
            assert(v@.take(0) =~= Seq::<IpAddress>::empty());
        }
        assert(out@ =~= old(out)@ + "["@ + joined_ips(v@.take(i + 1)));
        i = i + 1;
    }
    assert(v@.take(v@.len() as int) =~= v@);
    out.append("]");
    assert(out@ =~= old(out)@ + ip_list_text(v@));
}

} // verus!
