//! BPF capture filters.

use vstd::prelude::*;
use crate::text::{all_ascii, ascii_lower_seq, decimal, push_decimal, str_to_string, to_lowercase, unicode_lowercase};
use crate::net::{IpAddress, ip_text, ip_to_text};

verus! {

/// Capture filter using BPF syntax.
#[derive(Debug)]
pub struct CaptureFilter {
    /// Raw BPF filter string.
    filter: String,
}

impl View for CaptureFilter {
    type V = Seq<char>;

    closed spec fn view(&self) -> Seq<char> {
        self.filter@
    }
}

/// `"(a) op (b)"`, the text of two non-empty filters joined by `op`.
pub open spec fn joined(a: Seq<char>, op: Seq<char>, b: Seq<char>) -> Seq<char> {
    seq!['('] + a + seq![')', ' '] + op + seq![' ', '('] + b + seq![')']
}

/// The text of combining two filters with `op`: an empty side yields the other.
pub open spec fn combined(a: Seq<char>, op: Seq<char>, b: Seq<char>) -> Seq<char> {
    if a.len() == 0 {
        b
    } else if b.len() == 0 {
        a
    } else {
        joined(a, op, b)
    }
}

/// The text of negating a filter: an empty filter stays empty.
pub open spec fn negated(a: Seq<char>) -> Seq<char> {
    if a.len() == 0 {
        a
    } else {
        seq!['n', 'o', 't', ' ', '('] + a + seq![')']
    }
}

fn joined_text(a: &String, op: &str, b: &String) -> (r: String)
    ensures
        r@ == joined(a@, op@, b@),
{
    let mut r = str_to_string("(");
    r.append(a.as_str());
    r.append(") ");
    r.append(op);
    r.append(" (");
    r.append(b.as_str());
    r.append(")");
    proof {
        reveal_strlit("(");
        reveal_strlit(") ");
        reveal_strlit(" (");
        reveal_strlit(")");
    }
    assert(r@ =~= joined(a@, op@, b@));
    r
}

fn keyword_then_number(keyword: &str, n: u16) -> (r: String)
    ensures
        r@ == keyword@ + decimal(n as nat),
{
    let mut r = str_to_string(keyword);
    push_decimal(&mut r, n as u64);
    r
}

impl CaptureFilter {
    /// Create a filter from a raw BPF string.
    pub fn new(filter: &str) -> (r: Self)
        ensures
            r@ == filter@,
    {
        CaptureFilter { filter: str_to_string(filter) }
    }

    /// Create an empty filter (capture all).
    pub fn all() -> (r: Self)
        ensures
            r@ == Seq::<char>::empty(),
    {
        CaptureFilter { filter: String::new() }
    }

    /// Filter by host IP address.
    pub fn host(addr: IpAddress) -> (r: Self)
        ensures
            r@ == "host "@ + ip_text(addr),
    {
        let mut f = str_to_string("host ");
        let t = ip_to_text(&addr);
        f.append(t.as_str());
        CaptureFilter { filter: f }
    }

    /// Filter by source IP address.
    pub fn src_host(addr: IpAddress) -> (r: Self)
        ensures
            r@ == "src host "@ + ip_text(addr),
    {
        let mut f = str_to_string("src host ");
        let t = ip_to_text(&addr);
        f.append(t.as_str());
        CaptureFilter { filter: f }
    }

    /// Filter by destination IP address.
    pub fn dst_host(addr: IpAddress) -> (r: Self)
        ensures
            r@ == "dst host "@ + ip_text(addr),
    {
        let mut f = str_to_string("dst host ");
        let t = ip_to_text(&addr);
        f.append(t.as_str());
        CaptureFilter { filter: f }
    }

    /// Filter by port.
    pub fn port(port: u16) -> (r: Self)
        ensures
            r@ == "port "@ + decimal(port as nat),
    {
        CaptureFilter { filter: keyword_then_number("port ", port) }
    }

    /// Filter by source port.
    pub fn src_port(port: u16) -> (r: Self)
        ensures
            r@ == "src port "@ + decimal(port as nat),
    {
        CaptureFilter { filter: keyword_then_number("src port ", port) }
    }

    /// Filter by destination port.
    pub fn dst_port(port: u16) -> (r: Self)
        ensures
            r@ == "dst port "@ + decimal(port as nat),
    {
        CaptureFilter { filter: keyword_then_number("dst port ", port) }
    }

    /// Filter by protocol: the protocol name, lower-cased.
    pub fn protocol(proto: &str) -> (r: Self)
        ensures
            r@ == unicode_lowercase(proto@),
            all_ascii(proto@) ==> r@ == ascii_lower_seq(proto@),
    {
        CaptureFilter { filter: to_lowercase(proto) }
    }

    /// Filter TCP traffic.
    pub fn tcp() -> (r: Self)
        ensures
            r@ == "tcp"@,
    {
        proof {
            reveal_strlit("tcp");
        }
        let r = Self::protocol("tcp");
        assert(ascii_lower_seq("tcp"@) =~= "tcp"@);
        r
    }

    /// Filter UDP traffic.
    pub fn udp() -> (r: Self)
        ensures
            r@ == "udp"@,
    {
        proof {
            reveal_strlit("udp");
        }
        let r = Self::protocol("udp");
        assert(ascii_lower_seq("udp"@) =~= "udp"@);
        r
    }

    /// Filter ICMP traffic.
    pub fn icmp() -> (r: Self)
        ensures
            r@ == "icmp"@,
    {
        proof {
            reveal_strlit("icmp");
        }
        let r = Self::protocol("icmp");
        assert(ascii_lower_seq("icmp"@) =~= "icmp"@);
        r
    }

    /// Filter DNS traffic.
    pub fn dns() -> (r: Self)
        ensures
            r@ == "port 53"@,
    {
        CaptureFilter { filter: str_to_string("port 53") }
    }

    /// Filter HTTP traffic.
    pub fn http() -> (r: Self)
        ensures
            r@ == "port 80 or port 443"@,
    {
        CaptureFilter { filter: str_to_string("port 80 or port 443") }
    }

    /// Combine with AND.
    pub fn and(self, other: CaptureFilter) -> (r: Self)
        ensures
            r@ == combined(self@, "and"@, other@),
    {
        if self.filter.as_str().is_empty() {
            other
        } else if other.filter.as_str().is_empty() {
            self
        } else {
            CaptureFilter { filter: joined_text(&self.filter, "and", &other.filter) }
        }
    }

    /// Combine with OR.
    pub fn or(self, other: CaptureFilter) -> (r: Self)
        ensures
            r@ == combined(self@, "or"@, other@),
    {
        if self.filter.as_str().is_empty() {
            other
        } else if other.filter.as_str().is_empty() {
            self
        } else {
            CaptureFilter { filter: joined_text(&self.filter, "or", &other.filter) }
        }
    }

    /// Negate the filter.
    pub fn not(self) -> (r: Self)
        ensures
            r@ == negated(self@),
    {
        if self.filter.as_str().is_empty() {
            self
        } else {
            let mut f = str_to_string("not (");
            f.append(self.filter.as_str());
            f.append(")");
            proof {
                reveal_strlit("not (");
                reveal_strlit(")");
            }
            assert(f@ =~= negated(self@));
            CaptureFilter { filter: f }
        }
    }

    /// Get the BPF filter string.
    pub fn as_str(&self) -> (r: &str)
        ensures
            r@ == self@,
    {
        self.filter.as_str()
    }

    /// Check if filter is empty.
    pub fn is_empty(&self) -> (r: bool)
        ensures
            r == (self@.len() == 0),
    {
        self.filter.as_str().is_empty()
    }

    /// The display form: `(all)` for the empty filter, else the filter text.
    pub fn to_display_string(&self) -> (r: String)
        ensures
            r@ == (if self@.len() == 0 { "(all)"@ } else { self@ }),
    {
        if self.filter.as_str().is_empty() {
            str_to_string("(all)")
        } else {
            self.filter.clone()
        }
    }
}

impl Clone for CaptureFilter {
    fn clone(&self) -> (r: Self)
        ensures
            r@ == self@,
    {
        CaptureFilter { filter: self.filter.clone() }
    }
}

impl Default for CaptureFilter {
    fn default() -> (r: Self)
        ensures
            r@ == Seq::<char>::empty(),
    {
        Self::all()
    }
}

} // verus!
