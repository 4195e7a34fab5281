//! Reading the hop lines of a system traceroute's output: the hop number,
//! the address and host name it reports, and the round-trip time of each
//! probe as the text the line gives for it.
//!
//! Telling whether a word is an IP address is `std::net`'s parsing, and
//! reading a round-trip time is floating-point parsing; both are the
//! caller's, who hands the addresses in and reads the times.

use vstd::prelude::*;
use crate::net::IpAddress;
use crate::text::{
    chars_of, has_prefix, has_suffix, is_ascii_char, parse_u32, push_char, str_eq,
    u32_value, views,
};

verus! {

/// What `char::is_whitespace` says of a character (the Unicode
/// `White_Space` property).
pub uninterp spec fn unicode_whitespace(c: char) -> bool;

/// Calls `char::is_whitespace`.  The contract names the result; of an
/// ASCII character it states the members of `White_Space` among them
/// (tab, line feed, vertical tab, form feed, carriage return, space).
#[verifier::external_body]
fn is_whitespace(c: char) -> (r: bool)
    ensures
        r == unicode_whitespace(c),
        is_ascii_char(c) ==> r == ((9 <= (c as u32) <= 13) || (c as u32) == 32),
{
    c.is_whitespace()
}

/// The words found so far and the word being read, after reading `s`.
pub open spec fn word_scan(s: Seq<char>) -> (Seq<Seq<char>>, Seq<char>)
    decreases s.len(),
{
    if s.len() == 0 {
        (seq![], seq![])
    } else {
        let (ws, cur) = word_scan(s.drop_last());
        if unicode_whitespace(s.last()) {
            if cur.len() > 0 { (ws.push(cur), seq![]) } else { (ws, cur) }
        } else {
            (ws, cur.push(s.last()))
        }
    }
}

/// The words of `s`: its maximal runs of characters that are not white
/// space, as `str::split_whitespace` yields them.
pub open spec fn words_of(s: Seq<char>) -> Seq<Seq<char>> {
    let (ws, cur) = word_scan(s);
    if cur.len() > 0 { ws.push(cur) } else { ws }
}

/// The words of a line, split at white space.
pub fn words(line: &str) -> (r: Vec<String>)
    ensures
        views(r@) == words_of(line@),
{
    let cs = chars_of(line);
    let mut out: Vec<String> = Vec::new();
    let mut cur = String::new();
    let mut cur_len: usize = 0;
    let mut i: usize = 0;
    assert(line@.take(0) =~= Seq::<char>::empty());
    while i < cs.len()
        invariant
            i <= cs@.len(),
            cs@ == line@,
            word_scan(line@.take(i as int)) == (views(out@), cur@),
            cur_len as nat == cur@.len(),
            cur_len <= i,
        decreases cs@.len() - i,
    {
        assert(line@.take(i + 1).drop_last() =~= line@.take(i as int));
        assert(line@.take(i + 1).last() == cs@[i as int]);
        let c = cs[i];
        if is_whitespace(c) {
            if cur_len > 0 {
                let ghost before = views(out@);
                let ghost word = cur@;
                let done = cur;
                out.push(done);
                assert(views(out@) =~= before.push(word));
                cur = String::new();
                cur_len = 0;
            }
        } else {
            push_char(&mut cur, c);
            cur_len = cur_len + 1;
        }
        i = i + 1;
    }
    assert(line@.take(cs@.len() as int) =~= line@);
    if cur_len > 0 {
        let ghost before = views(out@);
        let ghost word = cur@;
        out.push(cur);
        assert(views(out@) =~= before.push(word));
    }
    out
}

/// `s` with every trailing "ms" taken off, as `trim_end_matches("ms")`
/// leaves it.
pub open spec fn trim_ms(s: Seq<char>) -> Seq<char>
    decreases s.len(),
{
    if s.len() >= 2 && s[s.len() - 2] == 'm' && s[s.len() - 1] == 's' {
        trim_ms(s.take(s.len() - 2))
    } else {
        s
    }
}

/// Takes every trailing "ms" off a word.
fn trim_ms_text(s: &String) -> (r: String)
    ensures
        r@ == trim_ms(s@),
{
    let cs = chars_of(s.as_str());
    let mut k: usize = cs.len();
    assert(s@.take(k as int) =~= s@);
    while k >= 2 && cs[k - 2] == 'm' && cs[k - 1] == 's'
        invariant
            k <= cs@.len(),
            cs@ == s@,
            trim_ms(s@) == trim_ms(s@.take(k as int)),
        decreases k,
    {
        assert(s@.take(k as int).take(k - 2) =~= s@.take(k - 2));
        k = k - 2;
    }
    let mut out = String::new();
    let mut j: usize = 0;
    while j < k
        invariant
            j <= k <= cs@.len(),
            cs@ == s@,
            out@ == s@.take(j as int),
        decreases k - j,
    {
        push_char(&mut out, cs[j]);
        assert(out@ =~= s@.take(j + 1));
        j = j + 1;
    }
    out
}

/// Every character is a decimal digit or a dot.
pub open spec fn digits_and_dots(s: Seq<char>) -> bool {
    forall|i: int| 0 <= i < s.len() ==> ('0' <= #[trigger] s[i] <= '9' || s[i] == '.')
}

/// Whether a word is made of digits and dots only.
fn is_digits_and_dots(cs: &Vec<char>) -> (r: bool)
    ensures
        r == digits_and_dots(cs@),
{
    let mut i: usize = 0;
    while i < cs.len()
        invariant
            i <= cs@.len(),
            forall|j: int| 0 <= j < i ==> ('0' <= #[trigger] cs@[j] <= '9' || cs@[j] == '.'),
        decreases cs@.len() - i,
    {
        let c = cs[i];
        if !(('0' <= c && c <= '9') || c == '.') {
            return false;
        }
        i = i + 1;
    }
    true
}

/// The addresses a word may name: read whole, and read between its first
/// and last character (for a word in parentheses).
pub type WordAddresses = (Option<IpAddress>, Option<IpAddress>);

/// What has been read of a hop line: the address, the host name, and the
/// probes (`None` for a probe that timed out, else its time as text).
pub type HopScan = (Option<IpAddress>, Option<Seq<char>>, Seq<Option<Seq<char>>>);

/// Whether word `i` is a round-trip time: it ends in "ms", or the next
/// word is "ms".
pub open spec fn is_time_word(ws: Seq<Seq<char>>, i: int) -> bool {
    has_suffix(ws[i], "ms"@) || (i + 1 < ws.len() && ws[i + 1] == "ms"@)
}

/// Reads the words of a hop line from word `i` on: "*" is a probe that
/// timed out; a word in parentheses gives the address inside it, when it is
/// one; a word that is an address gives it; a round-trip time is a probe
/// (a separate "ms" after it is skipped); the first other word that is not
/// all digits and dots is the host name.
pub open spec fn scan_words(ws: Seq<Seq<char>>, ads: Seq<WordAddresses>, i: int, st: HopScan) -> HopScan
    decreases ws.len() - i,
{
    if i < 1 || i >= ws.len() {
        st
    } else {
        let p = ws[i];
        let (address, hostname, probes) = st;
        if p == "*"@ {
            scan_words(ws, ads, i + 1, (address, hostname, probes.push(None)))
        } else if has_prefix(p, "("@) && has_suffix(p, ")"@) {
            let a = if ads[i].1 is Some { ads[i].1 } else { address };
            scan_words(ws, ads, i + 1, (a, hostname, probes))
        } else if ads[i].0 is Some {
            scan_words(ws, ads, i + 1, (ads[i].0, hostname, probes))
        } else if is_time_word(ws, i) {
            let ends = has_suffix(p, "ms"@);
            let t = if ends { trim_ms(p) } else { p };
            let st2 = (address, hostname, probes.push(Some(t)));
            if !ends && i + 1 < ws.len() && ws[i + 1] == "ms"@ {
                scan_words(ws, ads, i + 2, st2)
            } else {
                scan_words(ws, ads, i + 1, st2)
            }
        } else if hostname is None && !digits_and_dots(p) {
            scan_words(ws, ads, i + 1, (address, Some(p), probes))
        } else {
            scan_words(ws, ads, i + 1, st)
        }
    }
}

/// One hop line of a traceroute.
#[derive(Debug)]
pub struct HopLine {
    /// Hop number.
    pub hop: u8,
    /// The address the line reports.
    pub address: Option<IpAddress>,
    /// The host name the line reports.
    pub hostname: Option<String>,
    /// The probes: `None` for one that timed out, else its round-trip time
    /// as the line writes it (in milliseconds, without the unit).
    pub rtt_tokens: Vec<Option<String>>,
    /// Whether every probe timed out.
    pub all_timeout: bool,
}

/// The characters of an optional string.
pub open spec fn opt_seq(o: Option<String>) -> Option<Seq<char>> {
    match o {
        Some(s) => Some(s@),
        None => None,
    }
}

/// The probe tokens as characters.
pub open spec fn token_views(v: Seq<Option<String>>) -> Seq<Option<Seq<char>>> {
    v.map_values(|o: Option<String>| opt_seq(o))
}

/// A hop line as plain values.
pub open spec fn hop_line_view(h: HopLine) -> (u8, Option<IpAddress>, Option<Seq<char>>, Seq<Option<Seq<char>>>, bool) {
    (h.hop, h.address, opt_seq(h.hostname), token_views(h.rtt_tokens@), h.all_timeout)
}

/// All words after the first are "*".
pub open spec fn all_stars(ws: Seq<Seq<char>>) -> bool {
    forall|j: int| 1 <= j < ws.len() ==> #[trigger] ws[j] == "*"@
}

/// What a hop line with these words says: nothing unless its first word is
/// a hop number (a `u8`, as `str::parse` reads it); a line of stars after
/// it is a hop whose probes all timed out; otherwise the words are read in
/// turn.
pub open spec fn hop_line_of(ws: Seq<Seq<char>>, ads: Seq<WordAddresses>, probes_per_hop: u8)
    -> Option<(u8, Option<IpAddress>, Option<Seq<char>>, Seq<Option<Seq<char>>>, bool)>
{
    if ws.len() == 0 {
        None
    } else {
        match u32_value(ws[0]) {
            Some(n) => if n <= 255 {
                if all_stars(ws) {
                    Some((n as u8, None, None, Seq::new(probes_per_hop as nat, |k: int| None::<Seq<char>>), true))
                } else {
                    let (a, h, ps) = scan_words(ws, ads, 1, (None, None, seq![]));
                    Some((n as u8, a, h, ps, false))
                }
            } else {
                None
            },
            None => None,
        }
    }
}

/// Whether all words after the first are "*".
fn only_stars(ws: &Vec<String>) -> (r: bool)
    ensures
        r == all_stars(views(ws@)),
{
    let mut j: usize = 1;
    while j < ws.len()
        invariant
            1 <= j,
            forall|k: int| 1 <= k < j && k < ws@.len() ==> #[trigger] views(ws@)[k] == "*"@,
        decreases ws@.len() - j,
    {
        if !str_eq(ws[j].as_str(), "*") {
            assert(views(ws@)[j as int] == ws@[j as int]@);
            return false;
        }
        j = j + 1;
    }
    true
}

/// Reads a traceroute hop line from its words (see `words`) and, for each
/// word, the address it names read whole and read between its first and
/// last character.
pub fn parse_hop_line(ws: &Vec<String>, addresses: &Vec<WordAddresses>, probes_per_hop: u8) -> (r: Option<HopLine>)
    requires
        addresses@.len() == ws@.len(),
    ensures
        match hop_line_of(views(ws@), addresses@, probes_per_hop) {
            Some(v) => r matches Some(h) && hop_line_view(h) == v,
            None => r is None,
        },
{
    let ghost vs = views(ws@);
    if ws.len() == 0 {
        return None;
    }
    assert(vs[0] == ws@[0]@);
    let n = match parse_u32(ws[0].as_str()) {
        Some(n) => n,
        None => return None,
    };
    if n > 255 {
        return None;
    }
    let hop = n as u8;
    if only_stars(ws) {
        let mut probes: Vec<Option<String>> = Vec::new();
        let mut k: u8 = 0;
        assert(token_views(probes@) =~= Seq::new(0, |q: int| None::<Seq<char>>));
        while k < probes_per_hop
            invariant
                k <= probes_per_hop,
                token_views(probes@) == Seq::new(k as nat, |q: int| None::<Seq<char>>),
            decreases probes_per_hop - k,
        {
            let ghost before = token_views(probes@);
            probes.push(None);
            assert(token_views(probes@) =~= before.push(None::<Seq<char>>));
            assert(before.push(None::<Seq<char>>) =~= Seq::new((k + 1) as nat, |q: int| None::<Seq<char>>));
            k = k + 1;
        }
        return Some(HopLine { hop, address: None, hostname: None, rtt_tokens: probes, all_timeout: true });
    }
    let mut address: Option<IpAddress> = None;
    let mut hostname: Option<String> = None;
    let mut probes: Vec<Option<String>> = Vec::new();
    let mut i: usize = 1;
    assert(token_views(probes@) =~= Seq::<Option<Seq<char>>>::empty());
    while i < ws.len()
        invariant
            1 <= i <= ws@.len() + 1,
            vs == views(ws@),
            addresses@.len() == ws@.len(),
            scan_words(vs, addresses@, 1, (None, None, seq![]))
                == scan_words(vs, addresses@, i as int, (address, opt_seq(hostname), token_views(probes@))),
        decreases ws@.len() + 1 - i,
    {
        let ghost st = (address, opt_seq(hostname), token_views(probes@));
        let p = &ws[i];
        assert(vs[i as int] == p@);
        let cs = chars_of(p.as_str());
        let n_chars = cs.len();
        let starts_paren = n_chars > 0 && cs[0] == '(';
        let ends_paren = n_chars > 0 && cs[n_chars - 1] == ')';
        assert(cs@ == p@);
        proof {
            reveal_strlit("(");
            reveal_strlit(")");
            assert("("@.len() == 1 && "("@[0] == '(');
            assert(")"@.len() == 1 && ")"@[0] == ')');
            if n_chars > 0 {
                assert(p@.subrange(0, 1) =~= seq![cs@[0]]);
                assert(p@.subrange(p@.len() - 1, p@.len() as int) =~= seq![cs@[n_chars - 1]]);
                if has_prefix(p@, "("@) {
                    assert(p@.subrange(0, 1)[0] == '(');
                }
                if has_suffix(p@, ")"@) {
                    assert(p@.subrange(p@.len() - 1, p@.len() as int)[0] == ')');
                }
                if starts_paren {
                    assert(p@.subrange(0, 1) =~= "("@);
                }
                if ends_paren {
                    assert(p@.subrange(p@.len() - 1, p@.len() as int) =~= ")"@);
                }
            }
        }
        assert(starts_paren == has_prefix(p@, "("@));
        assert(ends_paren == has_suffix(p@, ")"@));
        if str_eq(p.as_str(), "*") {
            let ghost before = token_views(probes@);
            probes.push(None);
            assert(token_views(probes@) =~= before.push(None));
            i = i + 1;
        } else if starts_paren && ends_paren {
            match addresses[i].1 {
                Some(a) => { address = Some(a); }
                None => {}
            }
            i = i + 1;
        } else if addresses[i].0.is_some() {
            address = addresses[i].0;
            i = i + 1;
        } else {
            let ends = crate::text::ends_with(p.as_str(), "ms");
            let next_ms = i + 1 < ws.len() && str_eq(ws[i + 1].as_str(), "ms");
            proof {
                if i + 1 < ws@.len() {
                    assert(vs[i + 1] == ws@[i + 1]@);
                }
            }
            if ends || next_ms {
                let t = if ends { trim_ms_text(p) } else { crate::text::str_to_string(p.as_str()) };
                let ghost before = token_views(probes@);
                let ghost tv = t@;
                probes.push(Some(t));
                assert(token_views(probes@) =~= before.push(Some(tv)));
                if !ends && next_ms {
                    i = i + 2;
                } else {
                    i = i + 1;
                }
            } else {
                if hostname.is_none() && !is_digits_and_dots(&cs) {
                    hostname = Some(crate::text::str_to_string(p.as_str()));
                }
                i = i + 1;
            }
        }
    }
    assert(scan_words(vs, addresses@, i as int, (address, opt_seq(hostname), token_views(probes@)))
        == (address, opt_seq(hostname), token_views(probes@)));
    Some(HopLine { hop, address, hostname, rtt_tokens: probes, all_timeout: false })
}

} // verus!
