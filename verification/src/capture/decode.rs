//! Protocol decoding of captured frames.

use vstd::prelude::*;
use crate::text::{decimal, hex_byte_upper, push_char, push_decimal};
use crate::net::{ip_text, ip_to_text, IpAddress};
use etherparse::{LinkSlice, NetSlice, TransportSlice, SlicedPacket};

verus! {

/// Protocol type.
#[derive(Clone, Copy, PartialEq, Eq, Structural, Debug)]
pub enum Protocol {
    /// Unknown protocol.
    Unknown,
    /// Ethernet.
    Ethernet,
    /// ARP.
    Arp,
    /// IPv4.
    Ipv4,
    /// IPv6.
    Ipv6,
    /// TCP.
    Tcp,
    /// UDP.
    Udp,
    /// ICMP.
    Icmp,
    /// ICMPv6.
    Icmpv6,
    /// DNS.
    Dns,
    /// HTTP.
    Http,
    /// HTTPS.
    Https,
    /// SSH.
    Ssh,
    /// DHCP.
    Dhcp,
}

/// The display name of a protocol.
pub open spec fn protocol_name(p: Protocol) -> Seq<char> {
    match p {
        Protocol::Unknown => "Unknown"@,
        Protocol::Ethernet => "Ethernet"@,
        Protocol::Arp => "ARP"@,
        Protocol::Ipv4 => "IPv4"@,
        Protocol::Ipv6 => "IPv6"@,
        Protocol::Tcp => "TCP"@,
        Protocol::Udp => "UDP"@,
        Protocol::Icmp => "ICMP"@,
        Protocol::Icmpv6 => "ICMPv6"@,
        Protocol::Dns => "DNS"@,
        Protocol::Http => "HTTP"@,
        Protocol::Https => "HTTPS"@,
        Protocol::Ssh => "SSH"@,
        Protocol::Dhcp => "DHCP"@,
    }
}

impl Protocol {
    /// Get protocol name.
    pub fn name(&self) -> (r: &'static str)
        ensures
            r@ == protocol_name(*self),
    {
        match self {
            Protocol::Unknown => "Unknown",
            Protocol::Ethernet => "Ethernet",
            Protocol::Arp => "ARP",
            Protocol::Ipv4 => "IPv4",
            Protocol::Ipv6 => "IPv6",
            Protocol::Tcp => "TCP",
            Protocol::Udp => "UDP",
            Protocol::Icmp => "ICMP",
            Protocol::Icmpv6 => "ICMPv6",
            Protocol::Dns => "DNS",
            Protocol::Http => "HTTP",
            Protocol::Https => "HTTPS",
            Protocol::Ssh => "SSH",
            Protocol::Dhcp => "DHCP",
        }
    }
}

/// TCP flags.
#[derive(Clone, Copy, PartialEq, Eq, Structural, Debug, Default)]
pub struct TcpFlags {
    /// FIN flag.
    pub fin: bool,
    /// SYN flag.
    pub syn: bool,
    /// RST flag.
    pub rst: bool,
    /// PSH flag.
    pub psh: bool,
    /// ACK flag.
    pub ack: bool,
    /// URG flag.
    pub urg: bool,
    /// ECE flag.
    pub ece: bool,
    /// CWR flag.
    pub cwr: bool,
}

/// The flags that a TCP flags byte sets, bit 0 (FIN) to bit 7 (CWR).
pub open spec fn flags_of_byte(b: u8) -> TcpFlags {
    TcpFlags {
        fin: b & 0x01 != 0,
        syn: b & 0x02 != 0,
        rst: b & 0x04 != 0,
        psh: b & 0x08 != 0,
        ack: b & 0x10 != 0,
        urg: b & 0x20 != 0,
        ece: b & 0x40 != 0,
        cwr: b & 0x80 != 0,
    }
}

/// The short form of a flag set: one letter per set flag among SYN, ACK,
/// FIN, RST, PSH, URG in that order, or `.` when none of them is set.
pub open spec fn flags_short(f: TcpFlags) -> Seq<char> {
    let s = (if f.syn { seq!['S'] } else { Seq::empty() })
        + (if f.ack { seq!['A'] } else { Seq::empty() })
        + (if f.fin { seq!['F'] } else { Seq::empty() })
        + (if f.rst { seq!['R'] } else { Seq::empty() })
        + (if f.psh { seq!['P'] } else { Seq::empty() })
        + (if f.urg { seq!['U'] } else { Seq::empty() });
    if s.len() == 0 { seq!['.'] } else { s }
}

impl TcpFlags {
    /// Create from raw flags byte.
    pub fn from_byte(flags: u8) -> (r: Self)
        ensures
            r == flags_of_byte(flags),
    {
        TcpFlags {
            fin: flags & 0x01 != 0,
            syn: flags & 0x02 != 0,
            rst: flags & 0x04 != 0,
            psh: flags & 0x08 != 0,
            ack: flags & 0x10 != 0,
            urg: flags & 0x20 != 0,
            ece: flags & 0x40 != 0,
            cwr: flags & 0x80 != 0,
        }
    }

    /// Format flags as string.
    pub fn to_string_short(&self) -> (r: String)
        ensures
            r@ == flags_short(*self),
    {
        let mut s = String::new();
        let ghost e = Seq::<char>::empty();
        if self.syn { push_char(&mut s, 'S'); }
        if self.ack { push_char(&mut s, 'A'); }
        if self.fin { push_char(&mut s, 'F'); }
        if self.rst { push_char(&mut s, 'R'); }
        if self.psh { push_char(&mut s, 'P'); }
        if self.urg { push_char(&mut s, 'U'); }
        let ghost built = (if self.syn { seq!['S'] } else { e })
            + (if self.ack { seq!['A'] } else { e })
            + (if self.fin { seq!['F'] } else { e })
            + (if self.rst { seq!['R'] } else { e })
            + (if self.psh { seq!['P'] } else { e })
            + (if self.urg { seq!['U'] } else { e });
        assert(s@ =~= built);
        if s.as_str().is_empty() {
            push_char(&mut s, '.');
        }
        assert(s@ =~= flags_short(*self));
        s
    }

    /// The display form, the short flags in brackets.
    pub fn to_display_string(&self) -> (r: String)
        ensures
            r@ == seq!['['] + flags_short(*self) + seq![']'],
    {
        let mut s = String::new();
        push_char(&mut s, '[');
        let inner = self.to_string_short();
        s.append(inner.as_str());
        push_char(&mut s, ']');
        assert(s@ =~= seq!['['] + flags_short(*self) + seq![']']);
        s
    }
}

/// The link layer of a frame, reduced to the fields the decoder reads.
#[derive(Clone, Copy, PartialEq, Eq, Debug)]
pub enum LinkLayer {
    /// An Ethernet II header.
    Ethernet2 {
        /// Source MAC address.
        source: [u8; 6],
        /// Destination MAC address.
        destination: [u8; 6],
        /// Ether type.
        ether_type: u16,
    },
    /// A Linux cooked capture (SLL) header.
    LinuxSll,
    /// An ether payload without a header.
    EtherPayload {
        /// Ether type.
        ether_type: u16,
    },
    /// A Linux cooked capture payload without a header.
    LinuxSllPayload,
}

/// The network layer of a frame, reduced to the fields the decoder reads.
#[derive(Clone, Copy, PartialEq, Eq, Debug)]
pub enum NetLayer {
    /// An IPv4 header.
    Ipv4 {
        /// Source address.
        source: [u8; 4],
        /// Destination address.
        destination: [u8; 4],
        /// Protocol number.
        protocol: u8,
        /// Time to live.
        ttl: u8,
    },
    /// An IPv6 header.
    Ipv6 {
        /// Source address.
        source: [u8; 16],
        /// Destination address.
        destination: [u8; 16],
        /// Next header number.
        next_header: u8,
        /// Hop limit.
        hop_limit: u8,
    },
}

/// The transport layer of a frame, reduced to the fields the decoder reads.
#[derive(Clone, Copy, PartialEq, Eq, Debug)]
pub enum TransportLayer {
    /// A TCP header.
    Tcp {
        /// Source port.
        source_port: u16,
        /// Destination port.
        destination_port: u16,
        /// The flags byte of the header (CWR down to FIN).
        flag_bits: u8,
    },
    /// A UDP header.
    Udp {
        /// Source port.
        source_port: u16,
        /// Destination port.
        destination_port: u16,
    },
    /// An ICMPv4 header.
    Icmpv4 {
        /// ICMP type.
        icmp_type: u8,
        /// ICMP code.
        icmp_code: u8,
    },
    /// An ICMPv6 header.
    Icmpv6 {
        /// ICMP type.
        icmp_type: u8,
        /// ICMP code.
        icmp_code: u8,
    },
}

/// The layers found in a frame.
#[derive(Clone, Copy, PartialEq, Eq, Debug)]
pub struct PacketLayers {
    /// Link layer.
    pub link: Option<LinkLayer>,
    /// Network layer.
    pub net: Option<NetLayer>,
    /// Transport layer.
    pub transport: Option<TransportLayer>,
}

/// What `SlicedPacket::from_ethernet` makes of a frame: `None`
/// when it returns an error, else the link, network and transport slices it
/// found, each reduced to the fields that `PacketLayers` holds.
pub uninterp spec fn ethernet_layers(data: Seq<u8>) -> Option<PacketLayers>;

/// Slices a frame with `SlicedPacket::from_ethernet` and reports
/// its link layer (the outer `None` when slicing fails).
#[verifier::external_body]
fn slice_link_layer(data: &[u8]) -> (r: Option<Option<LinkLayer>>)
    ensures
        r == (match ethernet_layers(data@) { Some(l) => Some(l.link), None => None }),
{
    match SlicedPacket::from_ethernet(data) {
        Err(_) => None,
        Ok(p) => Some(match p.link {
            None => None,
            Some(LinkSlice::Ethernet2(e)) => Some(LinkLayer::Ethernet2 {
                source: e.source(), destination: e.destination(), ether_type: e.ether_type().0 }),
            Some(LinkSlice::LinuxSll(_)) => Some(LinkLayer::LinuxSll),
            Some(LinkSlice::EtherPayload(x)) => Some(LinkLayer::EtherPayload { ether_type: x.ether_type.0 }),
            Some(LinkSlice::LinuxSllPayload(_)) => Some(LinkLayer::LinuxSllPayload),
        }),
    }
}

/// Slices a frame with `SlicedPacket::from_ethernet` and reports
/// its network layer (`None` when slicing fails or finds none).
#[verifier::external_body]
fn slice_net_layer(data: &[u8]) -> (r: Option<NetLayer>)
    ensures
        r == (match ethernet_layers(data@) { Some(l) => l.net, None => None }),
{
    match SlicedPacket::from_ethernet(data).ok().and_then(|p| p.net) {
        None => None,
        Some(NetSlice::Ipv4(s)) => Some(NetLayer::Ipv4 { source: s.header().source(),
            destination: s.header().destination(), protocol: s.header().protocol().0, ttl: s.header().ttl() }),
        Some(NetSlice::Ipv6(s)) => Some(NetLayer::Ipv6 { source: s.header().source(),
            destination: s.header().destination(), next_header: s.header().next_header().0,
            hop_limit: s.header().hop_limit() }),
    }
}

/// Slices a frame with `SlicedPacket::from_ethernet` and reports
/// its transport layer (`None` when slicing fails or finds none).
#[verifier::external_body]
fn slice_transport_layer(data: &[u8]) -> (r: Option<TransportLayer>)
    ensures
        r == (match ethernet_layers(data@) { Some(l) => l.transport, None => None }),
{
    match SlicedPacket::from_ethernet(data).ok().and_then(|p| p.transport) {
        None => None,
        Some(TransportSlice::Tcp(t)) => Some(TransportLayer::Tcp { source_port: t.source_port(),
            destination_port: t.destination_port(), flag_bits: t.header_slice()[13] }),
        Some(TransportSlice::Udp(u)) => Some(TransportLayer::Udp { source_port: u.source_port(), destination_port: u.destination_port() }),
        Some(TransportSlice::Icmpv4(i)) => Some(TransportLayer::Icmpv4 { icmp_type: i.type_u8(), icmp_code: i.code_u8() }),
        Some(TransportSlice::Icmpv6(i)) => Some(TransportLayer::Icmpv6 { icmp_type: i.type_u8(), icmp_code: i.code_u8() }),
    }
}

/// The protocol that well-known TCP ports indicate.
pub open spec fn tcp_protocol(src: u16, dst: u16) -> Protocol {
    if src == 80 || dst == 80 || src == 8080 || dst == 8080 {
        Protocol::Http
    } else if src == 443 || dst == 443 || src == 8443 || dst == 8443 {
        Protocol::Https
    } else if src == 22 || dst == 22 {
        Protocol::Ssh
    } else if src == 53 || dst == 53 {
        Protocol::Dns
    } else {
        Protocol::Tcp
    }
}

/// The protocol that well-known UDP ports indicate.
pub open spec fn udp_protocol(src: u16, dst: u16) -> Protocol {
    if src == 53 || dst == 53 {
        Protocol::Dns
    } else if src == 67 || dst == 67 || src == 68 || dst == 68 {
        Protocol::Dhcp
    } else {
        Protocol::Udp
    }
}

/// Which side of a connection a well-known port is on does not matter: a
/// port pair names the same protocol read either way.
pub proof fn protocols_ignore_direction(a: u16, b: u16)
    ensures
        tcp_protocol(a, b) == tcp_protocol(b, a),
        udp_protocol(a, b) == udp_protocol(b, a),
{
}

/// Port `p` is one end of the pair.
pub open spec fn either_is(a: u16, b: u16, p: u16) -> bool {
    a == p || b == p
}

/// What a TCP port pair says: a web port (80 or 8080) means HTTP; else a
/// TLS web port (443 or 8443) means HTTPS; else port 22 means SSH; else
/// port 53 means DNS; with none of them it is plain TCP.
pub proof fn tcp_ports_name_protocol(a: u16, b: u16)
    ensures
        either_is(a, b, 80) || either_is(a, b, 8080) ==> tcp_protocol(a, b) == Protocol::Http,
        !either_is(a, b, 80) && !either_is(a, b, 8080) && (either_is(a, b, 443) || either_is(a, b, 8443))
            ==> tcp_protocol(a, b) == Protocol::Https,
        !either_is(a, b, 80) && !either_is(a, b, 8080) && !either_is(a, b, 443) && !either_is(a, b, 8443)
            && either_is(a, b, 22) ==> tcp_protocol(a, b) == Protocol::Ssh,
        !either_is(a, b, 80) && !either_is(a, b, 8080) && !either_is(a, b, 443) && !either_is(a, b, 8443)
            && !either_is(a, b, 22) && either_is(a, b, 53) ==> tcp_protocol(a, b) == Protocol::Dns,
        !either_is(a, b, 80) && !either_is(a, b, 8080) && !either_is(a, b, 443) && !either_is(a, b, 8443)
            && !either_is(a, b, 22) && !either_is(a, b, 53) ==> tcp_protocol(a, b) == Protocol::Tcp,
{
}

/// What a UDP port pair says: port 53 means DNS; else port 67 or 68 means
/// DHCP; with none of them it is plain UDP.
pub proof fn udp_ports_name_protocol(a: u16, b: u16)
    ensures
        either_is(a, b, 53) ==> udp_protocol(a, b) == Protocol::Dns,
        !either_is(a, b, 53) && (either_is(a, b, 67) || either_is(a, b, 68)) ==> udp_protocol(a, b) == Protocol::Dhcp,
        !either_is(a, b, 53) && !either_is(a, b, 67) && !either_is(a, b, 68) ==> udp_protocol(a, b) == Protocol::Udp,
{
}

/// A MAC address as six upper-case hexadecimal pairs joined by colons.
pub open spec fn mac_text(b: Seq<u8>) -> Seq<char> {
    hex_byte_upper(b[0]) + seq![':'] + hex_byte_upper(b[1]) + seq![':'] + hex_byte_upper(b[2])
        + seq![':'] + hex_byte_upper(b[3]) + seq![':'] + hex_byte_upper(b[4]) + seq![':']
        + hex_byte_upper(b[5])
}

fn push_hex_byte(s: &mut String, b: u8)
    ensures
        final(s)@ == old(s)@ + hex_byte_upper(b),
{
    let hi = b / 16;
    let lo = b % 16;
    push_char(s, hex_digit(hi));
    push_char(s, hex_digit(lo));
    assert(s@ =~= old(s)@ + hex_byte_upper(b));
}

fn hex_digit(d: u8) -> (c: char)
    requires
        d < 16,
    ensures
        c == crate::text::hex_upper_char(d as nat),
{
    if d == 0 { '0' } else if d == 1 { '1' } else if d == 2 { '2' } else if d == 3 { '3' }
    else if d == 4 { '4' } else if d == 5 { '5' } else if d == 6 { '6' } else if d == 7 { '7' }
    else if d == 8 { '8' } else if d == 9 { '9' } else if d == 10 { 'A' } else if d == 11 { 'B' }
    else if d == 12 { 'C' } else if d == 13 { 'D' } else if d == 14 { 'E' } else { 'F' }
}

/// Format MAC address.
pub fn format_mac(bytes: &[u8; 6]) -> (r: String)
    ensures
        r@ == mac_text(bytes@),
{
    let mut s = String::new();
    push_hex_byte(&mut s, bytes[0]);
    push_char(&mut s, ':');
    push_hex_byte(&mut s, bytes[1]);
    push_char(&mut s, ':');
    push_hex_byte(&mut s, bytes[2]);
    push_char(&mut s, ':');
    push_hex_byte(&mut s, bytes[3]);
    push_char(&mut s, ':');
    push_hex_byte(&mut s, bytes[4]);
    push_char(&mut s, ':');
    push_hex_byte(&mut s, bytes[5]);
    assert(s@ =~= mac_text(bytes@));
    s
}


/// Decoded packet information.
#[derive(Debug)]
pub struct DecodedPacket {
    /// Capture timestamp (milliseconds since the Unix epoch).
    pub timestamp: i64,
    /// Packet length.
    pub length: usize,
    /// Capture length (may differ if truncated).
    pub capture_length: usize,
    /// Source MAC address.
    pub src_mac: Option<String>,
    /// Destination MAC address.
    pub dst_mac: Option<String>,
    /// Ethernet type.
    pub ether_type: Option<u16>,
    /// Source IP address.
    pub src_ip: Option<IpAddress>,
    /// Destination IP address.
    pub dst_ip: Option<IpAddress>,
    /// IP protocol number.
    pub ip_protocol: Option<u8>,
    /// TTL / Hop limit.
    pub ttl: Option<u8>,
    /// Source port.
    pub src_port: Option<u16>,
    /// Destination port.
    pub dst_port: Option<u16>,
    /// Protocol.
    pub protocol: Protocol,
    /// TCP flags (if TCP).
    pub tcp_flags: Option<TcpFlags>,
    /// ICMP type (if ICMP).
    pub icmp_type: Option<u8>,
    /// ICMP code (if ICMP).
    pub icmp_code: Option<u8>,
    /// Payload preview (first bytes).
    pub payload_preview: Option<Vec<u8>>,
    /// Payload length.
    pub payload_length: usize,
}

/// The view of an optional string.
pub open spec fn opt_text(o: Option<String>) -> Option<Seq<char>> {
    match o {
        Some(s) => Some(s@),
        None => None,
    }
}

/// The view of an optional byte vector.
pub open spec fn opt_bytes(o: Option<Vec<u8>>) -> Option<Seq<u8>> {
    match o {
        Some(v) => Some(v@),
        None => None,
    }
}

/// The link layer of the layers found, if any.
pub open spec fn link_of(l: Option<PacketLayers>) -> Option<LinkLayer> {
    match l { Some(p) => p.link, None => None }
}

/// The network layer of the layers found, if any.
pub open spec fn net_of(l: Option<PacketLayers>) -> Option<NetLayer> {
    match l { Some(p) => p.net, None => None }
}

/// The transport layer of the layers found, if any.
pub open spec fn transport_of(l: Option<PacketLayers>) -> Option<TransportLayer> {
    match l { Some(p) => p.transport, None => None }
}

/// Source and destination MAC text, when the link layer is Ethernet II.
pub open spec fn macs_of(link: Option<LinkLayer>) -> (Option<Seq<char>>, Option<Seq<char>>) {
    match link {
        Some(LinkLayer::Ethernet2 { source, destination, .. }) => (Some(mac_text(source@)), Some(mac_text(destination@))),
        _ => (None, None),
    }
}

/// The ether type the link layer names, if it names one.
pub open spec fn ether_type_of(link: Option<LinkLayer>) -> Option<u16> {
    match link {
        Some(LinkLayer::Ethernet2 { ether_type, .. }) => Some(ether_type),
        Some(LinkLayer::EtherPayload { ether_type }) => Some(ether_type),
        _ => None,
    }
}

/// Source address, destination address, protocol number and TTL of the
/// network layer.
pub open spec fn ip_fields_of(net: Option<NetLayer>) -> (Option<IpAddress>, Option<IpAddress>, Option<u8>, Option<u8>) {
    match net {
        Some(NetLayer::Ipv4 { source, destination, protocol, ttl }) =>
            (Some(IpAddress::V4(source)), Some(IpAddress::V4(destination)), Some(protocol), Some(ttl)),
        Some(NetLayer::Ipv6 { source, destination, next_header, hop_limit }) =>
            (Some(IpAddress::V6(source)), Some(IpAddress::V6(destination)), Some(next_header), Some(hop_limit)),
        None => (None, None, None, None),
    }
}

/// Source and destination ports of the transport layer.
pub open spec fn ports_of(t: Option<TransportLayer>) -> (Option<u16>, Option<u16>) {
    match t {
        Some(TransportLayer::Tcp { source_port, destination_port, .. }) => (Some(source_port), Some(destination_port)),
        Some(TransportLayer::Udp { source_port, destination_port }) => (Some(source_port), Some(destination_port)),
        _ => (None, None),
    }
}

/// TCP flags of the transport layer.
pub open spec fn flags_of(t: Option<TransportLayer>) -> Option<TcpFlags> {
    match t {
        Some(TransportLayer::Tcp { flag_bits, .. }) => Some(flags_of_byte(flag_bits)),
        _ => None,
    }
}

/// ICMP type and code of the transport layer.
pub open spec fn icmp_of(t: Option<TransportLayer>) -> (Option<u8>, Option<u8>) {
    match t {
        Some(TransportLayer::Icmpv4 { icmp_type, icmp_code }) => (Some(icmp_type), Some(icmp_code)),
        Some(TransportLayer::Icmpv6 { icmp_type, icmp_code }) => (Some(icmp_type), Some(icmp_code)),
        _ => (None, None),
    }
}

/// The protocol of a frame: decided by the transport layer when there is
/// one, else by the network layer, else unknown.
pub open spec fn protocol_of(net: Option<NetLayer>, t: Option<TransportLayer>) -> Protocol {
    match t {
        Some(TransportLayer::Tcp { source_port, destination_port, .. }) => tcp_protocol(source_port, destination_port),
        Some(TransportLayer::Udp { source_port, destination_port }) => udp_protocol(source_port, destination_port),
        Some(TransportLayer::Icmpv4 { .. }) => Protocol::Icmp,
        Some(TransportLayer::Icmpv6 { .. }) => Protocol::Icmpv6,
        None => match net {
            Some(NetLayer::Ipv4 { .. }) => Protocol::Ipv4,
            Some(NetLayer::Ipv6 { .. }) => Protocol::Ipv6,
            None => Protocol::Unknown,
        },
    }
}

/// The preview kept of a frame that could not be sliced: its first
/// `max` bytes, or none at all when `max` is zero.
pub open spec fn preview_of(data: Seq<u8>, max: nat) -> Option<Seq<u8>> {
    if max > 0 {
        Some(data.take(if data.len() < max { data.len() as int } else { max as int }))
    } else {
        None
    }
}

/// The packet that decoding `data` yields, given the layers found in it
/// (`None` when the frame could not be sliced) and the preview limit.
pub open spec fn decoded_as(p: DecodedPacket, data: Seq<u8>, layers: Option<PacketLayers>, max: nat, ts: i64) -> bool {
    let ips = ip_fields_of(net_of(layers));
    let ports = ports_of(transport_of(layers));
    let icmp = icmp_of(transport_of(layers));
    &&& p.timestamp == ts
    &&& p.length == data.len()
    &&& p.capture_length == data.len()
    &&& opt_text(p.src_mac) == macs_of(link_of(layers)).0
    &&& opt_text(p.dst_mac) == macs_of(link_of(layers)).1
    &&& p.ether_type == ether_type_of(link_of(layers))
    &&& p.src_ip == ips.0
    &&& p.dst_ip == ips.1
    &&& p.ip_protocol == ips.2
    &&& p.ttl == ips.3
    &&& p.src_port == ports.0
    &&& p.dst_port == ports.1
    &&& p.protocol == protocol_of(net_of(layers), transport_of(layers))
    &&& p.tcp_flags == flags_of(transport_of(layers))
    &&& p.icmp_type == icmp.0
    &&& p.icmp_code == icmp.1
    &&& opt_bytes(p.payload_preview) == (if layers is Some { None } else { preview_of(data, max) })
    &&& p.payload_length == (if layers is Some { 0 } else { data.len() })
}

/// Protocol decoder.
#[derive(Debug)]
pub struct ProtocolDecoder {
    /// Maximum payload preview size.
    max_payload_preview: usize,
}

impl ProtocolDecoder {
    /// The largest payload preview this decoder keeps.
    pub closed spec fn preview_limit(&self) -> nat {
        self.max_payload_preview as nat
    }

    /// Create a new decoder.
    pub fn new() -> (r: Self)
        ensures
            r.preview_limit() == 64,
    {
        ProtocolDecoder { max_payload_preview: 64 }
    }

    /// Create with custom payload preview size.
    pub fn with_payload_preview(size: usize) -> (r: Self)
        ensures
            r.preview_limit() == size,
    {
        ProtocolDecoder { max_payload_preview: size }
    }

    /// Decode a raw packet.
    pub fn decode(&self, data: &[u8], timestamp: i64) -> (r: DecodedPacket)
        ensures
            decoded_as(r, data@, ethernet_layers(data@), self.preview_limit(), timestamp),
    {
        let link = slice_link_layer(data);
        let layers = match link {
            None => None,
            Some(l) => Some(PacketLayers {
                link: l,
                net: slice_net_layer(data),
                transport: slice_transport_layer(data),
            }),
        };
        self.decode_layers(data, &layers, timestamp)
    }

    /// Builds the decoded packet from the layers found in a frame (`None`
    /// when the frame could not be sliced).
    pub fn decode_layers(&self, data: &[u8], layers: &Option<PacketLayers>, timestamp: i64) -> (r: DecodedPacket)
        ensures
            decoded_as(r, data@, *layers, self.preview_limit(), timestamp),
    {
        let mut packet = DecodedPacket {
            timestamp,
            length: data.len(),
            capture_length: data.len(),
            src_mac: None,
            dst_mac: None,
            ether_type: None,
            src_ip: None,
            dst_ip: None,
            ip_protocol: None,
            ttl: None,
            src_port: None,
            dst_port: None,
            protocol: Protocol::Unknown,
            tcp_flags: None,
            icmp_type: None,
            icmp_code: None,
            payload_preview: None,
            payload_length: 0,
        };
        match layers {
            Some(sliced) => {
                match &sliced.link {
                    Some(LinkLayer::Ethernet2 { source, destination, ether_type }) => {
                        packet.src_mac = Some(format_mac(source));
                        packet.dst_mac = Some(format_mac(destination));
                        packet.ether_type = Some(*ether_type);
                    },
                    Some(LinkLayer::EtherPayload { ether_type }) => {
                        packet.ether_type = Some(*ether_type);
                    },
                    _ => {},
                }
                match &sliced.net {
                    Some(NetLayer::Ipv4 { source, destination, protocol, ttl }) => {
                        packet.src_ip = Some(IpAddress::V4(*source));
                        packet.dst_ip = Some(IpAddress::V4(*destination));
                        packet.ip_protocol = Some(*protocol);
                        packet.ttl = Some(*ttl);
                        packet.protocol = Protocol::Ipv4;
                    },
                    Some(NetLayer::Ipv6 { source, destination, next_header, hop_limit }) => {
                        packet.src_ip = Some(IpAddress::V6(*source));
                        packet.dst_ip = Some(IpAddress::V6(*destination));
                        packet.ip_protocol = Some(*next_header);
                        packet.ttl = Some(*hop_limit);
                        packet.protocol = Protocol::Ipv6;
                    },
                    None => {},
                }
                match &sliced.transport {
                    Some(TransportLayer::Tcp { source_port, destination_port, flag_bits }) => {
                        packet.src_port = Some(*source_port);
                        packet.dst_port = Some(*destination_port);
                        packet.tcp_flags = Some(TcpFlags::from_byte(*flag_bits));
                        packet.protocol = self.identify_tcp_protocol(*source_port, *destination_port);
                    },
                    Some(TransportLayer::Udp { source_port, destination_port }) => {
                        packet.src_port = Some(*source_port);
                        packet.dst_port = Some(*destination_port);
                        packet.protocol = self.identify_udp_protocol(*source_port, *destination_port);
                    },
                    Some(TransportLayer::Icmpv4 { icmp_type, icmp_code }) => {
                        packet.icmp_type = Some(*icmp_type);
                        packet.icmp_code = Some(*icmp_code);
                        packet.protocol = Protocol::Icmp;
                    },
                    Some(TransportLayer::Icmpv6 { icmp_type, icmp_code }) => {
                        packet.icmp_type = Some(*icmp_type);
                        packet.icmp_code = Some(*icmp_code);
                        packet.protocol = Protocol::Icmpv6;
                    },
                    None => {},
                }
                packet.payload_length = 0;
            },
            None => {
                packet.payload_length = data.len();
                if self.max_payload_preview > 0 {
                    let preview_len = if data.len() < self.max_payload_preview {
                        data.len()
                    } else {
                        self.max_payload_preview
                    };
                    packet.payload_preview = Some(prefix_bytes(data, preview_len));
                }
            },
        }
        packet
    }

    /// Identify TCP protocol from port numbers.
    pub fn identify_tcp_protocol(&self, src_port: u16, dst_port: u16) -> (r: Protocol)
        ensures
            r == tcp_protocol(src_port, dst_port),
    {
        if src_port == 80 || dst_port == 80 || src_port == 8080 || dst_port == 8080 {
            Protocol::Http
        } else if src_port == 443 || dst_port == 443 || src_port == 8443 || dst_port == 8443 {
            Protocol::Https
        } else if src_port == 22 || dst_port == 22 {
            Protocol::Ssh
        } else if src_port == 53 || dst_port == 53 {
            Protocol::Dns
        } else {
            Protocol::Tcp
        }
    }

    /// Identify UDP protocol from port numbers.
    pub fn identify_udp_protocol(&self, src_port: u16, dst_port: u16) -> (r: Protocol)
        ensures
            r == udp_protocol(src_port, dst_port),
    {
        if src_port == 53 || dst_port == 53 {
            Protocol::Dns
        } else if src_port == 67 || dst_port == 67 || src_port == 68 || dst_port == 68 {
            Protocol::Dhcp
        } else {
            Protocol::Udp
        }
    }
}

impl Clone for ProtocolDecoder {
    /// A copy of a decoder is a fresh decoder, with the default preview limit.
    fn clone(&self) -> (r: Self)
        ensures
            r.preview_limit() == 64,
    {
        Self::new()
    }
}

impl Default for ProtocolDecoder {
    fn default() -> (r: Self)
        ensures
            r.preview_limit() == 64,
    {
        Self::new()
    }
}

/// The first `n` bytes of `data`.
pub fn prefix_bytes(data: &[u8], n: usize) -> (r: Vec<u8>)
    requires
        n <= data@.len(),
    ensures
        r@ == data@.take(n as int),
{
    let mut v: Vec<u8> = Vec::new();
    let mut i: usize = 0;
    while i < n
        invariant
            i <= n <= data@.len(),
            v@ == data@.take(i as int),
        decreases n - i,
    {
        v.push(data[i]);
        i = i + 1;
        assert(v@ =~= data@.take(i as int));
    }
    v
}

/// An endpoint as a summary shows it: address and port, the address
/// alone, or `?` when there is none.
pub open spec fn endpoint_text(ip: Option<IpAddress>, port: Option<u16>) -> Seq<char> {
    match ip {
        Some(a) => match port {
            Some(p) => ip_text(a) + ":"@ + decimal(p as nat),
            None => ip_text(a),
        },
        None => "?"@,
    }
}

/// The one-line summary of a packet: protocol, endpoints, TCP flags,
/// length, and payload length when there is a payload.
pub open spec fn packet_summary(p: DecodedPacket) -> Seq<char> {
    protocol_name(p.protocol) + " "@ + endpoint_text(p.src_ip, p.src_port) + " -> "@
        + endpoint_text(p.dst_ip, p.dst_port) + " "@
        + (match p.tcp_flags { Some(f) => flags_short(f), None => Seq::empty() })
        + " len="@ + decimal(p.length as nat)
        + (if p.payload_length > 0 { " payload="@ + decimal(p.payload_length as nat) } else { Seq::empty() })
}

/// Appends an endpoint as a summary shows it.
fn push_endpoint(s: &mut String, ip: &Option<IpAddress>, port: Option<u16>)
    ensures
        final(s)@ == old(s)@ + endpoint_text(*ip, port),
{
    match ip {
        Some(a) => {
            let t = ip_to_text(a);
            s.append(t.as_str());
            match port {
                Some(p) => {
                    s.append(":");
                    push_decimal(s, p as u64);
                }
                None => {}
            }
        }
        None => s.append("?"),
    }
}

impl DecodedPacket {
    /// Get a one-line summary of the packet.
    pub fn summary(&self) -> (r: String)
        ensures
            r@ == packet_summary(*self),
    {
        let mut s = String::new();
        s.append(self.protocol.name());
        s.append(" ");
        push_endpoint(&mut s, &self.src_ip, self.src_port);
        s.append(" -> ");
        push_endpoint(&mut s, &self.dst_ip, self.dst_port);
        s.append(" ");
        match self.tcp_flags {
            Some(f) => {
                let t = f.to_string_short();
                s.append(t.as_str());
            }
            None => {}
        }
        s.append(" len=");
        push_decimal(&mut s, self.length as u64);
        if self.payload_length > 0 {
            s.append(" payload=");
            push_decimal(&mut s, self.payload_length as u64);
        }
        assert(s@ =~= packet_summary(*self));
        s
    }
}

} // verus!
