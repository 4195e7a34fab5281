//! The Android platform: what interface names, WiFi frequencies and scan
//! capability strings say, and how a scan groups into channels.
//!
//! The JNI calls that read them are the caller's.

use vstd::prelude::*;
use crate::text::{contains, contains_seq, has_prefix, parse_hex_u8, split_on, split_pieces, starts_with, str_eq, str_to_string, to_uppercase, u8_hex_value, unicode_uppercase, views};

verus! {

/// Android network provider.
#[derive(Debug)]
pub struct AndroidNetworkProvider {}

impl AndroidNetworkProvider {
    /// Creates a new Android network provider.
    pub fn new() -> (r: Self) {
        AndroidNetworkProvider {}
    }
}

/// Android privilege provider.
#[derive(Debug)]
pub struct AndroidPrivilegeProvider {}

impl AndroidPrivilegeProvider {
    /// Creates a new Android privilege provider.
    pub fn new() -> (r: Self) {
        AndroidPrivilegeProvider {}
    }
}

/// Android system information provider.
#[derive(Debug)]
pub struct AndroidSystemInfoProvider {}

impl AndroidSystemInfoProvider {
    /// Creates a new Android system info provider.
    pub fn new() -> (r: Self) {
        AndroidSystemInfoProvider {}
    }

    /// The Android version, as reported without access to `Build.VERSION`.
    pub fn android_version(&self) -> (r: String)
        ensures
            r@ == "Android"@,
    {
        str_to_string("Android")
    }

    /// The device model, as reported without access to `Build.MODEL`.
    pub fn device_model(&self) -> (r: String)
        ensures
            r@ == "Android Device"@,
    {
        str_to_string("Android Device")
    }
}

/// Android WiFi provider.
#[derive(Debug)]
pub struct AndroidWifiProvider {}

impl AndroidWifiProvider {
    /// Creates a new Android WiFi provider.
    pub fn new() -> (r: Self) {
        AndroidWifiProvider {}
    }
}

/// The kind of a network interface.
#[derive(Debug, Clone, Copy, PartialEq, Eq, Structural)]
pub enum InterfaceType {
    /// Loopback.
    Loopback,
    /// WiFi (and WiFi Direct).
    Wifi,
    /// Ethernet.
    Ethernet,
    /// Cellular data.
    Cellular,
    /// VPN tunnel.
    Vpn,
    /// Anything else.
    Other,
}

/// The display name of an interface.
pub open spec fn display_name(name: Seq<char>) -> Seq<char> {
    if name == "lo"@ { "Loopback"@ }
    else if name == "wlan0"@ { "Wi-Fi"@ }
    else if name == "eth0"@ { "Ethernet"@ }
    else if has_prefix(name, "rmnet"@) { "Cellular"@ }
    else if has_prefix(name, "tun"@) { "VPN Tunnel"@ }
    else if has_prefix(name, "p2p"@) { "Wi-Fi Direct"@ }
    else { name }
}

/// Gets a human-readable display name for an interface.
pub fn get_display_name(name: &str) -> (r: String)
    ensures
        r@ == display_name(name@),
{
    if str_eq(name, "lo") {
        str_to_string("Loopback")
    } else if str_eq(name, "wlan0") {
        str_to_string("Wi-Fi")
    } else if str_eq(name, "eth0") {
        str_to_string("Ethernet")
    } else if starts_with(name, "rmnet") {
        str_to_string("Cellular")
    } else if starts_with(name, "tun") {
        str_to_string("VPN Tunnel")
    } else if starts_with(name, "p2p") {
        str_to_string("Wi-Fi Direct")
    } else {
        str_to_string(name)
    }
}

/// The kind of an interface, from its name.
pub open spec fn interface_kind(name: Seq<char>) -> InterfaceType {
    if name == "lo"@ { InterfaceType::Loopback }
    else if name == "wlan0"@ { InterfaceType::Wifi }
    else if name == "eth0"@ { InterfaceType::Ethernet }
    else if has_prefix(name, "rmnet"@) { InterfaceType::Cellular }
    else if has_prefix(name, "tun"@) { InterfaceType::Vpn }
    else if has_prefix(name, "p2p"@) { InterfaceType::Wifi }
    else { InterfaceType::Other }
}

/// Detects the interface type from its name.
pub fn detect_interface_type(name: &str) -> (r: InterfaceType)
    ensures
        r == interface_kind(name@),
{
    if str_eq(name, "lo") {
        InterfaceType::Loopback
    } else if str_eq(name, "wlan0") {
        InterfaceType::Wifi
    } else if str_eq(name, "eth0") {
        InterfaceType::Ethernet
    } else if starts_with(name, "rmnet") {
        InterfaceType::Cellular
    } else if starts_with(name, "tun") {
        InterfaceType::Vpn
    } else if starts_with(name, "p2p") {
        InterfaceType::Wifi
    } else {
        InterfaceType::Other
    }
}

/// Determines if this is likely the default interface: WiFi (`wlan0`) or
/// cellular (`rmnet0`).
pub fn is_default_interface(name: &str) -> (r: bool)
    ensures
        r == (name@ == "wlan0"@ || name@ == "rmnet0"@),
{
    str_eq(name, "wlan0") || str_eq(name, "rmnet0")
}

/// A WiFi band.
#[derive(Debug, Clone, Copy, PartialEq, Eq, Structural)]
pub enum ChannelBand {
    /// 2.4 GHz.
    TwoGhz,
    /// 5 GHz.
    FiveGhz,
    /// 6 GHz.
    SixGhz,
}

/// The channel and band of a frequency (MHz): 2412-2484 is 2.4 GHz
/// (2484 being channel 14), 5170-5825 is 5 GHz, 5935-7115 is 6 GHz
/// (counted from 5950 MHz, so its lowest frequencies give channels at or
/// below zero); anything else is channel 0 on 2.4 GHz.
pub open spec fn channel_of(f: i32) -> (int, ChannelBand) {
    if 2412 <= f <= 2484 {
        (if f == 2484 { 14 } else { (f - 2407) / 5 }, ChannelBand::TwoGhz)
    } else if 5170 <= f <= 5825 {
        ((f - 5000) / 5, ChannelBand::FiveGhz)
    } else if 5935 <= f <= 7115 {
        (toward_zero_fifth(f - 5950), ChannelBand::SixGhz)
    } else {
        (0, ChannelBand::TwoGhz)
    }
}

/// A fifth of `x`, rounded toward zero as integer division does.
pub open spec fn toward_zero_fifth(x: int) -> int {
    if x >= 0 { x / 5 } else { -((-x) / 5) }
}

/// Converts WiFi frequency (MHz) to channel number and band.
pub fn frequency_to_channel(frequency: i32) -> (r: (i32, ChannelBand))
    ensures
        r.0 == channel_of(frequency).0,
        r.1 == channel_of(frequency).1,
{
    if 2412 <= frequency && frequency <= 2484 {
        let channel = if frequency == 2484 { 14 } else { (frequency - 2407) / 5 };
        (channel, ChannelBand::TwoGhz)
    } else if 5170 <= frequency && frequency <= 5825 {
        ((frequency - 5000) / 5, ChannelBand::FiveGhz)
    } else if 5935 <= frequency && frequency <= 7115 {
        ((frequency - 5950) / 5, ChannelBand::SixGhz)
    } else {
        (0, ChannelBand::TwoGhz)
    }
}

/// The security of a network.
#[derive(Debug, Clone, Copy, PartialEq, Eq, Structural)]
pub enum SecurityType {
    /// Open.
    Open,
    /// WEP.
    Wep,
    /// WPA personal.
    WpaPersonal,
    /// WPA enterprise.
    WpaEnterprise,
    /// WPA2 personal.
    Wpa2Personal,
    /// WPA2 enterprise.
    Wpa2Enterprise,
    /// WPA3 personal.
    Wpa3Personal,
    /// WPA3 enterprise.
    Wpa3Enterprise,
    /// Unknown.
    Unknown,
}

/// The security an (upper-cased) capability string announces.
pub open spec fn security_of_caps(c: Seq<char>) -> SecurityType {
    if contains_seq(c, "WPA3-SAE"@) || contains_seq(c, "SAE"@) {
        SecurityType::Wpa3Personal
    } else if contains_seq(c, "WPA3"@) {
        if contains_seq(c, "EAP"@) { SecurityType::Wpa3Enterprise } else { SecurityType::Wpa3Personal }
    } else if contains_seq(c, "WPA2"@) {
        if contains_seq(c, "EAP"@) || contains_seq(c, "802.1X"@) { SecurityType::Wpa2Enterprise } else { SecurityType::Wpa2Personal }
    } else if contains_seq(c, "WPA"@) {
        if contains_seq(c, "EAP"@) || contains_seq(c, "802.1X"@) { SecurityType::WpaEnterprise } else { SecurityType::WpaPersonal }
    } else if contains_seq(c, "WEP"@) {
        SecurityType::Wep
    } else if contains_seq(c, "ESS"@) && !contains_seq(c, "WPA"@) && !contains_seq(c, "WEP"@) {
        SecurityType::Open
    } else {
        SecurityType::Unknown
    }
}

/// Parses the security capabilities string of a scan result
/// (case-insensitively).
pub fn parse_security_capabilities(capabilities: &str) -> (r: SecurityType)
    ensures
        r == security_of_caps(unicode_uppercase(capabilities@)),
{
    let caps = to_uppercase(capabilities);
    let c = caps.as_str();
    if contains(c, "WPA3-SAE") || contains(c, "SAE") {
        SecurityType::Wpa3Personal
    } else if contains(c, "WPA3") {
        if contains(c, "EAP") { SecurityType::Wpa3Enterprise } else { SecurityType::Wpa3Personal }
    } else if contains(c, "WPA2") {
        if contains(c, "EAP") || contains(c, "802.1X") { SecurityType::Wpa2Enterprise } else { SecurityType::Wpa2Personal }
    } else if contains(c, "WPA") {
        if contains(c, "EAP") || contains(c, "802.1X") { SecurityType::WpaEnterprise } else { SecurityType::WpaPersonal }
    } else if contains(c, "WEP") {
        SecurityType::Wep
    } else if contains(c, "ESS") && !contains(c, "WPA") && !contains(c, "WEP") {
        SecurityType::Open
    } else {
        SecurityType::Unknown
    }
}

/// A WiFi standard.
#[derive(Debug, Clone, Copy, PartialEq, Eq, Structural)]
pub enum WifiStandard {
    /// 802.11b.
    B,
    /// 802.11g.
    G,
    /// 802.11n (WiFi 4).
    N,
    /// 802.11ac (WiFi 5).
    Ac,
    /// 802.11ax (WiFi 6/6E).
    Ax,
    /// Unknown.
    Unknown,
}

/// The standard a frequency and link speed (Mbps) suggest.
pub open spec fn standard_of_link(f: i32, speed: i32) -> WifiStandard {
    if 5935 <= f <= 7115 {
        WifiStandard::Ax
    } else if 5170 <= f <= 5825 {
        if speed > 1000 { WifiStandard::Ax } else if speed > 400 { WifiStandard::Ac } else { WifiStandard::N }
    } else if 2412 <= f <= 2484 {
        if speed > 200 { WifiStandard::Ax } else if speed > 54 { WifiStandard::N } else if speed > 11 { WifiStandard::G } else { WifiStandard::B }
    } else {
        WifiStandard::Unknown
    }
}

/// Infers WiFi standard from frequency and link speed.
pub fn infer_wifi_standard(frequency: i32, link_speed: i32) -> (r: WifiStandard)
    ensures
        r == standard_of_link(frequency, link_speed),
{
    if 5935 <= frequency && frequency <= 7115 {
        WifiStandard::Ax
    } else if 5170 <= frequency && frequency <= 5825 {
        if link_speed > 1000 { WifiStandard::Ax } else if link_speed > 400 { WifiStandard::Ac } else { WifiStandard::N }
    } else if 2412 <= frequency && frequency <= 2484 {
        if link_speed > 200 { WifiStandard::Ax } else if link_speed > 54 { WifiStandard::N } else if link_speed > 11 { WifiStandard::G } else { WifiStandard::B }
    } else {
        WifiStandard::Unknown
    }
}

/// The standard an (upper-cased) capability string and a frequency
/// suggest.
pub open spec fn standard_of_caps(c: Seq<char>, f: i32) -> WifiStandard {
    if contains_seq(c, "[HE]"@) || contains_seq(c, "[AX]"@) || (5935 <= f <= 7115) {
        WifiStandard::Ax
    } else if contains_seq(c, "[VHT]"@) || contains_seq(c, "[AC]"@) {
        WifiStandard::Ac
    } else if contains_seq(c, "[HT]"@) {
        WifiStandard::N
    } else if 5170 <= f <= 5825 {
        WifiStandard::N
    } else {
        WifiStandard::G
    }
}

/// Infers WiFi standard from capabilities string (case-insensitively) and
/// frequency.
pub fn infer_wifi_standard_from_caps(capabilities: &str, frequency: i32) -> (r: WifiStandard)
    ensures
        r == standard_of_caps(unicode_uppercase(capabilities@), frequency),
{
    let caps = to_uppercase(capabilities);
    let c = caps.as_str();
    if contains(c, "[HE]") || contains(c, "[AX]") || (5935 <= frequency && frequency <= 7115) {
        WifiStandard::Ax
    } else if contains(c, "[VHT]") || contains(c, "[AC]") {
        WifiStandard::Ac
    } else if contains(c, "[HT]") {
        WifiStandard::N
    } else if 5170 <= frequency && frequency <= 5825 {
        WifiStandard::N
    } else {
        WifiStandard::G
    }
}

/// The address a MAC string reads as: six parts separated by colons, each
/// a byte in hexadecimal.
pub open spec fn mac_of(s: Seq<char>) -> Option<[u8; 6]> {
    let p = split_pieces(s, ':');
    if p.len() == 6 && (forall|i: int| 0 <= i < 6 ==> #[trigger] u8_hex_value(p[i]) is Some) {
        Some([
            u8_hex_value(p[0]).unwrap(), u8_hex_value(p[1]).unwrap(), u8_hex_value(p[2]).unwrap(),
            u8_hex_value(p[3]).unwrap(), u8_hex_value(p[4]).unwrap(), u8_hex_value(p[5]).unwrap(),
        ])
    } else {
        None
    }
}

/// Parses a MAC address string (e.g., "AA:BB:CC:DD:EE:FF").
pub fn parse_mac_address(s: &str) -> (r: Option<[u8; 6]>)
    ensures
        r == mac_of(s@),
{
    let parts = split_on(s, ':');
    if parts.len() != 6 {
        return None;
    }
    let ghost p = views(parts@);
    let mut bytes = [0u8; 6];
    let mut i: usize = 0;
    while i < 6
        invariant
            i <= 6,
            parts@.len() == 6,
            p == views(parts@),
            p == split_pieces(s@, ':'),
            forall|j: int| 0 <= j < i ==> u8_hex_value(p[j]) == Some(#[trigger] bytes@[j]),
        decreases 6 - i,
    {
        match parse_hex_u8(parts[i].as_str()) {
            Some(b) => {
                bytes[i] = b;
            }
            None => {
                assert(u8_hex_value(p[i as int]) is None);
                return None;
            }
        }
        i = i + 1;
    }
    assert(bytes@ =~= seq![bytes@[0], bytes@[1], bytes@[2], bytes@[3], bytes@[4], bytes@[5]]);
    proof {
        let m = mac_of(s@);
        assert(forall|j: int| 0 <= j < 6 ==> #[trigger] u8_hex_value(p[j]) is Some);
        assert(m.unwrap()@ =~= bytes@);
    }
    Some(bytes)
}

/// An access point as a channel analysis reads it.
#[derive(Debug, Clone, Copy, PartialEq, Eq, Structural)]
pub struct ScanEntry {
    /// Channel number.
    pub channel: u8,
    /// Band.
    pub band: ChannelBand,
    /// Signal strength (dBm).
    pub rssi: i32,
}

/// How crowded a channel is.
#[derive(Debug, Clone, Copy, PartialEq, Eq, Structural)]
pub enum InterferenceLevel {
    /// Two networks or fewer.
    Low,
    /// Three to five networks.
    Medium,
    /// More than five networks.
    High,
}

/// The networks seen on one channel.
#[derive(Debug, Clone, Copy, PartialEq, Eq, Structural)]
pub struct ChannelGroup {
    /// Channel number.
    pub channel: u8,
    /// Band.
    pub band: ChannelBand,
    /// Access points on it.
    pub ap_count: i32,
    /// Strongest signal on it (at least -100 dBm).
    pub max_rssi: i32,
}

/// The scan grouped by channel, in order of first appearance: how many
/// access points each channel has and its strongest signal (counted from
/// -100 dBm).
pub open spec fn channel_groups(aps: Seq<ScanEntry>) -> Seq<ChannelGroup>
    decreases aps.len(),
{
    if aps.len() == 0 {
        seq![]
    } else {
        let g = channel_groups(aps.drop_last());
        let a = aps.last();
        let i = group_index(g, a.channel, a.band);
        if i < g.len() {
            g.update(i, ChannelGroup {
                ap_count: (g[i].ap_count + 1) as i32,
                max_rssi: if a.rssi > g[i].max_rssi { a.rssi } else { g[i].max_rssi },
                ..g[i]
            })
        } else {
            g.push(ChannelGroup { channel: a.channel, band: a.band, ap_count: 1, max_rssi: if a.rssi > -100i32 { a.rssi } else { -100i32 } })
        }
    }
}

/// The position of a channel's first group (the length when there is
/// none).
pub open spec fn group_index(g: Seq<ChannelGroup>, channel: u8, band: ChannelBand) -> int
    decreases g.len(),
{
    if g.len() == 0 {
        0
    } else {
        let j = group_index(g.drop_last(), channel, band);
        if j < g.len() - 1 {
            j
        } else if g.last().channel == channel && g.last().band == band {
            g.len() - 1
        } else {
            g.len() as int
        }
    }
}

/// The level of interference a number of access points makes.
pub open spec fn interference_of(count: i32) -> InterferenceLevel {
    if count > 5 { InterferenceLevel::High } else if count > 2 { InterferenceLevel::Medium } else { InterferenceLevel::Low }
}

/// The level of interference on a channel.
pub fn interference_level(count: i32) -> (r: InterferenceLevel)
    ensures
        r == interference_of(count),
{
    if count > 5 { InterferenceLevel::High } else if count > 2 { InterferenceLevel::Medium } else { InterferenceLevel::Low }
}

/// A channel is recommended with at most two access points on it.
pub fn channel_recommended(count: i32) -> (r: bool)
    ensures
        r == (count <= 2),
{
    count <= 2
}

/// The estimated utilization of a channel in percent: ten per access
/// point, at most a hundred.
pub fn channel_utilization_percent(count: i32) -> (r: i32)
    requires
        0 <= count,
    ensures
        r == (if count * 10 < 100 { count * 10 } else { 100 }),
{
    if count < 10 { count * 10 } else { 100 }
}

/// The first position of a channel's group in `g`, if any.
fn find_group(g: &Vec<ChannelGroup>, channel: u8, band: ChannelBand) -> (r: usize)
    ensures
        r == group_index(g@, channel, band),
        r <= g@.len(),
{
    let mut i: usize = 0;
    while i < g.len()
        invariant
            i <= g@.len(),
            group_index(g@.take(i as int), channel, band) == i,
            forall|j: int| 0 <= j < i ==> !((#[trigger] g@[j]).channel == channel && g@[j].band == band),
        decreases g@.len() - i,
    {
        assert(g@.take(i + 1).drop_last() =~= g@.take(i as int));
        if g[i].channel == channel && g[i].band == band {
            proof { group_index_prefix(g@, i as int + 1, channel, band); }
            return i;
        }
        i = i + 1;
    }
    assert(g@.take(g@.len() as int) =~= g@);
    i
}

/// Once found in a prefix, a group's position stays put.
proof fn group_index_prefix(g: Seq<ChannelGroup>, k: int, channel: u8, band: ChannelBand)
    requires
        0 < k <= g.len(),
        group_index(g.take(k), channel, band) < k,
    ensures
        group_index(g, channel, band) == group_index(g.take(k), channel, band),
    decreases g.len(),
{
    if k < g.len() {
        assert(g.drop_last().take(k) =~= g.take(k));
        group_index_prefix(g.drop_last(), k, channel, band);
    } else {
        assert(g.take(k) =~= g);
    }
}

/// Groups a scan by channel.  There must be fewer access points than
/// `i32::MAX`.
pub fn group_channels(aps: &Vec<ScanEntry>) -> (r: Vec<ChannelGroup>)
    requires
        aps@.len() < i32::MAX,
    ensures
        r@ == channel_groups(aps@),
{
    let mut g: Vec<ChannelGroup> = Vec::new();
    let mut k: usize = 0;
    while k < aps.len()
        invariant
            k <= aps@.len(),
            aps@.len() < i32::MAX,
            g@ == channel_groups(aps@.take(k as int)),
            forall|j: int| 0 <= j < g@.len() ==> 1 <= (#[trigger] g@[j]).ap_count <= k,
        decreases aps@.len() - k,
    {
        let a = aps[k];
        assert(aps@.take(k + 1).drop_last() =~= aps@.take(k as int));
        let i = find_group(&g, a.channel, a.band);
        if i < g.len() {
            let old_g = g[i];
            let max_rssi = if a.rssi > old_g.max_rssi { a.rssi } else { old_g.max_rssi };
            g.set(i, ChannelGroup { channel: old_g.channel, band: old_g.band, ap_count: old_g.ap_count + 1, max_rssi });
        } else {
            let max_rssi = if a.rssi > -100 { a.rssi } else { -100 };
            g.push(ChannelGroup { channel: a.channel, band: a.band, ap_count: 1, max_rssi });
        }
        k = k + 1;
    }
    assert(aps@.take(aps@.len() as int) =~= aps@);
    g
}

} // verus!
