use netdiag::capture::filter::CaptureFilter;
use netdiag::net::IpAddress;

#[test]
fn test_filter_host() {
    let filter = CaptureFilter::host(IpAddress::V4([192, 168, 1, 1]));
    assert_eq!(filter.as_str(), "host 192.168.1.1");
}

#[test]
fn test_filter_port() {
    let filter = CaptureFilter::port(80);
    assert_eq!(filter.as_str(), "port 80");
}

#[test]
fn test_filter_and() {
    let filter = CaptureFilter::tcp().and(CaptureFilter::port(80));
    assert_eq!(filter.as_str(), "(tcp) and (port 80)");
}

#[test]
fn test_filter_or() {
    let filter = CaptureFilter::port(80).or(CaptureFilter::port(443));
    assert_eq!(filter.as_str(), "(port 80) or (port 443)");
}

#[test]
fn filter_not_and_empty() {
    let f = CaptureFilter::udp().not();
    assert_eq!(f.as_str(), "not (udp)");
    assert!(CaptureFilter::all().is_empty());
    assert!(!CaptureFilter::icmp().is_empty());
}

#[test]
fn filter_ipv6_host() {
    let mut o = [0u8; 16];
    o[0] = 0x20;
    o[1] = 0x01;
    o[2] = 0x0d;
    o[3] = 0xb8;
    o[15] = 1;
    let f = CaptureFilter::src_host(IpAddress::V6(o));
    assert_eq!(f.as_str(), "src host 2001:db8::1");
}
