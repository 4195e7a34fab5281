use netdiag::autofix::clock::{epoch_timestamp, now, Timestamp};
use netdiag::capture::filter::CaptureFilter;
use netdiag::cli::{extract_isp_from_hostname, network_path_check};
use netdiag::connectivity::DnsResult;
use netdiag::diagnostics::{run_plan, RunPlan};
use netdiag::integrations::error::IntegrationError;
use netdiag::integrations::shodan::{host_request_check, host_status_error};
use netdiag::net::IpAddress;
use netdiag::path_analyzer::{destination_reached, last_responding_hop, segment_status, HopInfo, SegmentStatus};

#[test]
fn quick_runs_never_test_speed() {
    assert_eq!(run_plan(Some(true), Some(true), None), RunPlan { ping_count: 2, wifi: true, speed: false });
    assert_eq!(run_plan(None, None, None), RunPlan { ping_count: 4, wifi: true, speed: true });
    assert_eq!(run_plan(Some(false), Some(false), Some(false)), RunPlan { ping_count: 4, wifi: false, speed: false });
    assert_eq!(run_plan(Some(true), None, Some(true)).speed, false);
}

#[test]
fn timestamps_around_the_epoch() {
    assert_eq!(epoch_timestamp(Ok((1_700_000_000, 5))), Timestamp { secs: 1_700_000_000, nanos: 5 });
    assert_eq!(epoch_timestamp(Err((10, 0))), Timestamp { secs: -10, nanos: 0 });
    assert_eq!(epoch_timestamp(Err((10, 250_000_000))), Timestamp { secs: -11, nanos: 750_000_000 });
    assert_eq!(epoch_timestamp(Ok((u64::MAX, 0))), Timestamp { secs: i64::MAX, nanos: 0 });
    assert_eq!(epoch_timestamp(Err((u64::MAX, 1))), Timestamp { secs: i64::MIN, nanos: 999_999_999 });
    let t = now();
    assert!(t.nanos < 1_000_000_000);
    assert!(t.secs > 1_500_000_000);
}

#[test]
fn protocol_filters_are_lower_case() {
    assert_eq!(CaptureFilter::protocol("ICMP").as_str(), "icmp");
    assert_eq!(CaptureFilter::protocol("Tcp").as_str(), "tcp");
    assert_eq!(CaptureFilter::tcp().as_str(), "tcp");
    assert_eq!(CaptureFilter::udp().as_str(), "udp");
    assert_eq!(CaptureFilter::icmp().as_str(), "icmp");
}

#[test]
fn isp_names_from_host_names() {
    assert_eq!(extract_isp_from_hostname("po-200-xar01.stockton.ca.ccal.comcast.net"), Some("Comcast".to_string()));
    assert_eq!(extract_isp_from_hostname("be2930.ccr42.lax04.atlas.cogentco.com"), Some("Cogent".to_string()));
    assert_eq!(extract_isp_from_hostname("ae-5.r21.lsanca07.us.bb.gin.ntt.net"), Some("NTT".to_string()));
    assert_eq!(extract_isp_from_hostname("core1.sfo.example.org"), Some("Example".to_string()));
    assert_eq!(extract_isp_from_hostname("AE-1.CR2.COMCAST.NET"), Some("Comcast".to_string()));
    assert_eq!(extract_isp_from_hostname("ab.cd.io"), None);
}

fn hop(n: u8, responsive: bool) -> HopInfo {
    HopInfo { hop_number: n, hostname: None, asn: None, as_name: None, responsive }
}

#[test]
fn trace_outcome_and_segment_status() {
    let hops = vec![hop(1, true), hop(2, true), hop(3, false), hop(4, false)];
    assert!(!destination_reached(&hops));
    assert_eq!(last_responding_hop(&hops), Some(2));
    let hops = vec![hop(1, false), hop(2, true)];
    assert!(destination_reached(&hops));
    assert_eq!(last_responding_hop(&hops), Some(2));
    assert!(!destination_reached(&vec![]));
    assert_eq!(last_responding_hop(&vec![hop(1, false)]), None);

    assert_eq!(segment_status(0, 0, 0), SegmentStatus::Unknown);
    assert_eq!(segment_status(3, 3, 0), SegmentStatus::Down);
    assert_eq!(segment_status(5, 0, 0), SegmentStatus::Healthy);
    assert_eq!(segment_status(5, 1, 0), SegmentStatus::Healthy); // exactly a fifth
    assert_eq!(segment_status(4, 1, 0), SegmentStatus::Degraded);
    assert_eq!(segment_status(3, 2, 2), SegmentStatus::Impaired);
    assert_eq!(segment_status(3, 2, 3), SegmentStatus::Down);
    assert_eq!(segment_status(10, 0, 2), SegmentStatus::Degraded);
}

#[test]
fn path_check_passes_from_sixty() {
    let recs = vec!["Restart the router".to_string()];
    let c = network_path_check("d", 60, &recs);
    assert!(c.passed);
    assert_eq!(c.name, "Network Path Analysis");
    assert!(c.suggestion.is_none());
    let c = network_path_check("d", 59, &recs);
    assert!(!c.passed);
    assert_eq!(c.suggestion.as_deref(), Some("Restart the router"));
    let c = network_path_check("d", 10, &vec![]);
    assert_eq!(c.suggestion.as_deref(), Some("Check network configuration"));
}

#[test]
fn shodan_host_checks() {
    assert!(matches!(host_request_check(false, "1.2.3.4", Some(IpAddress::V4([1, 2, 3, 4]))), Err(IntegrationError::ApiKeyRequired("Shodan"))));
    match host_request_check(true, "nope", None) {
        Err(IntegrationError::InvalidInput(m)) => assert_eq!(m, "Invalid IP address: nope"),
        _ => panic!("expected invalid input"),
    }
    assert!(matches!(host_request_check(true, "1.2.3.4", Some(IpAddress::V4([1, 2, 3, 4]))), Ok(IpAddress::V4([1, 2, 3, 4]))));
    match host_status_error(404, "1.2.3.4", String::new()) {
        IntegrationError::NotFound(m) => assert_eq!(m, "Host not found: 1.2.3.4"),
        _ => panic!("expected not found"),
    }
    assert!(matches!(host_status_error(401, "x", String::new()), IntegrationError::InvalidApiKey("Shodan")));
    assert!(matches!(host_status_error(429, "x", String::new()), IntegrationError::RateLimited("Shodan")));
    match host_status_error(500, "x", "oops".to_string()) {
        IntegrationError::Api(m) => assert_eq!(m, "oops"),
        _ => panic!("expected api error"),
    }
}

#[test]
fn literal_targets_need_no_lookup() {
    let r = DnsResult::for_literal("8.8.8.8", Some(IpAddress::V4([8, 8, 8, 8])), 0).unwrap();
    assert!(r.success);
    assert_eq!(r.query, "8.8.8.8");
    assert_eq!(r.addresses, vec![IpAddress::V4([8, 8, 8, 8])]);
    assert!(DnsResult::for_literal("example.com", None, 0).is_none());
}
