use netdiag::path_analyzer::{
    classify_hop, generate_recommendations, get_latency_remediation, get_packet_loss_remediation,
    guess_service_type, health_score, identify_isp, identify_segments, path_issues, problematic_segment,
    HopInfo, IspServiceType, IssueSeverity, IssueType, LatencyJump, PathIssue, SegmentFinding, SegmentReport,
    SegmentStatus, SegmentType,
};

fn hop(n: u8, hostname: Option<&str>, asn: Option<u32>, as_name: Option<&str>) -> HopInfo {
    HopInfo {
        hop_number: n,
        hostname: hostname.map(|s| s.to_string()),
        asn,
        as_name: as_name.map(|s| s.to_string()),
        responsive: true,
    }
}

fn issue(segment: SegmentType, severity: IssueSeverity, remediation: Option<&str>) -> PathIssue {
    PathIssue {
        segment,
        issue_type: IssueType::Unreachable,
        severity,
        description: "issue".to_string(),
        details: None,
        remediation: remediation.map(|s| s.to_string()),
    }
}

#[test]
fn first_hops_are_local_then_router() {
    let seen = vec![];
    assert_eq!(classify_hop(&hop(1, None, None, None), &seen, SegmentType::Local), SegmentType::Local);
    assert_eq!(classify_hop(&hop(2, None, None, None), &seen, SegmentType::Local), SegmentType::Router);
    assert_eq!(classify_hop(&hop(3, Some("core1.example.net"), None, None), &seen, SegmentType::Router), SegmentType::Router);
}

#[test]
fn backbone_names_win_from_hop_four() {
    let seen = vec![Some(7922)];
    let h = hop(8, Some("ae-5.CORE1.example.net"), Some(7922), None);
    assert_eq!(classify_hop(&h, &seen, SegmentType::Isp), SegmentType::Backbone);
    let h = hop(9, Some("ix-exchange.example.net"), None, None);
    assert_eq!(classify_hop(&h, &seen, SegmentType::Isp), SegmentType::Backbone);
}

#[test]
fn named_early_hop_in_known_network_is_isp() {
    let seen = vec![Some(7922), Some(3356)];
    let h = hop(5, Some("edge.example.net"), Some(7922), None);
    assert_eq!(classify_hop(&h, &seen, SegmentType::Backbone), SegmentType::Isp);
}

#[test]
fn as_numbers_decide_later_hops() {
    // fewer than two networks seen: the ISP
    assert_eq!(classify_hop(&hop(7, None, Some(1), None), &vec![], SegmentType::Router), SegmentType::Isp);
    // two seen: a new network is transit, a known one keeps the segment
    let two = vec![Some(1), Some(2)];
    assert_eq!(classify_hop(&hop(7, None, Some(3), None), &two, SegmentType::Isp), SegmentType::Backbone);
    assert_eq!(classify_hop(&hop(7, None, Some(2), None), &two, SegmentType::Isp), SegmentType::Isp);
    assert_eq!(classify_hop(&hop(7, None, None, None), &two, SegmentType::Backbone), SegmentType::Backbone);
    // three or more seen: a new network is the destination
    let three = vec![Some(1), Some(2), Some(3)];
    assert_eq!(classify_hop(&hop(12, None, Some(4), None), &three, SegmentType::Backbone), SegmentType::Destination);
    assert_eq!(classify_hop(&hop(12, None, Some(3), None), &three, SegmentType::Backbone), SegmentType::Backbone);
}

#[test]
fn segments_of_a_path() {
    let hops = vec![
        hop(1, Some("router.lan"), None, None),
        hop(2, None, None, None),
        hop(3, None, Some(100), Some("Example Cable")),
        hop(4, Some("edge1.isp.net"), Some(100), None),
        hop(7, None, Some(200), None),
        hop(8, None, Some(300), None),
        hop(9, None, Some(400), None),
        hop(10, None, Some(400), None),
    ];
    let segs = identify_segments(&hops);
    assert_eq!(
        segs,
        vec![
            SegmentType::Local,
            SegmentType::Router,
            SegmentType::Router,
            SegmentType::Isp,
            SegmentType::Isp,
            SegmentType::Backbone,
            SegmentType::Destination,
            SegmentType::Destination,
        ]
    );
    assert!(identify_segments(&vec![]).is_empty());
}

#[test]
fn service_type_from_name() {
    assert_eq!(guess_service_type("Verizon FiOS"), IspServiceType::Fiber);
    assert_eq!(guess_service_type("COMCAST-7922"), IspServiceType::Cable);
    assert_eq!(guess_service_type("AT&T Services"), IspServiceType::Dsl);
    assert_eq!(guess_service_type("Rural WISP"), IspServiceType::Wireless);
    assert_eq!(guess_service_type("SpaceX Starlink"), IspServiceType::Satellite);
    assert_eq!(guess_service_type("T-Mobile USA"), IspServiceType::Cellular);
    assert_eq!(guess_service_type("Example Transit"), IspServiceType::Unknown);
    // earlier kinds win: "verizon fios" is fiber, not cellular
    assert_eq!(guess_service_type("verizon fios"), IspServiceType::Fiber);
}

#[test]
fn isp_is_first_named_network_past_the_router() {
    let hops = vec![
        hop(1, None, Some(1), Some("Home Gateway")),
        hop(2, None, Some(2), Some("Skipped Cable")),
        hop(3, None, Some(7922), None),
        hop(4, None, Some(7922), Some("Comcast Cable")),
        hop(5, None, Some(3356), Some("Level3")),
    ];
    let isp = identify_isp(&hops).unwrap();
    assert_eq!(isp.name, "Comcast Cable");
    assert_eq!(isp.asn, Some(7922));
    assert_eq!(isp.service_type, IspServiceType::Cable);

    let early_only = vec![hop(1, None, Some(1), Some("A")), hop(2, None, Some(2), Some("B"))];
    assert!(identify_isp(&early_only).is_none());
}

#[test]
fn remediation_texts() {
    assert_eq!(get_latency_remediation(SegmentType::Router), "Restart router, check for firmware updates");
    assert_eq!(get_latency_remediation(SegmentType::Unknown), "Unable to determine cause of latency");
    assert_eq!(
        get_packet_loss_remediation(SegmentType::Isp),
        "Contact ISP; packet loss at ISP level requires provider intervention"
    );
    assert_eq!(
        get_packet_loss_remediation(SegmentType::Backbone),
        "Transit network issues; usually resolve automatically"
    );
}

#[test]
fn score_deducts_per_issue_and_stops_at_zero() {
    assert_eq!(health_score(&vec![]), 100);
    let issues = vec![
        issue(SegmentType::Local, IssueSeverity::Info, None),
        issue(SegmentType::Isp, IssueSeverity::Warning, None),
        issue(SegmentType::Isp, IssueSeverity::Error, None),
    ];
    assert_eq!(health_score(&issues), 63);
    let issues = vec![
        issue(SegmentType::Destination, IssueSeverity::Critical, None),
        issue(SegmentType::Destination, IssueSeverity::Critical, None),
        issue(SegmentType::Destination, IssueSeverity::Critical, None),
    ];
    assert_eq!(health_score(&issues), 0);
}

#[test]
fn first_troubled_segment() {
    assert_eq!(problematic_segment(SegmentStatus::Healthy, SegmentStatus::Degraded, SegmentStatus::Impaired, SegmentStatus::Down, SegmentStatus::Healthy), Some(SegmentType::Isp));
    assert_eq!(problematic_segment(SegmentStatus::Down, SegmentStatus::Impaired, SegmentStatus::Healthy, SegmentStatus::Healthy, SegmentStatus::Healthy), Some(SegmentType::Local));
    assert_eq!(problematic_segment(SegmentStatus::Healthy, SegmentStatus::Healthy, SegmentStatus::Healthy, SegmentStatus::Healthy, SegmentStatus::Down), Some(SegmentType::Destination));
    assert_eq!(problematic_segment(SegmentStatus::Healthy, SegmentStatus::Degraded, SegmentStatus::Unknown, SegmentStatus::Degraded, SegmentStatus::Healthy), None);
}

#[test]
fn recommendations_follow_issues() {
    assert_eq!(generate_recommendations(&vec![]), vec!["No specific actions required at this time".to_string()]);
    let issues = vec![
        issue(SegmentType::Router, IssueSeverity::Warning, Some("ignored: not critical")),
        issue(SegmentType::Destination, IssueSeverity::Critical, Some("Destination may be blocking ICMP or experiencing an outage")),
        issue(SegmentType::Local, IssueSeverity::Critical, Some("Check physical connectivity and network configuration")),
        issue(SegmentType::Isp, IssueSeverity::Critical, Some("Check physical connectivity and network configuration")),
        issue(SegmentType::Unknown, IssueSeverity::Error, None),
    ];
    assert_eq!(
        generate_recommendations(&issues),
        vec![
            "Check local network: restart router, verify WiFi signal, check for interference".to_string(),
            "Contact your ISP: report connectivity issues and request a line test".to_string(),
            "Destination issue: check if the service has reported outages".to_string(),
            "Destination may be blocking ICMP or experiencing an outage".to_string(),
            "Check physical connectivity and network configuration".to_string(),
        ]
    );
    let spike_only = vec![issue(SegmentType::Unknown, IssueSeverity::Warning, None)];
    assert_eq!(generate_recommendations(&spike_only), vec!["No specific actions required at this time".to_string()]);
}

#[test]
fn another_issue_never_raises_the_score() {
    let mut issues = vec![issue(SegmentType::Isp, IssueSeverity::Warning, None)];
    let before = health_score(&issues);
    issues.push(issue(SegmentType::Isp, IssueSeverity::Info, None));
    let after = health_score(&issues);
    assert_eq!((before, after), (90, 88));
    assert!(after <= before);
}

fn seg(segment: SegmentType, latency: Option<(bool, &str)>, loss: Option<(bool, &str)>, status: SegmentStatus) -> SegmentReport {
    SegmentReport {
        segment,
        high_latency: latency.map(|(severe, d)| SegmentFinding { severe, description: d.to_string() }),
        packet_loss: loss.map(|(severe, d)| SegmentFinding { severe, description: d.to_string() }),
        status,
    }
}

#[test]
fn issues_of_a_path() {
    let segments = vec![
        seg(SegmentType::Local, None, None, SegmentStatus::Healthy),
        seg(SegmentType::Isp, Some((true, "ISP segment contributing 250.0ms (80.0% of total latency)")), Some((false, "2.0% packet loss in ISP segment")), SegmentStatus::Degraded),
        seg(SegmentType::Backbone, None, None, SegmentStatus::Down),
    ];
    let jumps = vec![
        LatencyJump { hop: 7, diff_ms: 120, name: "core.example.net".to_string(), as_name: Some("Example".to_string()) },
        LatencyJump { hop: 9, diff_ms: 60, name: "unknown".to_string(), as_name: None },
    ];
    let issues = path_issues(&segments, &jumps, false, Some(9));
    let kinds: Vec<(SegmentType, IssueType, IssueSeverity)> = issues.iter().map(|i| (i.segment, i.issue_type, i.severity)).collect();
    assert_eq!(
        kinds,
        vec![
            (SegmentType::Isp, IssueType::HighLatency, IssueSeverity::Error),
            (SegmentType::Isp, IssueType::PacketLoss, IssueSeverity::Warning),
            (SegmentType::Backbone, IssueType::Unreachable, IssueSeverity::Critical),
            (SegmentType::Unknown, IssueType::LatencySpike, IssueSeverity::Error),
            (SegmentType::Unknown, IssueType::LatencySpike, IssueSeverity::Warning),
            (SegmentType::Destination, IssueType::Unreachable, IssueSeverity::Critical),
        ]
    );
    assert_eq!(issues[0].remediation.as_deref(), Some("Contact ISP about high latency; check for local outages"));
    assert_eq!(issues[1].remediation.as_deref(), Some("Contact ISP; packet loss at ISP level requires provider intervention"));
    assert_eq!(issues[2].description, "Backbone segment is unreachable");
    assert_eq!(issues[2].remediation.as_deref(), Some("Check physical connectivity and network configuration"));
    assert_eq!(issues[3].description, "Latency spike of 120ms at hop 7 (core.example.net)");
    assert_eq!(issues[3].details.as_deref(), Some("Example"));
    assert!(issues[3].remediation.is_none());
    assert_eq!(issues[5].description, "Destination unreachable");
    assert_eq!(issues[5].details.as_deref(), Some("Last responding hop: hop 9"));
    assert_eq!(issues[5].remediation.as_deref(), Some("Destination may be blocking ICMP or experiencing an outage"));

    let none = path_issues(&vec![], &vec![], false, None);
    assert_eq!(none.len(), 1);
    assert_eq!(none[0].details.as_deref(), Some("Last responding hop: none"));
    assert!(path_issues(&segments[..1].iter().map(|s| seg(s.segment, None, None, s.status)).collect(), &vec![], true, None).is_empty());
}
