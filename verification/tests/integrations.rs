use netdiag::integrations::bgp::{
    as_path_result, asn_result, peers_result, prefixes_result, route_result, BgpViewAsn, BgpViewAsnPeers,
    BgpViewAsnPrefixes, BgpViewAsnShort, BgpViewParent, BgpViewPeer, BgpViewPrefix, BgpViewPrefixShort,
    BgpViewResponse, BgpViewRirAllocation, RipeStatLookingGlass, RipeStatLookingGlassData, RipeStatPeer, RipeStatRrc,
};
use netdiag::integrations::config::IntegrationConfig;
use netdiag::integrations::error::{lookup_status_error, message_with, HttpReply, IntegrationError};
use netdiag::integrations::ipinfo::{asn_lookup_result, asn_number, AsnInfo, AsnInfoResponse, AsnPrefix};
use netdiag::integrations::registry::{
    query_result, query_url, registry_order, ripe_stat_result, vcard_lookup, whois_failure, whois_step, JsonItem,
    RdapEntity, RdapEvent, RdapRemark, RdapResponse, RegistryType, RipeStatData, RipeStatRecord, RipeStatResponse,
    WhoisInfo, WhoisStep,
};
use netdiag::integrations::shodan::{
    info_result as shodan_info_result, search_status_error, ShodanApiInfo, ShodanHttpInfo, ShodanService,
    ShodanServiceResponse, ShodanUsageLimits,
};
use netdiag::integrations::ssllabs::{
    cached_result, handle_response, info_result, SslAnalysis, SslEndpoint, SslGrade, SslLabsCert, SslLabsDetails,
    SslLabsEndpoint, SslLabsHstsPolicy, SslLabsInfo, SslLabsProtocol, SslLabsResponse,
};

fn text(s: &str) -> JsonItem {
    JsonItem::Text(s.to_string())
}

fn details(beast: bool, heartbleed: bool, ccs: Option<i32>, hsts: &str) -> SslLabsDetails {
    SslLabsDetails {
        protocols: vec![
            SslLabsProtocol { name: "TLS".to_string(), version: "1.2".to_string() },
            SslLabsProtocol { name: "TLS".to_string(), version: "1.3".to_string() },
        ],
        vuln_beast: Some(beast),
        heartbleed: Some(heartbleed),
        poodle: None,
        freak: Some(false),
        logjam: None,
        openssl_ccs: ccs,
        hsts_policy: Some(SslLabsHstsPolicy { status: Some(hsts.to_string()), preload: Some(true) }),
        cert: Some(SslLabsCert {
            subject: Some("CN=example.com".to_string()),
            issuer: Some("R3".to_string()),
            not_after: Some(1_800_000_000_000),
            key_alg: Some("EC".to_string()),
            key_size: Some(256),
        }),
    }
}

fn endpoint(ip: &str, grade: &str, d: Option<SslLabsDetails>) -> SslLabsEndpoint {
    SslLabsEndpoint {
        ip_address: ip.to_string(),
        server_name: None,
        grade: Some(grade.to_string()),
        has_warnings: Some(true),
        details: d,
    }
}

fn report(status: &str, endpoints: Vec<SslLabsEndpoint>) -> SslLabsResponse {
    SslLabsResponse {
        host: "example.com".to_string(),
        port: 443,
        status: status.to_string(),
        status_message: None,
        test_time: Some(5),
        engine_version: Some("2.3".to_string()),
        endpoints,
    }
}

#[test]
fn ssl_grades() {
    assert_eq!(SslGrade::from_str("A+"), Some(SslGrade::APlus));
    assert_eq!(SslGrade::from_str("A-"), Some(SslGrade::AMinus));
    assert_eq!(SslGrade::from_str("T"), Some(SslGrade::T));
    assert_eq!(SslGrade::from_str("a"), None);
    assert_eq!(SslGrade::from_str(""), None);
    for g in [SslGrade::APlus, SslGrade::A, SslGrade::AMinus, SslGrade::B, SslGrade::C, SslGrade::M] {
        assert_eq!(SslGrade::from_str(g.as_str()), Some(g));
    }
    assert!(SslGrade::B.is_passing());
    assert!(!SslGrade::C.is_passing());
    assert!(!SslGrade::T.is_passing());
}

#[test]
fn ssl_endpoint_from_report() {
    let e = SslEndpoint::from(endpoint("1.2.3.4", "A", Some(details(true, true, Some(2), "present"))));
    assert_eq!(e.grade, Some(SslGrade::A));
    assert!(e.has_warnings);
    assert_eq!(e.protocols, vec!["TLS 1.2".to_string(), "TLS 1.3".to_string()]);
    assert_eq!(e.vulnerabilities, vec!["BEAST".to_string(), "Heartbleed".to_string(), "OpenSSL CCS".to_string()]);
    assert!(e.hsts_enabled);
    assert!(e.hsts_preload);
    assert_eq!(e.cert_issuer.as_deref(), Some("R3"));
    assert_eq!(e.key_size, Some(256));
    let bare = SslEndpoint::from(endpoint("5.6.7.8", "X", None));
    assert_eq!(bare.grade, None);
    assert!(bare.vulnerabilities.is_empty());
    assert!(!bare.hsts_enabled);
}

#[test]
fn ssl_analysis_merges_vulnerabilities() {
    let r = report(
        "READY",
        vec![
            endpoint("1.2.3.4", "B", Some(details(true, false, Some(0), "absent"))),
            endpoint("5.6.7.8", "A", Some(details(true, true, Some(1), "present"))),
        ],
    );
    let a = SslAnalysis::from(r);
    assert_eq!(a.grade, Some(SslGrade::B));
    assert!(a.hsts_enabled);
    assert_eq!(a.endpoints.len(), 2);
    // Sorted, without duplicates.
    assert_eq!(a.vulnerabilities, vec!["BEAST".to_string(), "Heartbleed".to_string(), "OpenSSL CCS".to_string()]);
}

#[test]
fn ssl_reply_handling() {
    let ok = handle_response(HttpReply::Parsed(report("READY", vec![]))).unwrap();
    assert_eq!(ok.host, "example.com");
    assert_eq!(ok.grade, None);
    assert!(matches!(
        handle_response(HttpReply::Parsed(report("IN_PROGRESS", vec![]))),
        Err(IntegrationError::AnalysisInProgress)
    ));
    assert!(matches!(handle_response(HttpReply::Parsed(report("DNS", vec![]))), Err(IntegrationError::AnalysisInProgress)));
    match handle_response(HttpReply::Parsed(report("ERROR", vec![]))) {
        Err(IntegrationError::Api(m)) => assert_eq!(m, "Unknown error"),
        other => panic!("unexpected {:?}", other),
    }
    match handle_response(HttpReply::Parsed(report("WEIRD", vec![]))) {
        Err(IntegrationError::Api(m)) => assert_eq!(m, "Unknown status: WEIRD"),
        other => panic!("unexpected {:?}", other),
    }
    assert!(matches!(handle_response(HttpReply::Status(429, String::new())), Err(IntegrationError::RateLimited("SSL Labs"))));
    match handle_response(HttpReply::Status(503, String::new())) {
        Err(IntegrationError::ServiceUnavailable(m)) => assert_eq!(m, "SSL Labs"),
        other => panic!("unexpected {:?}", other),
    }
    match handle_response(HttpReply::Status(500, "boom".to_string())) {
        Err(IntegrationError::Api(m)) => assert_eq!(m, "boom"),
        other => panic!("unexpected {:?}", other),
    }
    match handle_response(HttpReply::Unparsable("bad json".to_string())) {
        Err(IntegrationError::Http(m)) => assert_eq!(m, "bad json"),
        other => panic!("unexpected {:?}", other),
    }
    assert!(matches!(cached_result(HttpReply::Parsed(report("IN_PROGRESS", vec![]))), Ok(None)));
    assert!(matches!(cached_result(HttpReply::Parsed(report("READY", vec![]))), Ok(Some(_))));
    assert!(matches!(cached_result(HttpReply::Status(429, String::new())), Err(IntegrationError::RateLimited(_))));
    let info = SslLabsInfo {
        engine_version: "2.3".to_string(),
        criteria_version: "2009q".to_string(),
        max_assessments: 25,
        current_assessments: 0,
    };
    assert_eq!(info_result(HttpReply::Parsed(info)).unwrap().max_assessments, 25);
}

#[test]
fn registry_urls() {
    assert_eq!(query_url(RegistryType::Ripe, "AS13335"), "https://rdap.db.ripe.net/autnum/13335");
    assert_eq!(query_url(RegistryType::Arin, "13335"), "https://rdap.arin.net/registry/autnum/13335");
    assert_eq!(query_url(RegistryType::Apnic, "1.1.1.1"), "https://rdap.apnic.net/ip/1.1.1.1");
    assert_eq!(query_url(RegistryType::Lacnic, "ASAS7"), "https://rdap.lacnic.net/rdap/autnum/7");
    assert_eq!(RegistryType::Afrinic.name(), "AFRINIC");
    assert_eq!(RegistryType::Ripe.api_url(), "https://rdap.db.ripe.net");
    assert_eq!(
        registry_order(),
        vec![RegistryType::Arin, RegistryType::Ripe, RegistryType::Apnic, RegistryType::Lacnic, RegistryType::Afrinic]
    );
}

fn vcard(entries: Vec<(&str, &str)>) -> Option<JsonItem> {
    let props = entries
        .into_iter()
        .map(|(k, v)| JsonItem::List(vec![text(k), JsonItem::Other, text("text"), text(v)]))
        .collect();
    Some(JsonItem::List(vec![text("vcard"), JsonItem::List(props)]))
}

#[test]
fn vcard_fields() {
    let v = vcard(vec![("version", "4.0"), ("fn", "Example Org"), ("email", "abuse@example.com")]);
    assert_eq!(vcard_lookup(&v, "fn").as_deref(), Some("Example Org"));
    assert_eq!(vcard_lookup(&v, "email").as_deref(), Some("abuse@example.com"));
    assert_eq!(vcard_lookup(&v, "tel"), None);
    assert_eq!(vcard_lookup(&None, "fn"), None);
    assert_eq!(vcard_lookup(&Some(text("vcard")), "fn"), None);
    // The first element is the "vcard" marker, never searched.
    let marker_only = Some(JsonItem::List(vec![JsonItem::List(vec![text("fn"), text("x")])]));
    assert_eq!(vcard_lookup(&marker_only, "fn"), None);
}

fn rdap() -> RdapResponse {
    RdapResponse {
        handle: Some("NET-1".to_string()),
        start_address: Some("1.1.1.0".to_string()),
        end_address: Some("1.1.1.255".to_string()),
        ip_version: Some("v4".to_string()),
        name: Some("APNIC-LABS".to_string()),
        network_type: Some("ASSIGNED PORTABLE".to_string()),
        country: Some("AU".to_string()),
        entities: vec![
            RdapEntity { roles: vec!["registrant".to_string()], vcard_array: vcard(vec![("fn", "Org One")]) },
            RdapEntity {
                roles: vec!["abuse".to_string(), "technical".to_string()],
                vcard_array: vcard(vec![("email", "noc@example.net")]),
            },
        ],
        remarks: vec![
            RdapRemark { description: Some(vec!["line one".to_string(), "line two".to_string()]) },
            RdapRemark { description: None },
            RdapRemark { description: Some(vec!["line three".to_string()]) },
        ],
        events: vec![
            RdapEvent { event_action: Some("registration".to_string()), event_date: Some("2011-08-10".to_string()) },
            RdapEvent { event_action: Some("last changed".to_string()), event_date: Some("2023-04-26".to_string()) },
        ],
    }
}

#[test]
fn whois_from_rdap() {
    let w = WhoisInfo::from_rdap(rdap(), RegistryType::Apnic);
    assert_eq!(w.registry, RegistryType::Apnic);
    assert_eq!(w.organization.as_deref(), Some("Org One"));
    assert_eq!(w.abuse_email.as_deref(), Some("noc@example.net"));
    assert_eq!(w.tech_email.as_deref(), Some("noc@example.net"));
    assert_eq!(w.registration_date.as_deref(), Some("2011-08-10"));
    assert_eq!(w.last_changed.as_deref(), Some("2023-04-26"));
    assert_eq!(w.remarks, vec!["line one".to_string(), "line two".to_string(), "line three".to_string()]);
    assert_eq!(w.country.as_deref(), Some("AU"));
}

#[test]
fn whois_replies() {
    assert!(matches!(query_result(RegistryType::Arin, "1.1.1.1", HttpReply::Parsed(rdap())), Ok(_)));
    match query_result(RegistryType::Arin, "1.1.1.1", HttpReply::Status(404, String::new())) {
        Err(IntegrationError::NotFound(q)) => assert_eq!(q, "1.1.1.1"),
        other => panic!("unexpected {:?}", other),
    }
    match whois_step("1.1.1.1", Err(IntegrationError::NotFound("x".to_string()))) {
        WhoisStep::Next(IntegrationError::NotFound(q)) => assert_eq!(q, "1.1.1.1"),
        other => panic!("unexpected {:?}", other),
    }
    assert!(matches!(whois_step("q", Err(IntegrationError::Timeout)), WhoisStep::Next(IntegrationError::Timeout)));
    match whois_failure(None, "8.8.8.8") {
        IntegrationError::NotFound(q) => assert_eq!(q, "8.8.8.8"),
        other => panic!("unexpected {:?}", other),
    }
    assert!(matches!(whois_failure(Some(IntegrationError::Timeout), "q"), IntegrationError::Timeout));
    let ripe = RipeStatResponse {
        data: RipeStatData {
            records: vec![
                vec![RipeStatRecord { key: "inetnum".to_string(), value: "1.1.1.0 - 1.1.1.255".to_string() }],
                vec![],
                vec![
                    RipeStatRecord { key: "netname".to_string(), value: "X".to_string() },
                    RipeStatRecord { key: "country".to_string(), value: "AU".to_string() },
                ],
            ],
        },
    };
    let info = ripe_stat_result(HttpReply::Parsed(ripe)).unwrap();
    assert_eq!(info.records.len(), 3);
    assert_eq!(info.records[2], ("country".to_string(), "AU".to_string()));
}

fn prefix_data() -> BgpViewPrefix {
    BgpViewPrefix {
        prefix: "1.1.1.0/24".to_string(),
        ip: "1.1.1.0".to_string(),
        cidr: 24,
        asns: vec![
            BgpViewAsnShort { asn: 13335, name: Some("CLOUDFLARENET".to_string()) },
            BgpViewAsnShort { asn: 4, name: None },
        ],
        name: Some("APNIC-LABS".to_string()),
        description_short: Some("APNIC and Cloudflare".to_string()),
        country_code: Some("AU".to_string()),
        parent: Some(BgpViewParent { prefix: Some("1.1.0.0/16".to_string()) }),
        rir_allocation: Some(BgpViewRirAllocation {
            rir_name: Some("APNIC".to_string()),
            date_allocated: Some("2011-08-11".to_string()),
        }),
        date_updated: None,
    }
}

#[test]
fn bgp_route_and_asn() {
    let ok = BgpViewResponse { status: "ok".to_string(), data: prefix_data() };
    let r = route_result("1.1.1.0/24", HttpReply::Parsed(ok)).unwrap();
    assert_eq!(r.origin_asns, vec![13335, 4]);
    assert_eq!(r.origin_names, vec!["CLOUDFLARENET".to_string()]);
    assert_eq!(r.parent_prefix.as_deref(), Some("1.1.0.0/16"));
    assert_eq!(r.rir_name.as_deref(), Some("APNIC"));
    assert_eq!(r.allocation_date.as_deref(), Some("2011-08-11"));
    let bad = BgpViewResponse { status: "error".to_string(), data: prefix_data() };
    match route_result("1.1.1.0/24", HttpReply::Parsed(bad)) {
        Err(IntegrationError::NotFound(m)) => assert_eq!(m, "1.1.1.0/24"),
        other => panic!("unexpected {:?}", other),
    }
    let asn = BgpViewAsn {
        asn: 13335,
        name: Some("CLOUDFLARENET".to_string()),
        description_short: None,
        description_full: None,
        country_code: Some("US".to_string()),
        website: None,
        email_contacts: Some(vec!["a@b".to_string()]),
        abuse_contacts: None,
        looking_glass: None,
        traffic_estimation: None,
        traffic_ratio: None,
        owner_address: None,
        rir_allocation: None,
        date_updated: None,
    };
    let b = asn_result(13335, HttpReply::Parsed(BgpViewResponse { status: "ok".to_string(), data: asn })).unwrap();
    assert_eq!(b.email_contacts, vec!["a@b".to_string()]);
    assert!(b.description_full.is_empty());
    match asn_result(64500, HttpReply::Status(404, String::new())) {
        Err(IntegrationError::NotFound(m)) => assert_eq!(m, "AS64500"),
        other => panic!("unexpected {:?}", other),
    }
}

#[test]
fn bgp_prefixes_peers_paths() {
    let d = BgpViewAsnPrefixes {
        ipv4_prefixes: vec![BgpViewPrefixShort { prefix: "1.1.1.0/24".to_string() }],
        ipv6_prefixes: vec![BgpViewPrefixShort { prefix: "2606:4700::/32".to_string() }],
    };
    let v = prefixes_result(13335, HttpReply::Parsed(BgpViewResponse { status: "ok".to_string(), data: d })).unwrap();
    assert_eq!(v, vec!["1.1.1.0/24".to_string(), "2606:4700::/32".to_string()]);
    let peers = BgpViewAsnPeers {
        ipv4_peers: vec![BgpViewPeer { asn: 1, name: None, description: None, country_code: None }],
        ipv6_peers: vec![BgpViewPeer { asn: 2, name: Some("two".to_string()), description: None, country_code: None }],
    };
    let p = peers_result(13335, HttpReply::Parsed(BgpViewResponse { status: "ok".to_string(), data: peers })).unwrap();
    assert_eq!(p.len(), 2);
    assert_eq!(p[1].asn, 2);
    assert_eq!(p[1].name.as_deref(), Some("two"));
    let lg = RipeStatLookingGlass {
        data: RipeStatLookingGlassData {
            rrcs: vec![RipeStatRrc {
                rrc: "RRC00".to_string(),
                peers: vec![RipeStatPeer {
                    asn_origin: 3333,
                    as_path: "1 2  3".to_string(),
                    prefix: "1.1.1.0/24".to_string(),
                    origin: Some("IGP".to_string()),
                }],
            }],
        },
    };
    let paths = as_path_result(HttpReply::Parsed(lg)).unwrap();
    assert_eq!(paths.len(), 1);
    assert_eq!(paths[0].collector, "RRC00");
    assert_eq!(paths[0].as_path, vec!["1".to_string(), "2".to_string(), "".to_string(), "3".to_string()]);
    match as_path_result(HttpReply::Status(500, "down".to_string())) {
        Err(IntegrationError::Api(m)) => assert_eq!(m, "down"),
        other => panic!("unexpected {:?}", other),
    }
}

#[test]
fn ipinfo_asn() {
    assert_eq!(asn_number("AS13335"), Some(13335));
    assert_eq!(asn_number("13335"), Some(13335));
    assert_eq!(asn_number("+5"), Some(5));
    assert_eq!(asn_number("AS"), None);
    assert_eq!(asn_number("AS12x"), None);
    assert_eq!(asn_number("4294967295"), Some(4294967295));
    assert_eq!(asn_number("4294967296"), None);
    let resp = AsnInfoResponse {
        asn: "AS13335".to_string(),
        name: "Cloudflare, Inc.".to_string(),
        country: Some("US".to_string()),
        allocated: None,
        registry: Some("arin".to_string()),
        domain: None,
        num_ips: Some(100),
        asn_type: None,
        prefixes: Some(vec![AsnPrefix { netblock: "1.1.1.0/24".to_string() }]),
        prefixes6: None,
        peers: Some(vec!["174".to_string()]),
        upstreams: None,
        downstreams: None,
    };
    let a = AsnInfo::from(resp);
    assert_eq!(a.asn, 13335);
    assert_eq!(a.prefixes, vec!["1.1.1.0/24".to_string()]);
    assert!(a.prefixes6.is_empty());
    assert_eq!(a.peers, vec!["174".to_string()]);
    match asn_lookup_result(64500, HttpReply::Status(404, String::new())) {
        Err(IntegrationError::NotFound(m)) => assert_eq!(m, "ASN not found: AS64500"),
        other => panic!("unexpected {:?}", other),
    }
    assert!(matches!(asn_lookup_result(1, HttpReply::Status(401, String::new())), Err(IntegrationError::InvalidApiKey(_))));
    assert!(matches!(asn_lookup_result(1, HttpReply::Status(429, String::new())), Err(IntegrationError::RateLimited(_))));
}

#[test]
fn shodan_service_banner() {
    let long = "x".repeat(250);
    let r = ShodanServiceResponse {
        port: 22,
        transport: Some("tcp".to_string()),
        product: Some("OpenSSH".to_string()),
        version: None,
        ssl_info: None,
        http: Some(ShodanHttpInfo { title: Some("t".to_string()), server: None, status: Some(200) }),
        data: Some(long),
        timestamp: None,
    };
    let s = ShodanService::from(r);
    let b = s.banner.unwrap();
    assert_eq!(b.len(), 203);
    assert!(b.ends_with("..."));
    assert_eq!(s.http_status, Some(200));
    assert!(s.ssl_versions.is_empty());
    let short = ShodanServiceResponse {
        port: 80,
        transport: None,
        product: None,
        version: None,
        ssl_info: None,
        http: None,
        data: Some("hello".to_string()),
        timestamp: None,
    };
    assert_eq!(ShodanService::from(short).banner.as_deref(), Some("hello"));
}

fn banner_of(data: String) -> String {
    let r = ShodanServiceResponse {
        port: 80,
        transport: None,
        product: None,
        version: None,
        ssl_info: None,
        http: None,
        data: Some(data),
        timestamp: None,
    };
    ShodanService::from(r).banner.unwrap()
}

#[test]
fn shodan_banner_counts_characters() {
    // 150 two-byte characters: 300 bytes, kept whole
    let wide = "é".repeat(150);
    assert_eq!(banner_of(wide.clone()), wide);
    // 201 two-byte characters: cut after 200 characters
    let cut = banner_of("é".repeat(201));
    assert_eq!(cut, format!("{}...", "é".repeat(200)));
    assert_eq!(cut.chars().count(), 203);
    // exactly 200 characters: kept whole
    assert_eq!(banner_of("a".repeat(200)), "a".repeat(200));
}

#[test]
fn shodan_errors() {
    assert!(matches!(search_status_error(401, String::new()), IntegrationError::InvalidApiKey("Shodan")));
    assert!(matches!(search_status_error(429, String::new()), IntegrationError::RateLimited("Shodan")));
    match search_status_error(500, "oops".to_string()) {
        IntegrationError::Api(m) => assert_eq!(m, "oops"),
        other => panic!("unexpected {:?}", other),
    }
    let info = ShodanApiInfo {
        query_credits: 1,
        scan_credits: 2,
        plan: "dev".to_string(),
        usage_limits: ShodanUsageLimits { scan_credits: 3, query_credits: 4, monitored_ips: 5 },
    };
    assert_eq!(shodan_info_result(HttpReply::Parsed(info)).unwrap().plan, "dev");
    assert!(matches!(shodan_info_result(HttpReply::Status(401, String::new())), Err(IntegrationError::InvalidApiKey(_))));
}

#[test]
fn integration_errors_and_config() {
    assert!(matches!(
        lookup_status_error(401, String::new(), "IPinfo", "n".to_string()),
        IntegrationError::InvalidApiKey("IPinfo")
    ));
    match lookup_status_error(404, String::new(), "IPinfo", "gone".to_string()) {
        IntegrationError::NotFound(m) => assert_eq!(m, "gone"),
        other => panic!("unexpected {:?}", other),
    }
    match lookup_status_error(502, "bad gateway".to_string(), "IPinfo", "gone".to_string()) {
        IntegrationError::Api(m) => assert_eq!(m, "bad gateway"),
        other => panic!("unexpected {:?}", other),
    }
    assert_eq!(message_with("Invalid IP: ", "x.y"), "Invalid IP: x.y");
    let c = IntegrationConfig::new().with_ipinfo_key("k".to_string()).with_timeout(5);
    assert_eq!(c.ipinfo_api_key.as_deref(), Some("k"));
    assert_eq!(c.timeout_secs, 5);
    assert!(c.enable_cache);
    assert!(c.shodan_api_key.is_none());
    let d = IntegrationConfig::default();
    assert_eq!(d.timeout_secs, 0);
    assert!(!d.enable_cache);
    assert_eq!(IntegrationConfig::new().with_shodan_key("s".to_string()).shodan_api_key.as_deref(), Some("s"));
}
