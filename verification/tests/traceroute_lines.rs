use netdiag::net::IpAddress;
use netdiag::traceroute::{parse_hop_line, words};

type Addrs = Vec<(Option<IpAddress>, Option<IpAddress>)>;

/// Word addresses for a line: only the listed words name an address.
fn addresses(n: usize, whole: &[(usize, [u8; 4])], inner: &[(usize, [u8; 4])]) -> Addrs {
    let mut v: Addrs = vec![(None, None); n];
    for (i, o) in whole {
        v[*i].0 = Some(IpAddress::V4(*o));
    }
    for (i, o) in inner {
        v[*i].1 = Some(IpAddress::V4(*o));
    }
    v
}

#[test]
fn test_parse_hop_line() {
    // Test normal hop
    let line = "1  router.local (192.168.1.1)  1.234 ms  1.567 ms  1.890 ms";
    let ws = words(line);
    assert_eq!(ws, vec!["1", "router.local", "(192.168.1.1)", "1.234", "ms", "1.567", "ms", "1.890", "ms"]);
    let ads = addresses(ws.len(), &[], &[(2, [192, 168, 1, 1])]);
    let hop = parse_hop_line(&ws, &ads, 3).unwrap();
    assert_eq!(hop.hop, 1);
    assert_eq!(hop.address, Some(IpAddress::V4([192, 168, 1, 1])));
    assert_eq!(hop.hostname, Some("router.local".to_string()));
    assert!(!hop.all_timeout);
    assert_eq!(
        hop.rtt_tokens,
        vec![Some("1.234".to_string()), Some("1.567".to_string()), Some("1.890".to_string())]
    );

    // Test timeout hop
    let line = "5  * * *";
    let ws = words(line);
    let ads = addresses(ws.len(), &[], &[]);
    let hop = parse_hop_line(&ws, &ads, 3).unwrap();
    assert_eq!(hop.hop, 5);
    assert!(hop.all_timeout);
    assert_eq!(hop.rtt_tokens, vec![None, None, None]);
}

#[test]
fn hop_lines_of_other_shapes() {
    // a bare address, joined times, a timed-out probe in between
    let ws = words("\t7 10.0.0.1 12.5ms * 13ms\n");
    assert_eq!(ws, vec!["7", "10.0.0.1", "12.5ms", "*", "13ms"]);
    let ads = addresses(ws.len(), &[(1, [10, 0, 0, 1])], &[]);
    let hop = parse_hop_line(&ws, &ads, 3).unwrap();
    assert_eq!(hop.hop, 7);
    assert_eq!(hop.address, Some(IpAddress::V4([10, 0, 0, 1])));
    assert_eq!(hop.hostname, None);
    assert_eq!(hop.rtt_tokens, vec![Some("12.5".to_string()), None, Some("13".to_string())]);

    // not a hop line: no number first, or one beyond a u8
    let ws = words("traceroute to 8.8.8.8");
    assert!(parse_hop_line(&ws, &addresses(ws.len(), &[], &[]), 3).is_none());
    let ws = words("300 * *");
    assert!(parse_hop_line(&ws, &addresses(ws.len(), &[], &[]), 3).is_none());
    assert!(parse_hop_line(&vec![], &vec![], 3).is_none());

    // only the first name counts; digit-and-dot words are no names
    let ws = words("2 1.2.3 first second 4 ms");
    let hop = parse_hop_line(&ws, &addresses(ws.len(), &[], &[]), 1).unwrap();
    assert_eq!(hop.hostname, Some("first".to_string()));
    assert_eq!(hop.rtt_tokens, vec![Some("4".to_string())]);
}
