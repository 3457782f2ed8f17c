use arpscan::addr::Ipv4Addr;
use arpscan::addr::MacAddr;
use arpscan::broadcast::BroadcastScan;
use arpscan::broadcast::Collector;
use arpscan::broadcast::ScanConfig;
use arpscan::codec::build_arp_request;

/// A reply frame from `from_ip` / `from_mac`, built by flipping a
/// request's operation field and overwriting the sender pair.
fn reply_frame(from_ip: Ipv4Addr, from_mac: MacAddr) -> Vec<u8> {
    let any_mac = MacAddr::new(0, 0, 0, 0, 0, 1);
    let any_ip = Ipv4Addr::new(0, 0, 0, 1);
    let mut f = build_arp_request(any_mac, any_ip, any_ip);
    f[21] = 0x02;
    f[22] = from_mac.b0;
    f[23] = from_mac.b1;
    f[24] = from_mac.b2;
    f[25] = from_mac.b3;
    f[26] = from_mac.b4;
    f[27] = from_mac.b5;
    f[28] = from_ip.o0;
    f[29] = from_ip.o1;
    f[30] = from_ip.o2;
    f[31] = from_ip.o3;
    f
}

#[test]
fn config_defaults_match_deployed_protocol() {
    let c = ScanConfig::default();
    assert_eq!(c.timeout_ms, 2000);
    assert_eq!(c.send_delay_us, 200);
    assert_eq!(c.read_poll_ms, 50);
}

#[test]
fn collector_results_are_a_deduplicated_subset_of_targets() {
    // Duplicates in the request collapse; replies from strangers and
    // second replies are ignored.
    let t1 = Ipv4Addr::new(192, 168, 0, 1);
    let t2 = Ipv4Addr::new(192, 168, 0, 2);
    let stranger = Ipv4Addr::new(192, 168, 0, 250);
    let mut c = Collector::new(vec![t1, t2, t1, t1]);
    assert_eq!(c.target_count(), 2);

    let mac_a = MacAddr::new(0xAA, 0xAA, 0xAA, 0xAA, 0xAA, 0xAA);
    let mac_b = MacAddr::new(0xBB, 0xBB, 0xBB, 0xBB, 0xBB, 0xBB);

    assert!(!c.on_frame(&reply_frame(stranger, mac_a)));
    assert!(!c.on_frame(&reply_frame(t1, mac_a)));
    // A second reply for t1 is ignored: the first reply wins.
    assert!(!c.on_frame(&reply_frame(t1, mac_b)));
    assert!(!c.is_complete());
    assert!(c.on_frame(&reply_frame(t2, mac_b)));
    assert!(c.is_complete());

    let results = c.results();
    assert_eq!(results.len(), 2);
    assert_eq!(results[0].ip, t1);
    assert_eq!(results[0].mac, mac_a);
    assert_eq!(results[1].ip, t2);
    assert_eq!(results[1].mac, mac_b);
}

#[test]
fn malformed_frames_change_nothing() {
    let t1 = Ipv4Addr::new(10, 1, 1, 1);
    let mut c = Collector::new(vec![t1]);
    assert!(!c.on_frame(&[]));
    assert!(!c.on_frame(&[0x08, 0x06]));
    let mut garbled = reply_frame(t1, MacAddr::new(1, 2, 3, 4, 5, 6));
    garbled[12] = 0x08;
    garbled[13] = 0x00; // ethertype IPv4, not ARP
    assert!(!c.on_frame(&garbled));
    assert!(c.results().is_empty());
}

#[test]
fn all_replies_in_exits_before_deadline() {
    // Every target answers early: the loop stops at the next poll,
    // well before the deadline, with exactly one entry per target.
    let targets = vec![
        Ipv4Addr::new(10, 0, 0, 1),
        Ipv4Addr::new(10, 0, 0, 2),
        Ipv4Addr::new(10, 0, 0, 3),
    ];
    let mut scan = BroadcastScan::new(targets.clone(), 0, 2000);
    assert!(scan.should_continue(0));
    let mut done = false;
    for (k, t) in targets.iter().enumerate() {
        let mac = MacAddr::new(0, 0, 0, 0, 0, k as u8 + 1);
        done = scan.on_frame(&reply_frame(*t, mac));
    }
    assert!(done);
    assert!(!scan.should_continue(25)); // early exit at 25 ms, deadline 2000 ms
    let results = scan.results();
    assert_eq!(results.len(), 3);
    for (k, t) in targets.iter().enumerate() {
        assert_eq!(results[k].ip, *t);
    }
}

#[test]
fn no_replies_runs_to_the_deadline_and_returns_empty() {
    let targets = vec![Ipv4Addr::new(10, 0, 0, 1), Ipv4Addr::new(10, 0, 0, 2)];
    let scan = BroadcastScan::new(targets, 100, 2000);
    // The loop keeps polling strictly until the deadline...
    assert!(scan.should_continue(100));
    assert!(scan.should_continue(1500));
    assert!(scan.should_continue(2099));
    // ...and stops at it, with nothing recorded.
    assert!(!scan.should_continue(2100));
    assert!(scan.results().is_empty());
}

#[test]
fn one_of_three_replies_waits_out_the_window() {
    // Source 192.168.1.100 / 00:11:22:33:44:55 probes .1, .2, .3; only
    // 192.168.1.1 answers (AA:BB:CC:DD:EE:FF) inside the 2 s window.
    let source_mac = MacAddr::new(0x00, 0x11, 0x22, 0x33, 0x44, 0x55);
    let source_ip = Ipv4Addr::new(192, 168, 1, 100);
    let targets = vec![
        Ipv4Addr::new(192, 168, 1, 1),
        Ipv4Addr::new(192, 168, 1, 2),
        Ipv4Addr::new(192, 168, 1, 3),
    ];

    let mut scan = BroadcastScan::new(targets, 0, 2000);
    let frames = scan.request_frames(source_mac, source_ip);
    assert_eq!(frames.len(), 3);
    for f in &frames {
        assert_eq!(f.len(), 42);
    }

    let replier = Ipv4Addr::new(192, 168, 1, 1);
    let replier_mac = MacAddr::new(0xAA, 0xBB, 0xCC, 0xDD, 0xEE, 0xFF);
    let done = scan.on_frame(&reply_frame(replier, replier_mac));
    assert!(!done); // 1 of 3: no early exit

    // The call keeps collecting for the whole window...
    assert!(scan.should_continue(1));
    assert!(scan.should_continue(1999));
    // ...and its duration is the full 2 s.
    assert!(!scan.should_continue(2000));

    let results = scan.results();
    assert_eq!(results.len(), 1);
    assert_eq!(results[0].ip, replier);
    assert_eq!(results[0].mac, replier_mac);
}

#[test]
fn empty_target_set_still_waits_out_the_window() {
    // With no targets nothing can complete the collection early; the
    // window alone ends it.
    let scan = BroadcastScan::new(Vec::new(), 0, 2000);
    assert!(scan.should_continue(0));
    assert!(scan.should_continue(1999));
    assert!(!scan.should_continue(2000));
    assert!(scan.results().is_empty());
}
