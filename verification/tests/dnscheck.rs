use libdnscheck::{
    classify_error, count_lists, encode_query, interpret_batch, interpret_outcome, lookup,
    query_hostname, AddressRecord, DnsCheckError, IpAddress, Output, Query, ResolveOutcome,
    ResolveReply,
};

const NXDOMAIN_NAME: &str = "org.freedesktop.resolve1.DnsError.NXDOMAIN";

fn reply(addresses: Vec<AddressRecord>) -> ResolveOutcome {
    ResolveOutcome::Replied(ResolveReply {
        addresses,
        canonical_name: String::from("canon.example"),
        flags: 0,
    })
}

fn one_record() -> Vec<AddressRecord> {
    vec![AddressRecord {
        family: 2,
        scope: 0,
        bytes: vec![127, 0, 0, 2],
    }]
}

#[test]
fn encode_ipv4_reverses_octets() {
    let q = Query::Address(IpAddress::V4([192, 0, 2, 1]));
    assert_eq!(encode_query(&q), "1.2.0.192.");
}

#[test]
fn encode_ipv6_reverses_nibbles() {
    let q = Query::Address(IpAddress::V6([
        0x20, 0x01, 0x0d, 0xb8, 0, 0, 0, 0, 0, 0, 0, 0, 0, 0, 0, 0x01,
    ]));
    let expected = {
        let mut s = String::from("1.0.");
        for _ in 0..22 {
            s.push_str("0.");
        }
        s.push_str("8.b.d.0.1.0.0.2.");
        s
    };
    assert_eq!(encode_query(&q), expected);
}

#[test]
fn encode_domain_appends_dot_only() {
    let q = Query::Domain(String::from("example.com"));
    assert_eq!(encode_query(&q), "example.com.");
}

#[test]
fn encode_is_pure() {
    let q = Query::Address(IpAddress::V4([10, 1, 2, 3]));
    assert_eq!(encode_query(&q), encode_query(&q));
    let d = Query::Domain(String::from("example.org"));
    assert_eq!(encode_query(&d), encode_query(&d));
}

#[test]
fn render_ipv4() {
    let q = Query::Address(IpAddress::V4([192, 0, 2, 1]));
    assert_eq!(q.render(), "192.0.2.1");
}

#[test]
fn render_ipv6_compresses_longest_zero_run() {
    let q = Query::Address(IpAddress::V6([
        0x20, 0x01, 0x0d, 0xb8, 0, 0, 0, 0, 0, 0, 0, 0, 0, 0, 0, 0x01,
    ]));
    assert_eq!(q.render(), "2001:db8::1");
}

#[test]
fn render_ipv6_loopback_and_unspecified() {
    let mut b = [0u8; 16];
    b[15] = 1;
    assert_eq!(Query::Address(IpAddress::V6(b)).render(), "::1");
    assert_eq!(Query::Address(IpAddress::V6([0u8; 16])).render(), "::");
}

#[test]
fn render_ipv6_no_compression_of_single_zero() {
    let b = [
        0, 1, 0, 2, 0, 3, 0, 4, 0, 5, 0, 0, 0, 7, 0, 8,
    ];
    assert_eq!(Query::Address(IpAddress::V6(b)).render(), "1:2:3:4:5:0:7:8");
}

#[test]
fn render_ipv6_ties_go_left() {
    let b = [
        0, 1, 0, 0, 0, 0, 0, 1, 0, 0, 0, 0, 0, 1, 0, 1,
    ];
    assert_eq!(Query::Address(IpAddress::V6(b)).render(), "1::1:0:0:1:1");
}

#[test]
fn render_ipv6_v4_mapped_in_mixed_notation() {
    let b = [
        0, 0, 0, 0, 0, 0, 0, 0, 0, 0, 0xff, 0xff, 192, 0, 2, 1,
    ];
    assert_eq!(Query::Address(IpAddress::V6(b)).render(), "::ffff:192.0.2.1");
}

#[test]
fn render_ipv6_near_mapped_stays_hexadecimal() {
    // Only the exact ::ffff:0:0/96 prefix renders in mixed notation.
    let b = [
        0, 0, 0, 0, 0, 0, 0, 0, 0, 0, 0, 0xff, 192, 0, 2, 1,
    ];
    assert_eq!(Query::Address(IpAddress::V6(b)).render(), "::ff:c000:201");
}

#[test]
fn render_ipv6_trailing_run() {
    let b = [
        0, 1, 0, 2, 0, 0, 0, 0, 0, 0, 0, 0, 0, 0, 0, 0,
    ];
    assert_eq!(Query::Address(IpAddress::V6(b)).render(), "1:2::");
}

#[test]
fn render_domain() {
    let q = Query::Domain(String::from("example.com"));
    assert_eq!(q.render(), "example.com");
}

#[test]
fn hostname_concatenates_query_and_source() {
    let q = Query::Domain(String::from("example.com"));
    assert_eq!(
        query_hostname(&q, "zen.spamhaus.org"),
        "example.com.zen.spamhaus.org."
    );
}

#[test]
fn classify_nxdomain_by_prefix() {
    match classify_error(NXDOMAIN_NAME, "no such domain") {
        DnsCheckError::NxDomain(desc) => assert_eq!(desc, "no such domain"),
        other => panic!("expected NxDomain, got {:?}", other),
    }
    let suffixed = format!("{}.extra", NXDOMAIN_NAME);
    assert!(matches!(
        classify_error(&suffixed, "x"),
        DnsCheckError::NxDomain(_)
    ));
}

#[test]
fn classify_other_errors_as_transport() {
    match classify_error("org.freedesktop.DBus.Error.Failed", "boom") {
        DnsCheckError::DBus(name, desc) => {
            assert_eq!(name, "org.freedesktop.DBus.Error.Failed");
            assert_eq!(desc, "boom");
        }
        other => panic!("expected DBus, got {:?}", other),
    }
    // A shorter name, or the prefix of the prefix, is not NXDOMAIN.
    assert!(matches!(
        classify_error("org.freedesktop.resolve1.DnsError.NXDOMAI", "x"),
        DnsCheckError::DBus(_, _)
    ));
}

#[test]
fn error_messages() {
    let e = DnsCheckError::DBus(String::from("a.b"), String::from("c"));
    assert_eq!(e.message(), "DBus reported a.b: c");
    let n = DnsCheckError::NxDomain(String::from("gone"));
    assert_eq!(n.message(), "NXDOMAIN gone");
    assert_eq!(DnsCheckError::Unknown.message(), "Something went wrong");
}

#[test]
fn membership_from_reply() {
    let q = Query::Domain(String::from("example.com"));
    let populated = reply(one_record());
    let m = interpret_outcome(&q, "zen.spamhaus.org", &populated).unwrap();
    assert!(m.found);
    assert_eq!(m.name, "example.com");
    assert_eq!(m.list, "zen.spamhaus.org");

    let empty = reply(Vec::new());
    let m = interpret_outcome(&q, "zen.spamhaus.org", &empty).unwrap();
    assert!(!m.found);
}

#[test]
fn nxdomain_maps_to_not_found() {
    let q = Query::Address(IpAddress::V4([192, 0, 2, 1]));
    let outcome = ResolveOutcome::Failed(String::from(NXDOMAIN_NAME), String::from("no entry"));
    let m = interpret_outcome(&q, "bl.example", &outcome).unwrap();
    assert!(!m.found);
    assert_eq!(m.name, "192.0.2.1");
    assert_eq!(m.list, "bl.example");
}

#[test]
fn transport_error_propagates() {
    let q = Query::Domain(String::from("example.com"));
    let outcome = ResolveOutcome::Failed(
        String::from("org.freedesktop.DBus.Error.NoReply"),
        String::from("timed out"),
    );
    match interpret_outcome(&q, "bl.example", &outcome) {
        Err(DnsCheckError::DBus(name, desc)) => {
            assert_eq!(name, "org.freedesktop.DBus.Error.NoReply");
            assert_eq!(desc, "timed out");
        }
        other => panic!("expected a transport error, got {:?}", other),
    }
}

#[test]
fn batch_preserves_query_major_order() {
    let queries = [
        Query::Domain(String::from("a.example")),
        Query::Domain(String::from("b.example")),
    ];
    let sources = ["s1.example", "s2.example"];
    // Distinguishable outcomes: listed on s1, not on s2.
    let outcomes = vec![
        reply(one_record()),
        reply(Vec::new()),
        reply(one_record()),
        reply(Vec::new()),
    ];
    let result = interpret_batch(&queries, &sources, &outcomes).unwrap();
    let summary: Vec<(String, String, bool)> = result
        .into_iter()
        .map(|m| (m.name, m.list, m.found))
        .collect();
    assert_eq!(
        summary,
        vec![
            (String::from("a.example"), String::from("s1.example"), true),
            (String::from("a.example"), String::from("s2.example"), false),
            (String::from("b.example"), String::from("s1.example"), true),
            (String::from("b.example"), String::from("s2.example"), false),
        ]
    );
}

#[test]
fn batch_fails_fast_on_transport_error() {
    let queries = [
        Query::Domain(String::from("a.example")),
        Query::Domain(String::from("b.example")),
    ];
    let sources = ["s1.example", "s2.example"];
    // Pair (a, s2) raises a transport error; later pairs would succeed.
    let outcomes = vec![
        reply(one_record()),
        ResolveOutcome::Failed(
            String::from("org.freedesktop.DBus.Error.NoReply"),
            String::from("timed out"),
        ),
        reply(one_record()),
        reply(one_record()),
    ];
    match interpret_batch(&queries, &sources, &outcomes) {
        Err(DnsCheckError::DBus(name, desc)) => {
            assert_eq!(name, "org.freedesktop.DBus.Error.NoReply");
            assert_eq!(desc, "timed out");
        }
        other => panic!("expected the batch to abort with the error, got {:?}", other),
    }
}

#[test]
fn batch_absorbs_nxdomain() {
    let queries = [Query::Domain(String::from("a.example"))];
    let sources = ["s1.example", "s2.example"];
    let outcomes = vec![
        ResolveOutcome::Failed(String::from(NXDOMAIN_NAME), String::from("none")),
        reply(one_record()),
    ];
    let result = interpret_batch(&queries, &sources, &outcomes).unwrap();
    assert_eq!(result.len(), 2);
    assert!(!result[0].found);
    assert!(result[1].found);
}

#[test]
fn end_to_end_empty_reply_means_not_listed() {
    let q = Query::Domain(String::from("example.com"));
    let hostname = query_hostname(&q, "zen.spamhaus.org");
    assert_eq!(hostname, "example.com.zen.spamhaus.org.");
    let m = interpret_outcome(&q, "zen.spamhaus.org", &reply(Vec::new())).unwrap();
    assert_eq!(m.name, "example.com");
    assert_eq!(m.list, "zen.spamhaus.org");
    assert!(!m.found);
}

#[test]
fn empty_batch_needs_no_resolver() {
    let r = count_lists(&[], &[], Output::Quiet).unwrap();
    assert!(r.is_empty());
    let queries = [Query::Domain(String::from("example.com"))];
    let r = count_lists(&queries, &[], Output::Normal).unwrap();
    assert!(r.is_empty());
}

#[test]
fn lookup_reports_target_and_source() {
    // Runs against the host's resolver service if one is reachable; either
    // way the record or the error must keep the lookup's contract.
    let q = Query::Domain(String::from("example.com"));
    match lookup("zen.spamhaus.org", &q, &Output::Quiet) {
        Ok(m) => {
            assert_eq!(m.name, "example.com");
            assert_eq!(m.list, "zen.spamhaus.org");
        }
        Err(e) => {
            let msg = e.message();
            assert!(msg.starts_with("DBus reported "), "unexpected: {}", msg);
        }
    }
}
