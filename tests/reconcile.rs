use dyndns::addr::{push_ipv4_text, push_ipv6_text, Ipv4Addr, Ipv6Addr};
use dyndns::reconcile::{
    find_record, notify_outcome, plan_from_fetch, plan_updates, summary_message, AddressFamily,
    PlannedUpdate, ReconcileError,
};
use dyndns::record::{DnsContent, DnsRecord, ListDnsRecordsBuilder, UpdateDnsRecordBuilder};

const NAME: &str = "home.example.com";

fn record(id: &str, name: &str, ttl: u32, proxied: bool, content: DnsContent) -> DnsRecord {
    DnsRecord {
        zone_id: "zone-1".to_string(),
        id: id.to_string(),
        name: name.to_string(),
        ttl,
        proxied,
        content,
    }
}

fn v4(a: u8, b: u8, c: u8, d: u8) -> Ipv4Addr {
    Ipv4Addr::new(a, b, c, d)
}

fn db8(last: u16) -> Ipv6Addr {
    Ipv6Addr::new(0x2001, 0xdb8, 0, 0, 0, 0, 0, last)
}

fn v4_text(x: Ipv4Addr) -> String {
    let mut s = String::new();
    push_ipv4_text(&mut s, x);
    s
}

fn v6_text(x: Ipv6Addr) -> String {
    let mut s = String::new();
    push_ipv6_text(&mut s, x);
    s
}

fn both(stored4: Ipv4Addr, stored6: Ipv6Addr) -> Vec<DnsRecord> {
    vec![
        record("rec-a", NAME, 300, true, DnsContent::A { content: stored4 }),
        record("rec-aaaa", NAME, 120, false, DnsContent::AAAA { content: stored6 }),
    ]
}

fn plan(records: &Vec<DnsRecord>, a: Ipv4Addr, b: Ipv6Addr) -> Vec<PlannedUpdate> {
    plan_updates(&NAME.to_string(), records, a, b).expect("plan")
}

#[test]
fn ipv4_drift_updates_only_the_a_record() {
    let records = both(v4(203, 0, 113, 1), db8(1));
    let p = plan(&records, v4(203, 0, 113, 7), db8(1));
    assert_eq!(p.len(), 1);
    let u = &p[0].request;
    assert_eq!(u.content, DnsContent::A { content: v4(203, 0, 113, 7) });
    assert_eq!(u.record_id, "rec-a");
    assert_eq!(u.zone_id, "zone-1");
    assert_eq!(u.name, NAME);
    assert_eq!(u.ttl, Some(300));
    assert_eq!(u.proxied, Some(true));
    assert_eq!(p[0].note, "New IPv4 address (203.0.113.7)");
    let m = summary_message(&NAME.to_string(), &p, &vec![Ok(())]).expect("message");
    assert!(m.contains("New IPv4 address (203.0.113.7)"));
    assert!(m.contains("Updated: New IPv4 address (203.0.113.7)"));
    assert_eq!(m, "Dyndns update (home.example.com)\n- Updated: New IPv4 address (203.0.113.7)");
    assert!(!m.contains("IPv6"));
}

#[test]
fn unchanged_addresses_plan_nothing_and_send_nothing() {
    let records = both(v4(198, 51, 100, 4), db8(0x42));
    let p = plan(&records, v4(198, 51, 100, 4), db8(0x42));
    assert!(p.is_empty());
    assert_eq!(summary_message(&NAME.to_string(), &p, &vec![]), None);
}

#[test]
fn ipv6_drift_updates_only_the_aaaa_record() {
    let records = both(v4(198, 51, 100, 4), db8(1));
    let p = plan(&records, v4(198, 51, 100, 4), db8(2));
    assert_eq!(p.len(), 1);
    assert_eq!(p[0].request.content, DnsContent::AAAA { content: db8(2) });
    assert_eq!(p[0].request.record_id, "rec-aaaa");
    assert_eq!(p[0].request.ttl, Some(120));
    assert_eq!(p[0].request.proxied, Some(false));
    assert_eq!(p[0].note, "New IPv6 address (2001:db8::2)");
    let m = summary_message(&NAME.to_string(), &p, &vec![Ok(())]).expect("message");
    assert_eq!(m, "Dyndns update (home.example.com)\n- Updated: New IPv6 address (2001:db8::2)");
    assert!(!m.contains("IPv4"));
}

#[test]
fn both_drift_ipv4_first() {
    let records = both(v4(10, 0, 0, 1), db8(1));
    let p = plan(&records, v4(10, 0, 0, 2), db8(3));
    assert_eq!(p.len(), 2);
    assert_eq!(p[0].note, "New IPv4 address (10.0.0.2)");
    assert_eq!(p[1].note, "New IPv6 address (2001:db8::3)");
}

#[test]
fn missing_ipv4_record_is_record_not_found() {
    let records = vec![record("rec-aaaa", NAME, 1, false, DnsContent::AAAA { content: db8(1) })];
    let r = plan_updates(&NAME.to_string(), &records, v4(10, 0, 0, 1), db8(1));
    assert_eq!(r, Err(ReconcileError::RecordNotFound { family: AddressFamily::V4 }));
    assert_eq!(r.unwrap_err().describe(), "No IPv4 record found");
}

#[test]
fn missing_ipv6_record_is_record_not_found() {
    let records = vec![record("rec-a", NAME, 1, false, DnsContent::A { content: v4(10, 0, 0, 1) })];
    let r = plan_updates(&NAME.to_string(), &records, v4(10, 0, 0, 9), db8(1));
    assert_eq!(r, Err(ReconcileError::RecordNotFound { family: AddressFamily::V6 }));
    assert_eq!(r.unwrap_err().describe(), "No IPv6 record found");
}

#[test]
fn records_under_other_names_or_types_are_ignored() {
    let records = vec![
        record("other", "other.example.com", 1, false, DnsContent::A { content: v4(1, 1, 1, 1) }),
        record("cname", NAME, 1, false, DnsContent::CNAME { content: "x.example.com".to_string() }),
        record("first", NAME, 1, false, DnsContent::A { content: v4(2, 2, 2, 2) }),
        record("second", NAME, 1, false, DnsContent::A { content: v4(3, 3, 3, 3) }),
        record("six", NAME, 1, false, DnsContent::AAAA { content: db8(1) }),
    ];
    let name = NAME.to_string();
    assert_eq!(find_record(&records, &name, AddressFamily::V4), Some(2));
    assert_eq!(find_record(&records, &name, AddressFamily::V6), Some(4));
    assert_eq!(find_record(&records, &"nobody".to_string(), AddressFamily::V4), None);
    let p = plan(&records, v4(3, 3, 3, 3), db8(1));
    assert_eq!(p.len(), 1);
    assert_eq!(p[0].request.record_id, "first");
}

#[test]
fn mixed_outcomes_report_one_line_each() {
    let records = both(v4(10, 0, 0, 1), db8(1));
    let p = plan(&records, v4(10, 0, 0, 2), db8(3));
    let results = vec![Ok(()), Err("HTTP 500".to_string())];
    let m = summary_message(&NAME.to_string(), &p, &results).expect("message");
    assert_eq!(
        m,
        "Dyndns update (home.example.com)\n- Updated: New IPv4 address (10.0.0.2)\n- Update failed: New IPv6 address (2001:db8::3); Error was: HTTP 500"
    );
    assert_eq!(m.matches("Updated:").count(), 1);
    assert_eq!(m.matches("Update failed:").count(), 1);
}

#[test]
fn resolution_failure_ends_the_pass() {
    let name = NAME.to_string();
    let records = both(v4(10, 0, 0, 1), db8(1));
    let e4 = ReconcileError::Network { message: "unreachable".to_string() };
    let r = plan_from_fetch(&name, Err(e4.clone()), Ok(db8(2)), Ok(records.clone()));
    assert_eq!(r, Err(e4));
    let e6 = ReconcileError::Parse { message: "not an address".to_string() };
    let r = plan_from_fetch(&name, Ok(v4(10, 0, 0, 2)), Err(e6.clone()), Ok(records));
    assert_eq!(r, Err(e6));
}

#[test]
fn listing_failure_ends_the_pass() {
    let e = ReconcileError::Provider { message: "forbidden".to_string() };
    let r = plan_from_fetch(&NAME.to_string(), Ok(v4(1, 2, 3, 4)), Ok(db8(1)), Err(e.clone()));
    assert_eq!(r, Err(e));
}

#[test]
fn fetch_success_plans_as_plan_updates() {
    let records = both(v4(10, 0, 0, 1), db8(1));
    let r = plan_from_fetch(&NAME.to_string(), Ok(v4(10, 0, 0, 5)), Ok(db8(1)), Ok(records));
    let p = r.expect("plan");
    assert_eq!(p.len(), 1);
    assert_eq!(p[0].note, "New IPv4 address (10.0.0.5)");
}

#[test]
fn notify_failure_fails_the_pass() {
    assert_eq!(notify_outcome(Ok(())), Ok(()));
    let r = notify_outcome(Err("timed out".to_string()));
    assert_eq!(r, Err(ReconcileError::Notify { message: "timed out".to_string() }));
    assert_eq!(r.unwrap_err().describe(), "timed out");
}

#[test]
fn ipv4_text_is_dotted_decimal() {
    assert_eq!(v4_text(v4(0, 0, 0, 0)), "0.0.0.0");
    assert_eq!(v4_text(v4(255, 255, 255, 255)), "255.255.255.255");
    assert_eq!(v4_text(v4(10, 0, 100, 9)), "10.0.100.9");
}

#[test]
fn ipv6_text_compresses_the_first_longest_zero_run() {
    assert_eq!(v6_text(db8(1)), "2001:db8::1");
    assert_eq!(v6_text(Ipv6Addr::new(0, 0, 0, 0, 0, 0, 0, 0)), "::");
    assert_eq!(v6_text(Ipv6Addr::new(0, 0, 0, 0, 0, 0, 0, 1)), "::1");
    assert_eq!(v6_text(Ipv6Addr::new(1, 0, 0, 0, 0, 0, 0, 0)), "1::");
    assert_eq!(v6_text(Ipv6Addr::new(1, 0, 1, 0, 1, 0, 1, 0)), "1:0:1:0:1:0:1:0");
    assert_eq!(v6_text(Ipv6Addr::new(1, 0, 0, 1, 0, 0, 0, 1)), "1:0:0:1::1");
    assert_eq!(v6_text(Ipv6Addr::new(1, 0, 0, 1, 0, 0, 1, 1)), "1::1:0:0:1:1");
    assert_eq!(
        v6_text(Ipv6Addr::new(0xfe80, 0xabcd, 0xef01, 0x2345, 0x6789, 0xa, 0xbc, 0xffff)),
        "fe80:abcd:ef01:2345:6789:a:bc:ffff"
    );
    assert_eq!(v6_text(Ipv6Addr::new(0, 0, 0, 0, 0, 0xffff, 0xc000, 0x0201)), "::ffff:192.0.2.1");
}

#[test]
fn list_builder_filters_by_name() {
    let b = ListDnsRecordsBuilder::new("zone-1");
    assert_eq!(b.zone_id, "zone-1");
    assert_eq!(b.name, None);
    let b = b.name(NAME.to_string());
    assert_eq!(b.zone_id, "zone-1");
    assert_eq!(b.name, Some(NAME.to_string()));
}

#[test]
fn update_builder_keeps_everything_but_content() {
    let rec = record("rec-a", NAME, 3600, true, DnsContent::A { content: v4(10, 0, 0, 1) });
    let u = UpdateDnsRecordBuilder::new(&rec);
    assert_eq!(u.content, rec.content);
    assert_eq!(u.ttl, Some(3600));
    assert_eq!(u.proxied, Some(true));
    let u = u.content(DnsContent::A { content: v4(10, 0, 0, 2) });
    assert_eq!(u.content, DnsContent::A { content: v4(10, 0, 0, 2) });
    assert_eq!(u.record_id, "rec-a");
    assert_eq!(u.zone_id, "zone-1");
    assert_eq!(u.name, NAME);
    assert_eq!(u.ttl, Some(3600));
    assert_eq!(u.proxied, Some(true));
}
