use cloudflare_ddns::records::{find_address_record, find_zone, DnsRecord, Zone};
use cloudflare_ddns::text::same_text;

fn zone(id: &str, name: &str) -> Zone {
    Zone { id: id.to_string(), name: name.to_string() }
}

fn record(id: &str, record_type: &str, name: &str, content: &str) -> DnsRecord {
    DnsRecord {
        id: id.to_string(),
        zone_id: "z1".to_string(),
        name: name.to_string(),
        record_type: record_type.to_string(),
        content: content.to_string(),
        ttl: 300,
    }
}

#[test]
fn zone_lookup_takes_the_first_exact_match() {
    let zones = vec![
        zone("near1", "example.co"),
        zone("near2", "www.example.com"),
        zone("near3", "Example.com"),
        zone("near4", "example.com."),
        zone("first", "example.com"),
        zone("other", "example.org"),
        zone("second", "example.com"),
    ];
    let found = find_zone(&zones, "example.com").unwrap();
    assert_eq!(found.id, "first");
    assert_eq!(found.name, "example.com");
}

#[test]
fn zone_lookup_is_case_sensitive() {
    let zones = vec![zone("upper", "EXAMPLE.COM"), zone("mixed", "Example.Com")];
    assert_eq!(find_zone(&zones, "example.com"), None);
    assert_eq!(find_zone(&zones, "EXAMPLE.COM").unwrap().id, "upper");
}

#[test]
fn zone_lookup_finds_nothing_without_a_match() {
    assert_eq!(find_zone(&vec![], "example.com"), None);
    let zones = vec![zone("a", "example.org"), zone("b", "example.net")];
    assert_eq!(find_zone(&zones, "example.com"), None);
    assert_eq!(find_zone(&zones, ""), None);
}

#[test]
fn zone_lookup_matches_names_outside_ascii() {
    let zones = vec![zone("a", "b\u{fc}cher.example"), zone("b", "bucher.example")];
    assert_eq!(find_zone(&zones, "bucher.example").unwrap().id, "b");
    assert_eq!(find_zone(&zones, "b\u{fc}cher.example").unwrap().id, "a");
}

#[test]
fn record_lookup_needs_type_and_name() {
    let records = vec![
        record("r0", "CNAME", "example.com", "target.example.net"),
        record("r1", "A", "www.example.com", "9.9.9.9"),
        record("r2", "AAAA", "example.com", "::1"),
        record("r3", "a", "example.com", "9.9.9.9"),
        record("r4", "A", "example.com", "1.2.3.4"),
        record("r5", "A", "example.com", "4.3.2.1"),
    ];
    let found = find_address_record(&records, "example.com").unwrap();
    assert_eq!(found.id, "r4");
    assert_eq!(found.content, "1.2.3.4");
}

#[test]
fn record_lookup_passes_over_a_lone_cname() {
    let records = vec![record("r0", "CNAME", "example.com", "target.example.net")];
    assert_eq!(find_address_record(&records, "example.com"), None);
}

#[test]
fn record_lookup_finds_nothing_among_none() {
    assert_eq!(find_address_record(&vec![], "example.com"), None);
    let records = vec![record("r1", "A", "other.example.com", "1.2.3.4")];
    assert_eq!(find_address_record(&records, "example.com"), None);
}

#[test]
fn new_content_leaves_the_other_fields() {
    let before = DnsRecord {
        id: "r1".to_string(),
        zone_id: "z1".to_string(),
        name: "example.com".to_string(),
        record_type: "A".to_string(),
        content: "1.2.3.4".to_string(),
        ttl: 300,
    };
    let after = before.clone().with_content("5.6.7.8".to_string());
    assert_eq!(after.content, "5.6.7.8");
    assert_eq!(after.id, before.id);
    assert_eq!(after.zone_id, before.zone_id);
    assert_eq!(after.name, before.name);
    assert_eq!(after.record_type, before.record_type);
    assert_eq!(after.ttl, before.ttl);
}

#[test]
fn clones_are_equal() {
    let z = zone("z1", "example.com");
    assert_eq!(z.clone(), z);
    let r = record("r1", "A", "example.com", "1.2.3.4");
    assert_eq!(r.clone(), r);
}

#[test]
fn texts_compare_letter_for_letter() {
    assert!(same_text("", ""));
    assert!(same_text("example.com", "example.com"));
    assert!(!same_text("example.com", "example.co"));
    assert!(!same_text("example.com", "example.con"));
    assert!(!same_text("example.com", "Example.com"));
    assert!(!same_text("a", ""));
    assert!(same_text("b\u{fc}cher", "b\u{fc}cher"));
    assert!(!same_text("b\u{fc}cher", "bucher"));
}
