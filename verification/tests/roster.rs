use aaxion_discovery::event::DiscoveryEvent;
use aaxion_discovery::record::{ResolvedInstance, ServiceRecord};
use aaxion_discovery::roster::Roster;

fn instance(fullname: &str, port: u16, model: &str) -> ResolvedInstance {
    ResolvedInstance {
        fullname: fullname.to_string(),
        hostname: "host.local.".to_string(),
        addresses: vec!["192.168.1.50".to_string()],
        port,
        properties: vec![("model".to_string(), model.to_string())],
    }
}

#[test]
fn record_is_made_of_the_instance() {
    let record = ServiceRecord::from_instance(ResolvedInstance {
        fullname: "printer-1._aaxion._tcp.local.".to_string(),
        hostname: "printer-1.local.".to_string(),
        addresses: vec!["192.168.1.50".to_string(), "fe80::1".to_string()],
        port: 9100,
        properties: vec![
            ("model".to_string(), "X1".to_string()),
            ("tray".to_string(), String::new()),
        ],
    });
    assert_eq!(record.fullname, "printer-1._aaxion._tcp.local.");
    assert_eq!(record.hostname, "printer-1.local.");
    assert_eq!(record.addresses, vec!["192.168.1.50".to_string(), "fe80::1".to_string()]);
    assert_eq!(record.port, 9100);
    assert_eq!(record.attributes.len(), 2);
    assert_eq!(record.attributes.get("model"), Some(&"X1".to_string()));
    assert_eq!(record.attributes.get("tray"), Some(&String::new()));
}

#[test]
fn record_without_addresses_and_properties() {
    let record = ServiceRecord::from_instance(ResolvedInstance {
        fullname: "bare._aaxion._tcp.local.".to_string(),
        hostname: "bare.local.".to_string(),
        addresses: Vec::new(),
        port: 0,
        properties: Vec::new(),
    });
    assert!(record.addresses.is_empty());
    assert_eq!(record.port, 0);
    assert_eq!(record.attributes.len(), 0);
}

#[test]
fn first_resolution_of_a_name_is_recorded() {
    let mut roster = Roster::new();
    assert_eq!(roster.len(), 0);
    assert!(!roster.contains("a._aaxion._tcp.local."));
    assert!(roster.enroll(instance("a._aaxion._tcp.local.", 80, "X1")));
    assert!(roster.contains("a._aaxion._tcp.local."));
    assert_eq!(roster.len(), 1);
}

#[test]
fn later_resolution_of_a_name_is_dropped() {
    let mut roster = Roster::new();
    assert!(roster.enroll(instance("a._aaxion._tcp.local.", 80, "X1")));
    assert!(!roster.enroll(instance("a._aaxion._tcp.local.", 81, "X2")));
    let records = roster.into_records();
    assert_eq!(records.len(), 1);
    assert_eq!(records[0].port, 80);
    assert_eq!(records[0].attributes.get("model"), Some(&"X1".to_string()));
}

#[test]
fn records_stand_in_the_order_of_first_resolution() {
    let mut roster = Roster::new();
    assert!(roster.enroll(instance("b._aaxion._tcp.local.", 2, "B")));
    assert!(roster.enroll(instance("a._aaxion._tcp.local.", 1, "A")));
    assert!(!roster.enroll(instance("b._aaxion._tcp.local.", 3, "B2")));
    assert!(roster.enroll(instance("c._aaxion._tcp.local.", 4, "C")));
    let names: Vec<String> = roster.into_records().into_iter().map(|r| r.fullname).collect();
    assert_eq!(
        names,
        vec![
            "b._aaxion._tcp.local.".to_string(),
            "a._aaxion._tcp.local.".to_string(),
            "c._aaxion._tcp.local.".to_string(),
        ]
    );
}

#[test]
fn names_differ_by_case() {
    let mut roster = Roster::new();
    assert!(roster.enroll(instance("a._aaxion._tcp.local.", 1, "A")));
    assert!(roster.enroll(instance("A._aaxion._tcp.local.", 2, "A")));
    assert_eq!(roster.len(), 2);
}

#[test]
fn only_a_resolution_changes_the_roster() {
    let ty = "_aaxion._tcp.local.".to_string();
    let name = "a._aaxion._tcp.local.".to_string();
    let mut roster = Roster::new();
    assert!(!roster.absorb(DiscoveryEvent::SearchStarted { service_type: ty.clone() }));
    assert!(!roster.absorb(DiscoveryEvent::ServiceFound {
        service_type: ty.clone(),
        fullname: name.clone(),
    }));
    assert_eq!(roster.len(), 0);
    assert!(roster.absorb(DiscoveryEvent::ServiceResolved {
        instance: instance("a._aaxion._tcp.local.", 1, "A"),
    }));
    assert!(!roster.absorb(DiscoveryEvent::ServiceRemoved {
        service_type: ty.clone(),
        fullname: name.clone(),
    }));
    assert!(!roster.absorb(DiscoveryEvent::SearchStopped { service_type: ty }));
    assert_eq!(roster.len(), 1);
    assert!(roster.contains("a._aaxion._tcp.local."));
}
