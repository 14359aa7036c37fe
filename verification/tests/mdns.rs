use aaxion_discovery::event::DiscoveryEvent;
use aaxion_discovery::mdns::{event_of, instance_of};
use aaxion_discovery::session::{replay, Outcome, Step};
use mdns_sd::{ServiceEvent, ServiceInfo, TxtProperty};

fn printer() -> ServiceInfo {
    let properties = [("model", "X1")];
    ServiceInfo::new(
        "_aaxion._tcp.local.",
        "printer-1",
        "printer-1.local.",
        "192.168.1.50",
        9100,
        &properties[..],
    )
    .unwrap()
}

#[test]
fn instance_holds_what_the_info_announces() {
    let instance = instance_of(&printer());
    assert_eq!(instance.fullname, "printer-1._aaxion._tcp.local.");
    assert_eq!(instance.hostname, "printer-1.local.");
    assert_eq!(instance.port, 9100);
    assert_eq!(instance.addresses, vec!["192.168.1.50".to_string()]);
    assert_eq!(instance.properties, vec![("model".to_string(), "X1".to_string())]);
}

#[test]
fn instance_holds_every_address() {
    let none: Option<std::collections::HashMap<String, String>> = None;
    let info = ServiceInfo::new(
        "_aaxion._tcp.local.",
        "nas",
        "nas.local.",
        "192.168.1.9,fe80::1,10.0.0.2",
        445,
        none,
    )
    .unwrap();
    let mut addresses = instance_of(&info).addresses;
    addresses.sort();
    assert_eq!(
        addresses,
        vec!["10.0.0.2".to_string(), "192.168.1.9".to_string(), "fe80::1".to_string()]
    );
}

#[test]
fn instance_without_addresses() {
    let none: Option<std::collections::HashMap<String, String>> = None;
    let info = ServiceInfo::new("_aaxion._tcp.local.", "ghost", "ghost.local.", (), 1, none).unwrap();
    let instance = instance_of(&info);
    assert!(instance.addresses.is_empty());
    assert!(instance.properties.is_empty());
    assert_eq!(instance.port, 1);
}

#[test]
fn properties_keep_their_order_and_a_missing_value_is_empty() {
    let properties = vec![
        TxtProperty::from(&("path", "/queue")),
        TxtProperty::from("duplex"),
        TxtProperty::from(&("model", "X1")),
    ];
    let info = ServiceInfo::new(
        "_aaxion._tcp.local.",
        "printer-2",
        "printer-2.local.",
        "192.168.1.51",
        631,
        properties,
    )
    .unwrap();
    assert_eq!(
        instance_of(&info).properties,
        vec![
            ("path".to_string(), "/queue".to_string()),
            ("duplex".to_string(), String::new()),
            ("model".to_string(), "X1".to_string()),
        ]
    );
}

#[test]
fn a_value_that_is_no_text_is_empty() {
    let properties = vec![TxtProperty::from(("blob", vec![0xffu8, 0xfe]))];
    let info = ServiceInfo::new(
        "_aaxion._tcp.local.",
        "printer-3",
        "printer-3.local.",
        "192.168.1.52",
        631,
        properties,
    )
    .unwrap();
    assert_eq!(instance_of(&info).properties, vec![("blob".to_string(), String::new())]);
}

#[test]
fn a_resolution_carries_its_instance() {
    match event_of(ServiceEvent::ServiceResolved(printer())) {
        DiscoveryEvent::ServiceResolved { instance } => {
            assert_eq!(instance.fullname, "printer-1._aaxion._tcp.local.");
            assert_eq!(instance.port, 9100);
        },
        other => panic!("taken for {:?}", other),
    }
}

#[test]
fn the_other_kinds_keep_their_names() {
    let ty = "_aaxion._tcp.local.".to_string();
    let name = "printer-1._aaxion._tcp.local.".to_string();
    match event_of(ServiceEvent::SearchStarted(ty.clone())) {
        DiscoveryEvent::SearchStarted { service_type } => assert_eq!(service_type, ty),
        other => panic!("taken for {:?}", other),
    }
    match event_of(ServiceEvent::ServiceFound(ty.clone(), name.clone())) {
        DiscoveryEvent::ServiceFound { service_type, fullname } => {
            assert_eq!(service_type, ty);
            assert_eq!(fullname, name);
        },
        other => panic!("taken for {:?}", other),
    }
    match event_of(ServiceEvent::ServiceRemoved(ty.clone(), name.clone())) {
        DiscoveryEvent::ServiceRemoved { service_type, fullname } => {
            assert_eq!(service_type, ty);
            assert_eq!(fullname, name);
        },
        other => panic!("taken for {:?}", other),
    }
    match event_of(ServiceEvent::SearchStopped(ty.clone())) {
        DiscoveryEvent::SearchStopped { service_type } => assert_eq!(service_type, ty),
        other => panic!("taken for {:?}", other),
    }
}

#[test]
fn an_instance_announced_three_times_is_listed_once() {
    let step = replay(
        "_aaxion._tcp.local.".to_string(),
        1500,
        vec![
            Outcome::DaemonAcquired,
            Outcome::Subscribed,
            Outcome::Polled {
                event: Some(event_of(ServiceEvent::SearchStarted("_aaxion._tcp.local.".to_string()))),
                elapsed_millis: 1,
            },
            Outcome::Polled {
                event: Some(event_of(ServiceEvent::ServiceFound(
                    "_aaxion._tcp.local.".to_string(),
                    "printer-1._aaxion._tcp.local.".to_string(),
                ))),
                elapsed_millis: 40,
            },
            Outcome::Polled {
                event: Some(event_of(ServiceEvent::ServiceResolved(printer()))),
                elapsed_millis: 55,
            },
            Outcome::Polled { event: None, elapsed_millis: 155 },
            Outcome::Polled {
                event: Some(event_of(ServiceEvent::ServiceResolved(printer()))),
                elapsed_millis: 600,
            },
            Outcome::Polled {
                event: Some(event_of(ServiceEvent::ServiceResolved(printer()))),
                elapsed_millis: 1200,
            },
            Outcome::Polled { event: None, elapsed_millis: 1300 },
            Outcome::Polled { event: None, elapsed_millis: 1400 },
            Outcome::Polled { event: None, elapsed_millis: 1500 },
            Outcome::Released,
        ],
    );
    let report = match step {
        Step::Finished(report) => report,
        Step::Continue(session) => panic!("the scan goes on in {:?}", session.phase()),
    };
    assert_eq!(report.release_warning, None);
    let records = report.result.unwrap();
    assert_eq!(records.len(), 1);
    assert_eq!(records[0].fullname, "printer-1._aaxion._tcp.local.");
    assert_eq!(records[0].hostname, "printer-1.local.");
    assert_eq!(records[0].port, 9100);
    assert_eq!(records[0].addresses, vec!["192.168.1.50".to_string()]);
    assert_eq!(records[0].attributes.len(), 1);
    assert_eq!(records[0].attributes.get("model"), Some(&"X1".to_string()));
}
