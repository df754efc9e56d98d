use rknx::connection::clock::millis_since;
use rknx::protocol::cemi::Cemi;
use rknx::connection::router::{RouteStep, 
    AddressFilter, DirectionFilter, FilterPolicy, Router, RouterOptions,
};

fn options_with(to_ip_filter: DirectionFilter) -> RouterOptions {
    RouterOptions {
        individual_address: "15.15.0".to_string(),
        use_single_ia: true,
        handle_hop_count: false,
        to_ip_filter,
        to_local_filter: DirectionFilter::default(),
        knx_net_ip_server: None,
        tpuart: None,
        tunneling: None,
        usb: None,
    }
}

#[test]
fn test_router_ia_learning() {
    let mut bridge = Router::new(options_with(DirectionFilter::default()));
    bridge.learn_address("1.1.1", "TPUART");
    bridge.learn_address("1.1.2", "IP Tunneling: 192.168.1.1:3671");

    assert_eq!(bridge.learnt("1.1.1"), Some("TPUART".to_string()));
    assert_eq!(bridge.learnt("1.1.2"), Some("IP Tunneling: 192.168.1.1:3671".to_string()));

    // Special addresses are not learnt.
    bridge.learn_address("0.0.0", "TPUART");
    assert!(bridge.learnt("0.0.0").is_none());
    bridge.learn_address("15.15.255", "TPUART");
    assert!(bridge.learnt("15.15.255").is_none());
}

#[test]
fn test_gc_destinations() {
    let mut bridge = Router::new(options_with(DirectionFilter::default()));

    // The router's clock starts at its creation: wait until two seconds
    // have passed on it, then record one destination two seconds ago and
    // one now.
    let mut now = millis_since(&bridge.origin);
    while now < 2_000 {
        now = millis_since(&bridge.origin);
    }
    bridge.recent_destinations.push(("1/1/1".to_string(), now - 2_000));
    bridge.recent_destinations.push(("1/1/2".to_string(), now));

    bridge.gc_destinations();

    assert!(!bridge.has_recent_destination("1/1/1"));
    assert!(bridge.has_recent_destination("1/1/2"));
}

#[test]
fn test_filter_evaluation() {
    let filter = DirectionFilter {
        group_address: Some(AddressFilter {
            addresses: vec!["1/1/1".to_string(), "1/1/2".to_string()],
            policy: FilterPolicy::DiscardAll,
        }),
        individual_address: None,
    };
    let bridge = Router::new(options_with(filter));

    assert!(!bridge.evaluate_filter("1/1/1", true, false));
    assert!(bridge.evaluate_filter("1/1/3", true, false));
    assert!(bridge.evaluate_filter("1.1.1", false, false));
}

#[test]
fn learning_again_replaces_the_link() {
    let mut bridge = Router::new(options_with(DirectionFilter::default()));
    bridge.learn_address("1.1.5", "TPUART");
    bridge.learn_address("1.1.5", "KNXUSB");
    assert_eq!(bridge.learnt("1.1.5"), Some("KNXUSB".to_string()));
    assert_eq!(bridge.get_address_table().len(), 1);
}

#[test]
fn remembering_a_destination_again_renews_its_time() {
    let mut bridge = Router::new(options_with(DirectionFilter::default()));
    bridge.remember_destination("1/2/3", 100);
    bridge.remember_destination("1/2/4", 200);
    bridge.remember_destination("1/2/3", 900);
    assert_eq!(bridge.recent_destinations.len(), 2);
    assert_eq!(bridge.recent_destinations[0], ("1/2/3".to_string(), 900));
    // At 1500 the entry of 1/2/4 (seen at 200) has expired, 1/2/3 has not.
    bridge.gc_destinations_at(1500);
    assert!(bridge.has_recent_destination("1/2/3"));
    assert!(!bridge.has_recent_destination("1/2/4"));
}

#[test]
fn a_discard_filter_on_individual_addresses_stops_listed_sources() {
    let filter = DirectionFilter {
        group_address: None,
        individual_address: Some(AddressFilter {
            addresses: vec!["1.1.9".to_string()],
            policy: FilterPolicy::DiscardAll,
        }),
    };
    let mut options = options_with(DirectionFilter::default());
    options.to_local_filter = filter;
    let bridge = Router::new(options);
    assert!(!bridge.evaluate_filter("1.1.9", false, true));
    assert!(bridge.evaluate_filter("1.1.9", false, false));
    assert!(bridge.evaluate_filter("1/1/9", true, true));
}

#[test]
fn frames_are_checked_learnt_remembered_and_routed() {
    let mut bridge = Router::new(options_with(DirectionFilter::default()));
    bridge.add_link("TPUART");
    bridge.add_link("IP Tunneling: 192.168.1.1:3671");
    // Group write from 1.1.10 to 1/1/1 arriving on the TP-UART link.
    let frame = [0x29, 0x00, 0xBC, 0xE0, 0x11, 0x0A, 0x09, 0x01, 0x01, 0x00, 0x81];
    let cemi = Cemi::from_buffer(&frame).unwrap();
    let steps = bridge.process_incoming(&cemi, "TPUART", 5_000);
    assert_eq!(steps.len(), 2);
    assert!(matches!(&steps[0], RouteStep::Indicate));
    assert!(matches!(&steps[1], RouteStep::Send(k) if k == "IP Tunneling: 192.168.1.1:3671"));
    assert_eq!(bridge.learnt("1.1.10"), Some("TPUART".to_string()));
    assert!(bridge.has_recent_destination("1/1/1"));
    // The same source seen on another link is dropped.
    assert!(bridge.process_incoming(&cemi, "IP Tunneling: 192.168.1.1:3671", 5_100).is_empty());

    // A frame claiming the router's own address 15.15.255 is dropped.
    let mut own = options_with(DirectionFilter::default());
    own.individual_address = "15.15.255".to_string();
    let mut bridge = Router::new(own);
    bridge.add_link("TPUART");
    let from_own = [0x29, 0x00, 0xBC, 0xE0, 0xFF, 0xFF, 0x09, 0x01, 0x01, 0x00, 0x81];
    let cemi = Cemi::from_buffer(&from_own).unwrap();
    assert!(bridge.process_incoming(&cemi, "TPUART", 0).is_empty());
    assert!(!bridge.has_recent_destination("1/1/1"));
}
