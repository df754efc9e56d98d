use rknx::connection::server::{KnxNetIpServer, KnxNetIpServerOptions, ServerAction};
use rknx::connection::tunneling::{
    ConnectOutcome, KnxTunneling, SessionAction, TransportProtocol, TunnelSession, TunnelingOptions,
};
use rknx::connection::usb::{device_matches, KnxUsbConnection, KnxUsbOptions, UsbReport};
use rknx::protocol::cemi::Cemi;
use rknx::protocol::knxnetip_enum::{ConnectionType, HostProtocolCode};
use rknx::protocol::knxnetip_structures::Hpai;

fn server_options() -> KnxNetIpServerOptions {
    KnxNetIpServerOptions {
        ip: "224.0.23.12".to_string(),
        port: 3671,
        local_ip: "192.168.1.10".to_string(),
        individual_address: "1.1.2".to_string(),
        friendly_name: "rknx".to_string(),
        mac_address: "00:11:22:33:44:55".to_string(),
        routing_delay: 20,
        client_addrs: None,
        serial_number: None,
        use_all_interfaces: false,
        is_routing: false,
        max_pending_requests_per_client: 100,
        ignore_acktimeout: false,
    }
}

fn sent_frames(actions: &[ServerAction]) -> Vec<Vec<u8>> {
    actions
        .iter()
        .filter_map(|a| match a {
            ServerAction::SendTo(b, _, _) => Some(b.clone()),
            ServerAction::SendToEndpoint(b, _) => Some(b.clone()),
            _ => None,
        })
        .collect()
}

#[test]
fn a_search_is_answered_with_the_device_description() {
    let mut server = KnxNetIpServer::new(server_options(), Some([192, 168, 1, 10]));
    let search = [0x06, 0x10, 0x02, 0x01, 0x00, 0x0E, 0x08, 0x01, 192, 168, 1, 20, 0x0E, 0x57];
    let actions = server.handle_message(&search, Some([192, 168, 1, 20]), 3671, [192, 168, 1, 10], 0, 0).unwrap();
    let frames = sent_frames(&actions);
    let response = frames.iter().find(|f| f.len() > 4 && f[2] == 0x02 && f[3] == 0x02).expect("search response");
    let (key, device) = KnxNetIpServer::parse_search_response(response, None).expect("device");
    assert_eq!(device.friendly_name, "rknx");
    assert_eq!(device.individual_address, 0x1102);
    assert_eq!(device.mac_address, [0x00, 0x11, 0x22, 0x33, 0x44, 0x55]);
    assert_eq!(key, "192.168.1.10:3671");
}

#[test]
fn a_tunnel_connect_request_gets_a_channel() {
    let mut server = KnxNetIpServer::new(server_options(), Some([192, 168, 1, 10]));
    let mut req = vec![0x06, 0x10, 0x02, 0x05, 0x00, 0x1A];
    req.extend_from_slice(&[0x08, 0x01, 192, 168, 1, 20, 0x0E, 0x58]);
    req.extend_from_slice(&[0x08, 0x01, 192, 168, 1, 20, 0x0E, 0x58]);
    req.extend_from_slice(&[0x04, 0x04, 0x02, 0x00]);
    let actions = server.handle_message(&req, Some([192, 168, 1, 20]), 3672, [192, 168, 1, 10], 0, 0).unwrap();
    let frames = sent_frames(&actions);
    let response = frames.iter().find(|f| f.len() > 7 && f[2] == 0x02 && f[3] == 0x06).expect("connect response");
    assert_ne!(response[6], 0);
    assert_eq!(response[7], 0);
    assert_eq!(server.clients.len(), 1);
}

#[test]
fn datagrams_from_the_server_itself_are_ignored() {
    let mut server = KnxNetIpServer::new(server_options(), None);
    let search = [0x06, 0x10, 0x02, 0x01, 0x00, 0x0E, 0x08, 0x01, 192, 168, 1, 10, 0x0E, 0x57];
    let actions = server.handle_message(&search, Some([192, 168, 1, 10]), 3671, [192, 168, 1, 10], 0, 0).unwrap();
    assert!(actions.is_empty());
    assert!(server.handle_message(&[0x06, 0x10], None, 1, [0, 0, 0, 0], 0, 0).is_err());
}

fn tunnel_options() -> TunnelingOptions {
    TunnelingOptions {
        ip: "192.168.1.50".to_string(),
        port: 3671,
        local_ip: Some("192.168.1.20".to_string()),
        local_port: 0,
        transport: TransportProtocol::Udp,
        connection_type: ConnectionType::TunnelConnection,
        use_route_back: false,
        max_queue_size: 100,
        auto_reconnect: false,
        max_reconnect_attempts: 0,
        reconnect_delay_ms: 1000,
    }
}

#[test]
fn the_client_connect_request_and_response() {
    let client = KnxTunneling::new(tunnel_options());
    let req = client.connect_request(50000);
    assert_eq!(&req[0..6], &[0x06, 0x10, 0x02, 0x05, 0x00, 0x1A]);
    assert_eq!(&req[6..14], &[0x08, 0x01, 192, 168, 1, 20, 0xC3, 0x50]);
    assert_eq!(&req[22..26], &[0x04, 0x04, 0x02, 0x00]);

    let mut resp = vec![0x06, 0x10, 0x02, 0x06, 0x00, 0x14, 0x15, 0x00];
    resp.extend_from_slice(&[0x08, 0x01, 192, 168, 1, 50, 0x0E, 0x57]);
    resp.extend_from_slice(&[0x04, 0x04, 0x11, 0x05]);
    match KnxTunneling::read_connect_response(&resp) {
        ConnectOutcome::Accepted(ch, ia) => {
            assert_eq!(ch, 0x15);
            assert_eq!(ia, "1.1.5");
        }
        other => panic!("unexpected {:?}", other),
    }
    resp[7] = 0x24;
    assert!(matches!(KnxTunneling::read_connect_response(&resp), ConnectOutcome::Rejected(0x24)));
}

#[test]
fn the_session_numbers_frames_and_completes_on_ack() {
    let hpai = Hpai::new(HostProtocolCode::Ipv4Udp, [192, 168, 1, 20], 50000);
    let mut session = TunnelSession::new(0x15, hpai, 0);
    let cemi = [0x11, 0x00, 0xBC, 0xE0, 0x00, 0x00, 0x09, 0x01, 0x01, 0x00, 0x81];
    let frame = session.send_cemi(&cemi, 10);
    assert_eq!(&frame[0..10], &[0x06, 0x10, 0x04, 0x20, 0x00, 0x15, 0x04, 0x15, 0x00, 0x00]);
    assert_eq!(&frame[10..], &cemi);
    assert!(!session.can_send());
    let ack = [0x06, 0x10, 0x04, 0x21, 0x00, 0x0A, 0x04, 0x15, 0x00, 0x00];
    let steps = session.on_packet(&ack);
    assert!(matches!(steps.as_slice(), [SessionAction::Complete(Ok(()))]));
    assert_eq!(session.seq_num, 1);
    assert!(session.can_send());
}

#[test]
fn incoming_requests_are_acknowledged_and_delivered() {
    let hpai = Hpai::new(HostProtocolCode::Ipv4Udp, [192, 168, 1, 20], 50000);
    let mut session = TunnelSession::new(0x15, hpai, 0);
    let cemi = [0x29, 0x00, 0xBC, 0xE0, 0x11, 0x0A, 0x09, 0x01, 0x01, 0x00, 0x81];
    let mut req = vec![0x06, 0x10, 0x04, 0x20, 0x00, 0x15, 0x04, 0x15, 0x00, 0x00];
    req.extend_from_slice(&cemi);
    let steps = session.on_packet(&req);
    match steps.as_slice() {
        [SessionAction::Send(ack), SessionAction::Deliver(d)] => {
            assert_eq!(ack, &vec![0x06, 0x10, 0x04, 0x21, 0x00, 0x0A, 0x04, 0x15, 0x00, 0x00]);
            assert_eq!(d, &cemi.to_vec());
        }
        other => panic!("unexpected {:?}", other),
    }
    assert_eq!(session.rx_seq_num, 1);
    // The same request again is acknowledged only.
    let again = session.on_packet(&req);
    assert!(matches!(again.as_slice(), [SessionAction::Send(_)]));
    assert_eq!(session.rx_seq_num, 1);
    let parsed = Cemi::from_buffer(&cemi).unwrap();
    assert!(matches!(parsed, Cemi::LDataInd(_)));
}

#[test]
fn usb_devices_and_reports() {
    let any = KnxUsbOptions { path: None, vendor_id: None, product_id: None, individual_address: "1.1.0".to_string() };
    assert!(device_matches(&any, 0x0E77, 0x0001, None));
    assert!(device_matches(&any, 0x1234, 0x0001, Some("My KNX Stick")));
    assert!(!device_matches(&any, 0x1234, 0x0001, Some("Keyboard")));
    let exact = KnxUsbOptions { vendor_id: Some(0x1234), product_id: Some(0x0002), ..any.clone() };
    assert!(device_matches(&exact, 0x1234, 0x0002, None));
    assert!(!device_matches(&exact, 0x0E77, 0x0002, None));

    let report = KnxUsbConnection::build_hid_report(&[0xAA, 0xBB]);
    assert_eq!(report.len(), 64);
    assert_eq!(&report[0..5], &[0x01, 0x13, 0x02, 0xAA, 0xBB]);
    assert!(report[5..].iter().all(|b| *b == 0));
    assert!(KnxUsbConnection::build_hid_report(&[0u8; 62]).is_empty());
    let transfer = KnxUsbConnection::build_usb_transfer(0x01, 0x03, &[0x29]);
    assert_eq!(transfer, vec![0x00, 0x08, 0x00, 0x01, 0x01, 0x03, 0x00, 0x00, 0x29]);

    let conn = KnxUsbConnection::new(any);
    let frame = KnxUsbConnection::build_hid_report(&KnxUsbConnection::build_usb_transfer(0x01, 0x03, &[0x29, 0x00]));
    assert!(matches!(conn.classify_report(&frame), UsbReport::Frame(_)));
}

#[test]
fn tunnelling_requests_are_acknowledged_indicated_and_routed() {
    let mut server = KnxNetIpServer::new(server_options(), Some([192, 168, 1, 10]));
    let mut req = vec![0x06, 0x10, 0x02, 0x05, 0x00, 0x1A];
    req.extend_from_slice(&[0x08, 0x01, 192, 168, 1, 20, 0x0E, 0x58]);
    req.extend_from_slice(&[0x08, 0x01, 192, 168, 1, 20, 0x0E, 0x58]);
    req.extend_from_slice(&[0x04, 0x04, 0x02, 0x00]);
    server.handle_message(&req, Some([192, 168, 1, 20]), 3672, [192, 168, 1, 10], 0, 0).unwrap();
    let ch = server.clients[0].channel_id;
    let addr = server.clients[0].knx_address;
    let queued = server.pacing.msg_queue.len();
    // L_Data.req with an empty source address, group value write to 1/1/1.
    let body = vec![0x04, ch, 0x00, 0x00, 0x11, 0x00, 0xBC, 0xE0, 0x00, 0x00, 0x09, 0x01, 0x01, 0x00, 0x81];
    let actions = server.handle_tunnelling_request(&body, [192, 168, 1, 10], 10);
    match &actions[0] {
        ServerAction::SendToEndpoint(p, e) => {
            assert_eq!(p, &vec![0x06, 0x10, 0x04, 0x21, 0x00, 0x0A, 0x04, ch, 0x00, 0x00]);
            assert_eq!(e, "192.168.1.20:3672");
        }
        other => panic!("unexpected {:?}", other),
    }
    match &actions[1] {
        ServerAction::Indicate(_, b) => {
            assert_eq!(b[0], 0x11);
            assert_eq!(((b[4] as u16) << 8) | b[5] as u16, addr);
        }
        other => panic!("unexpected {:?}", other),
    }
    assert_eq!(server.pacing.msg_queue.len(), queued + 1);
    let routed = server.pacing.msg_queue.last().unwrap();
    assert_eq!(routed[6], 0x29);
    // The same request again is only acknowledged.
    let again = server.handle_tunnelling_request(&body, [192, 168, 1, 10], 20);
    assert_eq!(again.len(), 1);
    // An unexpected sequence number is dropped.
    let mut skipped = body.clone();
    skipped[2] = 0x05;
    assert!(server.handle_tunnelling_request(&skipped, [192, 168, 1, 10], 30).is_empty());
}

#[test]
fn connection_state_and_disconnect_requests_are_answered() {
    let mut server = KnxNetIpServer::new(server_options(), Some([192, 168, 1, 10]));
    let mut req = vec![0x06, 0x10, 0x02, 0x05, 0x00, 0x1A];
    req.extend_from_slice(&[0x08, 0x01, 192, 168, 1, 20, 0x0E, 0x58]);
    req.extend_from_slice(&[0x08, 0x01, 192, 168, 1, 20, 0x0E, 0x58]);
    req.extend_from_slice(&[0x04, 0x04, 0x02, 0x00]);
    server.handle_message(&req, Some([192, 168, 1, 20]), 3672, [192, 168, 1, 10], 0, 0).unwrap();
    let ch = server.clients[0].channel_id;
    let body = [ch, 0x00, 0x08, 0x01, 192, 168, 1, 20, 0x0E, 0x57];
    let state = server.handle_connection_state(&body, Some([192, 168, 1, 20]), 3671, 50).unwrap();
    assert_eq!(state.len(), 1);
    match &state[0] {
        ServerAction::SendTo(p, ip, port) => {
            assert_eq!(p, &vec![0x06, 0x10, 0x02, 0x08, 0x00, 0x08, ch, 0x00]);
            assert_eq!(*ip, [192, 168, 1, 20]);
            assert_eq!(*port, 0x0E57);
        }
        other => panic!("unexpected {:?}", other),
    }
    let unknown = [ch.wrapping_add(1), 0x00, 0x08, 0x01, 192, 168, 1, 20, 0x0E, 0x57];
    let state = server.handle_connection_state(&unknown, None, 0, 60).unwrap();
    match &state[0] {
        ServerAction::SendTo(p, _, _) => assert_eq!(p[7], 0x21),
        other => panic!("unexpected {:?}", other),
    }
    assert!(server.handle_connection_state(&[ch, 0x00, 0x08], None, 0, 70).is_err());
    let bye = server.handle_disconnect(&body, Some([192, 168, 1, 20]), 3671).unwrap();
    assert_eq!(bye.len(), 2);
    assert!(server.clients.is_empty());
    match &bye[1] {
        ServerAction::SendTo(p, _, _) => assert_eq!(p, &vec![0x06, 0x10, 0x02, 0x0A, 0x00, 0x08, ch, 0x00]),
        other => panic!("unexpected {:?}", other),
    }
}

#[test]
fn the_heartbeat_falls_due_every_minute() {
    let hpai = Hpai::new(HostProtocolCode::Ipv4Udp, [192, 168, 1, 30], 3671);
    let mut session = TunnelSession::new(0x15, hpai, 1_000);
    assert!(session.on_timer_tick(30_000).is_none());
    let beat = session.on_timer_tick(61_000).expect("heartbeat due");
    assert_eq!(&beat[2..4], &[0x02, 0x07]);
    assert_eq!(beat[6], 0x15);
    assert!(session.heartbeat_pending);
    assert!(session.on_timer_tick(90_000).is_none());
}
