use rknx::connection::tunnel_connection::{RequestAction, TunnelConnection};
use rknx::protocol::knxnetip_enum::{HostProtocolCode, KnxLayer, KnxNetIpErrorCodes, KnxNetIpServiceType};
use rknx::protocol::knxnetip_structures::Hpai;

fn make_connection() -> TunnelConnection {
    TunnelConnection::new(
        10,
        Hpai::new(HostProtocolCode::Ipv4Udp, [192, 168, 1, 100], 3671),
        Hpai::new(HostProtocolCode::Ipv4Udp, [192, 168, 1, 100], 3672),
        0x1101,
        "1.1.1".to_string(),
        KnxLayer::LinkLayer,
        120_000,
        1_000,
        100,
    )
}

#[test]
fn test_sequence_number_validation() {
    let mut conn = make_connection();
    assert_eq!(conn.rno, 0);

    let v = conn.validate_request(0);
    assert_eq!(v.action, RequestAction::Process);
    assert_eq!(conn.rno, 1);

    let v = conn.validate_request(1);
    assert_eq!(v.action, RequestAction::Process);
    assert_eq!(conn.rno, 2);

    let v = conn.validate_request(1);
    assert_eq!(v.action, RequestAction::RetransmitAck);
    assert_eq!(conn.rno, 2);

    let v = conn.validate_request(5);
    assert_eq!(v.action, RequestAction::Discard);
}

#[test]
fn test_enqueue_and_process() {
    let mut conn = make_connection();
    let cemi = vec![0x29, 0x00, 0xBC, 0xE0, 0x11, 0x01, 0x09, 0x02, 0x01, 0x00, 0x81];

    assert!(conn.enqueue(&cemi, KnxNetIpServiceType::TunnellingRequest).is_none());
    assert_eq!(conn.sno, 1);

    let packet = conn.process_queue();
    assert!(packet.is_some());
    assert!(conn.is_sending);

    let packet2 = conn.process_queue();
    assert!(packet2.is_none());
}

#[test]
fn test_handle_ack_success() {
    let mut conn = make_connection();
    let cemi = vec![0x29, 0x00];
    conn.enqueue(&cemi, KnxNetIpServiceType::TunnellingRequest);
    conn.process_queue();

    let result = conn.handle_ack(0, KnxNetIpErrorCodes::ENoError.code());
    assert!(result.is_ok());
    assert!(!conn.is_sending);
}

#[test]
fn test_handle_ack_error() {
    let mut conn = make_connection();
    let cemi = vec![0x29, 0x00];
    conn.enqueue(&cemi, KnxNetIpServiceType::TunnellingRequest);
    conn.process_queue();

    let result = conn.handle_ack(0, KnxNetIpErrorCodes::ESequenceNumber.code());
    assert!(result.is_err());
}

#[test]
fn test_queue_overflow() {
    let mut conn = TunnelConnection::new(
        10,
        Hpai::null_hpai(),
        Hpai::null_hpai(),
        0x1101,
        "1.1.1".to_string(),
        KnxLayer::LinkLayer,
        120_000,
        1_000,
        2,
    );

    conn.enqueue(&[0x29], KnxNetIpServiceType::TunnellingRequest);
    conn.enqueue(&[0x29], KnxNetIpServiceType::TunnellingRequest);
    let overflow = conn.enqueue(&[0x29], KnxNetIpServiceType::TunnellingRequest);
    assert_eq!(overflow, Some("queue_full"));
}

#[test]
fn test_wrapping_sequence_numbers() {
    let mut conn = make_connection();
    conn.rno = 255;

    let v = conn.validate_request(255);
    assert_eq!(v.action, RequestAction::Process);
    assert_eq!(conn.rno, 0);

    let v = conn.validate_request(255);
    assert_eq!(v.action, RequestAction::RetransmitAck);
}

#[test]
fn enqueued_frame_layout() {
    let mut conn = make_connection();
    conn.enqueue(&[0x29, 0x00], KnxNetIpServiceType::TunnellingRequest);
    let packet = conn.process_queue().unwrap();
    assert_eq!(packet, vec![0x06, 0x10, 0x04, 0x20, 0x00, 0x0C, 0x04, 10, 0, 0x00, 0x29, 0x00]);
}

#[test]
fn retransmission_happens_once() {
    let mut conn = make_connection();
    conn.enqueue(&[0x29], KnxNetIpServiceType::TunnellingRequest);
    let first = conn.process_queue().unwrap();
    assert_eq!(conn.pending_ack_is_retransmission(), Some(false));
    let again = conn.retransmit().unwrap();
    assert_eq!(first, again);
    assert_eq!(conn.pending_ack_is_retransmission(), Some(true));
    assert!(conn.retransmit().is_none());
}

#[test]
fn ack_for_other_sequence_is_ignored() {
    let mut conn = make_connection();
    conn.enqueue(&[0x29], KnxNetIpServiceType::TunnellingRequest);
    conn.process_queue();
    assert!(conn.handle_ack(7, 0).is_ok());
    assert!(conn.is_sending);
    assert!(conn.has_pending_work());
    conn.close();
    assert!(!conn.has_pending_work());
}

#[test]
fn endpoints_are_rendered() {
    let conn = make_connection();
    assert_eq!(conn.data_endpoint(), "192.168.1.100:3672");
    assert_eq!(conn.control_endpoint(), "192.168.1.100:3671");
}

#[test]
fn heartbeat_expiry_by_time() {
    let mut conn = make_connection();
    conn.reset_heartbeat_at(1000);
    assert!(!conn.is_heartbeat_expired_at(120_999));
    assert!(conn.is_heartbeat_expired_at(121_000));
}
