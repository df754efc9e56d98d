use rknx::connection::tpuart::TpuartConnection;

#[test]
fn test_echo_cancellation_logic() {
    // The repeat bit (0x20) of the control field is ignored.
    let last_sent = vec![0xBC, 0xE0, 0x11, 0x01, 0x09, 0x02, 0x01, 0x00, 0x81];

    let exact = vec![0xBC, 0xE0, 0x11, 0x01, 0x09, 0x02, 0x01, 0x00, 0x81];
    assert!(TpuartConnection::is_echo(&last_sent, &exact));

    let toggled = vec![0x9C, 0xE0, 0x11, 0x01, 0x09, 0x02, 0x01, 0x00, 0x81];
    assert!(TpuartConnection::is_echo(&last_sent, &toggled));

    let diff = vec![0xBC, 0xE0, 0x11, 0x01, 0x09, 0x02, 0x01, 0x00, 0x82];
    assert!(!TpuartConnection::is_echo(&last_sent, &diff));
}

#[test]
fn frames_of_other_lengths_are_not_echoes() {
    let last_sent = vec![0xBC, 0xE0, 0x11];
    assert!(!TpuartConnection::is_echo(&last_sent, &[0xBC, 0xE0]));
    assert!(!TpuartConnection::is_echo(&[], &[]));
}
