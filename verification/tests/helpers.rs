use rknx::connection::server::{parse_hex_u8, parse_mac};
use rknx::errors::KnxError;
use rknx::utils::ip::{ip_eq, ipv4_string, is_unspecified, parse_ipv4};
use rknx::utils::knx_helper::KnxHelper;
use rknx::utils::logger::{strip_ansi_escapes, LogLevel, Logger, LoggerOptions};
use rknx::utils::text::decimal_string;

#[test]
fn addresses_parse_and_print() {
    assert_eq!(KnxHelper::get_address_from_string("1.1.10"), Ok([0x11, 0x0A]));
    assert_eq!(KnxHelper::get_address_from_string("1/2/3"), Ok([0x0A, 0x03]));
    assert!(KnxHelper::get_address_from_string("1.1").is_err());
    assert_eq!(KnxHelper::get_address_from_string("15.15.255"), Ok([0xFF, 0xFF]));
    assert!(KnxHelper::get_address_from_string("16.1.1").is_err());
    assert_eq!(KnxHelper::get_address_to_string(&[0x11, 0x0A], ".", true), Ok("1.1.10".to_string()));
    assert_eq!(KnxHelper::get_address_to_string(&[0x0A, 0x03], "/", true), Ok("1/2/3".to_string()));
    assert!(KnxHelper::is_valid_group_address("1/2/3"));
    assert!(!KnxHelper::is_valid_group_address("1.2.3"));
    assert!(KnxHelper::is_valid_individual_address("15.15.255"));
}

#[test]
fn ipv4_texts() {
    assert_eq!(parse_ipv4("192.168.1.20"), Some([192, 168, 1, 20]));
    assert_eq!(parse_ipv4("192.168.1"), None);
    assert_eq!(parse_ipv4("256.0.0.1"), None);
    assert_eq!(ipv4_string(&[10, 0, 0, 1]), "10.0.0.1");
    assert!(is_unspecified(&[0, 0, 0, 0]));
    assert!(ip_eq(&[1, 2, 3, 4], &[1, 2, 3, 4]));
}

#[test]
fn hex_and_mac_parsing() {
    let ff: Vec<char> = "ff".chars().collect();
    assert_eq!(parse_hex_u8(&ff), Some(255));
    let big: Vec<char> = "100".chars().collect();
    assert_eq!(parse_hex_u8(&big), None);
    assert_eq!(parse_mac("00:11:22:AA:bb:CC"), Ok([0x00, 0x11, 0x22, 0xAA, 0xBB, 0xCC]));
    assert_eq!(parse_mac("00-11-22-33-44-55"), Ok([0, 0x11, 0x22, 0x33, 0x44, 0x55]));
    assert_eq!(parse_mac("00:11:22"), Err(KnxError::InvalidParametersForDpt));
}

#[test]
fn log_levels_and_lines() {
    assert_eq!(LogLevel::from_str("DEBUG"), LogLevel::Debug);
    assert_eq!(LogLevel::from_str("Warning"), LogLevel::Warn);
    assert_eq!(LogLevel::from_str("off"), LogLevel::NoLog);
    assert_eq!(LogLevel::from_str("whatever"), LogLevel::Info);
    let opts = LoggerOptions::default();
    assert!(opts.should_log(LogLevel::Error));
    assert!(!opts.should_log(LogLevel::Debug));
    let opts = opts.setup(Some("error".to_string()), Some(true), None, Some("knx".to_string()));
    assert!(!opts.should_log(LogLevel::Warn));
    assert_eq!(opts.file_name("2024-01-02"), "2024-01-02-knx.log");
    let logger = Logger::new("Main").child("Sub");
    assert_eq!(logger.module_name, "Main/Sub");
    assert_eq!(logger.file_line(LogLevel::Info, "T", "\x1b[31mred\x1b[0m"), "T [Main/Sub] [INFO] red");
    assert_eq!(strip_ansi_escapes("a\x1b[1;32mb\x1b[0mc"), "abc");
}

#[test]
fn error_messages_and_decimals() {
    assert_eq!(KnxError::Timeout.message(), "Connection timeout");
    assert_eq!(KnxError::Protocol("x".to_string()).message(), "Protocol error: x");
    assert_eq!(decimal_string(0), "0");
    assert_eq!(decimal_string(4294967295), "4294967295");
}
