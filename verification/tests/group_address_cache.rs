use rknx::protocol::cache::group_address_cache::GroupAddressCache;
use rknx::protocol::cemi::Cemi;
use rknx::protocol::data::knx_data_decode::DptValue;

/// An L_Data.ind from 1.1.10 to group 1/1/1 carrying a group value write
/// of the given six-bit value.
fn group_write(value: u8, dest_low: u8) -> Cemi {
    let frame = [0x29, 0x00, 0xBC, 0xE0, 0x11, 0x0A, 0x09, dest_low, 0x01, 0x00, 0x80 | value];
    Cemi::from_buffer(&frame).unwrap()
}

#[test]
fn nothing_is_kept_while_switched_off() {
    let mut cache = GroupAddressCache::new();
    assert!(!cache.is_enabled());
    assert!(!cache.process_cemi_at(group_write(1, 1), 1_000));
    assert!(cache.query_at(&["1/1/1".to_string()], None, 5_000, false).is_empty());
}

#[test]
fn the_latest_telegram_comes_first() {
    let mut cache = GroupAddressCache::new();
    cache.set_enabled(true);
    cache.set_address_dpt("1/1/1".to_string(), "1.001".to_string());
    assert!(cache.process_cemi_at(group_write(0, 1), 1_000));
    assert!(cache.process_cemi_at(group_write(1, 1), 2_000));

    let latest = cache.query_at(&["1/1/1".to_string()], None, 0, true);
    assert_eq!(latest.len(), 1);
    assert_eq!(latest[0].timestamp, 2_000);
    assert_eq!(latest[0].group_address, "1/1/1");
    assert_eq!(latest[0].decoded_value, Some(DptValue::Dpt1(true)));

    let all = cache.query_at(&["1/1/1".to_string()], None, 5_000, false);
    assert_eq!(all.len(), 2);
    assert_eq!(all[1].decoded_value, Some(DptValue::Dpt1(false)));
}

#[test]
fn entries_per_address_are_bounded() {
    let mut cache = GroupAddressCache::new();
    cache.set_enabled(true);
    cache.configure(10, 2);
    for t in 0..5u64 {
        assert!(cache.process_cemi_at(group_write(1, 1), t * 100));
    }
    let all = cache.query_at(&["1/1/1".to_string()], None, 1_000, false);
    assert_eq!(all.len(), 2);
    assert_eq!(all[0].timestamp, 400);
    assert_eq!(all[1].timestamp, 300);
}

#[test]
fn a_full_cache_drops_the_address_seen_first() {
    let mut cache = GroupAddressCache::new();
    cache.set_enabled(true);
    cache.configure(2, 10);
    cache.process_cemi_at(group_write(1, 1), 10);
    cache.process_cemi_at(group_write(1, 2), 20);
    cache.process_cemi_at(group_write(1, 3), 30);
    let addrs = ["1/1/1".to_string(), "1/1/2".to_string(), "1/1/3".to_string()];
    let all = cache.query_at(&addrs, None, 100, false);
    assert_eq!(all.len(), 2);
    assert_eq!(all[0].group_address, "1/1/2");
    assert_eq!(all[1].group_address, "1/1/3");
}

#[test]
fn the_window_filters_by_time() {
    let mut cache = GroupAddressCache::new();
    cache.set_enabled(true);
    cache.process_cemi_at(group_write(1, 1), 100);
    cache.process_cemi_at(group_write(1, 1), 200);
    cache.process_cemi_at(group_write(1, 1), 300);
    let addrs = ["1/1/1".to_string()];
    let w = cache.query_at(&addrs, Some(150), 250, false);
    assert_eq!(w.len(), 1);
    assert_eq!(w[0].timestamp, 200);
    let latest_in_window = cache.query_at(&addrs, Some(100), 250, true);
    assert_eq!(latest_in_window.len(), 1);
    assert_eq!(latest_in_window[0].timestamp, 200);
    let up_to = cache.query_at(&addrs, None, 200, false);
    assert_eq!(up_to.len(), 2);
    assert_eq!(up_to[0].timestamp, 200);
}

#[test]
fn delete_and_clear_forget_telegrams() {
    let mut cache = GroupAddressCache::new();
    cache.set_enabled(true);
    cache.set_address_dpt("1/1/2".to_string(), "5".to_string());
    cache.process_cemi_at(group_write(1, 1), 100);
    cache.process_cemi_at(group_write(1, 2), 100);
    assert!(cache.delete_address("1/1/1"));
    assert!(!cache.delete_address("1/1/1"));
    assert!(cache.query_at(&["1/1/1".to_string()], None, 500, false).is_empty());
    assert_eq!(cache.query_at(&["1/1/2".to_string()], None, 500, false).len(), 1);
    cache.clear();
    assert!(cache.query_at(&["1/1/2".to_string()], None, 500, false).is_empty());
    assert_eq!(cache.get_address_dpt("1/1/2"), Some("5".to_string()));
}

#[test]
fn values_encode_with_the_configured_type() {
    let mut cache = GroupAddressCache::new();
    cache.set_address_dpt("1/1/1".to_string(), "5.010".to_string());
    assert_eq!(cache.encode_value("1/1/1", &DptValue::Dpt5(200)), Some(vec![200]));
    assert_eq!(cache.encode_value("1/1/9", &DptValue::Dpt5(200)), None);
    assert_eq!(cache.get_address_dpt("1/1/9"), None);
}
