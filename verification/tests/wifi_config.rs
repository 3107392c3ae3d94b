use esp_idf::error::Error;
use esp_idf::wifi::{copy_to_slice_nul, Config, InitConfig, Interface, StaConfig, WifiMode};

#[test]
fn init_config_default_matches_the_vendor_constant_set() {
    let c = InitConfig::default();
    assert_eq!(c.static_rx_buf_num, 10);
    assert_eq!(c.dynamic_rx_buf_num, 32);
    assert_eq!(c.tx_buf_type, 1);
    assert_eq!(c.static_tx_buf_num, 0);
    assert_eq!(c.dynamic_tx_buf_num, 32);
    assert_eq!(c.csi_enable, 0);
    assert_eq!(c.ampdu_rx_enable, 1);
    assert_eq!(c.ampdu_tx_enable, 1);
    assert_eq!(c.nvs_enable, 1);
    assert_eq!(c.nano_enable, 0);
    assert_eq!(c.tx_ba_win, 6);
    assert_eq!(c.rx_ba_win, 6);
    assert_eq!(c.wifi_task_core_id, 0);
    assert_eq!(c.beacon_max_len, 752);
    assert_eq!(c.mgmt_sbuf_num, 32);
    assert_eq!(c.magic, 0x1F2F3F4F);
}

#[test]
fn sta_config_baseline() {
    let s = StaConfig::new();
    assert_eq!(*s.ssid(), vec![0u8; 32]);
    assert_eq!(*s.password(), vec![0u8; 64]);
    assert_eq!(s.scan_method(), 0);
    assert!(!s.bssid_set());
    assert_eq!(*s.bssid(), vec![0u8; 6]);
    assert_eq!(s.channel(), 0);
    assert_eq!(s.listen_interval(), 0);
    assert_eq!(s.sort_method(), 0);
    assert_eq!(s.threshold_rssi(), -127);
    assert_eq!(s.threshold_authmode(), 3);
}

#[test]
fn set_ssid_writes_the_exact_bytes_and_a_terminator() {
    let mut s = StaConfig::new();
    assert_eq!(s.set_ssid("mynet"), Ok(()));
    let mut expected = vec![0u8; 32];
    expected[..5].copy_from_slice(b"mynet");
    assert_eq!(*s.ssid(), expected);
    assert_eq!(*s.password(), vec![0u8; 64]);
}

#[test]
fn set_ssid_that_exactly_fits_with_terminator_succeeds() {
    let mut s = StaConfig::new();
    let name: String = "a".repeat(31);
    assert_eq!(s.set_ssid(&name), Ok(()));
    let mut expected = vec![b'a'; 32];
    expected[31] = 0;
    assert_eq!(*s.ssid(), expected);
}

#[test]
fn overlong_ssid_is_rejected_without_a_partial_write() {
    let mut s = StaConfig::new();
    assert_eq!(s.set_ssid("first"), Ok(()));
    let before = s.ssid().clone();
    let too_long: String = "b".repeat(32);
    assert_eq!(s.set_ssid(&too_long), Err(Error::InvalidArgument));
    assert_eq!(*s.ssid(), before);
}

#[test]
fn overlong_password_is_rejected_without_a_partial_write() {
    let mut s = StaConfig::new();
    let too_long: String = "p".repeat(64);
    assert_eq!(s.set_password(&too_long), Err(Error::InvalidArgument));
    assert_eq!(*s.password(), vec![0u8; 64]);
    let fits: String = "p".repeat(63);
    assert_eq!(s.set_password(&fits), Ok(()));
    let mut expected = vec![b'p'; 64];
    expected[63] = 0;
    assert_eq!(*s.password(), expected);
}

#[test]
fn from_builds_the_baseline_with_both_buffers_set() {
    let s = StaConfig::from(&Config { ssid: "net", password: "pw" }).unwrap();
    let mut ssid = vec![0u8; 32];
    ssid[..3].copy_from_slice(b"net");
    let mut password = vec![0u8; 64];
    password[..2].copy_from_slice(b"pw");
    assert_eq!(*s.ssid(), ssid);
    assert_eq!(*s.password(), password);
    assert_eq!(s.scan_method(), 0);
    assert!(!s.bssid_set());
    assert_eq!(s.threshold_rssi(), -127);
    assert_eq!(s.threshold_authmode(), 3);
}

#[test]
fn from_rejects_an_overlong_ssid_or_password() {
    let long_ssid = "s".repeat(32);
    assert_eq!(
        StaConfig::from(&Config { ssid: long_ssid.leak(), password: "pw" }).err(),
        Some(Error::InvalidArgument)
    );
    let long_password = "p".repeat(64);
    assert_eq!(
        StaConfig::from(&Config { ssid: "net", password: long_password.leak() }).err(),
        Some(Error::InvalidArgument)
    );
}

#[test]
fn bounded_copy_leaves_bytes_past_the_terminator_alone() {
    let mut dest = vec![0xFFu8; 8];
    assert_eq!(copy_to_slice_nul(&mut dest, "abc"), Ok(()));
    assert_eq!(dest, vec![b'a', b'b', b'c', 0, 0xFF, 0xFF, 0xFF, 0xFF]);
}

#[test]
fn bounded_copy_of_the_empty_string_writes_only_the_terminator() {
    let mut dest = vec![0xFFu8; 4];
    assert_eq!(copy_to_slice_nul(&mut dest, ""), Ok(()));
    assert_eq!(dest, vec![0, 0xFF, 0xFF, 0xFF]);
}

#[test]
fn bounded_copy_overflow_is_rejected_and_writes_nothing() {
    let mut dest = vec![0xFFu8; 4];
    assert_eq!(copy_to_slice_nul(&mut dest, "abcd"), Err(Error::InvalidArgument));
    assert_eq!(dest, vec![0xFF; 4]);
    assert_eq!(copy_to_slice_nul(&mut dest, "abcdefgh"), Err(Error::InvalidArgument));
    assert_eq!(dest, vec![0xFF; 4]);
}

#[test]
fn mode_and_interface_values_match_the_vendor_enums() {
    assert_eq!(WifiMode::Null.id(), 0);
    assert_eq!(WifiMode::Sta.id(), 1);
    assert_eq!(WifiMode::Ap.id(), 2);
    assert_eq!(WifiMode::ApSta.id(), 3);
    assert_eq!(Interface::WifiSta.id(), 0);
    assert_eq!(Interface::WifiAp.id(), 1);
    assert_eq!(Interface::Eth.id(), 2);
}
