use lorawan_mac::session::{Channel, Device, DeviceProfile, DeviceSession};

#[test]
fn channel_default_is_zero() {
    let c = Channel::default();
    assert_eq!(c.frequency, 0);
    assert_eq!(c.min_dr, 0);
    assert_eq!(c.max_dr, 0);
}

#[test]
fn session_default_is_zero() {
    let ds = DeviceSession::default();
    assert_eq!(ds.tx_power_index, 0);
    assert_eq!(ds.min_supported_tx_power_index, 0);
    assert_eq!(ds.max_supported_tx_power_index, 0);
    assert_eq!(ds.dr, 0);
    assert_eq!(ds.rx1_delay, 0);
    assert_eq!(ds.rx1_dr_offset, 0);
    assert_eq!(ds.rx2_dr, 0);
    assert_eq!(ds.rx2_frequency, 0);
    assert_eq!(ds.nb_trans, 0);
    assert!(ds.enabled_uplink_channel_indices.is_empty());
    assert!(ds.extra_uplink_channels.is_empty());
    assert_eq!(ds.class_b_ping_slot_dr, 0);
    assert_eq!(ds.class_b_ping_slot_freq, 0);
    assert_eq!(ds.class_b_ping_slot_nb, 0);
}

#[test]
fn device_default_has_no_session() {
    let dev = Device::default();
    assert_eq!(dev.dev_eui, 0);
    assert!(dev.device_session.is_none());
}

#[test]
fn profile_default_is_bare_abp() {
    let dp = DeviceProfile::default();
    assert!(!dp.supports_otaa);
    assert!(dp.abp_params.is_none());
    assert!(dp.class_b_params.is_none());
}

#[test]
fn session_equality_is_field_wise() {
    let a = DeviceSession {
        enabled_uplink_channel_indices: vec![0, 1],
        extra_uplink_channels: vec![(3, Channel::default())],
        ..Default::default()
    };
    let b = DeviceSession {
        enabled_uplink_channel_indices: vec![0, 1],
        extra_uplink_channels: vec![(3, Channel::default())],
        ..Default::default()
    };
    assert_eq!(a, b);

    let c = DeviceSession {
        enabled_uplink_channel_indices: vec![0, 2],
        ..b.clone()
    };
    assert_ne!(a, c);

    let d = DeviceSession {
        nb_trans: 1,
        ..b.clone()
    };
    assert_ne!(a, d);
}
