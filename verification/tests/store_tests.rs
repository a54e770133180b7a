use rrr_core::api::BatteryState;
use rrr_core::api::SensorError;
use rrr_core::api::WifiConnectionType;
use rrr_core::api::WifiCredentials;
use rrr_core::connectivity::outcome_configuration;
use rrr_core::connectivity::WiFiResult;
use rrr_core::store::DeviceStateStore;
use rrr_core::store::PyroChannel;

#[test]
fn fresh_device_defaults() {
    let store = DeviceStateStore::new();
    let snapshot = store.read();
    assert_eq!(snapshot.battery.soc_permille, 0);
    assert_eq!(snapshot.battery.voltage_mv, 0);
    assert_eq!(snapshot.battery.charge_rate_mpph, 0);
    assert!(!snapshot.pyro.channel1.fire);
    assert_eq!(snapshot.pyro.channel1.test_voltage_mv, 0);
    assert!(!snapshot.pyro.channel2.fire);
    assert_eq!(snapshot.wifi_state.connection_type, WifiConnectionType::StartAccessPoint);
    assert_eq!(snapshot.wifi_state.credentials.ssid, "");
    assert!(!snapshot.stale.battery);
    assert!(!snapshot.stale.pyro_channel1);
    assert!(!snapshot.stale.pyro_channel2);
}

#[test]
fn a_battery_update_replaces_the_whole_group() {
    let store = DeviceStateStore::new();
    let reading = BatteryState { soc_permille: 873, voltage_mv: 4011, charge_rate_mpph: -1500 };
    store.update_battery(&Ok(reading));
    let snapshot = store.read();
    assert_eq!(snapshot.battery, reading);
    assert!(!snapshot.stale.battery);
}

#[test]
fn a_failed_battery_read_marks_the_group_stale_and_keeps_the_value() {
    let store = DeviceStateStore::new();
    let reading = BatteryState { soc_permille: 500, voltage_mv: 3700, charge_rate_mpph: 200 };
    store.update_battery(&Ok(reading));
    store.update_battery(&Err(SensorError::ReadFailed));
    let snapshot = store.read();
    assert_eq!(snapshot.battery, reading);
    assert!(snapshot.stale.battery);
    store.update_battery(&Ok(reading));
    assert!(!store.read().stale.battery);
}

#[test]
fn pyro_updates_touch_only_their_channel() {
    let store = DeviceStateStore::new();
    store.update_pyro(PyroChannel::Channel1, &Ok(2500));
    store.update_pyro(PyroChannel::Channel2, &Err(SensorError::ReadFailed));
    let snapshot = store.read();
    assert_eq!(snapshot.pyro.channel1.test_voltage_mv, 2500);
    assert!(!snapshot.stale.pyro_channel1);
    assert_eq!(snapshot.pyro.channel2.test_voltage_mv, 0);
    assert!(snapshot.stale.pyro_channel2);
}

#[test]
fn the_last_battery_write_wins_whole() {
    let store = DeviceStateStore::new();
    let first = BatteryState { soc_permille: 100, voltage_mv: 3500, charge_rate_mpph: -100 };
    let second = BatteryState { soc_permille: 200, voltage_mv: 3600, charge_rate_mpph: 100 };
    store.update_battery(&Ok(first));
    store.update_battery(&Ok(second));
    let snapshot = store.read();
    assert_eq!(snapshot.battery, second);
}

#[test]
fn groups_are_independent() {
    let store = DeviceStateStore::new();
    let reading = BatteryState { soc_permille: 700, voltage_mv: 3900, charge_rate_mpph: 0 };
    store.update_battery(&Ok(reading));
    store.update_pyro(PyroChannel::Channel1, &Ok(1200));
    store.update_wifi(outcome_configuration(
        WiFiResult::Client,
        WifiCredentials { ssid: "net1".to_string(), password: "pw123456".to_string() },
    ));
    let snapshot = store.read();
    assert_eq!(snapshot.battery, reading);
    assert_eq!(snapshot.pyro.channel1.test_voltage_mv, 1200);
    assert_eq!(snapshot.wifi_state.connection_type, WifiConnectionType::ConnectToExternal);
    assert_eq!(snapshot.wifi_state.credentials.ssid, "net1");
}

#[test]
fn stored_credential_connects_and_is_recorded() {
    let store = DeviceStateStore::new();
    let used = WifiCredentials { ssid: "net1".to_string(), password: "pw123456".to_string() };
    store.update_wifi(outcome_configuration(WiFiResult::Client, used));
    let snapshot = store.read();
    assert_eq!(snapshot.wifi_state.connection_type, WifiConnectionType::ConnectToExternal);
    assert_eq!(snapshot.wifi_state.credentials.ssid, "net1");
    assert_eq!(snapshot.wifi_state.credentials.password, "pw123456");
}
