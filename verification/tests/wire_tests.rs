use rrr_core::api::Command;
use rrr_core::api::CommandError;
use rrr_core::wire::decode_command;

#[test]
fn decodes_unit_commands() {
    assert_eq!(decode_command("\"Reset\""), Ok(Command::Reset));
    assert_eq!(decode_command("\"ResetNvs\""), Ok(Command::ResetNvs));
    assert_eq!(decode_command("  \"Reset\"  "), Ok(Command::Reset));
}

#[test]
fn decodes_set_led_color() {
    assert_eq!(
        decode_command("{\"SetLedColor\":{\"r\":0,\"g\":20,\"b\":0}}"),
        Ok(Command::SetLedColor { r: 0, g: 20, b: 0 })
    );
    assert_eq!(
        decode_command(" { \"SetLedColor\" : { \"r\" : 255 , \"g\" : 0 , \"b\" : 7 } } "),
        Ok(Command::SetLedColor { r: 255, g: 0, b: 7 })
    );
}

#[test]
fn decodes_set_wifi() {
    assert_eq!(
        decode_command("{\"SetWifi\":{\"ssid\":\"net2\",\"password\":\"abcdefgh\"}}"),
        Ok(Command::SetWifi { ssid: "net2".to_string(), password: "abcdefgh".to_string() })
    );
}

#[test]
fn decodes_string_escapes() {
    assert_eq!(
        decode_command("{\"SetWifi\":{\"ssid\":\"a\\\"b\\\\c\",\"password\":\"x\\ny\\tz\"}}"),
        Ok(Command::SetWifi { ssid: "a\"b\\c".to_string(), password: "x\ny\tz".to_string() })
    );
}

#[test]
fn decodes_non_ascii_strings() {
    assert_eq!(
        decode_command("{\"SetWifi\":{\"ssid\":\"caf\u{e9}-n\u{e9}t\",\"password\":\"pw123456\"}}"),
        Ok(Command::SetWifi { ssid: "caf\u{e9}-n\u{e9}t".to_string(), password: "pw123456".to_string() })
    );
}

#[test]
fn decodes_duty_cycles_exactly() {
    assert_eq!(
        decode_command("{\"SetPwmDutyCycle\":{\"duty_cycle\":0.25}}"),
        Ok(Command::SetPwmDutyCycle { duty_permille: 250 })
    );
    assert_eq!(
        decode_command("{\"SetPwmDutyCycle\":{\"duty_cycle\":1}}"),
        Ok(Command::SetPwmDutyCycle { duty_permille: 1000 })
    );
    assert_eq!(
        decode_command("{\"SetPwmDutyCycle\":{\"duty_cycle\":0.5}}"),
        Ok(Command::SetPwmDutyCycle { duty_permille: 500 })
    );
    assert_eq!(
        decode_command("{\"SetPwmDutyCycle\":{\"duty_cycle\":0.075}}"),
        Ok(Command::SetPwmDutyCycle { duty_permille: 75 })
    );
    assert_eq!(
        decode_command("{\"SetPwmDutyCycle\":{\"duty_cycle\":0.250000}}"),
        Ok(Command::SetPwmDutyCycle { duty_permille: 250 })
    );
    assert_eq!(
        decode_command("{\"SetPwmDutyCycle\":{\"duty_cycle\":2.5}}"),
        Ok(Command::SetPwmDutyCycle { duty_permille: 2500 })
    );
}

#[test]
fn rejects_inexact_duty_cycles() {
    assert_eq!(
        decode_command("{\"SetPwmDutyCycle\":{\"duty_cycle\":0.1234}}"),
        Err(CommandError::Malformed)
    );
}

#[test]
fn rejects_malformed_numbers() {
    assert_eq!(
        decode_command("{\"SetLedColor\":{\"r\":256,\"g\":0,\"b\":0}}"),
        Err(CommandError::Malformed)
    );
    assert_eq!(
        decode_command("{\"SetLedColor\":{\"r\":01,\"g\":0,\"b\":0}}"),
        Err(CommandError::Malformed)
    );
    assert_eq!(
        decode_command("{\"SetLedColor\":{\"r\":-1,\"g\":0,\"b\":0}}"),
        Err(CommandError::Malformed)
    );
    assert_eq!(
        decode_command("{\"SetPwmDutyCycle\":{\"duty_cycle\":.5}}"),
        Err(CommandError::Malformed)
    );
    assert_eq!(
        decode_command("{\"SetPwmDutyCycle\":{\"duty_cycle\":1.}}"),
        Err(CommandError::Malformed)
    );
}

#[test]
fn rejects_unknown_tags() {
    assert_eq!(decode_command("\"Fly\""), Err(CommandError::UnknownCommand));
    assert_eq!(decode_command("{\"Fly\":{}}"), Err(CommandError::UnknownCommand));
    assert_eq!(
        decode_command("{\"SetAltitude\":{\"m\":100}}"),
        Err(CommandError::UnknownCommand)
    );
}

#[test]
fn rejects_known_tags_in_the_wrong_shape() {
    assert_eq!(decode_command("\"SetWifi\""), Err(CommandError::Malformed));
    assert_eq!(decode_command("{\"Reset\":null}"), Err(CommandError::Malformed));
    assert_eq!(
        decode_command("{\"SetLedColor\":{\"g\":20,\"r\":0,\"b\":0}}"),
        Err(CommandError::Malformed)
    );
    assert_eq!(
        decode_command("{\"SetWifi\":{\"ssid\":\"net2\"}}"),
        Err(CommandError::Malformed)
    );
}

#[test]
fn rejects_malformed_payloads() {
    assert_eq!(decode_command(""), Err(CommandError::Malformed));
    assert_eq!(decode_command("   "), Err(CommandError::Malformed));
    assert_eq!(decode_command("Reset"), Err(CommandError::Malformed));
    assert_eq!(decode_command("\"Reset"), Err(CommandError::Malformed));
    assert_eq!(decode_command("\"Reset\" junk"), Err(CommandError::Malformed));
    assert_eq!(decode_command("{\"SetLedColor\":{\"r\":0,\"g\":20,\"b\":0}"), Err(
        CommandError::Malformed
    ));
    assert_eq!(decode_command("{\"SetWifi\":{\"ssid\":\"a\\u0062\",\"password\":\"x\"}}"), Err(
        CommandError::Malformed
    ));
    assert_eq!(decode_command("{\"SetWifi\":{\"ssid\":\"a\tb\",\"password\":\"x\"}}"), Err(
        CommandError::Malformed
    ));
}

#[test]
fn encodes_a_fresh_snapshot() {
    let store = rrr_core::store::DeviceStateStore::new();
    let json = rrr_core::wire::encode_state(&store.read());
    let expected = "{\"battery\":{\"soc_permille\":0,\"voltage_mv\":0,\"charge_rate_mpph\":0},\
\"pyro\":{\"channel1\":{\"fire\":false,\"test_voltage_mv\":0},\
\"channel2\":{\"fire\":false,\"test_voltage_mv\":0}},\
\"wifi_state\":{\"connection_type\":\"StartAccessPoint\",\
\"credentials\":{\"ssid\":\"\",\"password\":\"\"}},\
\"stale\":{\"battery\":false,\"pyro_channel1\":false,\"pyro_channel2\":false}}";
    assert_eq!(json, expected);
}

#[test]
fn encodes_telemetry_and_escapes_credentials() {
    let store = rrr_core::store::DeviceStateStore::new();
    store.update_battery(&Ok(rrr_core::api::BatteryState {
        soc_permille: 873,
        voltage_mv: 4011,
        charge_rate_mpph: -1500,
    }));
    store.update_wifi(rrr_core::api::WifiConnectionConfiguration {
        connection_type: rrr_core::api::WifiConnectionType::ConnectToExternal,
        credentials: rrr_core::api::WifiCredentials {
            ssid: "a\"b\\c".to_string(),
            password: "p\nw".to_string(),
        },
    });
    let json = rrr_core::wire::encode_state(&store.read());
    assert!(json.contains("\"soc_permille\":873"));
    assert!(json.contains("\"voltage_mv\":4011"));
    assert!(json.contains("\"charge_rate_mpph\":-1500"));
    assert!(json.contains("\"connection_type\":\"ConnectToExternal\""));
    assert!(json.contains("\"ssid\":\"a\\\"b\\\\c\""));
    assert!(json.contains("\"password\":\"p\\nw\""));
}
