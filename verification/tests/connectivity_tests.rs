use rrr_core::api::NetworkError;
use rrr_core::api::WifiConnectionType;
use rrr_core::api::WifiCredentials;
use rrr_core::connectivity::connection_plan;
use rrr_core::connectivity::fallback_credentials;
use rrr_core::connectivity::outcome;
use rrr_core::connectivity::outcome_configuration;
use rrr_core::connectivity::start;
use rrr_core::connectivity::step;
use rrr_core::connectivity::ConnEvent;
use rrr_core::connectivity::ConnState;
use rrr_core::connectivity::RadioAction;
use rrr_core::connectivity::WiFiResult;

fn creds(ssid: &str, password: &str) -> WifiCredentials {
    WifiCredentials { ssid: ssid.to_string(), password: password.to_string() }
}

#[test]
fn fallback_passphrase_satisfies_the_platform_minimum() {
    let c = fallback_credentials();
    assert_eq!(c.ssid, "RRR-wifi-0");
    assert_eq!(c.password, "12345678");
    assert!(c.password.len() >= 8);
}

#[test]
fn plan_without_credential_is_the_fallback_access_point() {
    let plan = connection_plan(None);
    assert_eq!(plan.connection_type, WifiConnectionType::StartAccessPoint);
    assert_eq!(plan.credentials.ssid, "RRR-wifi-0");
    assert_eq!(plan.credentials.password, "12345678");
}

#[test]
fn plan_with_credential_is_client_mode_with_that_pair() {
    let plan = connection_plan(Some(creds("net1", "pw123456")));
    assert_eq!(plan.connection_type, WifiConnectionType::ConnectToExternal);
    assert_eq!(plan.credentials.ssid, "net1");
    assert_eq!(plan.credentials.password, "pw123456");
}

#[test]
fn stored_credential_that_authenticates_reaches_client_connected() {
    let (s0, action) = start(Some(creds("net1", "pw123456")));
    assert_eq!(s0, ConnState::AttemptingClient);
    match action {
        RadioAction::ConnectClient(c) => {
            assert_eq!(c.ssid, "net1");
            assert_eq!(c.password, "pw123456");
        },
        _ => panic!("expected a client connection attempt"),
    }
    let (s1, next) = step(s0, ConnEvent::ClientConnectSucceeded);
    assert_eq!(s1, ConnState::ClientConnected);
    assert_eq!(next, Some(RadioAction::WaitForAddress));
    assert_eq!(outcome(s1), Some(WiFiResult::Client));
}

#[test]
fn no_credential_reaches_access_point_active() {
    let (s0, action) = start(None);
    assert_eq!(s0, ConnState::AttemptingAccessPoint);
    match action {
        RadioAction::StartAccessPoint(c) => assert_eq!(c.ssid, "RRR-wifi-0"),
        _ => panic!("expected an access point start"),
    }
    let (s1, next) = step(s0, ConnEvent::AccessPointStarted);
    assert_eq!(s1, ConnState::AccessPointActive);
    assert_eq!(next, Some(RadioAction::WaitForAddress));
    assert_eq!(outcome(s1), Some(WiFiResult::AP));
}

#[test]
fn failed_authentication_falls_back_to_the_access_point() {
    let (s0, _) = start(Some(creds("net1", "wrong-pass")));
    let (s1, action) = step(s0, ConnEvent::ClientConnectFailed(NetworkError::AuthRejected));
    assert_eq!(s1, ConnState::AttemptingAccessPoint);
    match action {
        Some(RadioAction::StartAccessPoint(c)) => assert_eq!(c.password, "12345678"),
        _ => panic!("expected an access point start"),
    }
    let (s2, _) = step(s1, ConnEvent::AccessPointStarted);
    assert_eq!(s2, ConnState::AccessPointActive);
}

#[test]
fn connect_timeout_falls_back_like_a_rejection() {
    let (s0, _) = start(Some(creds("net1", "pw123456")));
    let (s1, _) = step(s0, ConnEvent::ClientConnectFailed(NetworkError::Timeout));
    assert_eq!(s1, ConnState::AttemptingAccessPoint);
}

#[test]
fn access_point_failure_is_fatal() {
    let (s0, _) = start(None);
    let (s1, action) = step(s0, ConnEvent::AccessPointStartFailed(NetworkError::RadioFault));
    assert_eq!(s1, ConnState::Failed);
    assert_eq!(action, None);
    assert_eq!(outcome(s1), None);
}

#[test]
fn terminal_states_ignore_later_events() {
    let (s, a) = step(ConnState::ClientConnected, ConnEvent::ClientConnectFailed(
        NetworkError::Timeout,
    ));
    assert_eq!(s, ConnState::ClientConnected);
    assert_eq!(a, None);
    let (s2, a2) = step(ConnState::AccessPointActive, ConnEvent::AccessPointStarted);
    assert_eq!(s2, ConnState::AccessPointActive);
    assert_eq!(a2, None);
}

#[test]
fn outcome_configuration_records_mode_and_credentials() {
    let cfg = outcome_configuration(WiFiResult::Client, creds("net1", "pw123456"));
    assert_eq!(cfg.connection_type, WifiConnectionType::ConnectToExternal);
    assert_eq!(cfg.credentials.ssid, "net1");
    let ap = outcome_configuration(WiFiResult::AP, fallback_credentials());
    assert_eq!(ap.connection_type, WifiConnectionType::StartAccessPoint);
    assert_eq!(ap.credentials.ssid, "RRR-wifi-0");
}
