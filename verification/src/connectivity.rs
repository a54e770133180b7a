//! Connectivity state machine.
//!
//! At startup the device tries to join an existing network with the stored
//! credential; when none is stored, or the attempt fails within its bound, it
//! falls back to hosting its own access point. The machine here makes every
//! decision; the host environment owns the radio and feeds the outcome of
//! each action back in as an event. Terminal success states are
//! [`ConnState::ClientConnected`] and [`ConnState::AccessPointActive`]; a
//! failure to start the access point is fatal, since no further fallback
//! tier exists.

use vstd::prelude::*;

use crate::api::NetworkError;
use crate::api::WifiConnectionConfiguration;
use crate::api::WifiConnectionType;
use crate::api::WifiCredentials;

verus! {

/// States of the connectivity machine.
#[derive(Clone, Copy, Debug, PartialEq, Eq, Structural)]
pub enum ConnState {
    /// Nothing attempted yet.
    Idle,
    /// A client connection with the stored credential is in flight.
    AttemptingClient,
    /// Joined an existing network; terminal.
    ClientConnected,
    /// The fallback access point is being brought up.
    AttemptingAccessPoint,
    /// Hosting the fallback access point; terminal.
    AccessPointActive,
    /// The access point itself could not be started; fatal, terminal.
    Failed,
}

/// Which terminal mode a finished bring-up reached.
#[derive(Clone, Copy, Debug, PartialEq, Eq, Structural)]
pub enum WiFiResult {
    Client,
    AP,
}

/// Radio outcomes reported back by the host environment.
#[derive(Clone, Copy, Debug, PartialEq, Eq, Structural)]
pub enum ConnEvent {
    ClientConnectSucceeded,
    ClientConnectFailed(NetworkError),
    AccessPointStarted,
    AccessPointStartFailed(NetworkError),
}

/// Work the host environment must perform on the radio next.
#[derive(Clone, Debug, PartialEq)]
pub enum RadioAction {
    /// Configure the radio as a simultaneous access-point and client, set the
    /// client credentials, and attempt the connection with a bounded timeout.
    ConnectClient(WifiCredentials),
    /// Configure the radio as an access point only and start it.
    StartAccessPoint(WifiCredentials),
    /// Block until the network interface reports an assigned address.
    WaitForAddress,
}

/// SSID of the self-hosted fallback access point.
pub open spec fn fallback_ssid() -> Seq<char> {
    "RRR-wifi-0"@
}

/// Passphrase of the fallback access point. The platform requires at least
/// eight characters for an access-point passphrase.
pub open spec fn fallback_password() -> Seq<char> {
    "12345678"@
}

/// The fixed credential pair of the fallback access point.
pub fn fallback_credentials() -> (c: WifiCredentials)
    ensures
        c.ssid@ == fallback_ssid(),
        c.password@ == fallback_password(),
        c.password@.len() >= 8,
{
    proof {
        reveal_strlit("12345678");
    }
    WifiCredentials {
        ssid: String::from_str("RRR-wifi-0"),
        password: String::from_str("12345678"),
    }
}

/// The configuration a device plans to run with, given what the credential
/// store held at boot: client mode with the stored pair, or the fallback
/// access point when nothing is stored.
pub fn connection_plan(stored: Option<WifiCredentials>) -> (plan: WifiConnectionConfiguration)
    ensures
        match stored {
            Some(c) => {
                &&& plan.connection_type == WifiConnectionType::ConnectToExternal
                &&& plan.credentials.ssid@ == c.ssid@
                &&& plan.credentials.password@ == c.password@
            },
            None => {
                &&& plan.connection_type == WifiConnectionType::StartAccessPoint
                &&& plan.credentials.ssid@ == fallback_ssid()
                &&& plan.credentials.password@ == fallback_password()
                &&& plan.credentials.password@.len() >= 8
            },
        },
{
    match stored {
        Some(c) => WifiConnectionConfiguration {
            connection_type: WifiConnectionType::ConnectToExternal,
            credentials: c,
        },
        None => WifiConnectionConfiguration {
            connection_type: WifiConnectionType::StartAccessPoint,
            credentials: fallback_credentials(),
        },
    }
}

/// The state the machine starts in once the credential store has been read.
pub open spec fn spec_start(stored_present: bool) -> ConnState {
    if stored_present {
        ConnState::AttemptingClient
    } else {
        ConnState::AttemptingAccessPoint
    }
}

/// The transition relation of the machine. Events that do not belong to the
/// current state leave the machine where it is.
pub open spec fn spec_step(s: ConnState, e: ConnEvent) -> ConnState {
    match (s, e) {
        (ConnState::AttemptingClient, ConnEvent::ClientConnectSucceeded) => ConnState::ClientConnected,
        (ConnState::AttemptingClient, ConnEvent::ClientConnectFailed(_)) => ConnState::AttemptingAccessPoint,
        (ConnState::AttemptingAccessPoint, ConnEvent::AccessPointStarted) => ConnState::AccessPointActive,
        (ConnState::AttemptingAccessPoint, ConnEvent::AccessPointStartFailed(_)) => ConnState::Failed,
        (other, _) => other,
    }
}

/// No event moves the machine out of a terminal state.
pub open spec fn is_terminal(s: ConnState) -> bool {
    s == ConnState::ClientConnected || s == ConnState::AccessPointActive || s == ConnState::Failed
}

/// Begins the bring-up: with a stored credential the machine attempts a
/// client connection with exactly that pair; without one it goes straight to
/// the fallback access point.
pub fn start(stored: Option<WifiCredentials>) -> (r: (ConnState, RadioAction))
    ensures
        r.0 == spec_start(stored is Some),
        match stored {
            Some(c) => r.1 matches RadioAction::ConnectClient(used) && used.ssid@ == c.ssid@
                && used.password@ == c.password@,
            None => r.1 matches RadioAction::StartAccessPoint(ap) && ap.ssid@ == fallback_ssid()
                && ap.password@ == fallback_password(),
        },
{
    match stored {
        Some(c) => (ConnState::AttemptingClient, RadioAction::ConnectClient(c)),
        None => (
            ConnState::AttemptingAccessPoint,
            RadioAction::StartAccessPoint(fallback_credentials()),
        ),
    }
}

/// Advances the machine by one radio event and says what the host must do
/// next: fall back to the access point when the client attempt fails, wait
/// for an address once a terminal mode is reached, and stop on a fatal
/// access-point failure.
pub fn step(s: ConnState, e: ConnEvent) -> (r: (ConnState, Option<RadioAction>))
    ensures
        r.0 == spec_step(s, e),
        match (s, e) {
            (ConnState::AttemptingClient, ConnEvent::ClientConnectSucceeded) => r.1
                matches Some(RadioAction::WaitForAddress),
            (ConnState::AttemptingClient, ConnEvent::ClientConnectFailed(_)) => r.1 matches Some(
                RadioAction::StartAccessPoint(ap),
            ) && ap.ssid@ == fallback_ssid() && ap.password@ == fallback_password(),
            (ConnState::AttemptingAccessPoint, ConnEvent::AccessPointStarted) => r.1 matches Some(
                RadioAction::WaitForAddress,
            ),
            _ => r.1 is None,
        },
{
    match (s, e) {
        (ConnState::AttemptingClient, ConnEvent::ClientConnectSucceeded) => (
            ConnState::ClientConnected,
            Some(RadioAction::WaitForAddress),
        ),
        (ConnState::AttemptingClient, ConnEvent::ClientConnectFailed(_)) => (
            ConnState::AttemptingAccessPoint,
            Some(RadioAction::StartAccessPoint(fallback_credentials())),
        ),
        (ConnState::AttemptingAccessPoint, ConnEvent::AccessPointStarted) => (
            ConnState::AccessPointActive,
            Some(RadioAction::WaitForAddress),
        ),
        (ConnState::AttemptingAccessPoint, ConnEvent::AccessPointStartFailed(_)) => (
            ConnState::Failed,
            None,
        ),
        (other, _) => (other, None),
    }
}

/// Which terminal mode a state stands for, if any.
pub fn outcome(s: ConnState) -> (r: Option<WiFiResult>)
    ensures
        (s == ConnState::ClientConnected) == (r == Some(WiFiResult::Client)),
        (s == ConnState::AccessPointActive) == (r == Some(WiFiResult::AP)),
        r is Some ==> is_terminal(s) && s != ConnState::Failed,
{
    match s {
        ConnState::ClientConnected => Some(WiFiResult::Client),
        ConnState::AccessPointActive => Some(WiFiResult::AP),
        _ => None,
    }
}

/// What the device state store records once bring-up finished: the terminal
/// mode reached, together with the credentials the radio is running with.
pub fn outcome_configuration(result: WiFiResult, used: WifiCredentials) -> (cfg:
    WifiConnectionConfiguration)
    ensures
        cfg.connection_type == (match result {
            WiFiResult::Client => WifiConnectionType::ConnectToExternal,
            WiFiResult::AP => WifiConnectionType::StartAccessPoint,
        }),
        cfg.credentials.ssid@ == used.ssid@,
        cfg.credentials.password@ == used.password@,
{
    let connection_type = match result {
        WiFiResult::Client => WifiConnectionType::ConnectToExternal,
        WiFiResult::AP => WifiConnectionType::StartAccessPoint,
    };
    WifiConnectionConfiguration { connection_type, credentials: used }
}

/// Fallback correctness. From the start of bring-up:
/// with a stored credential that authenticates in time the machine reaches
/// `ClientConnected`; with none, or with one whose attempt fails, it reaches
/// `AccessPointActive` as soon as the fallback access point starts; and when
/// even the access point cannot start, it ends `Failed`, the fatal state.
pub proof fn lemma_fallback_correctness(client_err: NetworkError, ap_err: NetworkError)
    ensures
        spec_step(spec_start(true), ConnEvent::ClientConnectSucceeded)
            == ConnState::ClientConnected,
        spec_step(
            spec_step(spec_start(true), ConnEvent::ClientConnectFailed(client_err)),
            ConnEvent::AccessPointStarted,
        ) == ConnState::AccessPointActive,
        spec_step(spec_start(false), ConnEvent::AccessPointStarted)
            == ConnState::AccessPointActive,
        spec_step(spec_start(false), ConnEvent::AccessPointStartFailed(ap_err))
            == ConnState::Failed,
{
}

/// Terminal states are stable: no later radio event moves the machine again.
pub proof fn lemma_terminal_stable(s: ConnState, e: ConnEvent)
    requires
        is_terminal(s),
    ensures
        spec_step(s, e) == s,
{
}

} // verus!
