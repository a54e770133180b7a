//! Shared data model: telemetry snapshots, network configuration, the
//! command protocol and the error taxonomy.
//!
//! Telemetry is carried as scaled integers so that every value has an exact
//! meaning in contracts: state of charge in per-mille of full capacity,
//! voltages in millivolts, charge rate in milli-percent per hour and PWM duty
//! cycles in per-mille of the period.

use vstd::prelude::*;

verus! {

/// Battery state of charge may not exceed full capacity.
pub const SOC_FULL_PERMILLE: u16 = 1000;

/// A PWM duty cycle is a fraction of the period, at most the whole period.
pub const DUTY_FULL_PERMILLE: u16 = 1000;

/// Battery gauge snapshot, written as one unit by the battery poller.
#[derive(Clone, Copy, Debug, PartialEq, Eq, Structural)]
pub struct BatteryState {
    /// State of charge, per-mille of full capacity (0 ..= 1000).
    pub soc_permille: u16,
    /// Cell voltage in millivolts.
    pub voltage_mv: u32,
    /// Charge rate in milli-percent per hour; negative while discharging.
    pub charge_rate_mpph: i32,
}

/// A battery snapshot never reports more than full capacity.
pub open spec fn battery_wf(b: BatteryState) -> bool {
    b.soc_permille <= SOC_FULL_PERMILLE
}

impl Default for BatteryState {
    /// A fresh device reports an all-zero battery snapshot.
    fn default() -> (r: Self)
        ensures
            r == (BatteryState { soc_permille: 0, voltage_mv: 0, charge_rate_mpph: 0 }),
            battery_wf(r),
    {
        BatteryState { soc_permille: 0, voltage_mv: 0, charge_rate_mpph: 0 }
    }
}

/// One pyrotechnic igniter circuit: its fire flag and the continuity test
/// voltage, stored exactly as the driver reports it (no calibration applied).
#[derive(Clone, Copy, Debug, PartialEq, Eq, Structural)]
pub struct PyroChannelState {
    pub fire: bool,
    /// Continuity test voltage in millivolts, uncalibrated.
    pub test_voltage_mv: u32,
}

impl Default for PyroChannelState {
    fn default() -> (r: Self)
        ensures
            r == (PyroChannelState { fire: false, test_voltage_mv: 0 }),
    {
        PyroChannelState { fire: false, test_voltage_mv: 0 }
    }
}

/// The two independent pyro channels.
#[derive(Clone, Copy, Debug, PartialEq, Eq, Structural)]
pub struct PyroState {
    pub channel1: PyroChannelState,
    pub channel2: PyroChannelState,
}

impl Default for PyroState {
    fn default() -> (r: Self)
        ensures
            r.channel1 == (PyroChannelState { fire: false, test_voltage_mv: 0 }),
            r.channel2 == (PyroChannelState { fire: false, test_voltage_mv: 0 }),
    {
        PyroState { channel1: PyroChannelState::default(), channel2: PyroChannelState::default() }
    }
}

/// A network credential pair as stored durably and used by the radio.
#[derive(Clone, Debug, PartialEq)]
pub struct WifiCredentials {
    pub ssid: String,
    pub password: String,
}

impl Default for WifiCredentials {
    fn default() -> (r: Self)
        ensures
            r.ssid@ == Seq::<char>::empty(),
            r.password@ == Seq::<char>::empty(),
    {
        WifiCredentials { ssid: String::new(), password: String::new() }
    }
}

/// How the device is on the network: joined to an existing network as a
/// client, or hosting its own access point.
#[derive(Clone, Copy, Debug, PartialEq, Eq, Structural)]
pub enum WifiConnectionType {
    ConnectToExternal,
    StartAccessPoint,
}

impl Default for WifiConnectionType {
    /// Until connectivity is established the device assumes it will have to
    /// host its own access point.
    fn default() -> (r: Self)
        ensures
            r == WifiConnectionType::StartAccessPoint,
    {
        WifiConnectionType::StartAccessPoint
    }
}

/// The connectivity outcome together with the credentials in effect.
#[derive(Clone, Debug, PartialEq)]
pub struct WifiConnectionConfiguration {
    pub connection_type: WifiConnectionType,
    pub credentials: WifiCredentials,
}

impl Default for WifiConnectionConfiguration {
    fn default() -> (r: Self)
        ensures
            r.connection_type == WifiConnectionType::StartAccessPoint,
            r.credentials.ssid@ == Seq::<char>::empty(),
            r.credentials.password@ == Seq::<char>::empty(),
    {
        WifiConnectionConfiguration {
            connection_type: WifiConnectionType::default(),
            credentials: WifiCredentials::default(),
        }
    }
}

/// Whether each telemetry group currently holds a value from a failed read.
/// A stale group keeps its last good value; it is marked rather than fatal.
#[derive(Clone, Copy, Debug, PartialEq, Eq, Structural)]
pub struct Staleness {
    pub battery: bool,
    pub pyro_channel1: bool,
    pub pyro_channel2: bool,
}

impl Default for Staleness {
    fn default() -> (r: Self)
        ensures
            r == (Staleness { battery: false, pyro_channel1: false, pyro_channel2: false }),
    {
        Staleness { battery: false, pyro_channel1: false, pyro_channel2: false }
    }
}

/// A point-in-time deep copy of the whole device state. Each field group is
/// internally consistent; groups may stem from different poll cycles.
#[derive(Clone, Debug, PartialEq)]
pub struct State {
    pub battery: BatteryState,
    pub pyro: PyroState,
    pub wifi_state: WifiConnectionConfiguration,
    pub stale: Staleness,
}

/// Every group of a snapshot satisfies its own invariant.
pub open spec fn state_wf(s: State) -> bool {
    battery_wf(s.battery)
}

impl Default for State {
    fn default() -> (r: Self)
        ensures
            r.battery == (BatteryState { soc_permille: 0, voltage_mv: 0, charge_rate_mpph: 0 }),
            r.pyro.channel1 == (PyroChannelState { fire: false, test_voltage_mv: 0 }),
            r.pyro.channel2 == (PyroChannelState { fire: false, test_voltage_mv: 0 }),
            r.wifi_state.connection_type == WifiConnectionType::StartAccessPoint,
            r.wifi_state.credentials.ssid@ == Seq::<char>::empty(),
            r.wifi_state.credentials.password@ == Seq::<char>::empty(),
            r.stale == (Staleness { battery: false, pyro_channel1: false, pyro_channel2: false }),
            state_wf(r),
    {
        State {
            battery: BatteryState::default(),
            pyro: PyroState::default(),
            wifi_state: WifiConnectionConfiguration::default(),
            stale: Staleness::default(),
        }
    }
}

/// The closed command protocol: one value per inbound request, consumed once
/// by the dispatcher. Unknown wire tags are rejected, never ignored.
#[derive(Clone, Debug, PartialEq)]
pub enum Command {
    /// Restart the whole device; must be the last observable action.
    Reset,
    /// Store new network credentials; takes effect on the next connectivity run.
    SetWifi { ssid: String, password: String },
    /// Erase the stored network credentials.
    ResetNvs,
    /// Drive the indicator with independent 0-255 channel intensities.
    SetLedColor { r: u8, g: u8, b: u8 },
    /// Set the actuation PWM duty cycle, in per-mille of the period. Values
    /// above [`DUTY_FULL_PERMILLE`] are representable on the wire but are
    /// rejected by the dispatcher.
    SetPwmDutyCycle { duty_permille: u32 },
}

/// Mathematical model of a command: strings as character sequences and
/// numbers as unbounded integers, for use in contracts.
pub enum CommandModel {
    Reset,
    SetWifi { ssid: Seq<char>, password: Seq<char> },
    ResetNvs,
    SetLedColor { r: int, g: int, b: int },
    SetPwmDutyCycle { duty_permille: int },
}

impl View for Command {
    type V = CommandModel;

    open spec fn view(&self) -> CommandModel {
        match self {
            Command::Reset => CommandModel::Reset,
            Command::SetWifi { ssid, password } => CommandModel::SetWifi {
                ssid: ssid@,
                password: password@,
            },
            Command::ResetNvs => CommandModel::ResetNvs,
            Command::SetLedColor { r, g, b } => CommandModel::SetLedColor {
                r: *r as int,
                g: *g as int,
                b: *b as int,
            },
            Command::SetPwmDutyCycle { duty_permille } => CommandModel::SetPwmDutyCycle {
                duty_permille: *duty_permille as int,
            },
        }
    }
}

/// Failure of the durable credential medium; always recoverable for callers.
#[derive(Clone, Copy, Debug, PartialEq, Eq, Structural)]
pub enum StorageError {
    /// The medium was never formatted; nothing can be read or written.
    Uninitialized,
    /// The record does not fit in the space the medium has left.
    OutOfSpace,
}

/// Failure of the radio or of a connection attempt.
#[derive(Clone, Copy, Debug, PartialEq, Eq, Structural)]
pub enum NetworkError {
    /// The client connection attempt did not finish within its bound.
    Timeout,
    /// The network rejected the credentials.
    AuthRejected,
    /// The radio itself failed to configure or start.
    RadioFault,
}

/// Failure of a hardware sensor read; the owning group is marked stale.
#[derive(Clone, Copy, Debug, PartialEq, Eq, Structural)]
pub enum SensorError {
    ReadFailed,
}

/// Failure of command handling: a payload that does not decode, a tag the
/// protocol does not know, or a downstream storage or driver failure.
/// All variants are recoverable; the dispatcher keeps serving requests.
#[derive(Clone, Copy, Debug, PartialEq, Eq, Structural)]
pub enum CommandError {
    /// The payload is not a well-formed encoding of any command.
    Malformed,
    /// The payload is well-formed but its tag names no known command.
    UnknownCommand,
    /// The credential store refused the requested change.
    Storage(StorageError),
    /// The requested duty cycle exceeds the whole period.
    DutyCycleOutOfRange,
}

} // verus!
