//! Pure classification of device state for display and indication.

use vstd::prelude::*;

use crate::api::PyroChannelState;
use crate::api::WifiConnectionType;

verus! {

/// What a pyro channel's reading means for an observer.
#[derive(Clone, Copy, Debug, PartialEq, Eq, Structural)]
pub enum PyroStatus {
    /// The channel is firing.
    Active,
    /// Not firing, and the continuity test voltage shows an igniter present.
    Connected,
    /// Not firing and no igniter detected.
    NotConnected,
}

/// Continuity is assumed above this test voltage.
pub const PYRO_CONNECTED_THRESHOLD_MV: u32 = 1000;

/// Classifies one pyro channel reading.
pub fn pyro_status(channel: &PyroChannelState) -> (s: PyroStatus)
    ensures
        channel.fire ==> s == PyroStatus::Active,
        !channel.fire && channel.test_voltage_mv > PYRO_CONNECTED_THRESHOLD_MV ==> s
            == PyroStatus::Connected,
        !channel.fire && channel.test_voltage_mv <= PYRO_CONNECTED_THRESHOLD_MV ==> s
            == PyroStatus::NotConnected,
{
    if channel.fire {
        PyroStatus::Active
    } else if channel.test_voltage_mv > PYRO_CONNECTED_THRESHOLD_MV {
        PyroStatus::Connected
    } else {
        PyroStatus::NotConnected
    }
}

/// Maps a state of charge (per-mille of full) to a bar gauge from 0 (near
/// empty) to 7 (full).
pub fn battery_bars(soc_permille: u16) -> (bars: u8)
    ensures
        soc_permille < 100 ==> bars == 0,
        100 <= soc_permille < 233 ==> bars == 1,
        233 <= soc_permille < 366 ==> bars == 2,
        366 <= soc_permille < 500 ==> bars == 3,
        500 <= soc_permille < 633 ==> bars == 4,
        633 <= soc_permille < 766 ==> bars == 5,
        766 <= soc_permille <= 900 ==> bars == 6,
        soc_permille > 900 ==> bars == 7,
{
    if soc_permille < 100 {
        0
    } else if soc_permille < 233 {
        1
    } else if soc_permille < 366 {
        2
    } else if soc_permille < 500 {
        3
    } else if soc_permille < 633 {
        4
    } else if soc_permille < 766 {
        5
    } else if soc_permille <= 900 {
        6
    } else {
        7
    }
}

/// The indicator colour shown once connectivity is up: green when joined to
/// an external network, yellow while hosting the fallback access point.
pub fn status_color(t: WifiConnectionType) -> (rgb: (u8, u8, u8))
    ensures
        t == WifiConnectionType::ConnectToExternal ==> rgb == (0u8, 20u8, 0u8),
        t == WifiConnectionType::StartAccessPoint ==> rgb == (10u8, 10u8, 0u8),
{
    match t {
        WifiConnectionType::ConnectToExternal => (0, 20, 0),
        WifiConnectionType::StartAccessPoint => (10, 10, 0),
    }
}

} // verus!
