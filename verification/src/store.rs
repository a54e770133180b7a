//! In-memory, concurrently shared device state.
//!
//! The state is split into field groups — battery, each pyro channel, and
//! the connectivity record — and every group sits behind its own verified
//! reader-writer lock, never one global lock, so a slow telemetry read can
//! not stall command handling of an unrelated field. Each update replaces a
//! whole group while holding that group's exclusive lock, so a reader sees
//! every group as one writer left it; across groups a snapshot may combine
//! values from different poll cycles.
//!
//! A failed sensor read never tears a group down: the group keeps its last
//! good reading and is marked stale instead ([`Staleness`]).

use vstd::prelude::*;
use vstd::rwlock::RwLock;

use crate::api::battery_wf;
use crate::api::state_wf;
use crate::api::BatteryState;
use crate::api::PyroChannelState;
use crate::api::PyroState;
use crate::api::SensorError;
use crate::api::Staleness;
use crate::api::State;
use crate::api::WifiConnectionConfiguration;
use crate::api::WifiCredentials;

verus! {

/// The battery field group: the latest reading and whether it is stale.
#[derive(Clone, Copy, Debug, PartialEq, Eq, Structural)]
pub struct BatteryGroup {
    pub reading: BatteryState,
    pub stale: bool,
}

/// One pyro channel's field group: the latest reading and whether it is stale.
#[derive(Clone, Copy, Debug, PartialEq, Eq, Structural)]
pub struct PyroChannelGroup {
    pub reading: PyroChannelState,
    pub stale: bool,
}

/// Which pyro channel an update addresses.
#[derive(Clone, Copy, Debug, PartialEq, Eq, Structural)]
pub enum PyroChannel {
    Channel1,
    Channel2,
}

/// Invariant kept by the battery lock: the reading is well formed.
pub open spec fn battery_group_wf(g: BatteryGroup) -> bool {
    battery_wf(g.reading)
}

/// The predicate the battery lock is constructed with.
pub open spec fn battery_lock_pred() -> spec_fn(BatteryGroup) -> bool {
    |g: BatteryGroup| battery_group_wf(g)
}

/// The predicate the pyro channel locks are constructed with. A pyro reading
/// is stored exactly as the driver reports it, so every value is allowed.
pub open spec fn pyro_lock_pred() -> spec_fn(PyroChannelGroup) -> bool {
    |g: PyroChannelGroup| true
}

/// The predicate the connectivity lock is constructed with.
pub open spec fn wifi_lock_pred() -> spec_fn(WifiConnectionConfiguration) -> bool {
    |c: WifiConnectionConfiguration| true
}

/// How a battery poll transforms the battery group: a successful read
/// replaces the whole reading and clears staleness; a failed read keeps the
/// last good reading and marks the group stale.
pub open spec fn spec_battery_step(g: BatteryGroup, r: Result<BatteryState, SensorError>)
    -> BatteryGroup {
    match r {
        Ok(b) => BatteryGroup { reading: b, stale: false },
        Err(_) => BatteryGroup { reading: g.reading, stale: true },
    }
}

/// Executable form of [`spec_battery_step`].
pub fn battery_step(g: BatteryGroup, r: &Result<BatteryState, SensorError>) -> (g2: BatteryGroup)
    ensures
        g2 == spec_battery_step(g, *r),
{
    match r {
        Ok(b) => BatteryGroup { reading: *b, stale: false },
        Err(_) => BatteryGroup { reading: g.reading, stale: true },
    }
}

/// How a pyro continuity poll transforms a channel group: a successful read
/// replaces the test voltage and clears staleness, keeping the fire flag; a
/// failed read keeps the reading and marks the group stale.
pub open spec fn spec_pyro_step(g: PyroChannelGroup, r: Result<u32, SensorError>)
    -> PyroChannelGroup {
    match r {
        Ok(mv) => PyroChannelGroup {
            reading: PyroChannelState { fire: g.reading.fire, test_voltage_mv: mv },
            stale: false,
        },
        Err(_) => PyroChannelGroup { reading: g.reading, stale: true },
    }
}

/// Executable form of [`spec_pyro_step`].
pub fn pyro_step(g: PyroChannelGroup, r: &Result<u32, SensorError>) -> (g2: PyroChannelGroup)
    ensures
        g2 == spec_pyro_step(g, *r),
{
    match r {
        Ok(mv) => PyroChannelGroup {
            reading: PyroChannelState { fire: g.reading.fire, test_voltage_mv: *mv },
            stale: false,
        },
        Err(_) => PyroChannelGroup { reading: g.reading, stale: true },
    }
}

/// The shared device state, one lock per field group.
pub struct DeviceStateStore {
    battery: RwLock<BatteryGroup, spec_fn(BatteryGroup) -> bool>,
    pyro1: RwLock<PyroChannelGroup, spec_fn(PyroChannelGroup) -> bool>,
    pyro2: RwLock<PyroChannelGroup, spec_fn(PyroChannelGroup) -> bool>,
    wifi: RwLock<WifiConnectionConfiguration, spec_fn(WifiConnectionConfiguration) -> bool>,
}

impl DeviceStateStore {
    /// Every lock of the store carries its intended group invariant.
    pub closed spec fn wf(&self) -> bool {
        &&& self.battery.pred() == battery_lock_pred()
        &&& self.pyro1.pred() == pyro_lock_pred()
        &&& self.pyro2.pred() == pyro_lock_pred()
        &&& self.wifi.pred() == wifi_lock_pred()
    }

    /// A fresh store: all-zero telemetry, nothing stale, and the default
    /// connectivity record (access point planned, no credentials yet).
    pub fn new() -> (s: Self)
        ensures
            s.wf(),
    {
        let battery_init = BatteryGroup { reading: BatteryState::default(), stale: false };
        let pyro1_init = PyroChannelGroup { reading: PyroChannelState::default(), stale: false };
        let pyro2_init = PyroChannelGroup { reading: PyroChannelState::default(), stale: false };
        let wifi_init = WifiConnectionConfiguration::default();
        DeviceStateStore {
            battery: RwLock::new(battery_init, Ghost(battery_lock_pred())),
            pyro1: RwLock::new(pyro1_init, Ghost(pyro_lock_pred())),
            pyro2: RwLock::new(pyro2_init, Ghost(pyro_lock_pred())),
            wifi: RwLock::new(wifi_init, Ghost(wifi_lock_pred())),
        }
    }

    /// Applies one battery poll result atomically: the whole group is
    /// replaced under the battery lock, other groups are untouched, and the
    /// value written is returned.
    pub fn update_battery(&self, r: &Result<BatteryState, SensorError>) -> (written: BatteryGroup)
        requires
            self.wf(),
            *r matches Ok(b) ==> battery_wf(b),
        ensures
            *r matches Ok(b) ==> written == (BatteryGroup { reading: b, stale: false }),
            *r is Err ==> written.stale,
            exists|prev: BatteryGroup|
                battery_group_wf(prev) && written == spec_battery_step(prev, *r),
    {
        let (current, handle) = self.battery.acquire_write();
        let next = battery_step(current, r);
        assert(battery_group_wf(next));
        handle.release_write(next);
        next
    }

    /// Applies one pyro continuity poll result atomically to the addressed
    /// channel, as [`update_battery`] does for the battery group.
    pub fn update_pyro(&self, channel: PyroChannel, r: &Result<u32, SensorError>) -> (written:
        PyroChannelGroup)
        requires
            self.wf(),
        ensures
            *r matches Ok(mv) ==> written.reading.test_voltage_mv == mv && !written.stale,
            *r is Err ==> written.stale,
            exists|prev: PyroChannelGroup| written == spec_pyro_step(prev, *r),
    {
        let lock = match channel {
            PyroChannel::Channel1 => &self.pyro1,
            PyroChannel::Channel2 => &self.pyro2,
        };
        let (current, handle) = lock.acquire_write();
        let next = pyro_step(current, r);
        handle.release_write(next);
        next
    }

    /// Records the connectivity outcome, replacing the whole record
    /// atomically under its own lock.
    pub fn update_wifi(&self, cfg: WifiConnectionConfiguration)
        requires
            self.wf(),
    {
        let (_, handle) = self.wifi.acquire_write();
        handle.release_write(cfg);
    }

    /// Returns a deep, point-in-time copy of the device state. Each group is
    /// read under its own lock, so each group is exactly as one writer left
    /// it; different groups may stem from different poll cycles.
    pub fn read(&self) -> (s: State)
        requires
            self.wf(),
        ensures
            state_wf(s),
    {
        let battery_handle = self.battery.acquire_read();
        let battery = *battery_handle.borrow();
        battery_handle.release_read();

        let pyro1_handle = self.pyro1.acquire_read();
        let pyro1 = *pyro1_handle.borrow();
        pyro1_handle.release_read();

        let pyro2_handle = self.pyro2.acquire_read();
        let pyro2 = *pyro2_handle.borrow();
        pyro2_handle.release_read();

        let wifi_handle = self.wifi.acquire_read();
        let wifi_ref = wifi_handle.borrow();
        let wifi_state = WifiConnectionConfiguration {
            connection_type: wifi_ref.connection_type,
            credentials: WifiCredentials {
                ssid: wifi_ref.credentials.ssid.clone(),
                password: wifi_ref.credentials.password.clone(),
            },
        };
        wifi_handle.release_read();

        State {
            battery: battery.reading,
            pyro: PyroState { channel1: pyro1.reading, channel2: pyro2.reading },
            wifi_state,
            stale: Staleness {
                battery: battery.stale,
                pyro_channel1: pyro1.stale,
                pyro_channel2: pyro2.stale,
            },
        }
    }
}

/// The battery group visible after the first `k` of a serialized sequence of
/// whole-group writes.
pub open spec fn visible_battery(init: BatteryGroup, writes: Seq<BatteryGroup>) -> BatteryGroup {
    if writes.len() == 0 {
        init
    } else {
        writes.last()
    }
}

/// Field-group atomicity. Battery writers replace the whole group under one
/// exclusive lock, so any interleaving of writers serializes into a sequence
/// of complete writes; after any prefix of that sequence, the visible group
/// is the initial value or one single writer's update, all three fields as a
/// set — never fields mixed from different writers.
pub proof fn lemma_battery_reads_untorn(
    init: BatteryGroup,
    writes: Seq<BatteryGroup>,
    k: int,
)
    requires
        0 <= k <= writes.len(),
    ensures
        visible_battery(init, writes.take(k)) == init || exists|i: int|
            0 <= i < writes.len() && visible_battery(init, writes.take(k)) == writes[i],
{
    if k > 0 {
        assert(writes.take(k).len() == k);
        assert(writes.take(k).last() == writes[k - 1]);
    }
}

} // verus!
