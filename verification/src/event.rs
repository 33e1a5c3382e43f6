//! The device-state events the indicator listens to, holding the values that
//! its decisions read.

use vstd::prelude::*;

verus! {

/// What the charger reports alongside a battery reading.
#[derive(Clone, Copy, Debug, PartialEq, Eq, Structural)]
pub enum ChargeState {
    Charging,
    Discharging,
    Unknown,
}

/// A battery status report: either no battery information, or a reading
/// whose level (a percentage) may itself be missing.
#[derive(Clone, Copy, Debug, PartialEq, Eq)]
pub enum BatteryStatus {
    Unavailable,
    Available { charge_state: ChargeState, level: Option<u8> },
}

/// What the Bluetooth link is doing.
#[derive(Clone, Copy, Debug, PartialEq, Eq, Structural)]
pub enum BleState {
    /// Searching for a host.
    Advertising,
    /// Connected to a host.
    Connected,
    /// Not in use (USB or sleep).
    Inactive,
}

/// The active Bluetooth profile and what the link is doing.
#[derive(Clone, Copy, Debug, PartialEq, Eq, Structural)]
pub struct BleStatus {
    pub profile: u8,
    pub state: BleState,
}

/// The connection status as far as the indicator reads it.
#[derive(Clone, Copy, Debug, PartialEq, Eq, Structural)]
pub struct ConnectionStatus {
    pub ble: BleStatus,
}

/// Local battery status changed.
#[derive(Clone, Copy, Debug, PartialEq, Eq)]
pub struct BatteryStatusEvent(pub BatteryStatus);

/// The charging line changed.
#[derive(Clone, Copy, Debug, PartialEq, Eq, Structural)]
pub struct ChargingStateEvent {
    pub charging: bool,
}

/// The central's view of a peripheral link changed.
#[derive(Clone, Copy, Debug, PartialEq, Eq, Structural)]
pub struct PeripheralConnectedEvent {
    pub id: usize,
    pub connected: bool,
}

/// The peripheral's view of its link to the central changed.
#[derive(Clone, Copy, Debug, PartialEq, Eq, Structural)]
pub struct CentralConnectedEvent {
    pub connected: bool,
}

/// The host connection status changed.
#[derive(Clone, Copy, Debug, PartialEq, Eq, Structural)]
pub struct ConnectionStatusChangeEvent(pub ConnectionStatus);

/// The host sent a keyboard LED (output) report; the byte holds its lock bits.
#[derive(Clone, Copy, Debug, PartialEq, Eq, Structural)]
pub struct LedIndicatorEvent(pub u8);

} // verus!
