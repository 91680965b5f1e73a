//! Marker types for the three independently enabled I2C operating roles.

use vstd::prelude::*;

verus! {

/// Trait implemented by the activation-state markers.
pub trait Status {
    /// Whether the marker stands for the active state.
    spec fn spec_active() -> bool;
}

/// The role is enabled in the peripheral's control register.
pub struct Active;

impl Status for Active {
    open spec fn spec_active() -> bool {
        true
    }
}

/// The role is disabled.
pub struct Inactive;

impl Status for Inactive {
    open spec fn spec_active() -> bool {
        false
    }
}

/// The host (bus master) role, in state `S`.
pub struct Host<S: Status> {
    pub state: core::marker::PhantomData<S>,
}

/// The device (bus slave) role, in state `S`.
pub struct Device<S: Status> {
    pub state: core::marker::PhantomData<S>,
}

/// The monitor (passive listener) role, in state `S`.
pub struct Monitor<S: Status> {
    pub state: core::marker::PhantomData<S>,
}

/// Trait of the host-role markers, tying the marker to the host-enable bit.
pub trait HostStatus {
    /// Whether the host role is enabled.
    spec fn spec_active() -> bool;
}

/// Trait of the device-role markers, tying the marker to the device-enable
/// bit.
pub trait DeviceStatus {
    /// Whether the device role is enabled.
    spec fn spec_active() -> bool;
}

/// Trait of the monitor-role markers, tying the marker to the
/// monitor-enable bit.
pub trait MonitorStatus {
    /// Whether the monitor role is enabled.
    spec fn spec_active() -> bool;
}

impl<S: Status> HostStatus for Host<S> {
    open spec fn spec_active() -> bool {
        S::spec_active()
    }
}

impl<S: Status> DeviceStatus for Device<S> {
    open spec fn spec_active() -> bool {
        S::spec_active()
    }
}

impl<S: Status> MonitorStatus for Monitor<S> {
    open spec fn spec_active() -> bool {
        S::spec_active()
    }
}

/// The host role, enabled.
pub type HostActive = Host<Active>;

/// The host role, disabled.
pub type HostInactive = Host<Inactive>;

/// The device role, enabled.
pub type DeviceActive = Device<Active>;

/// The device role, disabled.
pub type DeviceInactive = Device<Inactive>;

/// The monitor role, enabled.
pub type MonitorActive = Monitor<Active>;

/// The monitor role, disabled.
pub type MonitorInactive = Monitor<Inactive>;

} // verus!
