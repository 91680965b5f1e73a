//! Markers for the initialization state of peripherals and clocks.

use vstd::prelude::*;

verus! {

/// Trait implemented by the initialization-state markers.
pub trait InitState {
    /// Whether the marker stands for the enabled state.
    spec fn spec_enabled() -> bool;
}

/// The peripheral or clock is enabled.
pub struct Enabled;

impl InitState for Enabled {
    open spec fn spec_enabled() -> bool {
        true
    }
}

/// The peripheral or clock is disabled.
pub struct Disabled;

impl InitState for Disabled {
    open spec fn spec_enabled() -> bool {
        false
    }
}

} // verus!
