//! Marker types for the configuration state of a pin interrupt channel.

use vstd::prelude::*;

verus! {

/// Trait implemented by the channel-state markers.
pub trait Sensitivity {

}

/// The channel is not connected to any pin.
pub struct Inactive;

impl Sensitivity for Inactive {

}

/// Trait of the markers for channels that are connected to a pin and
/// sensing it; the spec method tells edge from level sensitivity.
pub trait Sensing: Sensitivity {
    /// Whether the channel is level-sensitive rather than edge-sensitive.
    spec fn spec_level() -> bool;

    /// Returns whether the channel is level-sensitive.
    fn level() -> (r: bool)
        ensures
            r == Self::spec_level(),
    ;
}

/// The channel detects edges on its pin.
pub struct Edge;

impl Sensitivity for Edge {

}

impl Sensing for Edge {
    open spec fn spec_level() -> bool {
        false
    }

    fn level() -> bool {
        false
    }
}

/// The channel detects levels on its pin.
pub struct Level;

impl Sensitivity for Level {

}

impl Sensing for Level {
    open spec fn spec_level() -> bool {
        true
    }

    fn level() -> bool {
        true
    }
}

} // verus!
