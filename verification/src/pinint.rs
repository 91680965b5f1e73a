//! Interface to the pin interrupt engine: eight interrupt channels, each
//! connectable to any pin's input and triggered on edges or levels.

use vstd::prelude::*;

pub mod interrupt;
pub mod mode;

use interrupt::{PinIntRegs, PinInterrupt};

verus! {

/// The pin interrupt engine before any channel has been configured.
///
/// The GPIO and pin-interrupt clock is already enabled at reset and this
/// library offers no way to disable it, so activation only hands out the
/// eight channel handles.
pub struct Inactive {
    pub marker: core::marker::PhantomData<()>,
}

impl Inactive {
    pub(crate) fn new() -> (r: Inactive) {
        Inactive { marker: core::marker::PhantomData }
    }

    /// Hands out the eight interrupt channels, each inactive.
    pub fn activate(self) -> (r: PinInterrupts)
        ensures
            r.wf(),
    {
        PinInterrupts {
            int0: PinInterrupt::new(0),
            int1: PinInterrupt::new(1),
            int2: PinInterrupt::new(2),
            int3: PinInterrupt::new(3),
            int4: PinInterrupt::new(4),
            int5: PinInterrupt::new(5),
            int6: PinInterrupt::new(6),
            int7: PinInterrupt::new(7),
        }
    }
}

/// The eight pin interrupt channels.
pub struct PinInterrupts {
    pub int0: PinInterrupt<mode::Inactive>,
    pub int1: PinInterrupt<mode::Inactive>,
    pub int2: PinInterrupt<mode::Inactive>,
    pub int3: PinInterrupt<mode::Inactive>,
    pub int4: PinInterrupt<mode::Inactive>,
    pub int5: PinInterrupt<mode::Inactive>,
    pub int6: PinInterrupt<mode::Inactive>,
    pub int7: PinInterrupt<mode::Inactive>,
}

impl PinInterrupts {
    /// Every channel handle carries the index it is named after.
    pub open spec fn wf(&self) -> bool {
        &&& self.int0.spec_index() == 0
        &&& self.int1.spec_index() == 1
        &&& self.int2.spec_index() == 2
        &&& self.int3.spec_index() == 3
        &&& self.int4.spec_index() == 4
        &&& self.int5.spec_index() == 5
        &&& self.int6.spec_index() == 6
        &&& self.int7.spec_index() == 7
    }
}

/// What a configured channel reacts to.
#[derive(Clone, Copy, Debug, PartialEq, Eq, Structural)]
pub enum Sensitivity {
    Edge,
    Level,
}

} // verus!
