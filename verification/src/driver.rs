//! GPIO pin-select masks mirroring the vendor driver header.

use vstd::prelude::*;

verus! {

/// Sets the nth bit.
pub fn bit(n: u64) -> (r: u64)
    requires
        n < 64,
    ensures
        r == (1u64 << n),
{
    1u64 << n
}

/// One-hot GPIO selection masks, one per supported pin.
#[derive(Clone, Copy, Debug, PartialEq, Eq, Structural)]
pub enum GpioSel {
    Sel3,
    Sel4,
    Sel5,
    Sel6,
    Sel7,
    Sel8,
    Sel9,
    Sel10,
}

impl GpioSel {
    /// The vendor mask value of this selection: bit n set for pin n.
    pub open spec fn spec_value(self) -> u64 {
        match self {
            GpioSel::Sel3 => 1u64 << 3,
            GpioSel::Sel4 => 1u64 << 4,
            GpioSel::Sel5 => 1u64 << 5,
            GpioSel::Sel6 => 1u64 << 6,
            GpioSel::Sel7 => 1u64 << 7,
            GpioSel::Sel8 => 1u64 << 8,
            GpioSel::Sel9 => 1u64 << 9,
            GpioSel::Sel10 => 1u64 << 10,
        }
    }

    /// Executable form of [`GpioSel::spec_value`].
    pub fn value(self) -> (r: u64)
        ensures
            r == self.spec_value(),
    {
        match self {
            GpioSel::Sel3 => 1u64 << 3u64,
            GpioSel::Sel4 => 1u64 << 4u64,
            GpioSel::Sel5 => 1u64 << 5u64,
            GpioSel::Sel6 => 1u64 << 6u64,
            GpioSel::Sel7 => 1u64 << 7u64,
            GpioSel::Sel8 => 1u64 << 8u64,
            GpioSel::Sel9 => 1u64 << 9u64,
            GpioSel::Sel10 => 1u64 << 10u64,
        }
    }
}

} // verus!
