//! The levels of the three pins that switch a payload on.

use vstd::prelude::*;

verus! {

/// The level, 0 or 1, of each of the pins.
#[derive(Clone, Copy, Debug, PartialEq, Eq)]
pub struct PinLevels {
    pub pin4: u8,
    pub pin2: u8,
    pub pin1: u8,
}

/// The levels that select the payload `io`: the three low bits of `io`, the
/// lowest on pin 1.
pub fn pin_levels(io: u8) -> (r: PinLevels)
    ensures
        r.pin1 == io % 2,
        r.pin2 == io / 2 % 2,
        r.pin4 == io / 4 % 2,
{
    assert(io & 0b001 == io % 2) by (bit_vector);
    assert((io & 0b010) >> 1 == io / 2 % 2) by (bit_vector);
    assert((io & 0b100) >> 2 == io / 4 % 2) by (bit_vector);
    PinLevels { pin4: (io & 0b100) >> 2, pin2: (io & 0b010) >> 1, pin1: io & 0b001 }
}

/// The levels that switch every payload off.
pub fn pins_off() -> (r: PinLevels)
    ensures
        r == (PinLevels { pin4: 0, pin2: 0, pin1: 0 }),
{
    PinLevels { pin4: 0, pin2: 0, pin1: 0 }
}

} // verus!
