use vstd::prelude::*;

verus! {

/// ONE_SHOT bit of the control register: start a single conversion.
pub const CTRL_ONE_SHOT: u8 = 0x01;

/// FREERUN bit of the control register: convert continuously.
pub const CTRL_FREERUN: u8 = 0x04;

/// Position of the two AVG bits, which select the continuous conversion rate.
pub const CTRL_AVG_SHIFT: u8 = 4;

/// Continuous conversion speed.
#[derive(Clone, Copy, Debug, PartialEq, Eq, Structural)]
pub enum Speed {
    Hz25,
    Hz50,
    Hz100,
    Hz200,
}

/// Sensor operating mode.
#[derive(Clone, Copy, Debug, PartialEq, Eq, Structural)]
pub enum Mode {
    PowerDown,
    SingleConversion,
    Continuous(Speed),
}

impl Speed {
    /// The two-bit AVG code of this rate.
    pub open spec fn spec_bits(self) -> u8 {
        match self {
            Speed::Hz25 => 0,
            Speed::Hz50 => 1,
            Speed::Hz100 => 2,
            Speed::Hz200 => 3,
        }
    }

    /// Returns the two-bit AVG code of this rate.
    pub fn bits(self) -> (r: u8)
        ensures
            r == self.spec_bits(),
    {
        match self {
            Speed::Hz25 => 0,
            Speed::Hz50 => 1,
            Speed::Hz100 => 2,
            Speed::Hz200 => 3,
        }
    }
}

impl Mode {
    /// The control-register byte that selects this mode: nothing set to
    /// power down, ONE_SHOT for a single conversion, FREERUN with the rate in
    /// the AVG bits for continuous conversion.
    pub open spec fn spec_control_value(self) -> u8 {
        match self {
            Mode::PowerDown => 0,
            Mode::SingleConversion => CTRL_ONE_SHOT,
            Mode::Continuous(speed) => (CTRL_FREERUN + speed.spec_bits() * 16) as u8,
        }
    }

    /// Returns the control-register byte that selects this mode.
    pub fn control_value(self) -> (r: u8)
        ensures
            r == self.spec_control_value(),
    {
        match self {
            Mode::PowerDown => 0,
            Mode::SingleConversion => CTRL_ONE_SHOT,
            Mode::Continuous(speed) => {
                let bits: u8 = speed.bits();
                let r: u8 = CTRL_FREERUN | (bits << CTRL_AVG_SHIFT);
                assert(r == 4 + bits * 16) by (bit_vector)
                    requires
                        r == 4u8 | (bits << 4u8),
                        bits < 4,
                ;
                r
            },
        }
    }
}

} // verus!
