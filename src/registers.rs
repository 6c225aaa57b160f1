use vstd::prelude::*;

verus! {

/// Bus address of the sensor when its SAO pin is tied high.
pub const ADDRESS_HIGH: u8 = 0x38;

/// Bus address of the sensor when its SAO pin is tied low.
pub const ADDRESS_LOW: u8 = 0x3F;

/// Register offsets within the device's address window.
pub const REG_DEVICE_ID: u8 = 0x01;
pub const REG_TEMP_HIGH_LIMIT: u8 = 0x02;
pub const REG_TEMP_LOW_LIMIT: u8 = 0x03;
pub const REG_CONTROL: u8 = 0x04;
pub const REG_STATUS: u8 = 0x05;
pub const REG_DATA_TEMP_L: u8 = 0x06;
pub const REG_DATA_TEMP_H: u8 = 0x07;
pub const REG_SOFT_RESET: u8 = 0x0C;

/// I2C device address selection.
#[derive(Clone, Copy, Debug, PartialEq, Eq, Structural)]
pub enum AddressSelect {
    High,
    Low,
}

impl AddressSelect {
    /// The 7-bit bus address this selection stands for.
    pub open spec fn spec_address(self) -> u8 {
        match self {
            AddressSelect::High => ADDRESS_HIGH,
            AddressSelect::Low => ADDRESS_LOW,
        }
    }

    /// Returns the 7-bit bus address this selection stands for.
    pub fn address(self) -> (r: u8)
        ensures
            r == self.spec_address(),
            r < 0x80,
    {
        match self {
            AddressSelect::High => ADDRESS_HIGH,
            AddressSelect::Low => ADDRESS_LOW,
        }
    }
}

impl From<AddressSelect> for u8 {
    fn from(a: AddressSelect) -> (r: u8)
        ensures
            r == a.spec_address(),
    {
        a.address()
    }
}

impl vstd::std_specs::convert::FromSpecImpl<AddressSelect> for u8 {
    open spec fn obeys_from_spec() -> bool {
        true
    }

    open spec fn from_spec(a: AddressSelect) -> u8 {
        a.spec_address()
    }
}

} // verus!
