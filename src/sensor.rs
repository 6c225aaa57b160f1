use vstd::prelude::*;

use crate::bus::{Bus, Transfer};
use crate::control::Mode;
use crate::registers::{
    AddressSelect, REG_CONTROL, REG_DATA_TEMP_H, REG_DATA_TEMP_L, REG_DEVICE_ID, REG_SOFT_RESET, REG_STATUS,
    REG_TEMP_HIGH_LIMIT, REG_TEMP_LOW_LIMIT,
};
use crate::temperature::{compose_temperature, composite, limit_value, temperature_to_reg_value};

verus! {

/// Byte written to the soft-reset register: bit 1 resets all digital blocks.
pub const SOFT_RESET_COMMAND: u8 = 0x02;

/// Byte written to a limit register to switch its interrupt off.
pub const LIMIT_DISABLED: u8 = 0x00;

/// The transaction address of a register: the device's base address plus the
/// register's offset.
pub open spec fn register_address(base: u8, offset: u8) -> u8 {
    (base + offset) as u8
}

/// `offset` is one of the device's documented registers.
pub open spec fn is_register_offset(offset: u8) -> bool {
    ||| offset == REG_DEVICE_ID
    ||| offset == REG_TEMP_HIGH_LIMIT
    ||| offset == REG_TEMP_LOW_LIMIT
    ||| offset == REG_CONTROL
    ||| offset == REG_STATUS
    ||| offset == REG_DATA_TEMP_L
    ||| offset == REG_DATA_TEMP_H
    ||| offset == REG_SOFT_RESET
}

/// For either address selection, the transaction address of every documented
/// register is exactly the base address plus the register's offset: the sum
/// never wraps.
pub proof fn lemma_register_address(select: AddressSelect, offset: u8)
    requires
        is_register_offset(offset),
    ensures
        register_address(select.spec_address(), offset) as int == select.spec_address() as int
            + offset as int,
{
}

/// `after` is `before` with one more transaction: a write of the single byte
/// `value` to `address` that returned `result`.
pub open spec fn wrote_byte<E>(
    before: Seq<Transfer<E>>,
    after: Seq<Transfer<E>>,
    address: u8,
    value: u8,
    result: Result<(), E>,
) -> bool {
    after == before.push(Transfer::Write { address, bytes: seq![value], result })
}

/// `t` is a read of exactly one byte at `address`.
pub open spec fn is_byte_read<E>(t: Transfer<E>, address: u8) -> bool {
    &&& t matches Transfer::Read { address: a, bytes, .. }
    &&& a == address
    &&& bytes.len() == 1
}

/// What a one-byte read yields: the byte read if the transport succeeded,
/// else the transport's own error.
pub open spec fn byte_result<E>(t: Transfer<E>) -> Result<u8, E> {
    match t {
        Transfer::Read { bytes, result, .. } => match result {
            Ok(_) => Ok(bytes[0]),
            Err(e) => Err(e),
        },
        Transfer::Write { bytes, result, .. } => match result {
            Ok(_) => Ok(bytes[0]),
            Err(e) => Err(e),
        },
    }
}

/// A temperature sensor reached through the transport `B`.
pub struct Sensor<B> {
    bus: B,
    address: AddressSelect,
}

impl<B: Bus> Sensor<B> {
    /// The 7-bit bus address the sensor answers on.
    pub closed spec fn base(self) -> u8 {
        self.address.spec_address()
    }

    /// The transport the sensor talks through.
    pub closed spec fn transport(self) -> B {
        self.bus
    }

    /// The transactions performed through the sensor's transport.
    pub open spec fn transfers(self) -> Seq<Transfer<B::Error>> {
        self.transport().transfers()
    }

    /// The transaction address of register `offset` on this sensor.
    pub open spec fn register(self, offset: u8) -> u8 {
        register_address(self.base(), offset)
    }

    /// Creates a new sensor instance. No transaction is made.
    pub fn new(i2c: B, address: AddressSelect) -> (s: Self)
        ensures
            s.base() == address.spec_address(),
            s.transport() == i2c,
    {
        Sensor { bus: i2c, address }
    }

    /// Returns the transport, giving up the sensor.
    pub fn release(self) -> (b: B)
        ensures
            b == self.transport(),
    {
        self.bus
    }

    /// Returns the transport, for inspection.
    pub fn bus(&self) -> (b: &B)
        ensures
            *b == self.transport(),
    {
        &self.bus
    }

    /// The transaction address of register `offset`.
    fn register_of(&self, offset: u8) -> (r: u8)
        requires
            offset <= REG_SOFT_RESET,
        ensures
            r == self.register(offset),
            r as int == self.base() as int + offset as int,
    {
        self.address.address() + offset
    }

    /// Writes the single byte `value` to register `offset`.
    fn write_register(&mut self, offset: u8, value: u8) -> (r: Result<(), B::Error>)
        requires
            offset <= REG_SOFT_RESET,
        ensures
            final(self).base() == old(self).base(),
            wrote_byte(old(self).transfers(), final(self).transfers(), old(self).register(offset), value, r),
    {
        let address: u8 = self.register_of(offset);
        let bytes: [u8; 1] = [value];
        let r = self.bus.write(address, &bytes);
        assert(bytes@ =~= seq![value]);
        r
    }

    /// Reads the single byte of register `offset`.
    fn read_register(&mut self, offset: u8) -> (r: Result<u8, B::Error>)
        requires
            offset <= REG_SOFT_RESET,
        ensures
            final(self).base() == old(self).base(),
            final(self).transfers().len() == old(self).transfers().len() + 1,
            final(self).transfers().drop_last() == old(self).transfers(),
            is_byte_read(final(self).transfers().last(), old(self).register(offset)),
            r == byte_result(final(self).transfers().last()),
    {
        let address: u8 = self.register_of(offset);
        let mut buf: [u8; 1] = [0];
        let r = self.bus.read(address, &mut buf);
        assert(self.transfers().drop_last() =~= old(self).transfers());
        match r {
            Ok(_) => Ok(buf[0]),
            Err(e) => Err(e),
        }
    }

    /// Reads the device ID register. A genuine device answers 0xA0; the byte
    /// is returned as read, and a transport error is returned unchanged.
    pub fn read_device_id(&mut self) -> (r: Result<u8, B::Error>)
        ensures
            final(self).base() == old(self).base(),
            final(self).transfers().drop_last() == old(self).transfers(),
            final(self).transfers().len() == old(self).transfers().len() + 1,
            is_byte_read(final(self).transfers().last(), old(self).register(REG_DEVICE_ID)),
            r == byte_result(final(self).transfers().last()),
    {
        self.read_register(REG_DEVICE_ID)
    }

    /// Disables high temperature limit interrupt generation.
    pub fn disable_temperature_high_limit(&mut self) -> (r: Result<(), B::Error>)
        ensures
            final(self).base() == old(self).base(),
            wrote_byte(
                old(self).transfers(),
                final(self).transfers(),
                old(self).register(REG_TEMP_HIGH_LIMIT),
                LIMIT_DISABLED,
                r,
            ),
    {
        self.write_register(REG_TEMP_HIGH_LIMIT, LIMIT_DISABLED)
    }

    /// Disables low temperature limit interrupt generation.
    pub fn disable_temperature_low_limit(&mut self) -> (r: Result<(), B::Error>)
        ensures
            final(self).base() == old(self).base(),
            wrote_byte(
                old(self).transfers(),
                final(self).transfers(),
                old(self).register(REG_TEMP_LOW_LIMIT),
                LIMIT_DISABLED,
                r,
            ),
    {
        self.write_register(REG_TEMP_LOW_LIMIT, LIMIT_DISABLED)
    }

    /// Sets the high temperature threshold, given in thousandths of a degree
    /// Celsius.
    pub fn temperature_high_limit(&mut self, millicelsius: i32) -> (r: Result<(), B::Error>)
        ensures
            final(self).base() == old(self).base(),
            wrote_byte(
                old(self).transfers(),
                final(self).transfers(),
                old(self).register(REG_TEMP_HIGH_LIMIT),
                limit_value(millicelsius as int) as u8,
                r,
            ),
    {
        let value: u8 = temperature_to_reg_value(millicelsius);
        self.write_register(REG_TEMP_HIGH_LIMIT, value)
    }

    /// Sets the low temperature threshold, given in thousandths of a degree
    /// Celsius.
    pub fn temperature_low_limit(&mut self, millicelsius: i32) -> (r: Result<(), B::Error>)
        ensures
            final(self).base() == old(self).base(),
            wrote_byte(
                old(self).transfers(),
                final(self).transfers(),
                old(self).register(REG_TEMP_LOW_LIMIT),
                limit_value(millicelsius as int) as u8,
                r,
            ),
    {
        let value: u8 = temperature_to_reg_value(millicelsius);
        self.write_register(REG_TEMP_LOW_LIMIT, value)
    }

    /// Selects the operating mode by writing the control register.
    pub fn configure(&mut self, mode: Mode) -> (r: Result<(), B::Error>)
        ensures
            final(self).base() == old(self).base(),
            wrote_byte(
                old(self).transfers(),
                final(self).transfers(),
                old(self).register(REG_CONTROL),
                mode.spec_control_value(),
                r,
            ),
    {
        let value: u8 = mode.control_value();
        self.write_register(REG_CONTROL, value)
    }

    /// Reads the temperature, in hundredths of a degree Celsius.
    ///
    /// The low data byte is read first, then the high one, as two separate
    /// transactions; if the first fails, its error is returned unchanged and
    /// the second is not attempted.
    pub fn read_temperature(&mut self) -> (r: Result<u16, B::Error>)
        ensures
            final(self).base() == old(self).base(),
            ({
                let before = old(self).transfers();
                let after = final(self).transfers();
                let n = before.len() as int;
                let low = byte_result(after[n]);
                &&& n < after.len() <= n + 2
                &&& after.subrange(0, n) == before
                &&& is_byte_read(after[n], old(self).register(REG_DATA_TEMP_L))
                &&& low matches Err(e) ==> after.len() == n + 1 && r == Err::<u16, B::Error>(e)
                &&& low matches Ok(l) ==> {
                    &&& after.len() == n + 2
                    &&& is_byte_read(after[n + 1], old(self).register(REG_DATA_TEMP_H))
                    &&& r == match byte_result(after[n + 1]) {
                        Ok(h) => Ok(composite(l, h) as u16),
                        Err(e) => Err(e),
                    }
                }
            }),
    {
        let low: u8 = match self.read_register(REG_DATA_TEMP_L) {
            Ok(b) => b,
            Err(e) => {
                assert(self.transfers().subrange(0, old(self).transfers().len() as int)
                    =~= old(self).transfers());
                return Err(e);
            },
        };
        let high: u8 = match self.read_register(REG_DATA_TEMP_H) {
            Ok(b) => b,
            Err(e) => {
                assert(self.transfers().subrange(0, old(self).transfers().len() as int)
                    =~= old(self).transfers());
                return Err(e);
            },
        };
        assert(self.transfers().subrange(0, old(self).transfers().len() as int)
            =~= old(self).transfers());
        Ok(compose_temperature(low, high))
    }

    /// Performs a software reset of the sensor, resetting all digital blocks.
    pub fn reset(&mut self) -> (r: Result<(), B::Error>)
        ensures
            final(self).base() == old(self).base(),
            wrote_byte(
                old(self).transfers(),
                final(self).transfers(),
                old(self).register(REG_SOFT_RESET),
                SOFT_RESET_COMMAND,
                r,
            ),
    {
        self.write_register(REG_SOFT_RESET, SOFT_RESET_COMMAND)
    }
}

} // verus!
