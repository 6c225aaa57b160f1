use vstd::prelude::*;

verus! {

/// Width of one limit-register count, in thousandths of a degree Celsius (0.64 °C).
pub const LIMIT_STEP_MILLICELSIUS: i64 = 640;

/// Temperature, in thousandths of a degree Celsius, at which the limit
/// register would read zero: -63 counts of 0.64 °C.
pub const LIMIT_ZERO_MILLICELSIUS: i64 = -40320;

/// The limit-register value for a temperature of `millicelsius` / 1000 °C:
/// `celsius / 0.64 + 63`, rounded toward zero, then held to the byte range
/// (below zero gives 0, above 255 gives 255).
pub open spec fn limit_value(millicelsius: int) -> int {
    let shifted = millicelsius + 40320;
    if shifted < 0 {
        0
    } else if shifted / 640 > 255 {
        255
    } else {
        shifted / 640
    }
}

/// The composite temperature count formed from the two data registers.
pub open spec fn composite(low: u8, high: u8) -> int {
    high as int * 256 + low as int
}

/// Converts a temperature, in thousandths of a degree Celsius, into the
/// value of a temperature limit register.
///
/// The register holds `celsius / 0.64 + 63` rounded toward zero; a
/// temperature outside the register's range gives its nearest end.
pub fn temperature_to_reg_value(millicelsius: i32) -> (r: u8)
    ensures
        r as int == limit_value(millicelsius as int),
{
    let shifted: i64 = millicelsius as i64 - LIMIT_ZERO_MILLICELSIUS;
    if shifted < 0 {
        0
    } else {
        let counts: i64 = shifted / LIMIT_STEP_MILLICELSIUS;
        if counts > 255 {
            255
        } else {
            counts as u8
        }
    }
}

/// Composes the two temperature data bytes into the count they encode,
/// `high << 8 | low`, in hundredths of a degree Celsius.
pub fn compose_temperature(low: u8, high: u8) -> (r: u16)
    ensures
        r as int == composite(low, high),
{
    let r: u16 = (high as u16) << 8u16 | (low as u16);
    assert(r == (high as u16) * 256 + (low as u16)) by (bit_vector)
        requires
            r == (high as u16) << 8u16 | (low as u16),
            high < 256u16,
    ;
    r
}

/// Encoding truncates: within the register's range, the count times the step
/// never exceeds the temperature's distance above the register's zero, and
/// falls short of it by less than one step.
pub proof fn lemma_rounds_toward_zero(millicelsius: int)
    requires
        -40320 <= millicelsius < 123520,
    ensures
        limit_value(millicelsius) * 640 <= millicelsius + 40320,
        millicelsius + 40320 < (limit_value(millicelsius) + 1) * 640,
{
}

/// Each count's lowest temperature, `(count - 63) * 0.64` °C, encodes to that
/// count, and the temperature one thousandth of a degree below it encodes to
/// the count below: a value just short of a boundary is not rounded up.
pub proof fn lemma_step_boundaries(count: int)
    requires
        0 <= count <= 255,
    ensures
        limit_value((count - 63) * 640) == count,
        count > 0 ==> limit_value((count - 63) * 640 - 1) == count - 1,
{
    assert((count * 640) / 640 == count) by (nonlinear_arith);
    assert(count > 0 ==> (count * 640 - 1) / 640 == count - 1) by (nonlinear_arith);
}

} // verus!
