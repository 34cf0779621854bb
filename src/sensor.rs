use vstd::prelude::*;

verus! {

/// I2C address of the current/voltage monitor.
pub const SENSOR_ADDR: u8 = 0x40;

/// Register that holds the shunt calibration.
pub const REG_SHUNT_CAL: u8 = 0x02;

/// Register of the bus voltage.
pub const REG_VBUS: u8 = 0x05;

/// Register of the current.
pub const REG_CURRENT: u8 = 0x07;

/// Register of the power.
pub const REG_POWER: u8 = 0x08;

/// Shunt calibration for a current LSB of 16.384 A / 2^19 and a 10 mOhm shunt.
pub const SHUNT_CAL: u16 = 4096;

/// The 24-bit big-endian value of a register read.
pub open spec fn be24(b: [u8; 3]) -> nat {
    (b[0] as nat) * 65536 + (b[1] as nat) * 256 + (b[2] as nat)
}

/// The 20-bit field in the upper bits of a register read.
pub open spec fn field20(b: [u8; 3]) -> nat {
    be24(b) / 16
}

/// Bus voltage in units of 10^-5 V: 193.3125 uV per step, rounded down.
pub open spec fn voltage_of(b: [u8; 3]) -> int {
    (field20(b) * 1933125 / 100000) as int
}

/// The current register as a signed 20-bit two's complement value.
pub open spec fn current_steps(b: [u8; 3]) -> int {
    if b[0] >= 128 {
        field20(b) - 1048576
    } else {
        field20(b) as int
    }
}

/// Current in units of 10^-5 A: 31.25 uA per step, rounded toward zero.
pub open spec fn current_of(b: [u8; 3]) -> int {
    let s = current_steps(b);
    if s < 0 {
        -((-s) * 25 / 8)
    } else {
        s * 25 / 8
    }
}

/// Power in units of 10^-5 W: 100 uW per step of the 24-bit register.
pub open spec fn power_of(b: [u8; 3]) -> int {
    (be24(b) * 10) as int
}

/// Battery voltage in units of 10^-2 V from the ADC reading in mV at the
/// divider's midpoint (the battery is twice that), rounded down.
pub open spec fn battery_of(mv: u16) -> int {
    (mv as int) * 2 / 10
}

fn read_be24(b: [u8; 3]) -> (r: u32)
    ensures
        r == be24(b),
{
    (b[0] as u32) * 65536 + (b[1] as u32) * 256 + (b[2] as u32)
}

/// Bus voltage of a read of the voltage register.
pub fn decode_voltage(b: [u8; 3]) -> (r: i64)
    ensures
        r == voltage_of(b),
{
    let f: u64 = (read_be24(b) / 16) as u64;
    assert(f * 1933125 <= 1048575 * 1933125) by (nonlinear_arith)
        requires
            f < 1048576,
    ;
    (f * 1933125 / 100000) as i64
}

/// Current of a read of the current register.
pub fn decode_current(b: [u8; 3]) -> (r: i64)
    ensures
        r == current_of(b),
{
    let f: i64 = (read_be24(b) / 16) as i64;
    if b[0] >= 128 {
        let m: i64 = 1048576 - f;
        -(m * 25 / 8)
    } else {
        f * 25 / 8
    }
}

/// Power of a read of the power register.
pub fn decode_power(b: [u8; 3]) -> (r: i64)
    ensures
        r == power_of(b),
{
    (read_be24(b) as i64) * 10
}

/// Battery voltage of an ADC reading in mV.
pub fn decode_battery(mv: u16) -> (r: i64)
    ensures
        r == battery_of(mv),
{
    (mv as i64) * 2 / 10
}

/// The two bytes written after the calibration register's address.
pub fn shunt_cal_bytes() -> (r: [u8; 2])
    ensures
        r[0] as int * 256 + r[1] as int == SHUNT_CAL,
{
    [(SHUNT_CAL / 256) as u8, (SHUNT_CAL % 256) as u8]
}

} // verus!
