//! Bus requests made from a session: the address scan and one-register
//! reads and writes.
use vstd::prelude::*;
use crate::charger::{watchdog_window_secs, WatchdogTimer};
use crate::power::spec_sleep_secs;

verus! {

/// First address probed by a scan.
pub const I2C_SCAN_FIRST: u8 = 0x03;

/// Last address probed by a scan.
pub const I2C_SCAN_LAST: u8 = 0x77;

/// Number of addresses probed by a scan.
pub const I2C_SCAN_COUNT: usize = 117;

/// Addresses probed by a scan, in order: 0x03 to 0x77.
pub fn scan_addresses() -> (r: Vec<u8>)
    ensures
        r@.len() == I2C_SCAN_COUNT,
        I2C_SCAN_COUNT == I2C_SCAN_LAST - I2C_SCAN_FIRST + 1,
        forall|i: int| 0 <= i < I2C_SCAN_COUNT ==> #[trigger] r@[i] == I2C_SCAN_FIRST + i,
{
    let mut r: Vec<u8> = Vec::new();
    let mut a: u8 = I2C_SCAN_FIRST;
    while a <= I2C_SCAN_LAST
        invariant
            I2C_SCAN_FIRST <= a <= I2C_SCAN_LAST + 1,
            r@.len() == a - I2C_SCAN_FIRST,
            forall|i: int| 0 <= i < r@.len() ==> #[trigger] r@[i] == I2C_SCAN_FIRST + i,
        decreases I2C_SCAN_LAST + 1 - a,
    {
        r.push(a);
        a = a + 1;
    }
    r
}

/// Addresses that acknowledged, in scan order, where `acks[i]` tells whether
/// address `0x03 + i` acknowledged.
pub open spec fn acked_addresses(acks: Seq<bool>) -> Seq<u8>
    decreases acks.len(),
{
    if acks.len() == 0 {
        Seq::empty()
    } else {
        let rest = acked_addresses(acks.drop_last());
        if acks.last() {
            rest.push((I2C_SCAN_FIRST + acks.len() - 1) as u8)
        } else {
            rest
        }
    }
}

/// A `i2c_scan_result` frame.
#[derive(Clone, Debug)]
pub struct I2cScanResult {
    pub devices: Vec<u8>,
}

/// The scan result for the probe outcomes `acks`, one per scanned address.
pub fn i2c_scan(acks: &Vec<bool>) -> (r: I2cScanResult)
    requires
        acks@.len() <= I2C_SCAN_COUNT,
    ensures
        r.devices@ == acked_addresses(acks@),
{
    let mut devices: Vec<u8> = Vec::new();
    let mut i: usize = 0;
    while i < acks.len()
        invariant
            i <= acks@.len() <= I2C_SCAN_COUNT,
            devices@ == acked_addresses(acks@.subrange(0, i as int)),
        decreases acks@.len() - i,
    {
        let ghost prefix = acks@.subrange(0, i as int + 1);
        assert(prefix.drop_last() =~= acks@.subrange(0, i as int));
        if acks[i] {
            devices.push(I2C_SCAN_FIRST + i as u8);
        }
        i = i + 1;
    }
    assert(acks@.subrange(0, acks@.len() as int) =~= acks@);
    I2cScanResult { devices }
}

/// A `i2c_read_result` frame.
#[derive(Clone, Copy, Debug, PartialEq, Eq, Structural)]
pub struct I2cReadResult {
    pub address: u8,
    pub register: u8,
    pub value: u8,
    pub success: bool,
}

/// The bytes written before reading one register: its number.
pub fn i2c_read_request(register: u8) -> (r: Vec<u8>)
    ensures
        r@ == seq![register],
{
    let mut r: Vec<u8> = Vec::new();
    r.push(register);
    r
}

/// The read result for what the bus returned: the value, or nothing on failure
/// (reported as value 0).
pub fn i2c_read(address: u8, register: u8, read: Option<u8>) -> (r: I2cReadResult)
    ensures
        r.address == address,
        r.register == register,
        r.success == read is Some,
        r.value == match read {
            Some(v) => v,
            None => 0u8,
        },
{
    match read {
        Some(value) => I2cReadResult { address, register, value, success: true },
        None => I2cReadResult { address, register, value: 0, success: false },
    }
}

/// A `i2c_write_result` frame.
#[derive(Clone, Copy, Debug, PartialEq, Eq, Structural)]
pub struct I2cWriteResult {
    pub address: u8,
    pub register: u8,
    pub success: bool,
}

/// The bytes written to set one register: its number, then the value.
pub fn i2c_write_request(register: u8, value: u8) -> (r: Vec<u8>)
    ensures
        r@ == seq![register, value],
{
    let mut r: Vec<u8> = Vec::new();
    r.push(register);
    r.push(value);
    assert(r@ =~= seq![register, value]);
    r
}

/// The write result for whether the bus accepted the write.
pub fn i2c_write(address: u8, register: u8, written: bool) -> (r: I2cWriteResult)
    ensures
        r == (I2cWriteResult { address, register, success: written }),
{
    I2cWriteResult { address, register, success: written }
}

/// No bus starvation: a scan of 117 empty writes of at most 10 ms each, taken
/// on top of the watchdog sleep, still ends within the watchdog window when
/// the window is at least 40 s.
pub proof fn law_scan_within_watchdog_window(w: WatchdogTimer, t_write_empty_ms: int)
    requires
        watchdog_window_secs(w) >= 40,
        0 <= t_write_empty_ms <= 10,
    ensures
        spec_sleep_secs(w) * 1000 + I2C_SCAN_COUNT * t_write_empty_ms <= watchdog_window_secs(w) * 1000,
        spec_sleep_secs(w) * 1000 + I2C_SCAN_COUNT * t_write_empty_ms <= watchdog_window_secs(w) * 500
            + I2C_SCAN_COUNT * 10,
{
}

} // verus!
