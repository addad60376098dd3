//! The LIS3DH accelerometer: which registers to write and read, in what
//! order, and what the bytes that come back mean. The bus itself belongs to
//! the caller: the driver names each transfer, the caller performs it and
//! hands back how it went.
//!
//! Accelerations are whole numbers of nano-g (1e-9 of standard gravity), so
//! that one raw count, 0.004 / 64 g, is exactly 62_500.

use vstd::prelude::*;

verus! {

/// The sensor's bus address.
pub const ADDR: u8 = 0x18;

/// Power mode and data rate.
pub const CTRL_REG1: u8 = 0x20;

/// Resolution and block data update.
pub const CTRL_REG4: u8 = 0x23;

/// Auxiliary converter enable.
pub const TEMP_CFG_REG: u8 = 0x1F;

/// The first of the six data registers: X low, X high, Y low, Y high,
/// Z low, Z high.
pub const OUT_X_L: u8 = 0x28;

/// One raw count in nano-g.
pub const NANO_G_PER_COUNT: i64 = 62_500;

/// Readings above this (2.0 g) are folded back.
pub const FOLD_ABOVE: i64 = 2_000_000_000;

/// What is taken from a folded reading (4.1 g).
pub const FOLD_BY: i64 = 4_100_000_000;

/// A write of `value` to register `reg` of the device at `addr`.
#[derive(Clone, Copy, Debug, PartialEq, Eq, Structural)]
pub struct RegisterWrite {
    pub addr: u8,
    pub reg: u8,
    pub value: u8,
}

/// A read of one byte from register `reg` of the device at `addr`.
#[derive(Clone, Copy, Debug, PartialEq, Eq, Structural)]
pub struct RegisterRead {
    pub addr: u8,
    pub reg: u8,
}

/// Acceleration along the three body axes, in nano-g.
#[derive(Clone, Copy, Debug, PartialEq, Eq, Structural)]
pub struct OrientationSample {
    pub x: i64,
    pub y: i64,
    pub z: i64,
}

/// What start-up does next.
#[derive(Debug, PartialEq, Eq)]
pub enum InitStep<E> {
    /// Perform this write and come back with its outcome.
    Write(RegisterWrite),
    /// Start-up is over: the sensor is configured, or a write has failed.
    Done(Result<(), E>),
}

/// What a read of the sensor does next.
#[derive(Debug, PartialEq, Eq)]
pub enum ReadStep<E> {
    /// Perform this read and come back with its outcome.
    Request(RegisterRead),
    /// The read is over: this is the sample, or a transfer has failed.
    Done(Result<OrientationSample, E>),
}

/// The three configuration writes of start-up, in order.
pub open spec fn setup_writes(addr: u8) -> Seq<RegisterWrite> {
    seq![
        RegisterWrite { addr, reg: CTRL_REG1, value: 0x97 },
        RegisterWrite { addr, reg: CTRL_REG4, value: 0x80 },
        RegisterWrite { addr, reg: TEMP_CFG_REG, value: 0xC0 },
    ]
}

/// The signed 16-bit value with `high` in its upper and `low` in its lower
/// 8 bits.
pub open spec fn raw_of(low: u8, high: u8) -> int {
    if high >= 128 { (high - 256) * 256 + low } else { high * 256 + low }
}

/// A raw count in nano-g: 62_500 each, less 4.1 g where that is over 2.0 g.
pub open spec fn normalized(raw: int) -> int {
    let value = raw * NANO_G_PER_COUNT;
    if value > FOLD_ABOVE { value - FOLD_BY } else { value }
}

/// The reading of one axis from its two data bytes.
pub open spec fn axis_of(low: u8, high: u8) -> int {
    normalized(raw_of(low, high))
}

/// The sample that six data bytes hold.
pub open spec fn sample_of(bytes: Seq<u8>) -> OrientationSample {
    OrientationSample {
        x: axis_of(bytes[0], bytes[1]) as i64,
        y: axis_of(bytes[2], bytes[3]) as i64,
        z: axis_of(bytes[4], bytes[5]) as i64,
    }
}

/// What start-up does once `completed` writes have been made and the
/// latest of them ended in `outcome`: a failure ends it at once, with that
/// error; else it makes the next of the three writes, or is done.
pub open spec fn init_step<E>(addr: u8, completed: usize, outcome: Result<(), E>) -> InitStep<E> {
    match outcome {
        Err(e) => InitStep::Done(Err(e)),
        Ok(_) => if completed < 3 {
            InitStep::Write(setup_writes(addr)[completed as int])
        } else {
            InitStep::Done(Ok(()))
        },
    }
}

/// What a read does once `received` holds the bytes read so far and the
/// latest transfer ended in `outcome`: a failure ends it at once, with that
/// error and no sample; else it asks for the next data register, or with
/// six bytes gives the sample.
pub open spec fn read_step<E>(addr: u8, received: Seq<u8>, outcome: Result<(), E>) -> ReadStep<E> {
    match outcome {
        Err(e) => ReadStep::Done(Err(e)),
        Ok(_) => if received.len() < 6 {
            ReadStep::Request(RegisterRead { addr, reg: (OUT_X_L + received.len()) as u8 })
        } else {
            ReadStep::Done(Ok(sample_of(received)))
        },
    }
}

/// The driver. It keeps nothing but the device's address.
pub struct Lis3dh {
    addr: u8,
}

impl Lis3dh {
    /// The address of the device.
    pub closed spec fn address(&self) -> u8 {
        self.addr
    }

    /// The driver for the sensor at its fixed address.
    pub fn new() -> (d: Self)
        ensures
            d.address() == ADDR,
    {
        Self { addr: ADDR }
    }

    /// The write of `value` to register `reg`.
    pub fn write_reg(&self, reg: u8, value: u8) -> (t: RegisterWrite)
        ensures
            t == (RegisterWrite { addr: self.address(), reg, value }),
    {
        RegisterWrite { addr: self.addr, reg, value }
    }

    /// The read of register `reg`.
    pub fn read_reg(&self, reg: u8) -> (t: RegisterRead)
        ensures
            t == (RegisterRead { addr: self.address(), reg }),
    {
        RegisterRead { addr: self.addr, reg }
    }

    /// Start-up, one write at a time. `completed` is the number of writes
    /// made so far and `outcome` that of the latest, `Ok` before the first.
    /// The caller performs each write that comes back and stops at `Done`:
    /// a failed write is never retried, and none follows it.
    pub fn init<E>(&self, completed: usize, outcome: Result<(), E>) -> (step: InitStep<E>)
        ensures
            step == init_step(self.address(), completed, outcome),
    {
        match outcome {
            Err(e) => InitStep::Done(Err(e)),
            Ok(_) => {
                if completed == 0 {
                    InitStep::Write(self.write_reg(CTRL_REG1, 0x97))
                } else if completed == 1 {
                    InitStep::Write(self.write_reg(CTRL_REG4, 0x80))
                } else if completed == 2 {
                    InitStep::Write(self.write_reg(TEMP_CFG_REG, 0xC0))
                } else {
                    InitStep::Done(Ok(()))
                }
            },
        }
    }

    /// A read, one byte at a time. `received` holds the bytes read so far
    /// and `outcome` is that of the latest transfer, `Ok` before the first.
    /// The caller performs each read that comes back and stops at `Done`:
    /// the first failure ends the read without a sample.
    pub fn read_accel<E>(&self, received: &[u8], outcome: Result<(), E>) -> (step: ReadStep<E>)
        ensures
            step == read_step(self.address(), received@, outcome),
    {
        match outcome {
            Err(e) => ReadStep::Done(Err(e)),
            Ok(_) => {
                let n: usize = received.len();
                if n < 6 {
                    ReadStep::Request(self.read_reg(OUT_X_L + n as u8))
                } else {
                    let x: i64 = Self::read_axis(received[0], received[1]);
                    let y: i64 = Self::read_axis(received[2], received[3]);
                    let z: i64 = Self::read_axis(received[4], received[5]);
                    ReadStep::Done(Ok(OrientationSample { x, y, z }))
                }
            },
        }
    }

    /// The reading of one axis from its low and its high byte.
    pub fn read_axis(low: u8, high: u8) -> (value: i64)
        ensures
            value == axis_of(low, high),
    {
        Self::normalize(Self::raw_value(low, high))
    }

    /// The signed 16-bit count that two data bytes hold.
    pub fn raw_value(low: u8, high: u8) -> (raw: i16)
        ensures
            raw == raw_of(low, high),
    {
        let upper: i16 = if high >= 128 { high as i16 - 256 } else { high as i16 };
        upper * 256 + low as i16
    }

    /// A raw count in nano-g.
    pub fn normalize(raw: i16) -> (value: i64)
        ensures
            value == normalized(raw as int),
            raw * NANO_G_PER_COUNT > FOLD_ABOVE ==> value == raw * NANO_G_PER_COUNT - FOLD_BY,
            raw * NANO_G_PER_COUNT <= FOLD_ABOVE ==> value == raw * NANO_G_PER_COUNT,
    {
        let value: i64 = raw as i64 * NANO_G_PER_COUNT;
        if value > FOLD_ABOVE { value - FOLD_BY } else { value }
    }
}

/// No write follows a failed one: after a failure start-up is over, with
/// that error; and it is over without one only after the three writes.
pub proof fn lemma_init_stops_at_failure<E>(addr: u8, completed: usize, outcome: Result<(), E>)
    ensures
        outcome is Err ==> init_step(addr, completed, outcome) == InitStep::Done(outcome),
        init_step(addr, completed, outcome) == InitStep::<E>::Done(Ok(())) ==> outcome is Ok
            && completed >= 3,
{
}

/// No partial sample: a read gives a sample only of six bytes and only
/// while no transfer has failed; after a failure it is over, with that
/// error.
pub proof fn lemma_no_partial_sample<E>(addr: u8, received: Seq<u8>, outcome: Result<(), E>)
    ensures
        outcome is Err ==> read_step(addr, received, outcome) == ReadStep::<E>::Done(
            Err(outcome->Err_0),
        ),
        forall|sample: OrientationSample|
            read_step(addr, received, outcome) == ReadStep::<E>::Done(Ok(sample)) ==> outcome is Ok
                && received.len() >= 6 && sample == sample_of(received),
{
}

/// Every reading lies between -2.1 g and 2.0 g: what would be over 2.0 g is
/// folded back below zero.
pub proof fn lemma_reading_range(low: u8, high: u8)
    ensures
        -2_100_000_000 <= axis_of(low, high) <= FOLD_ABOVE,
{
}

} // verus!
