//! The accelerometer's register protocol.

use vstd::prelude::*;
use crate::client::{I2CClient, Reply, Transfer, byte_spec};
use crate::error::{EIO, Error};
use crate::utility::{adxl345_device_init, adxl345_device_clean, device_init_spec};
use crate::sample::{Adxl345Sample, SAMPLE_SIZE, axis_spec};
use crate::script::{Command, updated};
use crate::registers::{BANK_SIZE, apply_script, lemma_script_keeps_size};

verus! {

/// Data rate and power mode control.
pub const REG_BW_RATE: u8 = 0x2C;
/// Power-saving features control; bit 3 is the measurement bit.
pub const REG_POWER_CTL: u8 = 0x2D;
/// Interrupt enable control.
pub const REG_INT_ENABLE: u8 = 0x2E;
/// Interrupt mapping control.
pub const REG_INT_MAP: u8 = 0x2F;
/// Source of interrupts; bit 7 is "data ready".
pub const REG_INT_SOURCE: u8 = 0x30;
/// Data format control.
pub const REG_DATA_FORMAT: u8 = 0x31;
/// X-axis data, low byte; Y and Z follow.
pub const REG_DATAX0: u8 = 0x32;
/// FIFO control.
pub const REG_FIFO_CTL: u8 = 0x38;

/// The measurement bit of the power control register.
pub const POWER_CTL_MEASURE: u8 = 0x08;
/// The low-power bit of the data rate register.
pub const BW_RATE_LOW_POWER: u8 = 0x10;
/// Full resolution, right-justified, full range.
pub const DATA_FORMAT_DEFAULT: u8 = 0x0B;
/// The FIFO mode bits; all clear is bypass mode.
pub const FIFO_CTL_MODE: u8 = 0xC0;
/// The "data ready" bit of the interrupt source register.
pub const INT_SOURCE_DATA_READY: u8 = 0x80;

/// The default configuration: standby, interrupts off, normal power, data
/// format, interrupts on the first pin, FIFO bypassed.
pub open spec fn default_config_spec() -> Seq<Command> {
    seq![
        Command::Write { reg: REG_POWER_CTL, value: 0x00 },
        Command::Write { reg: REG_INT_ENABLE, value: 0x00 },
        Command::Update { reg: REG_BW_RATE, clear: BW_RATE_LOW_POWER, set: 0x00 },
        Command::Write { reg: REG_DATA_FORMAT, value: DATA_FORMAT_DEFAULT },
        Command::Write { reg: REG_INT_MAP, value: 0x00 },
        Command::Update { reg: REG_FIFO_CTL, clear: FIFO_CTL_MODE, set: 0x00 },
    ]
}

/// Measurement on: set bit 3 of the power control register.
pub open spec fn enable_measure_spec() -> Seq<Command> {
    seq![Command::Update { reg: REG_POWER_CTL, clear: 0x00, set: POWER_CTL_MEASURE }]
}

/// Measurement off: clear bit 3 of the power control register.
pub open spec fn disable_measure_spec() -> Seq<Command> {
    seq![Command::Update { reg: REG_POWER_CTL, clear: POWER_CTL_MEASURE, set: 0x00 }]
}

/// Interrupts off, then standby.
pub open spec fn shutdown_spec() -> Seq<Command> {
    seq![
        Command::Write { reg: REG_INT_ENABLE, value: 0x00 },
        Command::Write { reg: REG_POWER_CTL, value: 0x00 },
    ]
}

/// What the reply to a read of the interrupt source register says: `1` when
/// a sample is ready (bit 7 is set, so the byte is at least 0x80), `0` when not.
pub open spec fn ready_spec(ret: i32) -> Result<u8, Error> {
    match byte_spec(ret) {
        Err(e) => Err(e),
        Ok(v) => Ok(if v >= INT_SOURCE_DATA_READY { 1u8 } else { 0u8 }),
    }
}

/// Whether a reply to the sample read carries a whole sample.
pub open spec fn sample_complete(reply: Reply) -> bool {
    reply.ret == SAMPLE_SIZE && reply.data@.len() >= SAMPLE_SIZE
}

/// Whether `s` is the sample that a whole reply carries: the six data
/// registers decoded.
pub open spec fn sample_ok(reply: Reply, s: Adxl345Sample) -> bool {
    &&& sample_complete(reply)
    &&& s.x as int == axis_spec(reply.data@[0], reply.data@[1])
    &&& s.y as int == axis_spec(reply.data@[2], reply.data@[3])
    &&& s.z as int == axis_spec(reply.data@[4], reply.data@[5])
}

/// The outcome of the sample read: the transport error, `InvalidData` for a
/// short read, or the sample decoded from the six data registers.
pub open spec fn sample_result_ok(reply: Reply, r: Result<Adxl345Sample, Error>) -> bool {
    if reply.ret < 0 {
        r == Err::<Adxl345Sample, Error>(Error::Io(reply.ret))
    } else if !sample_complete(reply) {
        r == Err::<Adxl345Sample, Error>(Error::InvalidData)
    } else {
        r matches Ok(s) && sample_ok(reply, s)
    }
}

/// The device state: the handle on the accelerometer and, while the device
/// is exposed, the minor number of its node.
pub struct Adxl345 {
    pub client: I2CClient,
    pub registration: Option<u16>,
}

impl Adxl345 {
    /// The device state around `client`, not exposed yet.
    pub fn new(client: I2CClient) -> (r: Adxl345)
        ensures
            r.client == client,
            r.registration is None,
    {
        Adxl345 { client, registration: None }
    }

    /// The handle on the device.
    pub fn client(&self) -> (r: &I2CClient)
        ensures
            *r == self.client,
    {
        &self.client
    }

    /// The transaction that reads register `reg`.
    pub fn read_register(&self, reg: u8) -> (r: Transfer)
        ensures
            r == (Transfer::ReadByteData { command: reg }),
    {
        self.client.read_byte(reg)
    }

    /// The transaction that writes `value` to register `reg`.
    pub fn write_register(&self, reg: u8, value: u8) -> (r: Transfer)
        ensures
            r == (Transfer::WriteByteData { command: reg, value }),
    {
        self.client.write_byte(reg, value)
    }

    /// The script that puts the device in its default configuration.
    pub fn set_default_config(&self) -> (r: Vec<Command>)
        ensures
            r@ == default_config_spec(),
    {
        let mut r: Vec<Command> = Vec::new();
        r.push(Command::Write { reg: REG_POWER_CTL, value: 0x00 });
        r.push(Command::Write { reg: REG_INT_ENABLE, value: 0x00 });
        r.push(Command::Update { reg: REG_BW_RATE, clear: BW_RATE_LOW_POWER, set: 0x00 });
        r.push(Command::Write { reg: REG_DATA_FORMAT, value: DATA_FORMAT_DEFAULT });
        r.push(Command::Write { reg: REG_INT_MAP, value: 0x00 });
        r.push(Command::Update { reg: REG_FIFO_CTL, clear: FIFO_CTL_MODE, set: 0x00 });
        assert(r@ =~= default_config_spec());
        r
    }

    /// The script that sets the measurement bit.
    pub fn enable_measure(&self) -> (r: Vec<Command>)
        ensures
            r@ == enable_measure_spec(),
    {
        let mut r: Vec<Command> = Vec::new();
        r.push(Command::Update { reg: REG_POWER_CTL, clear: 0x00, set: POWER_CTL_MEASURE });
        assert(r@ =~= enable_measure_spec());
        r
    }

    /// The script that clears the measurement bit.
    pub fn disable_measure(&self) -> (r: Vec<Command>)
        ensures
            r@ == disable_measure_spec(),
    {
        let mut r: Vec<Command> = Vec::new();
        r.push(Command::Update { reg: REG_POWER_CTL, clear: POWER_CTL_MEASURE, set: 0x00 });
        assert(r@ =~= disable_measure_spec());
        r
    }

    /// The script that quiets the device before it goes: interrupts off, standby.
    pub fn shutdown(&self) -> (r: Vec<Command>)
        ensures
            r@ == shutdown_spec(),
    {
        let mut r: Vec<Command> = Vec::new();
        r.push(Command::Write { reg: REG_INT_ENABLE, value: 0x00 });
        r.push(Command::Write { reg: REG_POWER_CTL, value: 0x00 });
        assert(r@ =~= shutdown_spec());
        r
    }

    /// The transaction that asks whether a sample is ready; see [`Adxl345::ready_from`].
    pub fn data_ready(&self) -> (r: Transfer)
        ensures
            r == (Transfer::ReadByteData { command: REG_INT_SOURCE }),
    {
        self.read_register(REG_INT_SOURCE)
    }

    /// Reads the reply to [`Adxl345::data_ready`]: `1` when bit 7 of the
    /// interrupt source is set, `0` when not; a transport error goes through.
    pub fn ready_from(reply: &Reply) -> (r: Result<u8, Error>)
        ensures
            r == ready_spec(reply.ret),
    {
        match reply.byte() {
            Ok(v) => {
                assert((v & 0x80u8 != 0) == (v >= 0x80u8)) by (bit_vector);
                if v & INT_SOURCE_DATA_READY != 0 {
                    Ok(1)
                } else {
                    Ok(0)
                }
            },
            Err(e) => Err(e),
        }
    }

    /// The transaction that reads one sample: six bytes from the X-axis low
    /// byte on; see [`Adxl345::sample_from`].
    pub fn read_data(&self) -> (r: Transfer)
        ensures
            r == (Transfer::ReadI2cBlockData { command: REG_DATAX0, len: 6 }),
    {
        Transfer::ReadI2cBlockData { command: REG_DATAX0, len: 6 }
    }

    /// Decodes the reply to [`Adxl345::read_data`]. Any count other than six
    /// is `InvalidData`.
    pub fn sample_from(reply: &Reply) -> (r: Result<Adxl345Sample, Error>)
        ensures
            sample_result_ok(*reply, r),
    {
        match reply.count() {
            Err(e) => Err(e),
            Ok(n) => {
                if n != SAMPLE_SIZE || reply.data.len() < SAMPLE_SIZE {
                    return Err(Error::InvalidData);
                }
                let mut data: Vec<u8> = Vec::new();
                let mut i: usize = 0;
                while i < SAMPLE_SIZE
                    invariant
                        i <= SAMPLE_SIZE,
                        reply.data@.len() >= SAMPLE_SIZE,
                        data@ == reply.data@.subrange(0, i as int),
                    decreases SAMPLE_SIZE - i,
                {
                    data.push(reply.data[i]);
                    i = i + 1;
                }
                Ok(Adxl345Sample::from_register_bytes(&data))
            },
        }
    }
}

/// The driver's hold on the one device: the device state, which the node's
/// registry shows while the node is registered.
pub struct Adxl345Driver {
    device: Adxl345,
}

impl Adxl345Driver {
    pub closed spec fn device_spec(&self) -> Adxl345 {
        self.device
    }

    /// The driver around a device that is not exposed yet.
    pub fn new(client: I2CClient) -> (r: Adxl345Driver)
        ensures
            r.device_spec().client == client,
            r.device_spec().registration is None,
    {
        Adxl345Driver { device: Adxl345::new(client) }
    }

    /// The device state.
    pub fn device(&self) -> (r: &Adxl345)
        ensures
            *r == self.device_spec(),
    {
        &self.device
    }

    /// The registry of the node: the device while it is exposed, else `None`.
    pub fn registry(&self) -> (r: Option<&Adxl345>)
        ensures
            self.device_spec().registration is Some ==> r == Some(&self.device_spec()),
            self.device_spec().registration is None ==> r is None,
    {
        if self.device.registration.is_some() {
            Some(&self.device)
        } else {
            None
        }
    }

    /// Attach: the procedure that readies the device; its outcome goes to
    /// [`Adxl345Driver::init_outcome`].
    pub fn probe(&self) -> (r: Vec<Command>)
        ensures
            r@ == device_init_spec(),
    {
        adxl345_device_init(&self.device)
    }

    /// The outcome of attaching, given the outcome of the readying procedure:
    /// any failure is fatal and an I/O error; the device is not exposed.
    pub fn init_outcome(init: Result<(), Error>) -> (r: Result<(), Error>)
        ensures
            init is Ok ==> r == Ok::<(), Error>(()),
            init is Err ==> r == Err::<(), Error>(Error::Io(-EIO as i32)),
    {
        match init {
            Ok(()) => Ok(()),
            Err(_) => Err(Error::Io(-EIO)),
        }
    }

    /// Exposes the device once its node is registered with minor `minor`:
    /// from now on the registry holds it.
    pub fn activate(&mut self, minor: u16)
        ensures
            final(self).device_spec() == (Adxl345 { registration: Some(minor), ..old(self).device_spec() }),
    {
        self.device.registration = Some(minor);
    }

    /// Detach: the registry is cleared first; then the procedure that quiets
    /// the device (whose failure is only reported) and the node to
    /// deregister, if one was registered.
    pub fn remove(&mut self) -> (r: (Vec<Command>, Option<u16>))
        ensures
            final(self).device_spec() == (Adxl345 { registration: None, ..old(self).device_spec() }),
            r.0@ == shutdown_spec(),
            r.1 == old(self).device_spec().registration,
    {
        let node = self.device.registration;
        self.device.registration = None;
        (adxl345_device_clean(&self.device), node)
    }
}

/// Whatever the registers held, running the default configuration, then
/// enabling and then disabling measurement leaves the measurement bit clear.
pub proof fn lemma_measure_off_after_cycle(regs: Seq<u8>)
    requires
        regs.len() == BANK_SIZE,
    ensures
        apply_script(
            apply_script(apply_script(regs, default_config_spec()), enable_measure_spec()),
            disable_measure_spec(),
        )[REG_POWER_CTL as int] & POWER_CTL_MEASURE == 0,
{
    let configured = apply_script(regs, default_config_spec());
    lemma_script_keeps_size(regs, default_config_spec());
    let enabled = apply_script(configured, enable_measure_spec());
    lemma_script_keeps_size(configured, enable_measure_spec());
    let ops = disable_measure_spec();
    assert(ops.drop_last() =~= seq![]);
    assert(apply_script(enabled, ops.drop_last()) == enabled);
    let v = enabled[REG_POWER_CTL as int];
    assert(apply_script(enabled, ops) == enabled.update(REG_POWER_CTL as int, updated(v, POWER_CTL_MEASURE, 0)));
    assert(updated(v, POWER_CTL_MEASURE, 0) & POWER_CTL_MEASURE == 0) by (bit_vector)
        requires
            POWER_CTL_MEASURE == 8u8,
    ;
}

} // verus!
