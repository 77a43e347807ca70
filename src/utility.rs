//! The device procedures of the driver's life: at attach, at every open and
//! release of the node, and at detach.

use vstd::prelude::*;
use crate::adxl345::{Adxl345, default_config_spec, enable_measure_spec, disable_measure_spec, shutdown_spec};
use crate::fileops::WAKE_DELAY_MS;
use crate::script::Command;

verus! {

/// Attach: default configuration, measurement on, the wake-up pause, one
/// sample read to check the device answers, measurement off.
pub open spec fn device_init_spec() -> Seq<Command> {
    default_config_spec() + enable_measure_spec() + seq![Command::Pause { ms: WAKE_DELAY_MS }, Command::ReadSample]
        + disable_measure_spec()
}

/// Open: measurement on, then the wake-up pause.
pub open spec fn device_init_at_open_spec() -> Seq<Command> {
    enable_measure_spec() + seq![Command::Pause { ms: WAKE_DELAY_MS }]
}

/// The procedure that readies the device when the driver attaches to it.
pub fn adxl345_device_init(device: &Adxl345) -> (r: Vec<Command>)
    ensures
        r@ == device_init_spec(),
{
    let mut r = device.set_default_config();
    let mut enable = device.enable_measure();
    r.append(&mut enable);
    r.push(Command::Pause { ms: WAKE_DELAY_MS });
    r.push(Command::ReadSample);
    let mut disable = device.disable_measure();
    r.append(&mut disable);
    assert(r@ =~= device_init_spec());
    r
}

/// The procedure that quiets the device when the driver detaches: interrupts
/// off, then standby.
pub fn adxl345_device_clean(device: &Adxl345) -> (r: Vec<Command>)
    ensures
        r@ == shutdown_spec(),
{
    device.shutdown()
}

/// The procedure that starts measuring when the node is opened.
pub fn adxl345_device_init_at_open(device: &Adxl345) -> (r: Vec<Command>)
    ensures
        r@ == device_init_at_open_spec(),
{
    let mut r = device.enable_measure();
    r.push(Command::Pause { ms: WAKE_DELAY_MS });
    assert(r@ =~= device_init_at_open_spec());
    r
}

/// The procedure that stops measuring when the node is released; its
/// outcome is not looked at.
pub fn adxl345_device_clean_at_release(device: &Adxl345) -> (r: Vec<Command>)
    ensures
        r@ == disable_measure_spec(),
{
    device.disable_measure()
}

} // verus!
