//! Driver logic for a polled three-axis accelerometer on a two-wire (I2C/SMBus) bus.
//!
//! The library never touches the bus itself. Every operation hands out the
//! bus transaction or the pause it needs and takes back the native reply, so
//! that the decisions between transactions are verified, while whatever
//! performs them (a kernel, a user-space bus, or the simulated register bank
//! of [`registers`]) stays outside.
//!
//! - [`client`]: the handle on one slave device and its transactions.
//! - [`driver`]: the driver's registration and the dispatch of bus events.
//! - [`adxl345`]: the accelerometer's register protocol.
//! - [`script`]: device procedures, run one step at a time.
//! - [`fileops`]: the read-only node: open, the filtered read, release.

pub mod error;
pub mod client;
pub mod sample;
pub mod script;
pub mod adxl345;
pub mod registers;
pub mod fileops;
pub mod utility;
pub mod device_id;
pub mod driver;

pub use error::Error;
pub use client::{I2CClient, Reply, Transfer};
pub use device_id::I2CDeviceID;
pub use driver::{I2CDriver, I2CDriverBuilder, I2CDriverCallbacks, I2CDriverVtable};
