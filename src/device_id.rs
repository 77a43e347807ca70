//! The table of device identifiers that the bus subsystem matches drivers by.

use vstd::prelude::*;
use vstd::array::array_fill_for_copy_types;

verus! {

/// Size of the name field of a device identifier, terminating zero included.
pub const I2C_NAME_SIZE: usize = 20;

/// A device identifier in the bus subsystem's own layout: a zero-padded name
/// and a word of driver data.
#[derive(Clone, Copy, Debug)]
pub struct RawDeviceId {
    pub name: [u8; I2C_NAME_SIZE],
    pub driver_data: u64,
}

/// The name field for `name`: its bytes, cut to leave room for the
/// terminating zero, then zeros.
pub open spec fn name_field(name: Seq<u8>) -> Seq<u8> {
    Seq::new(I2C_NAME_SIZE as nat, |i: int| if i < name.len() && i < I2C_NAME_SIZE - 1 { name[i] } else { 0u8 })
}

/// One entry of a driver's device identifier table. An entry with an empty
/// name ends the table.
#[derive(Clone, Copy, Debug)]
pub struct I2CDeviceID {
    inner: RawDeviceId,
}

impl I2CDeviceID {
    pub closed spec fn raw(&self) -> RawDeviceId {
        self.inner
    }

    /// The entry for the device called `name`, with `driver_data` for the driver.
    pub fn new(name: &[u8], driver_data: u32) -> (r: I2CDeviceID)
        ensures
            r.raw().name@ == name_field(name@),
            r.raw().driver_data == driver_data as u64,
    {
        let mut field: [u8; I2C_NAME_SIZE] = array_fill_for_copy_types(0u8);
        let mut i: usize = 0;
        while i < I2C_NAME_SIZE - 1 && i < name.len()
            invariant
                i <= I2C_NAME_SIZE - 1,
                i <= name@.len(),
                field@.len() == I2C_NAME_SIZE,
                forall|k: int| 0 <= k < i ==> field@[k] == name@[k],
                forall|k: int| i <= k < I2C_NAME_SIZE ==> field@[k] == 0u8,
            decreases I2C_NAME_SIZE - i,
        {
            field[i] = name[i];
            i = i + 1;
        }
        assert(field@ =~= name_field(name@));
        I2CDeviceID { inner: RawDeviceId { name: field, driver_data: driver_data as u64 } }
    }

    /// The entry in the bus subsystem's layout.
    pub fn raw_entry(&self) -> (r: RawDeviceId)
        ensures
            r == self.raw(),
    {
        self.inner
    }

    /// The table in the bus subsystem's layout, entry for entry.
    pub fn to_bindings_array<const N: usize>(array: &[I2CDeviceID; N]) -> (r: [RawDeviceId; N])
        ensures
            forall|i: int| 0 <= i < N ==> #[trigger] r@[i] == array@[i].raw(),
    {
        let empty = RawDeviceId { name: array_fill_for_copy_types(0u8), driver_data: 0 };
        let mut result: [RawDeviceId; N] = array_fill_for_copy_types(empty);
        let mut i: usize = 0;
        while i < N
            invariant
                i <= N,
                result@.len() == N,
                forall|k: int| 0 <= k < i ==> #[trigger] result@[k] == array@[k].raw(),
            decreases N - i,
        {
            result[i] = array[i].inner;
            i = i + 1;
        }
        result
    }
}

} // verus!
