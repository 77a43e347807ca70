//! The driver's registration with the bus subsystem, and the dispatch of the
//! subsystem's events to the driver's handler.

use vstd::prelude::*;
use crate::client::I2CClient;
use crate::device_id::{I2CDeviceID, RawDeviceId};
use crate::error::{Error, errno_spec, to_errno_result, to_result, status_spec};

verus! {

/// The protocol an alert came in by.
#[derive(Clone, Copy, Debug, PartialEq, Eq, Structural)]
pub enum I2CAlertProtocol {
    SmbusAlert,
    SmbusHostNotify,
}

/// What a driver does on the bus subsystem's events, one implementation per
/// class of device driven.
pub trait I2CDriverCallbacks {
    /// The driver is bound to a device.
    fn probe(&self, client: &I2CClient) -> Result<(), Error>;

    /// The driver is unbound from a device.
    fn remove(&self, client: &I2CClient);

    /// The system shuts down.
    fn shutdown(&self, client: &I2CClient) {
    }

    /// An alert came in, by `protocol`, with `data`.
    fn alert(&self, client: &I2CClient, protocol: I2CAlertProtocol, data: u32) {
    }

    /// A driver-specific command `cmd`, with an opaque argument word.
    fn command(&self, client: &I2CClient, cmd: u32, arg: usize) -> Result<(), Error> {
        Ok(())
    }

    /// Detection of a device that does not announce itself; `info` is the
    /// subsystem's opaque board-information handle.
    fn detect(&self, client: &I2CClient, info: usize) -> Result<(), Error> {
        Ok(())
    }
}

/// The entry points that the bus subsystem calls, for handlers of type `T`.
/// Each takes the device the event is about (its bus and address) and the
/// handler context attached to that device, which is `None` until a probe
/// attached one or after a remove cleared it.
pub struct I2CDriverVtable<T> {
    _marker: core::marker::PhantomData<T>,
}

impl<T: I2CDriverCallbacks> I2CDriverVtable<T> {
    /// The handler attached to a device; an event for a device without one is
    /// `InvalidState`.
    fn get_driver_instance<'a>(context: Option<&'a T>) -> (r: Result<&'a T, Error>)
        ensures
            context is None ==> r == Err::<&T, Error>(Error::InvalidState),
            context matches Some(h) ==> r == Ok::<&T, Error>(h),
    {
        match context {
            Some(h) => Ok(h),
            None => Err(Error::InvalidState),
        }
    }

    /// Probe: `0` on success, else the negative code of the handler's error,
    /// or of `InvalidState` when no handler is attached.
    pub fn probe_callback(adapter: i32, addr: u16, context: Option<&T>) -> (r: i32)
        ensures
            context is None ==> r == errno_spec(Error::InvalidState),
            r <= 0,
    {
        let client = I2CClient::from_raw_ptr(adapter, addr);
        match Self::get_driver_instance(context) {
            Ok(h) => to_errno_result(&h.probe(&client)),
            Err(e) => e.to_errno(),
        }
    }

    /// Remove: the handler is told, then the context is cleared; without a
    /// handler nothing happens.
    pub fn remove_callback(adapter: i32, addr: u16, context: &mut Option<&T>)
        ensures
            *final(context) is None,
    {
        let client = I2CClient::from_raw_ptr(adapter, addr);
        if let Ok(h) = Self::get_driver_instance(*context) {
            h.remove(&client);
        }
        *context = None;
    }

    /// Shutdown: the handler is told, if there is one.
    pub fn shutdown_callback(adapter: i32, addr: u16, context: Option<&T>) {
        let client = I2CClient::from_raw_ptr(adapter, addr);
        if let Ok(h) = Self::get_driver_instance(context) {
            h.shutdown(&client);
        }
    }

    /// Alert: the handler is told, if there is one.
    pub fn alert_callback(adapter: i32, addr: u16, context: Option<&T>, protocol: I2CAlertProtocol, data: u32) {
        let client = I2CClient::from_raw_ptr(adapter, addr);
        if let Ok(h) = Self::get_driver_instance(context) {
            h.alert(&client, protocol, data);
        }
    }

    /// Command: `0` on success, else the negative code of the handler's
    /// error, or of `InvalidState` when no handler is attached.
    pub fn command_callback(adapter: i32, addr: u16, context: Option<&T>, cmd: u32, arg: usize) -> (r: i32)
        ensures
            context is None ==> r == errno_spec(Error::InvalidState),
            r <= 0,
    {
        let client = I2CClient::from_raw_ptr(adapter, addr);
        match Self::get_driver_instance(context) {
            Ok(h) => to_errno_result(&h.command(&client, cmd, arg)),
            Err(e) => e.to_errno(),
        }
    }

    /// Detect: `0` on success, else the negative code of the handler's
    /// error, or of `InvalidState` when no handler is attached.
    pub fn detect_callback(adapter: i32, addr: u16, context: Option<&T>, info: usize) -> (r: i32)
        ensures
            context is None ==> r == errno_spec(Error::InvalidState),
            r <= 0,
    {
        let client = I2CClient::from_raw_ptr(adapter, addr);
        match Self::get_driver_instance(context) {
            Ok(h) => to_errno_result(&h.detect(&client, info)),
            Err(e) => e.to_errno(),
        }
    }
}

/// Where a driver stands with the bus subsystem.
#[derive(Clone, Copy, Debug, PartialEq, Eq, Structural)]
pub enum DriverState {
    /// Built, not registered.
    Built,
    /// Registered: the subsystem may call its entry points.
    Registered,
    /// Deregistered and released; nothing more can be done with it.
    Released,
}

/// The registration data of a driver as the bus subsystem takes it.
pub struct DriverRecord {
    /// The driver's name.
    pub name: Vec<u8>,
    /// The owning module, as the subsystem identifies it.
    pub owner: u64,
    /// The device identifiers the driver matches, in the subsystem's layout.
    pub id_table: Vec<RawDeviceId>,
    /// The class of devices to detect; `0` for none.
    pub class: u32,
    /// The addresses to probe in detection; empty for none.
    pub address_list: Vec<u16>,
    /// Driver flags; `0` for none.
    pub flags: u32,
}

/// A driver built for the bus subsystem. Its registration data stays where
/// it is from `build` until `remove_driver`, as the subsystem keeps a
/// reference to it while the driver is registered.
pub struct I2CDriver {
    record: DriverRecord,
    state: DriverState,
}

impl I2CDriver {
    pub closed spec fn state_spec(&self) -> DriverState {
        self.state
    }

    pub closed spec fn record_spec(&self) -> &DriverRecord {
        &self.record
    }

    /// The registration data, to hand to the subsystem.
    pub fn record(&self) -> (r: &DriverRecord)
        ensures
            r == self.record_spec(),
    {
        &self.record
    }

    /// Where the driver stands.
    pub fn state(&self) -> (r: DriverState)
        ensures
            r == self.state_spec(),
    {
        self.state
    }

    /// Whether the driver may be registered now: only a built driver may.
    /// A released one is an invalid argument; one that is registered
    /// already is in the wrong state.
    pub fn add_driver(&self) -> (r: Result<(), Error>)
        ensures
            self.state_spec() == DriverState::Built ==> r == Ok::<(), Error>(()),
            self.state_spec() == DriverState::Registered ==> r == Err::<(), Error>(Error::InvalidState),
            self.state_spec() == DriverState::Released ==> r == Err::<(), Error>(Error::InvalidArgument),
    {
        match self.state {
            DriverState::Built => Ok(()),
            DriverState::Registered => Err(Error::InvalidState),
            DriverState::Released => Err(Error::InvalidArgument),
        }
    }

    /// Takes the subsystem's return code for the registration.
    pub fn registered(&mut self, ret: i32) -> (r: Result<(), Error>)
        requires
            old(self).state_spec() == DriverState::Built,
        ensures
            r == status_spec(ret),
            final(self).state_spec() == if ret < 0 { DriverState::Built } else { DriverState::Registered },
            final(self).record_spec() == old(self).record_spec(),
    {
        let r = to_result(ret);
        if r.is_ok() {
            self.state = DriverState::Registered;
        }
        r
    }

    /// Tears the driver down, once: says whether it must be deregistered
    /// from the subsystem now (only if it is registered), and releases it.
    /// Every later call finds it released and does nothing.
    pub fn remove_driver(&mut self) -> (r: bool)
        ensures
            r == (old(self).state_spec() == DriverState::Registered),
            final(self).state_spec() == DriverState::Released,
            final(self).record_spec() == old(self).record_spec(),
    {
        let r = self.state == DriverState::Registered;
        self.state = DriverState::Released;
        r
    }
}

/// Builds an [`I2CDriver`] for handlers of type `T`.
pub struct I2CDriverBuilder<T> {
    name: Vec<u8>,
    owner: u64,
    id_table: Vec<RawDeviceId>,
    class: Option<u32>,
    address_list: Option<Vec<u16>>,
    flags: Option<u32>,
    _marker: core::marker::PhantomData<T>,
}

impl<T: I2CDriverCallbacks> I2CDriverBuilder<T> {
    pub closed spec fn name_spec(&self) -> Seq<u8> {
        self.name@
    }

    pub closed spec fn owner_spec(&self) -> u64 {
        self.owner
    }

    pub closed spec fn id_table_spec(&self) -> Seq<RawDeviceId> {
        self.id_table@
    }

    pub closed spec fn class_spec(&self) -> Option<u32> {
        self.class
    }

    pub closed spec fn address_list_spec(&self) -> Option<Seq<u16>> {
        match self.address_list {
            Some(l) => Some(l@),
            None => None,
        }
    }

    pub closed spec fn flags_spec(&self) -> Option<u32> {
        self.flags
    }

    /// A builder for the driver called `driver_name`, of module `owner`,
    /// matching the devices of `id_table`; no class, address list or flags.
    pub fn new(id_table: &[I2CDeviceID], driver_name: &[u8], owner: u64) -> (r: Self)
        ensures
            r.name_spec() == driver_name@,
            r.owner_spec() == owner,
            r.id_table_spec().len() == id_table@.len(),
            forall|i: int| 0 <= i < id_table@.len() ==> #[trigger] r.id_table_spec()[i] == id_table@[i].raw(),
            r.class_spec() is None,
            r.address_list_spec() is None,
            r.flags_spec() is None,
    {
        let mut table: Vec<RawDeviceId> = Vec::new();
        let mut i: usize = 0;
        while i < id_table.len()
            invariant
                i <= id_table@.len(),
                table@.len() == i,
                forall|k: int| 0 <= k < i ==> #[trigger] table@[k] == id_table@[k].raw(),
            decreases id_table@.len() - i,
        {
            table.push(id_table[i].raw_entry());
            i = i + 1;
        }
        let mut name: Vec<u8> = Vec::new();
        let mut j: usize = 0;
        while j < driver_name.len()
            invariant
                j <= driver_name@.len(),
                name@ == driver_name@.subrange(0, j as int),
            decreases driver_name@.len() - j,
        {
            name.push(driver_name[j]);
            j = j + 1;
        }
        assert(name@ =~= driver_name@);
        I2CDriverBuilder {
            name,
            owner,
            id_table: table,
            class: None,
            address_list: None,
            flags: None,
            _marker: core::marker::PhantomData,
        }
    }

    /// Sets the class of devices to detect.
    pub fn class(self, class: u32) -> (r: Self)
        ensures
            r.class_spec() == Some(class),
            r.name_spec() == self.name_spec(),
            r.owner_spec() == self.owner_spec(),
            r.id_table_spec() == self.id_table_spec(),
            r.address_list_spec() == self.address_list_spec(),
            r.flags_spec() == self.flags_spec(),
    {
        I2CDriverBuilder { class: Some(class), ..self }
    }

    /// Sets the addresses to probe in detection.
    pub fn address_list(self, address_list: Vec<u16>) -> (r: Self)
        ensures
            r.address_list_spec() == Some(address_list@),
            r.name_spec() == self.name_spec(),
            r.owner_spec() == self.owner_spec(),
            r.id_table_spec() == self.id_table_spec(),
            r.class_spec() == self.class_spec(),
            r.flags_spec() == self.flags_spec(),
    {
        I2CDriverBuilder { address_list: Some(address_list), ..self }
    }

    /// Sets the driver flags.
    pub fn flags(self, flags: u32) -> (r: Self)
        ensures
            r.flags_spec() == Some(flags),
            r.name_spec() == self.name_spec(),
            r.owner_spec() == self.owner_spec(),
            r.id_table_spec() == self.id_table_spec(),
            r.class_spec() == self.class_spec(),
            r.address_list_spec() == self.address_list_spec(),
    {
        I2CDriverBuilder { flags: Some(flags), ..self }
    }

    /// The driver, built, not registered; what was not set is zero or empty.
    pub fn build(self) -> (r: I2CDriver)
        ensures
            r.state_spec() == DriverState::Built,
            r.record_spec().name@ == self.name_spec(),
            r.record_spec().owner == self.owner_spec(),
            r.record_spec().id_table@ == self.id_table_spec(),
            r.record_spec().class == match self.class_spec() { Some(c) => c, None => 0u32 },
            r.record_spec().address_list@ == match self.address_list_spec() { Some(l) => l, None => Seq::<u16>::empty() },
            r.record_spec().flags == match self.flags_spec() { Some(f) => f, None => 0u32 },
    {
        let address_list = match self.address_list {
            Some(l) => l,
            None => Vec::new(),
        };
        let class = match self.class {
            Some(c) => c,
            None => 0,
        };
        let flags = match self.flags {
            Some(f) => f,
            None => 0,
        };
        I2CDriver {
            record: DriverRecord { name: self.name, owner: self.owner, id_table: self.id_table, class, address_list, flags },
            state: DriverState::Built,
        }
    }
}

} // verus!
