//! The handle on one slave device of the bus, and the transactions it can issue.

use vstd::prelude::*;
use crate::error::{Error, status_spec, to_result};

verus! {

/// Largest payload of an SMBus block transaction.
pub const I2C_SMBUS_BLOCK_MAX: usize = 32;

/// Largest length of a raw transfer: the native call takes it as a 16-bit count.
pub const I2C_MAX_RAW_LEN: usize = 0xFFFF;

/// One transaction on the bus, addressed to the client that issued it.
///
/// The environment performs it and hands back a [`Reply`].
#[derive(Clone, Debug)]
pub enum Transfer {
    /// Plain write of the bytes.
    MasterSend { data: Vec<u8> },
    /// Plain read of `count` bytes.
    MasterRecv { count: u16 },
    /// SMBus "send byte": one byte, no register.
    SendByte { value: u8 },
    /// SMBus "receive byte": one byte, no register.
    ReceiveByte,
    /// SMBus "write byte data" to register `command`.
    WriteByteData { command: u8, value: u8 },
    /// SMBus "read byte data" from register `command`.
    ReadByteData { command: u8 },
    /// SMBus "write word data" to register `command`.
    WriteWordData { command: u8, word: u16 },
    /// SMBus "read word data" from register `command`.
    ReadWordData { command: u8 },
    /// SMBus "block write" of at most 32 bytes to register `command`.
    WriteBlockData { command: u8, data: Vec<u8> },
    /// SMBus "block read" from register `command`: the device says how many bytes.
    ReadBlockData { command: u8 },
    /// Fixed-length block read of `len` bytes from register `command`.
    ReadI2cBlockData { command: u8, len: u8 },
}

/// What the bus subsystem returned for a [`Transfer`]: the native return code
/// (negative on failure) and the bytes received, if any.
#[derive(Clone, Debug)]
pub struct Reply {
    pub ret: i32,
    pub data: Vec<u8>,
}

/// The value that a native return code carries for a byte read.
pub open spec fn byte_spec(ret: i32) -> Result<u8, Error> {
    if ret < 0 { Err(Error::Io(ret)) } else { Ok(ret as u8) }
}

/// The value that a native return code carries for a word read.
pub open spec fn word_spec(ret: i32) -> Result<u16, Error> {
    if ret < 0 { Err(Error::Io(ret)) } else { Ok(ret as u16) }
}

/// The byte count that a native return code carries.
pub open spec fn count_spec(ret: i32) -> Result<usize, Error> {
    if ret < 0 { Err(Error::Io(ret)) } else { Ok(ret as usize) }
}

impl Reply {
    /// A reply that carries a return code and no data.
    pub fn code(ret: i32) -> (r: Reply)
        ensures
            r.ret == ret,
            r.data@.len() == 0,
    {
        Reply { ret, data: Vec::new() }
    }

    /// Success or failure of a write transaction.
    pub fn status(&self) -> (r: Result<(), Error>)
        ensures
            r == status_spec(self.ret),
    {
        to_result(self.ret)
    }

    /// The byte that a byte read returned.
    pub fn byte(&self) -> (r: Result<u8, Error>)
        ensures
            r == byte_spec(self.ret),
    {
        if self.ret < 0 {
            Err(Error::from_errno(self.ret))
        } else {
            Ok(self.ret as u8)
        }
    }

    /// The word that a word read returned.
    pub fn word(&self) -> (r: Result<u16, Error>)
        ensures
            r == word_spec(self.ret),
    {
        if self.ret < 0 {
            Err(Error::from_errno(self.ret))
        } else {
            Ok(self.ret as u16)
        }
    }

    /// The number of bytes that a transfer moved.
    pub fn count(&self) -> (r: Result<usize, Error>)
        ensures
            r == count_spec(self.ret),
    {
        if self.ret < 0 {
            Err(Error::from_errno(self.ret))
        } else {
            Ok(self.ret as usize)
        }
    }
}

/// A handle on one slave device: the bus it sits on and its address.
///
/// A handle made by [`I2CClient::new_client_device`] owns the device: when it
/// goes, the device must be unregistered. A handle made by
/// [`I2CClient::from_raw_ptr`] is a view of a device that the bus subsystem
/// handed over in a callback, and must never unregister it.
#[derive(Debug)]
pub struct I2CClient {
    adapter: i32,
    addr: u16,
    owned: bool,
}

impl I2CClient {
    pub closed spec fn adapter_spec(&self) -> i32 {
        self.adapter
    }

    pub closed spec fn addr_spec(&self) -> u16 {
        self.addr
    }

    pub closed spec fn owned_spec(&self) -> bool {
        self.owned
    }

    /// The handle on a device that this system created on bus `adapter` at
    /// address `addr`; `ret` is what the bus subsystem returned for the
    /// creation (negative when the bus is missing or the address is taken).
    pub fn new_client_device(adapter: i32, addr: u16, ret: i32) -> (r: Result<I2CClient, Error>)
        ensures
            ret < 0 ==> r == Err::<I2CClient, Error>(Error::Io(ret)),
            ret >= 0 ==> (r matches Ok(c) && c.adapter_spec() == adapter && c.addr_spec() == addr
                && c.owned_spec()),
    {
        if ret < 0 {
            return Err(Error::from_errno(ret));
        }
        Ok(I2CClient { adapter, addr, owned: true })
    }

    /// A view of the device at `addr` on bus `adapter` that the bus subsystem
    /// handed over; it owns nothing.
    pub fn from_raw_ptr(adapter: i32, addr: u16) -> (r: I2CClient)
        ensures
            r.adapter_spec() == adapter,
            r.addr_spec() == addr,
            !r.owned_spec(),
    {
        I2CClient { adapter, addr, owned: false }
    }

    /// The bus the device sits on.
    pub fn adapter(&self) -> (r: i32)
        ensures
            r == self.adapter_spec(),
    {
        self.adapter
    }

    /// The device's slave address.
    pub fn addr(&self) -> (r: u16)
        ensures
            r == self.addr_spec(),
    {
        self.addr
    }

    /// Whether dropping this handle must unregister the device: only an owning handle does.
    pub fn unregisters_on_drop(&self) -> (r: bool)
        ensures
            r == self.owned_spec(),
    {
        self.owned
    }

    /// A plain write of `buf`; refused when it is longer than a 16-bit count.
    /// The reply's [`Reply::count`] is the number of bytes sent.
    pub fn master_send(&self, buf: &Vec<u8>) -> (r: Result<Transfer, Error>)
        ensures
            buf@.len() > I2C_MAX_RAW_LEN ==> r == Err::<Transfer, Error>(Error::InvalidArgument),
            buf@.len() <= I2C_MAX_RAW_LEN ==> (r matches Ok(Transfer::MasterSend { data })
                && data@ == buf@),
    {
        if buf.len() > I2C_MAX_RAW_LEN {
            return Err(Error::InvalidArgument);
        }
        let mut data: Vec<u8> = Vec::new();
        let mut i: usize = 0;
        while i < buf.len()
            invariant
                i <= buf@.len(),
                data@ == buf@.subrange(0, i as int),
            decreases buf@.len() - i,
        {
            data.push(buf[i]);
            i = i + 1;
        }
        Ok(Transfer::MasterSend { data })
    }

    /// A plain read of `len` bytes; refused when `len` is over a 16-bit count.
    /// The reply's [`Reply::count`] is the number of bytes received.
    pub fn master_recv(&self, len: usize) -> (r: Result<Transfer, Error>)
        ensures
            len > I2C_MAX_RAW_LEN ==> r == Err::<Transfer, Error>(Error::InvalidArgument),
            len <= I2C_MAX_RAW_LEN ==> r == Ok::<Transfer, Error>(Transfer::MasterRecv { count: len as u16 }),
    {
        if len > I2C_MAX_RAW_LEN {
            return Err(Error::InvalidArgument);
        }
        Ok(Transfer::MasterRecv { count: len as u16 })
    }

    /// SMBus "send byte"; the reply's [`Reply::status`] is the outcome.
    pub fn send_byte(&self, value: u8) -> (r: Transfer)
        ensures
            r == (Transfer::SendByte { value }),
    {
        Transfer::SendByte { value }
    }

    /// SMBus "receive byte"; the reply's [`Reply::byte`] is the byte read.
    pub fn receive_byte(&self) -> (r: Transfer)
        ensures
            r == Transfer::ReceiveByte,
    {
        Transfer::ReceiveByte
    }

    /// SMBus "write byte data"; the reply's [`Reply::status`] is the outcome.
    pub fn write_byte(&self, command: u8, value: u8) -> (r: Transfer)
        ensures
            r == (Transfer::WriteByteData { command, value }),
    {
        Transfer::WriteByteData { command, value }
    }

    /// SMBus "read byte data"; the reply's [`Reply::byte`] is the byte read.
    pub fn read_byte(&self, command: u8) -> (r: Transfer)
        ensures
            r == (Transfer::ReadByteData { command }),
    {
        Transfer::ReadByteData { command }
    }

    /// SMBus "write word data"; the reply's [`Reply::status`] is the outcome.
    pub fn write_word(&self, command: u8, value: u16) -> (r: Transfer)
        ensures
            r == (Transfer::WriteWordData { command, word: value }),
    {
        Transfer::WriteWordData { command, word: value }
    }

    /// SMBus "read word data"; the reply's [`Reply::word`] is the word read.
    pub fn read_word(&self, command: u8) -> (r: Transfer)
        ensures
            r == (Transfer::ReadWordData { command }),
    {
        Transfer::ReadWordData { command }
    }

    /// SMBus "block write" of `values`; refused when they are over 32 bytes.
    pub fn write_block(&self, command: u8, values: &Vec<u8>) -> (r: Result<Transfer, Error>)
        ensures
            values@.len() > I2C_SMBUS_BLOCK_MAX ==> r == Err::<Transfer, Error>(Error::InvalidArgument),
            values@.len() <= I2C_SMBUS_BLOCK_MAX ==> (r matches Ok(
                Transfer::WriteBlockData { command: c, data },
            ) && c == command && data@ == values@),
    {
        if values.len() > I2C_SMBUS_BLOCK_MAX {
            return Err(Error::InvalidArgument);
        }
        let mut data: Vec<u8> = Vec::new();
        let mut i: usize = 0;
        while i < values.len()
            invariant
                i <= values@.len(),
                data@ == values@.subrange(0, i as int),
            decreases values@.len() - i,
        {
            data.push(values[i]);
            i = i + 1;
        }
        Ok(Transfer::WriteBlockData { command, data })
    }

    /// SMBus "block read" into a buffer of `buf_len` bytes; refused when the
    /// buffer is over 32 bytes. The reply's [`Reply::count`] may be short of
    /// what the device holds where the adapter cannot learn the length from
    /// the device: use [`I2CClient::read_i2c_block`] there.
    pub fn read_block(&self, command: u8, buf_len: usize) -> (r: Result<Transfer, Error>)
        ensures
            buf_len > I2C_SMBUS_BLOCK_MAX ==> r == Err::<Transfer, Error>(Error::InvalidArgument),
            buf_len <= I2C_SMBUS_BLOCK_MAX ==> r == Ok::<Transfer, Error>(Transfer::ReadBlockData { command }),
    {
        if buf_len > I2C_SMBUS_BLOCK_MAX {
            return Err(Error::InvalidArgument);
        }
        Ok(Transfer::ReadBlockData { command })
    }

    /// Fixed-length block read of exactly `len` bytes; refused when `len` is over 32.
    pub fn read_i2c_block(&self, command: u8, len: u8) -> (r: Result<Transfer, Error>)
        ensures
            len > I2C_SMBUS_BLOCK_MAX ==> r == Err::<Transfer, Error>(Error::InvalidArgument),
            len <= I2C_SMBUS_BLOCK_MAX ==> r == Ok::<Transfer, Error>(Transfer::ReadI2cBlockData { command, len }),
    {
        if len as usize > I2C_SMBUS_BLOCK_MAX {
            return Err(Error::InvalidArgument);
        }
        Ok(Transfer::ReadI2cBlockData { command, len })
    }
}

} // verus!
