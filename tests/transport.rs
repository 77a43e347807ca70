use adxl345::client::{Reply, Transfer};
use adxl345::error::{to_errno_result, to_result};
use adxl345::{Error, I2CClient};

#[test]
fn owning_handle_unregisters_on_drop() {
    let c = I2CClient::new_client_device(1, 0x1D, 0).unwrap();
    assert!(c.unregisters_on_drop());
    assert_eq!(c.adapter(), 1);
    assert_eq!(c.addr(), 0x1D);
}

#[test]
fn borrowed_handle_never_unregisters() {
    let c = I2CClient::from_raw_ptr(1, 0x1D);
    assert!(!c.unregisters_on_drop());
    assert_eq!(c.addr(), 0x1D);
}

#[test]
fn client_creation_failure_is_io_error() {
    let r = I2CClient::new_client_device(3, 0x53, -16);
    assert!(matches!(r, Err(Error::Io(-16))));
}

#[test]
fn master_send_rejects_oversized_buffer() {
    let c = I2CClient::from_raw_ptr(1, 0x1D);
    let big = vec![0u8; 0x10000];
    assert!(matches!(c.master_send(&big), Err(Error::InvalidArgument)));
    let ok = vec![1u8, 2, 3];
    match c.master_send(&ok) {
        Ok(Transfer::MasterSend { data }) => assert_eq!(data, vec![1, 2, 3]),
        other => panic!("unexpected {:?}", other),
    }
}

#[test]
fn master_recv_rejects_oversized_length() {
    let c = I2CClient::from_raw_ptr(1, 0x1D);
    assert!(matches!(c.master_recv(0x10000), Err(Error::InvalidArgument)));
    assert!(matches!(c.master_recv(0xFFFF), Ok(Transfer::MasterRecv { count: 0xFFFF })));
}

#[test]
fn block_write_limit_is_32_bytes() {
    let c = I2CClient::from_raw_ptr(1, 0x1D);
    assert!(matches!(c.write_block(0x10, &vec![0u8; 33]), Err(Error::InvalidArgument)));
    match c.write_block(0x10, &vec![7u8; 32]) {
        Ok(Transfer::WriteBlockData { command, data }) => {
            assert_eq!(command, 0x10);
            assert_eq!(data, vec![7u8; 32]);
        }
        other => panic!("unexpected {:?}", other),
    }
}

#[test]
fn block_read_limits_are_32_bytes() {
    let c = I2CClient::from_raw_ptr(1, 0x1D);
    assert!(matches!(c.read_block(0x10, 33), Err(Error::InvalidArgument)));
    assert!(matches!(c.read_block(0x10, 32), Ok(Transfer::ReadBlockData { command: 0x10 })));
    assert!(matches!(c.read_i2c_block(0x32, 33), Err(Error::InvalidArgument)));
    assert!(matches!(c.read_i2c_block(0x32, 6), Ok(Transfer::ReadI2cBlockData { command: 0x32, len: 6 })));
}

#[test]
fn smbus_transactions_carry_their_arguments() {
    let c = I2CClient::from_raw_ptr(1, 0x1D);
    assert!(matches!(c.send_byte(9), Transfer::SendByte { value: 9 }));
    assert!(matches!(c.receive_byte(), Transfer::ReceiveByte));
    assert!(matches!(c.write_byte(0x2D, 8), Transfer::WriteByteData { command: 0x2D, value: 8 }));
    assert!(matches!(c.read_byte(0x30), Transfer::ReadByteData { command: 0x30 }));
    assert!(matches!(c.write_word(0x1E, 0x1234), Transfer::WriteWordData { command: 0x1E, word: 0x1234 }));
    assert!(matches!(c.read_word(0x1E), Transfer::ReadWordData { command: 0x1E }));
}

#[test]
fn negative_codes_become_io_errors() {
    assert!(matches!(Reply::code(-5).byte(), Err(Error::Io(-5))));
    assert!(matches!(Reply::code(-121).word(), Err(Error::Io(-121))));
    assert!(matches!(Reply::code(-6).count(), Err(Error::Io(-6))));
    assert!(matches!(Reply::code(-110).status(), Err(Error::Io(-110))));
    assert!(matches!(to_result(-1), Err(Error::Io(-1))));
}

#[test]
fn replies_decode_values() {
    assert_eq!(Reply::code(0xE5).byte().unwrap(), 0xE5);
    assert_eq!(Reply::code(0x1234).word().unwrap(), 0x1234);
    assert_eq!(Reply::code(6).count().unwrap(), 6);
    assert!(Reply::code(0).status().is_ok());
}

#[test]
fn errors_map_to_negative_codes() {
    assert_eq!(Error::InvalidArgument.to_errno(), -22);
    assert_eq!(Error::WouldBlock.to_errno(), -11);
    assert_eq!(Error::Io(-121).to_errno(), -121);
    assert_eq!(Error::InvalidState.to_errno(), -22);
    assert_eq!(Error::PermissionDenied.to_errno(), -1);
    assert_eq!(Error::InvalidData.to_errno(), -22);
    assert_eq!(to_errno_result(&Ok(())), 0);
    assert_eq!(to_errno_result(&Err(Error::WouldBlock)), -11);
}

