use adxl345::adxl345::{Adxl345, Adxl345Driver, REG_DATAX0, REG_INT_SOURCE, REG_POWER_CTL, REG_BW_RATE, REG_FIFO_CTL, REG_DATA_FORMAT, REG_INT_ENABLE};
use adxl345::client::{Reply, Transfer};
use adxl345::registers::RegisterBank;
use adxl345::sample::{decode_records, Adxl345Sample};
use adxl345::script::{Action, Command, ScriptRun};
use adxl345::utility::adxl345_device_init;
use adxl345::{Error, I2CClient};

fn device() -> Adxl345 {
    Adxl345::new(I2CClient::from_raw_ptr(1, 0x1D))
}

fn reply(ret: i32, data: Vec<u8>) -> Reply {
    Reply { ret, data }
}

#[test]
fn last_write_wins_on_read_back() {
    let mut bank = RegisterBank::new();
    let writes: [(u8, u8); 5] = [(0x2D, 1), (0x31, 0x0B), (0x2D, 7), (0x2E, 3), (0x2D, 0x42)];
    for (reg, value) in writes {
        let r = bank.perform(&Transfer::WriteByteData { command: reg, value });
        assert_eq!(r.ret, 0);
    }
    assert_eq!(bank.perform(&Transfer::ReadByteData { command: 0x2D }).ret, 0x42);
    assert_eq!(bank.perform(&Transfer::ReadByteData { command: 0x31 }).ret, 0x0B);
    assert_eq!(bank.perform(&Transfer::ReadByteData { command: 0x2E }).ret, 3);
}

#[test]
fn measurement_bit_clear_after_config_enable_disable() {
    for initial in [0x00u8, 0x08, 0xFF, 0x37] {
        let mut bank = RegisterBank::new();
        bank.set(REG_POWER_CTL, initial);
        bank.set(REG_BW_RATE, 0xFF);
        bank.set(REG_FIFO_CTL, 0xFF);
        let d = device();
        bank.run_script(d.set_default_config()).unwrap();
        assert_eq!(bank.get(REG_BW_RATE), 0xEF);
        assert_eq!(bank.get(REG_FIFO_CTL), 0x3F);
        assert_eq!(bank.get(REG_DATA_FORMAT), 0x0B);
        bank.run_script(d.enable_measure()).unwrap();
        assert_eq!(bank.get(REG_POWER_CTL) & 0x08, 0x08);
        bank.run_script(d.disable_measure()).unwrap();
        assert_eq!(bank.get(REG_POWER_CTL) & 0x08, 0);
    }
}

#[test]
fn raw_bytes_decode_shifted_by_two() {
    let r = Adxl345::sample_from(&reply(6, vec![0x04, 0x00, 0x08, 0x00, 0x0C, 0x00])).unwrap();
    assert_eq!(r, Adxl345Sample::new(16, 32, 48));
}

#[test]
fn sample_decoding_wraps_and_keeps_sign() {
    let r = Adxl345::sample_from(&reply(6, vec![0xFF, 0xFF, 0x00, 0x20, 0xFF, 0x1F])).unwrap();
    assert_eq!(r, Adxl345Sample::new(-4, -32768, 32764));
}

#[test]
fn short_sample_read_is_invalid_data() {
    assert!(matches!(Adxl345::sample_from(&reply(4, vec![1, 2, 3, 4])), Err(Error::InvalidData)));
    assert!(matches!(Adxl345::sample_from(&reply(-5, vec![])), Err(Error::Io(-5))));
}

#[test]
fn data_ready_reads_bit_seven() {
    let d = device();
    assert!(matches!(d.data_ready(), Transfer::ReadByteData { command: REG_INT_SOURCE }));
    assert_eq!(Adxl345::ready_from(&Reply::code(0x83)).unwrap(), 1);
    assert_eq!(Adxl345::ready_from(&Reply::code(0x7F)).unwrap(), 0);
    assert!(matches!(Adxl345::ready_from(&Reply::code(-121)), Err(Error::Io(-121))));
    assert!(matches!(d.read_data(), Transfer::ReadI2cBlockData { command: REG_DATAX0, len: 6 }));
}

#[test]
fn default_config_sequence() {
    let d = device();
    let cmds = d.set_default_config();
    assert_eq!(
        cmds,
        vec![
            Command::Write { reg: REG_POWER_CTL, value: 0 },
            Command::Write { reg: REG_INT_ENABLE, value: 0 },
            Command::Update { reg: REG_BW_RATE, clear: 0x10, set: 0 },
            Command::Write { reg: REG_DATA_FORMAT, value: 0x0B },
            Command::Write { reg: 0x2F, value: 0 },
            Command::Update { reg: REG_FIFO_CTL, clear: 0xC0, set: 0 },
        ]
    );
}

#[test]
fn failing_step_aborts_procedure_without_rollback() {
    let d = device();
    let (mut run, first) = ScriptRun::start(d.set_default_config());
    assert!(matches!(first, Action::Transfer(Transfer::WriteByteData { command: 0x2D, value: 0 })));
    let second = run.advance(&Reply::code(0));
    assert!(matches!(second, Action::Transfer(Transfer::WriteByteData { command: 0x2E, value: 0 })));
    let third = run.advance(&Reply::code(0));
    assert!(matches!(third, Action::Transfer(Transfer::ReadByteData { command: 0x2C })));
    let fourth = run.advance(&Reply::code(0x1A));
    assert!(matches!(fourth, Action::Transfer(Transfer::WriteByteData { command: 0x2C, value: 0x0A })));
    let end = run.advance(&Reply::code(-121));
    assert!(matches!(end, Action::Finish(Err(Error::Io(-121)))));
    assert!(matches!(run.outcome(), Some(Err(Error::Io(-121)))));
}

#[test]
fn read_modify_write_failure_on_read() {
    let d = device();
    let (mut run, first) = ScriptRun::start(d.enable_measure());
    assert!(matches!(first, Action::Transfer(Transfer::ReadByteData { command: 0x2D })));
    assert!(matches!(run.advance(&Reply::code(-5)), Action::Finish(Err(Error::Io(-5)))));
}

#[test]
fn empty_procedure_ends_at_once() {
    let (run, first) = ScriptRun::start(Vec::new());
    assert!(matches!(first, Action::Finish(Ok(()))));
    assert!(matches!(run.outcome(), Some(Ok(()))));
}

#[test]
fn attach_procedure_runs_on_simulated_device() {
    let mut bank = RegisterBank::new();
    bank.set(REG_POWER_CTL, 0x08);
    let d = device();
    let cmds = adxl345_device_init(&d);
    assert_eq!(cmds.len(), 10);
    assert_eq!(cmds[7], Command::Pause { ms: 2 });
    assert_eq!(cmds[8], Command::ReadSample);
    assert!(bank.run_script(cmds).is_ok());
    assert_eq!(bank.get(REG_POWER_CTL) & 0x08, 0);
}

#[test]
fn attach_failure_is_fatal_io_error() {
    assert!(matches!(Adxl345Driver::init_outcome(Err(Error::InvalidData)), Err(Error::Io(-5))));
    assert!(Adxl345Driver::init_outcome(Ok(())).is_ok());
}

#[test]
fn registry_follows_attach_and_detach() {
    let mut drv = Adxl345Driver::new(I2CClient::from_raw_ptr(1, 0x1D));
    assert!(drv.registry().is_none());
    drv.activate(0);
    assert!(drv.registry().is_some());
    let (cmds, node) = drv.remove();
    assert_eq!(node, Some(0));
    assert_eq!(cmds, vec![Command::Write { reg: REG_INT_ENABLE, value: 0 }, Command::Write { reg: REG_POWER_CTL, value: 0 }]);
    assert!(drv.registry().is_none());
}

#[test]
fn records_round_trip_through_bytes() {
    let s = Adxl345Sample::new(-300, 12345, -1);
    let mut bytes = s.to_bytes();
    assert_eq!(bytes, vec![0xD4, 0xFE, 0x39, 0x30, 0xFF, 0xFF]);
    bytes.extend(Adxl345Sample::new(1, 2, 3).to_bytes());
    bytes.push(9);
    let back = decode_records(&bytes);
    assert_eq!(back, vec![s, Adxl345Sample::new(1, 2, 3)]);
}
