use adxl345::adxl345::{Adxl345, REG_DATAX0, REG_INT_SOURCE, REG_POWER_CTL};
use adxl345::client::{Reply, Transfer};
use adxl345::fileops::{Adxl345FileOps, ReadSession, O_NONBLOCK, O_RDWR, O_WRONLY};
use adxl345::registers::RegisterBank;
use adxl345::sample::{Adxl345Sample, FilterBaseline};
use adxl345::script::{Action, ScriptRun};
use adxl345::{Error, I2CClient};

fn device() -> Adxl345 {
    Adxl345::new(I2CClient::from_raw_ptr(1, 0x1D))
}

fn set_sample(bank: &mut RegisterBank, raw: [u8; 6]) {
    for (i, b) in raw.iter().enumerate() {
        bank.set(REG_DATAX0 + i as u8, *b);
    }
}

/// Drives a read against the bank for at most `max_steps` steps; returns the
/// last action, the number of sample reads and the number of pauses.
fn drive(
    session: &mut ReadSession,
    first: Action<Result<usize, Error>>,
    bank: &mut RegisterBank,
    baseline: &mut FilterBaseline,
    max_steps: usize,
) -> (Action<Result<usize, Error>>, usize, usize) {
    let mut action = first;
    let mut sample_reads = 0;
    let mut pauses = 0;
    for _ in 0..max_steps {
        let reply = match &action {
            Action::Finish(_) => break,
            Action::Sleep(_) => {
                pauses += 1;
                Reply::code(0)
            }
            Action::Transfer(t) => {
                if matches!(t, Transfer::ReadI2cBlockData { .. }) {
                    sample_reads += 1;
                }
                bank.perform(t)
            }
        };
        action = session.advance(baseline, &reply);
    }
    (action, sample_reads, pauses)
}

#[test]
fn small_buffer_is_invalid_argument_without_transfer() {
    let (_, a) = ReadSession::start(5, false);
    assert!(matches!(a, Action::Finish(Err(Error::InvalidArgument))));
    let (_, a) = ReadSession::start(0, true);
    assert!(matches!(a, Action::Finish(Err(Error::InvalidArgument))));
    let (_, a) = ReadSession::start(6, true);
    assert!(matches!(a, Action::Transfer(Transfer::ReadByteData { command: REG_INT_SOURCE })));
}

#[test]
fn non_blocking_not_ready_would_block_without_sample_read() {
    let mut bank = RegisterBank::new();
    let mut base = FilterBaseline::new();
    let (mut s, a) = ReadSession::start(60, true);
    let (end, sample_reads, pauses) = drive(&mut s, a, &mut bank, &mut base, 100);
    assert!(matches!(end, Action::Finish(Err(Error::WouldBlock))));
    assert_eq!(sample_reads, 0);
    assert_eq!(pauses, 0);
    assert!(s.output().is_empty());
}

#[test]
fn blocking_read_waits_until_ready() {
    let mut bank = RegisterBank::new();
    let mut base = FilterBaseline::new();
    let (mut s, a) = ReadSession::start(6, false);
    let (action, sample_reads, pauses) = drive(&mut s, a, &mut bank, &mut base, 1000);
    assert!(matches!(action, Action::Sleep(10) | Action::Transfer(Transfer::ReadByteData { command: REG_INT_SOURCE })));
    assert_eq!(sample_reads, 0);
    assert_eq!(pauses, 500);
    assert!(s.output().is_empty());
    bank.set(REG_INT_SOURCE, 0x80);
    set_sample(&mut bank, [0x40, 0x00, 0, 0, 0, 0]);
    let (end, sample_reads, _) = drive(&mut s, action, &mut bank, &mut base, 100);
    assert!(matches!(end, Action::Finish(Ok(6))));
    assert_eq!(sample_reads, 1);
    assert_eq!(s.output(), &vec![0x00, 0x01, 0, 0, 0, 0]);
}

#[test]
fn filter_drops_small_moves_but_updates_baseline() {
    let mut base = FilterBaseline::new();
    let near = Adxl345Sample::new(50, -50, 10);
    assert!(base.filter_out(&near));
    assert_eq!(base.last, near);
    let far = Adxl345Sample::new(50, -50, 61);
    assert!(!base.filter_out(&far));
    assert_eq!(base.last, far);
    let drift = Adxl345Sample::new(90, -50, 61);
    assert!(base.filter_out(&drift));
    assert_eq!(base.last, drift);
}

#[test]
fn filter_uses_full_range_differences() {
    let mut base = FilterBaseline::new();
    base.last = Adxl345Sample::new(i16::MIN, 0, 0);
    assert!(!base.filter_out(&Adxl345Sample::new(i16::MAX, 0, 0)));
}

#[test]
fn read_discards_near_samples_and_delivers_far_ones() {
    let mut bank = RegisterBank::new();
    let mut base = FilterBaseline::new();
    bank.set(REG_INT_SOURCE, 0x80);
    // raw 4 → 16: within 50 of the zero baseline
    set_sample(&mut bank, [0x04, 0x00, 0, 0, 0, 0]);
    let (mut s, a) = ReadSession::start(12, true);
    let (end, sample_reads, _) = drive(&mut s, a, &mut bank, &mut base, 100);
    assert!(matches!(end, Action::Finish(Ok(0))));
    assert_eq!(sample_reads, 2);
    assert_eq!(base.last, Adxl345Sample::new(16, 0, 0));
    // raw 20 → 80: beyond 50 of 16
    set_sample(&mut bank, [20, 0, 0, 0, 0, 0]);
    let (mut s, a) = ReadSession::start(12, true);
    let (end, _, _) = drive(&mut s, a, &mut bank, &mut base, 100);
    assert!(matches!(end, Action::Finish(Ok(6))));
    assert_eq!(s.output(), &vec![80, 0, 0, 0, 0, 0]);
}

#[test]
fn read_stops_when_no_more_data() {
    let mut base = FilterBaseline::new();
    let (mut s, a) = ReadSession::start(60, false);
    assert!(matches!(a, Action::Transfer(_)));
    let a = s.advance(&mut base, &Reply::code(0x80));
    assert!(matches!(a, Action::Transfer(Transfer::ReadI2cBlockData { command: 0x32, len: 6 })));
    let a = s.advance(&mut base, &Reply { ret: 6, data: vec![0x20, 0, 0, 0, 0, 0] });
    assert!(matches!(a, Action::Transfer(Transfer::ReadByteData { command: 0x30 })));
    let a = s.advance(&mut base, &Reply::code(0x00));
    assert!(matches!(a, Action::Finish(Ok(6))));
    assert_eq!(s.output(), &vec![0x80, 0, 0, 0, 0, 0]);
}

#[test]
fn io_error_mid_read_keeps_delivered_bytes() {
    let mut base = FilterBaseline::new();
    let (mut s, _) = ReadSession::start(60, false);
    s.advance(&mut base, &Reply::code(0x80));
    s.advance(&mut base, &Reply { ret: 6, data: vec![0x20, 0, 0, 0, 0, 0] });
    s.advance(&mut base, &Reply::code(0x80));
    let a = s.advance(&mut base, &Reply::code(-121));
    assert!(matches!(a, Action::Finish(Err(Error::Io(-5)))));
    assert_eq!(s.output().len(), 6);
}

#[test]
fn short_sample_read_fails_read_with_io_error() {
    let mut base = FilterBaseline::new();
    let (mut s, _) = ReadSession::start(6, false);
    s.advance(&mut base, &Reply::code(0x80));
    let a = s.advance(&mut base, &Reply { ret: 3, data: vec![1, 2, 3] });
    assert!(matches!(a, Action::Finish(Err(Error::Io(-5)))));
}

#[test]
fn poll_error_fails_read_with_io_error() {
    let mut base = FilterBaseline::new();
    let (mut s, _) = ReadSession::start(6, true);
    assert!(matches!(s.advance(&mut base, &Reply::code(-6)), Action::Finish(Err(Error::Io(-5)))));
}

#[test]
fn open_refuses_write_modes() {
    let d = device();
    assert!(matches!(Adxl345FileOps::open(Some(&d), O_WRONLY), Err(Error::PermissionDenied)));
    assert!(matches!(Adxl345FileOps::open(Some(&d), O_RDWR), Err(Error::PermissionDenied)));
    assert!(matches!(Adxl345FileOps::open(None, O_RDWR), Err(Error::PermissionDenied)));
}

#[test]
fn operations_without_device_are_invalid_state() {
    assert!(matches!(Adxl345FileOps::open(None, 0), Err(Error::InvalidState)));
    assert!(matches!(Adxl345FileOps::read(None, 60, 0), Err(Error::InvalidState)));
    assert!(matches!(Adxl345FileOps::release(None), Err(Error::InvalidState)));
}

#[test]
fn open_enables_measurement_and_resets_filter() {
    let d = device();
    let mut bank = RegisterBank::new();
    let cmds = Adxl345FileOps::open(Some(&d), O_NONBLOCK).unwrap();
    let (mut run, mut action) = ScriptRun::start(cmds);
    let mut pauses = Vec::new();
    while let Action::Transfer(_) | Action::Sleep(_) = action {
        let reply = match &action {
            Action::Transfer(t) => bank.perform(t),
            Action::Sleep(ms) => {
                pauses.push(*ms);
                Reply::code(0)
            }
            Action::Finish(_) => unreachable!(),
        };
        action = run.advance(&reply);
    }
    assert_eq!(pauses, vec![2]);
    assert_eq!(bank.get(REG_POWER_CTL) & 0x08, 0x08);
    let mut base = FilterBaseline::new();
    base.last = Adxl345Sample::new(5, 6, 7);
    assert!(Adxl345FileOps::opened(&mut base, Ok(())).is_ok());
    assert_eq!(base.last, Adxl345Sample::new(0, 0, 0));
}

#[test]
fn failed_open_is_io_error_and_keeps_baseline() {
    let mut base = FilterBaseline::new();
    base.last = Adxl345Sample::new(5, 6, 7);
    assert!(matches!(Adxl345FileOps::opened(&mut base, Err(Error::Io(-121))), Err(Error::Io(-5))));
    assert_eq!(base.last, Adxl345Sample::new(5, 6, 7));
}

#[test]
fn release_disables_measurement() {
    let d = device();
    let mut bank = RegisterBank::new();
    bank.set(REG_POWER_CTL, 0x0F);
    let cmds = Adxl345FileOps::release(Some(&d)).unwrap();
    bank.run_script(cmds).unwrap();
    assert_eq!(bank.get(REG_POWER_CTL), 0x07);
}

#[test]
fn read_flags_select_blocking_mode() {
    let d = device();
    let mut base = FilterBaseline::new();
    let (mut s, _) = Adxl345FileOps::read(Some(&d), 6, O_NONBLOCK).unwrap();
    assert!(matches!(s.advance(&mut base, &Reply::code(0)), Action::Finish(Err(Error::WouldBlock))));
    let (mut s, _) = Adxl345FileOps::read(Some(&d), 6, 0).unwrap();
    assert!(matches!(s.advance(&mut base, &Reply::code(0)), Action::Sleep(10)));
}
