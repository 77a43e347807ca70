//! The read-only character node: open, read and release, each a session that
//! asks for one bus transaction or one pause at a time.

use vstd::prelude::*;
use crate::adxl345::{Adxl345, REG_DATAX0, REG_INT_SOURCE, ready_spec, sample_result_ok, sample_ok};
use crate::client::{Reply, Transfer};
use crate::error::{EIO, Error};
use crate::script::{Action, Command, sample_transfer};
use crate::utility::{adxl345_device_init_at_open, adxl345_device_clean_at_release, device_init_at_open_spec};
use crate::adxl345::disable_measure_spec;
use crate::sample::{Adxl345Sample, FilterBaseline, SAMPLE_SIZE, exceeds_threshold, record_bytes};

verus! {

/// Interval between two readiness polls of a blocking read, in milliseconds.
pub const POLL_INTERVAL_MS: u32 = 10;

/// Time the device needs to wake up once measurement is enabled, in milliseconds.
pub const WAKE_DELAY_MS: u32 = 2;

/// The access-mode bits of the open flags.
pub const O_ACCMODE: u32 = 0o3;
/// Open for writing only.
pub const O_WRONLY: u32 = 0o1;
/// Open for reading and writing.
pub const O_RDWR: u32 = 0o2;
/// Open in non-blocking mode.
pub const O_NONBLOCK: u32 = 0o4000;

/// Whether the open flags ask for write access.
pub open spec fn writes_allowed(flags: u32) -> bool {
    (flags & O_ACCMODE) == O_WRONLY || (flags & O_ACCMODE) == O_RDWR
}

/// The transaction that asks whether a sample is ready.
pub open spec fn poll_transfer() -> Transfer {
    Transfer::ReadByteData { command: REG_INT_SOURCE }
}

/// The error a read ends with when the bus fails it.
pub open spec fn read_io_error() -> Error {
    Error::Io(-EIO as i32)
}

/// Where a read stands.
#[derive(Clone, Copy, Debug)]
pub enum ReadPhase {
    /// Waiting for the first sample: a readiness poll is out.
    Polling,
    /// Waiting for the first sample: pausing between two polls.
    Sleeping,
    /// A sample read is out.
    Sampling,
    /// A sample was delivered; a readiness poll is out to see whether another follows.
    Checking,
    /// The read ended with this result.
    Finished(Result<usize, Error>),
}

/// The state of a read, as the contracts see it.
pub struct ReadState {
    /// How many records fit in the caller's buffer.
    pub items: nat,
    /// How many samples were taken so far, delivered or filtered out.
    pub index: nat,
    pub non_blocking: bool,
    pub phase: ReadPhase,
    /// The bytes delivered so far.
    pub output: Seq<u8>,
}

/// One step of a read: its next state, its next baseline and what it asks for,
/// given the reply to what it asked for last.
pub open spec fn read_next(st: ReadState, base: Adxl345Sample, reply: Reply) -> (ReadState, Adxl345Sample, Action<Result<usize, Error>>) {
    let fail = (ReadState { phase: ReadPhase::Finished(Err(read_io_error())), ..st }, base, Action::Finish(Err(read_io_error())));
    let done = Ok::<usize, Error>(st.output.len() as usize);
    let next_sample = if st.index + 1 == st.items {
        (ReadState { index: st.index + 1, phase: ReadPhase::Finished(done), ..st }, Action::Finish(done))
    } else {
        (ReadState { index: st.index + 1, phase: ReadPhase::Sampling, ..st }, Action::Transfer(sample_transfer()))
    };
    match st.phase {
        ReadPhase::Polling => match ready_spec(reply.ret) {
            Err(_) => fail,
            Ok(ready) => if ready != 0 {
                (ReadState { phase: ReadPhase::Sampling, ..st }, base, Action::Transfer(sample_transfer()))
            } else if st.non_blocking {
                (ReadState { phase: ReadPhase::Finished(Err(Error::WouldBlock)), ..st }, base, Action::Finish(Err(Error::WouldBlock)))
            } else {
                (ReadState { phase: ReadPhase::Sleeping, ..st }, base, Action::Sleep(POLL_INTERVAL_MS))
            },
        },
        ReadPhase::Sleeping => (ReadState { phase: ReadPhase::Polling, ..st }, base, Action::Transfer(poll_transfer())),
        ReadPhase::Sampling => if reply.ret < 0 || !(reply.ret == SAMPLE_SIZE && reply.data@.len() >= SAMPLE_SIZE) {
            fail
        } else {
            let s = choose|s: Adxl345Sample| sample_ok(reply, s);
            if exceeds_threshold(base, s) {
                (
                    ReadState { output: st.output + record_bytes(s), phase: ReadPhase::Checking, ..st },
                    s,
                    Action::Transfer(poll_transfer()),
                )
            } else {
                (next_sample.0, s, next_sample.1)
            }
        },
        ReadPhase::Checking => match ready_spec(reply.ret) {
            Err(_) => fail,
            Ok(ready) => if ready == 0 {
                (ReadState { phase: ReadPhase::Finished(done), ..st }, base, Action::Finish(done))
            } else {
                (next_sample.0, base, next_sample.1)
            },
        },
        ReadPhase::Finished(_) => (st, base, Action::Finish(st.phase->Finished_0)),
    }
}

/// A read of the node in progress.
pub struct ReadSession {
    items: usize,
    index: usize,
    non_blocking: bool,
    phase: ReadPhase,
    output: Vec<u8>,
}

impl View for ReadSession {
    type V = ReadState;

    closed spec fn view(&self) -> ReadState {
        ReadState {
            items: self.items as nat,
            index: self.index as nat,
            non_blocking: self.non_blocking,
            phase: self.phase,
            output: self.output@,
        }
    }
}

impl ReadSession {
    /// The session's own invariant: the samples taken and the bytes delivered
    /// stay within the buffer, and the bytes are whole records, one at most
    /// per sample taken.
    pub open spec fn wf(&self) -> bool {
        let st = self@;
        &&& st.index <= st.items
        &&& st.items * 6 <= usize::MAX
        &&& st.output.len() % 6 == 0
        &&& st.output.len() <= st.items * 6
        &&& (st.phase is Sampling || st.phase is Polling || st.phase is Sleeping) ==> st.output.len() <= st.index * 6
        &&& st.phase is Checking ==> st.output.len() <= st.index * 6 + 6
        &&& !(st.phase is Finished) ==> st.index < st.items
        &&& (st.phase is Polling || st.phase is Sleeping) ==> st.index == 0 && st.output.len() == 0
    }

    /// Whether the session waits for a reply (or the end of a pause).
    pub open spec fn waiting(&self) -> bool {
        !(self@.phase is Finished)
    }

    /// Starts a read into a buffer of `capacity` bytes. With room for no
    /// record it ends at once with `InvalidArgument`, before any transaction.
    pub fn start(capacity: usize, non_blocking: bool) -> (r: (ReadSession, Action<Result<usize, Error>>))
        ensures
            r.0.wf(),
            r.0@.items == capacity as nat / 6,
            r.0@.index == 0,
            r.0@.output.len() == 0,
            r.0@.non_blocking == non_blocking,
            capacity < SAMPLE_SIZE ==> r.0@.phase == ReadPhase::Finished(Err(Error::InvalidArgument))
                && r.1 == Action::<Result<usize, Error>>::Finish(Err(Error::InvalidArgument)),
            capacity >= SAMPLE_SIZE ==> r.0@.phase == ReadPhase::Polling
                && r.1 == Action::<Result<usize, Error>>::Transfer(poll_transfer()),
    {
        let items = capacity / SAMPLE_SIZE;
        assert(items * 6 <= capacity) by (nonlinear_arith)
            requires
                items == capacity / 6,
        ;
        if items == 0 {
            let phase = ReadPhase::Finished(Err(Error::InvalidArgument));
            return (
                ReadSession { items, index: 0, non_blocking, phase, output: Vec::new() },
                Action::Finish(Err(Error::InvalidArgument)),
            );
        }
        (
            ReadSession { items, index: 0, non_blocking, phase: ReadPhase::Polling, output: Vec::new() },
            Action::Transfer(Transfer::ReadByteData { command: REG_INT_SOURCE }),
        )
    }

    /// The bytes delivered so far: whole records, X, Y, Z, little-endian.
    /// They stay with the caller also when the read ends with an error.
    pub fn output(&self) -> (r: &Vec<u8>)
        ensures
            r@ == self@.output,
    {
        &self.output
    }

    /// Takes the reply to what the session asked for last, with the filter
    /// baseline, and says what comes next.
    pub fn advance(&mut self, baseline: &mut FilterBaseline, reply: &Reply) -> (r: Action<Result<usize, Error>>)
        requires
            old(self).wf(),
            old(self).waiting(),
        ensures
            final(self).wf(),
            (final(self)@, final(baseline).last, r) == read_next(old(self)@, old(baseline).last, *reply),
    {
        match self.phase {
            ReadPhase::Polling => self.on_poll(reply),
            ReadPhase::Sleeping => {
                self.phase = ReadPhase::Polling;
                Action::Transfer(Transfer::ReadByteData { command: REG_INT_SOURCE })
            },
            ReadPhase::Sampling => self.on_sample(baseline, reply),
            ReadPhase::Checking => self.on_check(reply),
            ReadPhase::Finished(res) => Action::Finish(res),
        }
    }

    fn on_poll(&mut self, reply: &Reply) -> (r: Action<Result<usize, Error>>)
        requires
            old(self).wf(),
            old(self)@.phase is Polling,
        ensures
            final(self).wf(),
            (final(self)@, r) == ({
                let n = read_next(old(self)@, Adxl345Sample::zero_spec(), *reply);
                (n.0, n.2)
            }),
    {
        match Adxl345::ready_from(reply) {
            Err(_) => self.fail(),
            Ok(ready) => {
                if ready != 0 {
                    self.phase = ReadPhase::Sampling;
                    Action::Transfer(Transfer::ReadI2cBlockData { command: REG_DATAX0, len: 6 })
                } else if self.non_blocking {
                    self.phase = ReadPhase::Finished(Err(Error::WouldBlock));
                    Action::Finish(Err(Error::WouldBlock))
                } else {
                    self.phase = ReadPhase::Sleeping;
                    Action::Sleep(POLL_INTERVAL_MS)
                }
            },
        }
    }

    fn on_check(&mut self, reply: &Reply) -> (r: Action<Result<usize, Error>>)
        requires
            old(self).wf(),
            old(self)@.phase is Checking,
        ensures
            final(self).wf(),
            (final(self)@, r) == ({
                let n = read_next(old(self)@, Adxl345Sample::zero_spec(), *reply);
                (n.0, n.2)
            }),
    {
        match Adxl345::ready_from(reply) {
            Err(_) => self.fail(),
            Ok(ready) => {
                if ready == 0 {
                    let n = self.output.len();
                    self.phase = ReadPhase::Finished(Ok(n));
                    Action::Finish(Ok(n))
                } else {
                    self.next_sample()
                }
            },
        }
    }

    fn on_sample(&mut self, baseline: &mut FilterBaseline, reply: &Reply) -> (r: Action<Result<usize, Error>>)
        requires
            old(self).wf(),
            old(self)@.phase is Sampling,
        ensures
            final(self).wf(),
            (final(self)@, final(baseline).last, r) == read_next(old(self)@, old(baseline).last, *reply),
    {
        match Adxl345::sample_from(reply) {
            Err(_) => self.fail(),
            Ok(s) => {
                proof {
                    lemma_sample_unique(*reply, s);
                }
                if baseline.filter_out(&s) {
                    self.next_sample()
                } else {
                    self.deliver(&s);
                    Action::Transfer(Transfer::ReadByteData { command: REG_INT_SOURCE })
                }
            },
        }
    }

    fn deliver(&mut self, s: &Adxl345Sample)
        requires
            old(self).wf(),
            old(self)@.phase is Sampling,
        ensures
            final(self).wf(),
            final(self)@ == (ReadState { output: old(self)@.output + record_bytes(*s), phase: ReadPhase::Checking, ..old(self)@ }),
    {
        let bytes = s.to_bytes();
        let mut i: usize = 0;
        let ghost out0 = self.output@;
        while i < SAMPLE_SIZE
            invariant
                i <= SAMPLE_SIZE,
                bytes@ == record_bytes(*s),
                self.output@ == out0 + bytes@.subrange(0, i as int),
                self.items == old(self).items,
                self.index == old(self).index,
                self.non_blocking == old(self).non_blocking,
                self.phase == old(self).phase,
            decreases SAMPLE_SIZE - i,
        {
            self.output.push(bytes[i]);
            i = i + 1;
        }
        assert(bytes@.subrange(0, 6) =~= bytes@);
        assert((out0.len() + 6) % 6 == 0);
        self.phase = ReadPhase::Checking;
    }

    fn fail(&mut self) -> (r: Action<Result<usize, Error>>)
        ensures
            final(self)@ == (ReadState { phase: ReadPhase::Finished(Err(read_io_error())), ..old(self)@ }),
            r == Action::<Result<usize, Error>>::Finish(Err(read_io_error())),
    {
        let e = Error::Io(-EIO);
        self.phase = ReadPhase::Finished(Err(e));
        Action::Finish(Err(e))
    }

    fn next_sample(&mut self) -> (r: Action<Result<usize, Error>>)
        requires
            old(self)@.index < old(self)@.items,
        ensures
            ({
                let st = old(self)@;
                let done = Ok::<usize, Error>(st.output.len() as usize);
                if st.index + 1 == st.items {
                    final(self)@ == (ReadState { index: st.index + 1, phase: ReadPhase::Finished(done), ..st })
                        && r == Action::<Result<usize, Error>>::Finish(done)
                } else {
                    final(self)@ == (ReadState { index: st.index + 1, phase: ReadPhase::Sampling, ..st })
                        && r == Action::<Result<usize, Error>>::Transfer(sample_transfer())
                }
            }),
    {
        self.index = self.index + 1;
        if self.index == self.items {
            let n = self.output.len();
            self.phase = ReadPhase::Finished(Ok(n));
            Action::Finish(Ok(n))
        } else {
            self.phase = ReadPhase::Sampling;
            Action::Transfer(Transfer::ReadI2cBlockData { command: REG_DATAX0, len: 6 })
        }
    }
}

/// A sample that is within the threshold of the previous one on every axis
/// is not delivered, yet becomes the baseline; a sample beyond the threshold
/// on some axis is delivered as one record and becomes the baseline.
pub proof fn lemma_filter_in_read(st: ReadState, base: Adxl345Sample, reply: Reply, s: Adxl345Sample)
    requires
        st.phase is Sampling,
        sample_ok(reply, s),
    ensures
        read_next(st, base, reply).1 == s,
        !exceeds_threshold(base, s) ==> read_next(st, base, reply).0.output == st.output,
        exceeds_threshold(base, s) ==> read_next(st, base, reply).0.output == st.output + record_bytes(s),
{
    lemma_sample_unique(reply, s);
}

/// A non-blocking read that finds no sample ready ends with `WouldBlock`
/// and asks for no sample read.
pub proof fn lemma_non_blocking_not_ready(st: ReadState, base: Adxl345Sample, reply: Reply)
    requires
        st.phase is Polling,
        st.non_blocking,
        ready_spec(reply.ret) == Ok::<u8, Error>(0),
    ensures
        read_next(st, base, reply).2 == Action::<Result<usize, Error>>::Finish(Err(Error::WouldBlock)),
        read_next(st, base, reply).0.output == st.output,
        read_next(st, base, reply).1 == base,
{
}

/// The state of a blocking read after `n` rounds of a poll that finds no
/// sample ready and a pause.
pub open spec fn wait_rounds(st: ReadState, base: Adxl345Sample, not_ready: Reply, wake: Reply, n: nat) -> ReadState
    decreases n,
{
    if n == 0 {
        st
    } else {
        let before = wait_rounds(st, base, not_ready, wake, (n - 1) as nat);
        read_next(read_next(before, base, not_ready).0, base, wake).0
    }
}

/// A blocking read waits as long as no sample is ready: each round asks for
/// a pause and then for another poll, and after any number of rounds the
/// read stands where it started, with nothing delivered and no end.
pub proof fn lemma_blocking_read_waits(st: ReadState, base: Adxl345Sample, not_ready: Reply, wake: Reply, n: nat)
    requires
        st.phase is Polling,
        !st.non_blocking,
        ready_spec(not_ready.ret) == Ok::<u8, Error>(0),
    ensures
        read_next(st, base, not_ready) == (ReadState { phase: ReadPhase::Sleeping, ..st }, base, Action::<Result<usize, Error>>::Sleep(POLL_INTERVAL_MS)),
        read_next(read_next(st, base, not_ready).0, base, wake) == (st, base, Action::<Result<usize, Error>>::Transfer(poll_transfer())),
        wait_rounds(st, base, not_ready, wake, n) == st,
    decreases n,
{
    if n > 0 {
        lemma_blocking_read_waits(st, base, not_ready, wake, (n - 1) as nat);
    }
}

/// A reply carries at most one sample.
proof fn lemma_sample_unique(reply: Reply, s: Adxl345Sample)
    requires
        sample_ok(reply, s),
    ensures
        (choose|t: Adxl345Sample| sample_ok(reply, t)) == s,
{
    let t = choose|t: Adxl345Sample| sample_ok(reply, t);
    assert(t.x as int == s.x as int);
    assert(t.y as int == s.y as int);
    assert(t.z as int == s.z as int);
}

/// The operations of the read-only, non-seekable node. Each takes the
/// device that the registry holds, which is `None` while no device is active.
pub struct Adxl345FileOps {}

impl Adxl345FileOps {
    /// Opens the node: refused for write access, and while no device is
    /// active. Otherwise the procedure to run: measurement on and the
    /// wake-up pause; its outcome goes to [`Adxl345FileOps::opened`].
    pub fn open(device: Option<&Adxl345>, flags: u32) -> (r: Result<Vec<Command>, Error>)
        ensures
            writes_allowed(flags) ==> r == Err::<Vec<Command>, Error>(Error::PermissionDenied),
            !writes_allowed(flags) && device is None ==> r == Err::<Vec<Command>, Error>(Error::InvalidState),
            !writes_allowed(flags) && device is Some ==> (r matches Ok(cmds) && cmds@ == device_init_at_open_spec()),
    {
        let mode = flags & O_ACCMODE;
        if mode == O_WRONLY || mode == O_RDWR {
            return Err(Error::PermissionDenied);
        }
        match device {
            None => Err(Error::InvalidState),
            Some(d) => Ok(adxl345_device_init_at_open(d)),
        }
    }

    /// Ends an open with the outcome of its procedure: on success the filter
    /// starts again from the zero sample; a failure is an I/O error and
    /// leaves the baseline alone.
    pub fn opened(baseline: &mut FilterBaseline, outcome: Result<(), Error>) -> (r: Result<(), Error>)
        ensures
            outcome is Ok ==> r == Ok::<(), Error>(()) && final(baseline).last == Adxl345Sample::zero_spec(),
            outcome is Err ==> r == Err::<(), Error>(read_io_error()) && final(baseline).last == old(baseline).last,
    {
        match outcome {
            Ok(()) => {
                baseline.reset();
                Ok(())
            },
            Err(_) => Err(Error::Io(-EIO)),
        }
    }

    /// Starts a read of at most `capacity` bytes; refused while no device is
    /// active. `flags` says whether the read may block.
    pub fn read(device: Option<&Adxl345>, capacity: usize, flags: u32) -> (r: Result<(ReadSession, Action<Result<usize, Error>>), Error>)
        ensures
            device is None ==> r == Err::<(ReadSession, Action<Result<usize, Error>>), Error>(Error::InvalidState),
            device is Some ==> (r matches Ok((s, a)) && s.wf()
                && s@.items == capacity as nat / 6 && s@.index == 0 && s@.output.len() == 0
                && s@.non_blocking == (flags & O_NONBLOCK != 0)
                && (capacity < SAMPLE_SIZE ==> s@.phase == ReadPhase::Finished(Err(Error::InvalidArgument))
                    && a == Action::<Result<usize, Error>>::Finish(Err(Error::InvalidArgument)))
                && (capacity >= SAMPLE_SIZE ==> s@.phase == ReadPhase::Polling
                    && a == Action::<Result<usize, Error>>::Transfer(poll_transfer()))),
    {
        match device {
            None => Err(Error::InvalidState),
            Some(_) => Ok(ReadSession::start(capacity, flags & O_NONBLOCK != 0)),
        }
    }

    /// Releases the node: the procedure that turns measurement off. Its
    /// outcome does not matter; refused while no device is active.
    pub fn release(device: Option<&Adxl345>) -> (r: Result<Vec<Command>, Error>)
        ensures
            device is None ==> r == Err::<Vec<Command>, Error>(Error::InvalidState),
            device is Some ==> (r matches Ok(cmds) && cmds@ == disable_measure_spec()),
    {
        match device {
            None => Err(Error::InvalidState),
            Some(d) => Ok(adxl345_device_clean_at_release(d)),
        }
    }
}

} // verus!
