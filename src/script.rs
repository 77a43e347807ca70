//! Device procedures: sequences of register writes, read-modify-writes,
//! pauses and sample reads, run one bus transaction or pause at a time.

use vstd::prelude::*;
use crate::adxl345::{Adxl345, REG_DATAX0, sample_complete};
use crate::client::{Reply, Transfer, byte_spec};
use crate::error::{Error, status_spec};

verus! {

/// What a session asks of the environment next.
#[derive(Debug)]
pub enum Action<R> {
    /// Perform this transaction and hand its reply to the session.
    Transfer(Transfer),
    /// Sleep this many milliseconds, then hand the session any reply.
    Sleep(u32),
    /// The session ended with this result.
    Finish(R),
}

/// One step of a device procedure.
#[derive(Clone, Copy, Debug, PartialEq, Eq, Structural)]
pub enum Command {
    /// Write `value` to `reg`.
    Write { reg: u8, value: u8 },
    /// Read `reg`, clear the bits of `clear`, set the bits of `set`, write it back.
    Update { reg: u8, clear: u8, set: u8 },
    /// Wait `ms` milliseconds.
    Pause { ms: u32 },
    /// Read one sample, which must arrive whole; its value is not kept.
    ReadSample,
}

/// The value that an update writes back over `v`.
pub open spec fn updated(v: u8, clear: u8, set: u8) -> u8 {
    (v & !clear) | set
}

/// The transaction that reads one sample.
pub open spec fn sample_transfer() -> Transfer {
    Transfer::ReadI2cBlockData { command: REG_DATAX0, len: 6 }
}

/// Where a running procedure stands.
#[derive(Clone, Copy, Debug)]
pub enum ScriptPhase {
    /// The read of the current update is out on the bus.
    AwaitRead,
    /// The write of the current step is out on the bus.
    AwaitWrite,
    /// The current pause is going on.
    AwaitPause,
    /// The sample read of the current step is out on the bus.
    AwaitSample,
    /// The procedure ended, with this outcome.
    Finished(Result<(), Error>),
}

/// What the first part of `c` asks for.
pub open spec fn first_action(c: Command) -> Action<Result<(), Error>> {
    match c {
        Command::Write { reg, value } => Action::Transfer(Transfer::WriteByteData { command: reg, value }),
        Command::Update { reg, .. } => Action::Transfer(Transfer::ReadByteData { command: reg }),
        Command::Pause { ms } => Action::Sleep(ms),
        Command::ReadSample => Action::Transfer(sample_transfer()),
    }
}

/// The phase in which `c` waits after its first part.
pub open spec fn first_phase(c: Command) -> ScriptPhase {
    match c {
        Command::Write { .. } => ScriptPhase::AwaitWrite,
        Command::Update { .. } => ScriptPhase::AwaitRead,
        Command::Pause { .. } => ScriptPhase::AwaitPause,
        Command::ReadSample => ScriptPhase::AwaitSample,
    }
}

/// The outcome of the current step, given the reply to what it asked for last.
pub open spec fn step_outcome(phase: ScriptPhase, reply: Reply) -> Result<(), Error> {
    match phase {
        ScriptPhase::AwaitWrite => status_spec(reply.ret),
        ScriptPhase::AwaitSample => if reply.ret < 0 {
            Err(Error::Io(reply.ret))
        } else if !sample_complete(reply) {
            Err(Error::InvalidData)
        } else {
            Ok(())
        },
        _ => Ok(()),
    }
}

/// A device procedure in progress. A step that fails ends it with its error
/// at once; the steps before it are not undone.
pub struct ScriptRun {
    cmds: Vec<Command>,
    pc: usize,
    phase: ScriptPhase,
}

impl ScriptRun {
    pub closed spec fn cmds(&self) -> Seq<Command> {
        self.cmds@
    }

    /// The index of the current step.
    pub closed spec fn pc(&self) -> nat {
        self.pc as nat
    }

    pub closed spec fn phase(&self) -> ScriptPhase {
        self.phase
    }

    /// The current step exists until the end, and the phase fits the step.
    pub open spec fn wf(&self) -> bool {
        &&& self.pc() < self.cmds().len() || self.phase() is Finished
        &&& self.pc() <= self.cmds().len()
        &&& self.phase() is AwaitRead ==> self.current() is Update
        &&& self.phase() is AwaitPause ==> self.current() is Pause
        &&& self.phase() is AwaitSample ==> self.current() is ReadSample
    }

    /// The current step.
    pub open spec fn current(&self) -> Command {
        self.cmds()[self.pc() as int]
    }

    /// Whether the procedure waits for a reply (or the end of a pause).
    pub open spec fn waiting(&self) -> bool {
        !(self.phase() is Finished)
    }

    /// One step of a procedure: from `before`, given `reply`, to `after`, asking for `r`.
    pub open spec fn next(before: ScriptRun, reply: Reply, after: ScriptRun, r: Action<Result<(), Error>>) -> bool {
        &&& after.cmds() == before.cmds()
        &&& if before.phase() is AwaitRead {
            match byte_spec(reply.ret) {
                Err(e) => after.phase() == ScriptPhase::Finished(Err(e)) && after.pc() == before.pc()
                    && r == Action::<Result<(), Error>>::Finish(Err(e)),
                Ok(v) => before.current() matches Command::Update { reg, clear, set }
                    && after.phase() == ScriptPhase::AwaitWrite && after.pc() == before.pc()
                    && r == Action::<Result<(), Error>>::Transfer(
                        Transfer::WriteByteData { command: reg, value: updated(v, clear, set) },
                    ),
            }
        } else {
            match step_outcome(before.phase(), reply) {
                Err(e) => after.phase() == ScriptPhase::Finished(Err(e)) && after.pc() == before.pc()
                    && r == Action::<Result<(), Error>>::Finish(Err(e)),
                Ok(()) => after.pc() == before.pc() + 1 && if after.pc() == before.cmds().len() {
                    after.phase() == ScriptPhase::Finished(Ok(())) && r == Action::<Result<(), Error>>::Finish(Ok(()))
                } else {
                    after.phase() == first_phase(after.current()) && r == first_action(after.current())
                },
            }
        }
    }

    /// Starts `cmds`: the first part of its first step, or the end at once
    /// when it is empty.
    pub fn start(cmds: Vec<Command>) -> (r: (ScriptRun, Action<Result<(), Error>>))
        ensures
            r.0.wf(),
            r.0.cmds() == cmds@,
            r.0.pc() == 0,
            cmds@.len() == 0 ==> r.0.phase() == ScriptPhase::Finished(Ok(()))
                && r.1 == Action::<Result<(), Error>>::Finish(Ok(())),
            cmds@.len() > 0 ==> r.0.phase() == first_phase(cmds@[0]) && r.1 == first_action(cmds@[0]),
    {
        if cmds.len() == 0 {
            return (ScriptRun { cmds, pc: 0, phase: ScriptPhase::Finished(Ok(())) }, Action::Finish(Ok(())));
        }
        let c = cmds[0];
        let (phase, a) = Self::issue(c);
        (ScriptRun { cmds, pc: 0, phase }, a)
    }

    fn issue(c: Command) -> (r: (ScriptPhase, Action<Result<(), Error>>))
        ensures
            r.0 == first_phase(c),
            r.1 == first_action(c),
    {
        match c {
            Command::Write { reg, value } => (
                ScriptPhase::AwaitWrite,
                Action::Transfer(Transfer::WriteByteData { command: reg, value }),
            ),
            Command::Update { reg, .. } => (ScriptPhase::AwaitRead, Action::Transfer(Transfer::ReadByteData { command: reg })),
            Command::Pause { ms } => (ScriptPhase::AwaitPause, Action::Sleep(ms)),
            Command::ReadSample => (
                ScriptPhase::AwaitSample,
                Action::Transfer(Transfer::ReadI2cBlockData { command: REG_DATAX0, len: 6 }),
            ),
        }
    }

    /// Takes the reply to what the procedure asked for last (any reply after
    /// a pause), and says what comes next.
    pub fn advance(&mut self, reply: &Reply) -> (r: Action<Result<(), Error>>)
        requires
            old(self).wf(),
            old(self).waiting(),
        ensures
            final(self).wf(),
            Self::next(*old(self), *reply, *final(self), r),
    {
        let n = self.cmds.len();
        let c = self.cmds[self.pc];
        if let ScriptPhase::AwaitRead = self.phase {
            match reply.byte() {
                Err(e) => {
                    self.phase = ScriptPhase::Finished(Err(e));
                    return Action::Finish(Err(e));
                },
                Ok(v) => {
                    if let Command::Update { reg, clear, set } = c {
                        self.phase = ScriptPhase::AwaitWrite;
                        return Action::Transfer(Transfer::WriteByteData { command: reg, value: (v & !clear) | set });
                    }
                    // only an update waits for a read
                    proof {
                        assert(false);
                    }
                    return Action::Finish(Ok(()));
                },
            }
        }
        let outcome = match self.phase {
            ScriptPhase::AwaitWrite => reply.status(),
            ScriptPhase::AwaitSample => match Adxl345::sample_from(reply) {
                Ok(_) => Ok(()),
                Err(e) => Err(e),
            },
            _ => Ok(()),
        };
        match outcome {
            Err(e) => {
                self.phase = ScriptPhase::Finished(Err(e));
                Action::Finish(Err(e))
            },
            Ok(()) => {
                self.pc = self.pc + 1;
                if self.pc == n {
                    self.phase = ScriptPhase::Finished(Ok(()));
                    Action::Finish(Ok(()))
                } else {
                    let (phase, a) = Self::issue(self.cmds[self.pc]);
                    self.phase = phase;
                    a
                }
            },
        }
    }

    /// The outcome of the procedure, once it has ended.
    pub fn outcome(&self) -> (r: Option<Result<(), Error>>)
        ensures
            match self.phase() {
                ScriptPhase::Finished(res) => r == Some(res),
                _ => r is None,
            },
    {
        match self.phase {
            ScriptPhase::Finished(res) => Some(res),
            _ => None,
        }
    }
}

} // verus!
