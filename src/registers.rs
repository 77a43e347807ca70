//! A simulated device: a bank of 256 byte registers that answers bus
//! transactions the way a register-mapped slave does. It stands in for the
//! bus wherever the driver runs without hardware.

use vstd::prelude::*;
use crate::client::{Reply, Transfer};
use crate::error::Error;
use crate::script::{Action, Command, ScriptPhase, ScriptRun, first_action, first_phase, updated};

verus! {

/// Number of registers in the bank.
pub const BANK_SIZE: usize = 256;

/// Operation not supported on transport endpoint.
pub const EOPNOTSUPP: i32 = 95;

/// The registers after `op` ran on them without failing.
pub open spec fn apply_op(regs: Seq<u8>, op: Command) -> Seq<u8> {
    match op {
        Command::Write { reg, value } => regs.update(reg as int, value),
        Command::Update { reg, clear, set } => regs.update(reg as int, updated(regs[reg as int], clear, set)),
        _ => regs,
    }
}

/// The registers after the steps of `ops` ran on them, in order, without failing.
pub open spec fn apply_script(regs: Seq<u8>, ops: Seq<Command>) -> Seq<u8>
    decreases ops.len(),
{
    if ops.len() == 0 {
        regs
    } else {
        apply_op(apply_script(regs, ops.drop_last()), ops.last())
    }
}

/// Whether the bank answers `t`: byte reads and writes, and fixed-length block reads.
pub open spec fn supported(t: Transfer) -> bool {
    ||| t is WriteByteData
    ||| t is ReadByteData
    ||| t is ReadI2cBlockData
}

/// The registers after the bank answered `t`.
pub open spec fn regs_after(regs: Seq<u8>, t: Transfer) -> Seq<u8> {
    match t {
        Transfer::WriteByteData { command, value } => regs.update(command as int, value),
        _ => regs,
    }
}

/// The return code with which the bank answers `t`.
pub open spec fn ret_for(regs: Seq<u8>, t: Transfer) -> i32 {
    match t {
        Transfer::WriteByteData { .. } => 0,
        Transfer::ReadByteData { command } => regs[command as int] as i32,
        Transfer::ReadI2cBlockData { len, .. } => len as i32,
        _ => (-EOPNOTSUPP) as i32,
    }
}

/// The bytes with which the bank answers `t`: for a block read, the
/// registers from `command` on, wrapping at the end of the bank.
pub open spec fn data_for(regs: Seq<u8>, t: Transfer) -> Seq<u8> {
    match t {
        Transfer::ReadI2cBlockData { command, len } => Seq::new(
            len as nat,
            |i: int| regs[(command as int + i) % 256],
        ),
        _ => seq![],
    }
}

/// The registers written last by `writes` (pairs of register and value)
/// over `regs`.
pub open spec fn apply_writes(regs: Seq<u8>, writes: Seq<(u8, u8)>) -> Seq<u8>
    decreases writes.len(),
{
    if writes.len() == 0 {
        regs
    } else {
        let w = writes.last();
        regs_after(apply_writes(regs, writes.drop_last()), Transfer::WriteByteData { command: w.0, value: w.1 })
    }
}

/// The value that the last of `writes` to `reg` wrote.
pub open spec fn last_written(writes: Seq<(u8, u8)>, reg: u8) -> u8
    decreases writes.len(),
{
    if writes.len() == 0 {
        0
    } else if writes.last().0 == reg {
        writes.last().1
    } else {
        last_written(writes.drop_last(), reg)
    }
}

/// Whether one of `writes` goes to `reg`.
pub open spec fn writes_to(writes: Seq<(u8, u8)>, reg: u8) -> bool {
    exists|i: int| 0 <= i < writes.len() && (#[trigger] writes[i]).0 == reg
}

/// A simulated register-mapped device.
pub struct RegisterBank {
    regs: Vec<u8>,
}

impl View for RegisterBank {
    type V = Seq<u8>;

    closed spec fn view(&self) -> Seq<u8> {
        self.regs@
    }
}

impl RegisterBank {
    /// The bank holds exactly its 256 registers.
    pub open spec fn wf(&self) -> bool {
        self@.len() == BANK_SIZE
    }

    /// A bank with every register at zero.
    pub fn new() -> (r: RegisterBank)
        ensures
            r.wf(),
            r@ == Seq::new(256, |i: int| 0u8),
    {
        let mut regs: Vec<u8> = Vec::new();
        let mut i: usize = 0;
        while i < BANK_SIZE
            invariant
                i <= BANK_SIZE,
                regs@ == Seq::new(i as nat, |k: int| 0u8),
            decreases BANK_SIZE - i,
        {
            regs.push(0);
            i = i + 1;
        }
        RegisterBank { regs }
    }

    /// The value of register `reg`.
    pub fn get(&self, reg: u8) -> (r: u8)
        requires
            self.wf(),
        ensures
            r == self@[reg as int],
    {
        self.regs[reg as usize]
    }

    /// Sets register `reg` to `value`, as the hardware itself would (a new
    /// sample, a status bit).
    pub fn set(&mut self, reg: u8, value: u8)
        requires
            old(self).wf(),
        ensures
            final(self).wf(),
            final(self)@ == old(self)@.update(reg as int, value),
    {
        self.regs.set(reg as usize, value);
    }

    /// Answers one bus transaction.
    pub fn perform(&mut self, t: &Transfer) -> (r: Reply)
        requires
            old(self).wf(),
        ensures
            final(self).wf(),
            final(self)@ == regs_after(old(self)@, *t),
            r.ret == ret_for(old(self)@, *t),
            r.data@ == data_for(old(self)@, *t),
    {
        match t {
            Transfer::WriteByteData { command, value } => {
                self.regs.set(*command as usize, *value);
                Reply::code(0)
            },
            Transfer::ReadByteData { command } => Reply::code(self.regs[*command as usize] as i32),
            Transfer::ReadI2cBlockData { command, len } => {
                let mut data: Vec<u8> = Vec::new();
                let mut i: usize = 0;
                while i < *len as usize
                    invariant
                        self.wf(),
                        i <= *len as usize,
                        data@ == Seq::new(i as nat, |k: int| self@[(*command as int + k) % 256]),
                    decreases *len as usize - i,
                {
                    data.push(self.regs[(*command as usize + i) % BANK_SIZE]);
                    i = i + 1;
                }
                Reply { ret: *len as i32, data }
            },
            _ => Reply::code(-EOPNOTSUPP),
        }
    }

    /// Runs a procedure to its end against the bank. The bank never fails a
    /// byte transaction and always holds a whole sample, so the procedure
    /// runs whole.
    pub fn run_script(&mut self, cmds: Vec<Command>) -> (r: Result<(), Error>)
        requires
            old(self).wf(),
        ensures
            final(self).wf(),
            r == Ok::<(), Error>(()),
            final(self)@ == apply_script(old(self)@, cmds@),
    {
        let ghost init = self@;
        let ghost all = cmds@;
        let (mut run, mut step) = ScriptRun::start(cmds);
        proof {
            assert(all.take(0) =~= seq![]);
        }
        loop
            invariant
                init == old(self)@,
                all == cmds@,
                self.wf(),
                run.wf(),
                run.cmds() == all,
                run.phase() is Finished ==> run.phase() == ScriptPhase::Finished(Ok(()))
                    && step == Action::<Result<(), Error>>::Finish(Ok(())) && self@ == apply_script(init, all),
                !(run.phase() is Finished) ==> self@ == apply_script(init, all.take(run.pc() as int)),
                (run.phase() is AwaitRead || run.phase() is AwaitPause || run.phase() is AwaitSample)
                    ==> step == first_action(run.current()),
                run.phase() is AwaitWrite ==> (step matches Action::Transfer(Transfer::WriteByteData { command, value })
                    && self@.update(command as int, value) == apply_op(self@, run.current())),
            decreases
                if run.phase() is Finished { 0 } else if run.phase() is AwaitRead {
                    2 * (all.len() - run.pc())
                } else {
                    2 * (all.len() - run.pc()) - 1
                },
        {
            let ghost before = run;
            match step {
                Action::Finish(r) => {
                    return r;
                },
                Action::Sleep(_) => {
                    step = run.advance(&Reply::code(0));
                },
                Action::Transfer(t) => {
                    let reply = self.perform(&t);
                    step = run.advance(&reply);
                },
            }
            proof {
                if !(before.phase() is AwaitRead) {
                    let k = before.pc() as int;
                    assert(all.take(k + 1).drop_last() =~= all.take(k));
                    assert(all.take(k + 1).last() == all[k]);
                    if run.pc() == all.len() {
                        assert(all.take(k + 1) =~= all);
                    }
                }
            }
        }
    }
}

/// A read of a register returns the value that the last of any sequence of
/// writes to it stored there.
pub proof fn lemma_read_returns_last_write(regs: Seq<u8>, writes: Seq<(u8, u8)>, reg: u8)
    requires
        regs.len() == BANK_SIZE,
        writes_to(writes, reg),
    ensures
        ret_for(apply_writes(regs, writes), Transfer::ReadByteData { command: reg })
            == last_written(writes, reg) as i32,
    decreases writes.len(),
{
    lemma_writes_keep_size(regs, writes.drop_last());
    if writes.last().0 != reg {
        let i = choose|i: int| 0 <= i < writes.len() && (#[trigger] writes[i]).0 == reg;
        assert(i < writes.len() - 1);
        assert(writes.drop_last()[i] == writes[i]);
        lemma_read_returns_last_write(regs, writes.drop_last(), reg);
    }
}

/// A script changes values, never the number of registers.
pub proof fn lemma_script_keeps_size(regs: Seq<u8>, ops: Seq<Command>)
    requires
        regs.len() == BANK_SIZE,
    ensures
        apply_script(regs, ops).len() == BANK_SIZE,
    decreases ops.len(),
{
    if ops.len() > 0 {
        lemma_script_keeps_size(regs, ops.drop_last());
    }
}

proof fn lemma_writes_keep_size(regs: Seq<u8>, writes: Seq<(u8, u8)>)
    requires
        regs.len() == BANK_SIZE,
    ensures
        apply_writes(regs, writes).len() == regs.len(),
    decreases writes.len(),
{
    if writes.len() > 0 {
        lemma_writes_keep_size(regs, writes.drop_last());
    }
}

} // verus!
