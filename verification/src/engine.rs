//! The fetch-decode-execute engine and the global step.
//!
//! Operand resolution and write-back follow the deferred-write protocol:
//! a write through an addressable operand queues a `Command` instead of
//! touching the bus, and the bus applies all queued commands only after
//! every device has been polled. Every piece is specified functionally:
//! `spec_cpu_step` gives one processor step, `spec_step` the global one.

use vstd::prelude::*;

use crate::computer::{entry_wf, Computer, ComputerView, MappedDevice, MappedDeviceView};
use crate::cpu::{fl_index, flag_set_in, flag_update, lemma_flag_update, pc_index, Flag, CPU};
use crate::device::{Command, DeviceKind, DeviceView};
use crate::fault::Fault;
use crate::isa::{decode_at, instr_wf, par_wf, spec_decode, Instr, Op, Par};

verus! {

/// Width of a write-back: byte, 16-bit word, or 32-bit dword.
#[derive(Clone, Copy, Debug, PartialEq, Eq, Structural)]
pub enum Width {
    B,
    W,
    D,
}

/// A value truncated to a width.
pub open spec fn trunc(w: Width, v: u32) -> u32 {
    match w {
        Width::B => v % 0x100,
        Width::W => v % 0x10000,
        Width::D => v,
    }
}

/// The sign bit of a width-truncated value.
pub open spec fn high_bit(w: Width, v: u32) -> bool {
    match w {
        Width::B => v >= 0x80,
        Width::W => v >= 0x8000,
        Width::D => v >= 0x8000_0000,
    }
}

/// The `FL` value after a write-back of `v` at width `w`: zero, sign and
/// parity are recomputed from the value, carry, overflow and the
/// comparison bits are cleared (the executed set defines none of them),
/// and every other bit — the reserved flag and the high bits — stays.
pub open spec fn flags_for(fl: u32, w: Width, v: u32) -> u32 {
    flag_update(
        flag_update(
            flag_update(
                flag_update(
                    flag_update(
                        flag_update(
                            flag_update(fl, Flag::Y, false),
                            Flag::V,
                            false,
                        ),
                        Flag::Z,
                        v == 0,
                    ),
                    Flag::S,
                    high_bit(w, v),
                ),
                Flag::GT,
                false,
            ),
            Flag::LT,
            false,
        ),
        Flag::P,
        v % 2 == 0,
    )
}

/// The write-back flags, one flag at a time.
proof fn lemma_flags_for_at(fl: u32, w: Width, v: u32, g: Flag)
    ensures
        flag_set_in(flags_for(fl, w, v), g) == if g == Flag::P {
            v % 2 == 0
        } else if g == Flag::LT {
            false
        } else if g == Flag::GT {
            false
        } else if g == Flag::S {
            high_bit(w, v)
        } else if g == Flag::Z {
            v == 0
        } else if g == Flag::V {
            false
        } else if g == Flag::Y {
            false
        } else {
            flag_set_in(fl, g)
        },
{
    let f1 = flag_update(fl, Flag::Y, false);
    let f2 = flag_update(f1, Flag::V, false);
    let f3 = flag_update(f2, Flag::Z, v == 0);
    let f4 = flag_update(f3, Flag::S, high_bit(w, v));
    let f5 = flag_update(f4, Flag::GT, false);
    let f6 = flag_update(f5, Flag::LT, false);
    lemma_flag_update(fl, Flag::Y, false, g);
    lemma_flag_update(f1, Flag::V, false, g);
    lemma_flag_update(f2, Flag::Z, v == 0, g);
    lemma_flag_update(f3, Flag::S, high_bit(w, v), g);
    lemma_flag_update(f4, Flag::GT, false, g);
    lemma_flag_update(f5, Flag::LT, false, g);
    lemma_flag_update(f6, Flag::P, v % 2 == 0, g);
}

/// What the write-back flags say, spelled out: zero, parity and sign
/// follow the written value at its width; carry, overflow and the
/// comparison bits are cleared; the reserved flag keeps its value.
pub proof fn lemma_flags_of_write(fl: u32, w: Width, v: u32)
    ensures
        flag_set_in(flags_for(fl, w, v), Flag::Z) == (v == 0),
        flag_set_in(flags_for(fl, w, v), Flag::P) == (v % 2 == 0),
        flag_set_in(flags_for(fl, w, v), Flag::S) == high_bit(w, v),
        !flag_set_in(flags_for(fl, w, v), Flag::Y),
        !flag_set_in(flags_for(fl, w, v), Flag::V),
        !flag_set_in(flags_for(fl, w, v), Flag::GT),
        !flag_set_in(flags_for(fl, w, v), Flag::LT),
        flag_set_in(flags_for(fl, w, v), Flag::T) == flag_set_in(fl, Flag::T),
{
    lemma_flags_for_at(fl, w, v, Flag::Z);
    lemma_flags_for_at(fl, w, v, Flag::P);
    lemma_flags_for_at(fl, w, v, Flag::S);
    lemma_flags_for_at(fl, w, v, Flag::Y);
    lemma_flags_for_at(fl, w, v, Flag::V);
    lemma_flags_for_at(fl, w, v, Flag::GT);
    lemma_flags_for_at(fl, w, v, Flag::LT);
    lemma_flags_for_at(fl, w, v, Flag::T);
}

/// The deferred command a write of `v` at width `w` to address `addr`
/// queues.
pub open spec fn cmd_of(w: Width, addr: u32, v: u32) -> Command {
    match w {
        Width::B => Command::WriteByte(addr, v as u8),
        Width::W => Command::WriteWord16(addr, v as u16),
        Width::D => Command::WriteDword32(addr, v),
    }
}

/// The value an operand resolves to: a register's value, a 32-bit bus
/// read at a register's value or at a literal address, or a zero-extended
/// immediate.
pub open spec fn spec_par_read(regs: Seq<u32>, c: ComputerView, p: Par) -> Result<u32, Fault> {
    match p {
        Par::Reg(i) => Ok(regs[i as int]),
        Par::IndReg(i) => c.read32(regs[i as int]),
        Par::Imm8(v) => Ok(v as u32),
        Par::Imm16(v) => Ok(v as u32),
        Par::Imm32(v) => Ok(v),
        Par::IndImm(a) => c.read32(a),
    }
}

/// A write-back of the width-truncated value `v` through an operand:
/// flag side effects first, then either an immediate register write or a
/// queued command of the requested width. An immediate destination is
/// refused, with no side effect at all.
pub open spec fn spec_par_write(regs: Seq<u32>, p: Par, w: Width, v: u32) -> Result<
    (Seq<u32>, Option<Command>),
    Fault,
> {
    let regs1 = regs.update(fl_index(), flags_for(regs[fl_index()], w, v));
    match p {
        Par::Reg(i) => Ok((regs1.update(i as int, v), None)),
        Par::IndReg(i) => Ok((regs1, Some(cmd_of(w, regs1[i as int], v)))),
        Par::IndImm(a) => Ok((regs1, Some(cmd_of(w, a, v)))),
        Par::Imm8(_) => Err(Fault::InvalidDestination),
        Par::Imm16(_) => Err(Fault::InvalidDestination),
        Par::Imm32(_) => Err(Fault::InvalidDestination),
    }
}

impl CPU {
    /// Resolve an operand against the bus, as `spec_par_read` says.
    pub fn read_par(&self, bus: &Computer, p: Par) -> (r: Result<u32, Fault>)
        requires
            bus@.wf(),
            par_wf(p),
        ensures
            r == spec_par_read(self@, bus@, p),
    {
        match p {
            Par::Reg(i) => Ok(self.register[i as usize]),
            Par::IndReg(i) => bus.get32(self.register[i as usize]),
            Par::Imm8(v) => Ok(v as u32),
            Par::Imm16(v) => Ok(v as u32),
            Par::Imm32(v) => Ok(v),
            Par::IndImm(a) => bus.get32(a),
        }
    }

    /// Recompute the write-back flags for a value of a width.
    fn apply_flags(&mut self, w: Width, v: u32)
        ensures
            final(self)@ == old(self)@.update(
                fl_index(),
                flags_for(old(self)@[fl_index()], w, v),
            ),
    {
        self.set_flag(Flag::Y, false);
        self.set_flag(Flag::V, false);
        self.set_flag(Flag::Z, v == 0);
        let high = match w {
            Width::B => v >= 0x80,
            Width::W => v >= 0x8000,
            Width::D => v >= 0x8000_0000,
        };
        self.set_flag(Flag::S, high);
        self.set_flag(Flag::GT, false);
        self.set_flag(Flag::LT, false);
        self.set_flag(Flag::P, v % 2 == 0);
        proof {
            assert(self@ =~= old(self)@.update(
                fl_index(),
                flags_for(old(self)@[fl_index()], w, v),
            ));
        }
    }

    /// Write a width-truncated value back through an operand, as
    /// `spec_par_write` says: flags first, then the register write or the
    /// queued command. On an immediate destination nothing changes and
    /// the write is refused.
    pub fn write_par(&mut self, p: Par, w: Width, v: u32, cmds: &mut Vec<Command>) -> (r: Result<
        (),
        Fault,
    >)
        requires
            par_wf(p),
            v == trunc(w, v),
        ensures
            match spec_par_write(old(self)@, p, w, v) {
                Ok((regs2, cmd)) => {
                    &&& r is Ok
                    &&& final(self)@ == regs2
                    &&& final(cmds)@ == old(cmds)@ + opt_cmd_seq(cmd)
                },
                Err(f) => {
                    &&& r == Err::<(), Fault>(f)
                    &&& final(self)@ == old(self)@
                    &&& final(cmds)@ == old(cmds)@
                },
            },
    {
        match p {
            Par::Reg(i) => {
                self.apply_flags(w, v);
                self.register[i as usize] = v;
                proof {
                    assert(cmds@ =~= old(cmds)@ + opt_cmd_seq(None));
                }
                Ok(())
            },
            Par::IndReg(i) => {
                self.apply_flags(w, v);
                let addr = self.register[i as usize];
                let cmd = cmd_width(w, addr, v);
                cmds.push(cmd);
                proof {
                    assert(cmds@ =~= old(cmds)@ + opt_cmd_seq(Some(cmd)));
                }
                Ok(())
            },
            Par::IndImm(a) => {
                self.apply_flags(w, v);
                let cmd = cmd_width(w, a, v);
                cmds.push(cmd);
                proof {
                    assert(cmds@ =~= old(cmds)@ + opt_cmd_seq(Some(cmd)));
                }
                Ok(())
            },
            Par::Imm8(_) => Err(Fault::InvalidDestination),
            Par::Imm16(_) => Err(Fault::InvalidDestination),
            Par::Imm32(_) => Err(Fault::InvalidDestination),
        }
    }
}

/// The queued commands of one write-back: one or none.
pub open spec fn opt_cmd_seq(cmd: Option<Command>) -> Seq<Command> {
    match cmd {
        Some(c) => seq![c],
        None => Seq::empty(),
    }
}

/// Build the deferred command of a width, as executable code.
fn cmd_width(w: Width, addr: u32, v: u32) -> (c: Command)
    requires
        v == trunc(w, v),
    ensures
        c == cmd_of(w, addr, v),
{
    match w {
        Width::B => Command::WriteByte(addr, v as u8),
        Width::W => Command::WriteWord16(addr, v as u16),
        Width::D => Command::WriteDword32(addr, v),
    }
}

/// Truncate a value to a width, as executable code.
fn trunc_width(w: Width, v: u32) -> (r: u32)
    ensures
        r == trunc(w, v),
        r == trunc(w, r),
{
    match w {
        Width::B => v % 0x100,
        Width::W => v % 0x10000,
        Width::D => v,
    }
}

/// The write-back width of a mnemonic: the byte and word moves truncate,
/// everything else is full 32-bit.
pub open spec fn op_width(o: Op) -> Width {
    match o {
        Op::Movb => Width::B,
        Op::Movw => Width::W,
        _ => Width::D,
    }
}

/// The value of a binary logic operator on two operand values. Shifting
/// by 32 or more empties the word.
pub open spec fn binop_val(o: Op, a: u32, b: u32) -> u32 {
    match o {
        Op::Or => a | b,
        Op::Xor => a ^ b,
        Op::And => a & b,
        Op::Shl => if b < 32 {
            a << b
        } else {
            0
        },
        Op::Shr => if b < 32 {
            a >> b
        } else {
            0
        },
        _ => 0,
    }
}

/// Executing a move: operand 2's value, truncated to the width, written
/// back through operand 1.
pub open spec fn spec_move(regs: Seq<u32>, c: ComputerView, i: Instr, w: Width) -> Result<
    (Seq<u32>, Option<Command>),
    Fault,
> {
    match i.par2 {
        None => Err(Fault::IllegalInstruction),
        Some(p2) => match spec_par_read(regs, c, p2) {
            Err(f) => Err(f),
            Ok(v) => spec_par_write(regs, i.par1, w, trunc(w, v)),
        },
    }
}

/// Executing a binary logic operator: applied to (operand 1, operand 2),
/// written back through operand 1 at full width.
pub open spec fn spec_binop(regs: Seq<u32>, c: ComputerView, i: Instr) -> Result<
    (Seq<u32>, Option<Command>),
    Fault,
> {
    match i.par2 {
        None => Err(Fault::IllegalInstruction),
        Some(p2) => match spec_par_read(regs, c, i.par1) {
            Err(f) => Err(f),
            Ok(a) => match spec_par_read(regs, c, p2) {
                Err(f) => Err(f),
                Ok(b) => spec_par_write(regs, i.par1, Width::D, binop_val(i.op, a, b)),
            },
        },
    }
}

/// Executing one decoded instruction: the move family, the binary logic
/// group, and unary complement. On a fault nothing changes.
pub open spec fn spec_execute(regs: Seq<u32>, c: ComputerView, i: Instr) -> Result<
    (Seq<u32>, Option<Command>),
    Fault,
> {
    match i.op {
        Op::Mov => spec_move(regs, c, i, Width::D),
        Op::Movb => spec_move(regs, c, i, Width::B),
        Op::Movw => spec_move(regs, c, i, Width::W),
        Op::Movd => spec_move(regs, c, i, Width::D),
        Op::Or => spec_binop(regs, c, i),
        Op::Xor => spec_binop(regs, c, i),
        Op::And => spec_binop(regs, c, i),
        Op::Shl => spec_binop(regs, c, i),
        Op::Shr => spec_binop(regs, c, i),
        Op::Not => match spec_par_read(regs, c, i.par1) {
            Err(f) => Err(f),
            Ok(a) => spec_par_write(regs, i.par1, Width::D, !a),
        },
    }
}

/// One processor step against a read-only view of the bus: decode at the
/// program counter, execute, then advance the program counter by the
/// instruction's length (wrapping), whatever the instruction left in it.
/// The result is the new register file and the queued command, if any.
#[verifier::opaque]
pub open spec fn spec_cpu_step(regs: Seq<u32>, c: ComputerView) -> Result<
    (Seq<u32>, Option<Command>),
    Fault,
> {
    let pc = regs[pc_index()];
    match spec_decode(c, pc) {
        Err(f) => Err(f),
        Ok(i) => match spec_execute(regs, c, i) {
            Err(f) => Err(f),
            Ok((regs2, cmd)) => Ok(
                (
                    regs2.update(
                        pc_index(),
                        ((regs2[pc_index()] + i.len) % 0x1_0000_0000) as u32,
                    ),
                    cmd,
                ),
            ),
        },
    }
}

/// Add two 32-bit values, wrapping around the address space.
fn wrapping_add32(a: u32, b: u32) -> (r: u32)
    ensures
        r == ((a + b) % 0x1_0000_0000) as u32,
{
    ((a as u64 + b as u64) % 0x1_0000_0000u64) as u32
}

impl CPU {
    /// Execute a move at a width: read operand 2, truncate, write back
    /// through operand 1.
    fn exec_move(&mut self, bus: &Computer, i: Instr, w: Width, cmds: &mut Vec<Command>) -> (r:
        Result<(), Fault>)
        requires
            bus@.wf(),
            instr_wf(i),
        ensures
            match spec_move(old(self)@, bus@, i, w) {
                Ok((regs2, cmd)) => {
                    &&& r is Ok
                    &&& final(self)@ == regs2
                    &&& final(cmds)@ == old(cmds)@ + opt_cmd_seq(cmd)
                },
                Err(f) => {
                    &&& r == Err::<(), Fault>(f)
                    &&& final(self)@ == old(self)@
                    &&& final(cmds)@ == old(cmds)@
                },
            },
    {
        let p2 = match i.par2 {
            Some(p) => p,
            None => {
                return Err(Fault::IllegalInstruction);
            },
        };
        let v = match self.read_par(bus, p2) {
            Ok(v) => v,
            Err(f) => {
                return Err(f);
            },
        };
        self.write_par(i.par1, w, trunc_width(w, v), cmds)
    }

    /// Execute a binary logic operator: read both operands, combine,
    /// write back through operand 1.
    fn exec_binop(&mut self, bus: &Computer, i: Instr, cmds: &mut Vec<Command>) -> (r: Result<
        (),
        Fault,
    >)
        requires
            bus@.wf(),
            instr_wf(i),
            i.op is Or || i.op is Xor || i.op is And || i.op is Shl || i.op is Shr,
        ensures
            match spec_binop(old(self)@, bus@, i) {
                Ok((regs2, cmd)) => {
                    &&& r is Ok
                    &&& final(self)@ == regs2
                    &&& final(cmds)@ == old(cmds)@ + opt_cmd_seq(cmd)
                },
                Err(f) => {
                    &&& r == Err::<(), Fault>(f)
                    &&& final(self)@ == old(self)@
                    &&& final(cmds)@ == old(cmds)@
                },
            },
    {
        let p2 = match i.par2 {
            Some(p) => p,
            None => {
                return Err(Fault::IllegalInstruction);
            },
        };
        let a = match self.read_par(bus, i.par1) {
            Ok(v) => v,
            Err(f) => {
                return Err(f);
            },
        };
        let b = match self.read_par(bus, p2) {
            Ok(v) => v,
            Err(f) => {
                return Err(f);
            },
        };
        let v = match i.op {
            Op::Or => a | b,
            Op::Xor => a ^ b,
            Op::And => a & b,
            Op::Shl => if b < 32 {
                a << b
            } else {
                0
            },
            Op::Shr => if b < 32 {
                a >> b
            } else {
                0
            },
            _ => 0,
        };
        self.write_par(i.par1, Width::D, v, cmds)
    }

    /// Decode the instruction at the current program counter against a
    /// read-only view of the bus, without executing it.
    pub fn decode(&self, bus: &Computer) -> (r: Result<Instr, Fault>)
        requires
            bus@.wf(),
        ensures
            r == spec_decode(bus@, self@[pc_index()]),
    {
        decode_at(bus, self.register[14])
    }

    /// One step of the processor as a device: decode the instruction at
    /// the program counter against a read-only view of the bus, execute
    /// it, advance the program counter, and queue any bus mutation. The
    /// elapsed time is accepted per the device capability and ignored.
    /// On a fault the queue is untouched and the register file given back
    /// is unchanged.
    pub fn step_device(&self, bus: &Computer, _dt: u64, cmds: &mut Vec<Command>) -> (r: Result<
        CPU,
        Fault,
    >)
        requires
            bus@.wf(),
        ensures
            match spec_cpu_step(self@, bus@) {
                Ok((regs2, cmd)) => {
                    &&& r is Ok
                    &&& (r->Ok_0)@ == regs2
                    &&& final(cmds)@ == old(cmds)@ + opt_cmd_seq(cmd)
                },
                Err(f) => {
                    &&& r == Err::<CPU, Fault>(f)
                    &&& final(cmds)@ == old(cmds)@
                },
            },
    {
        proof {
            reveal(spec_cpu_step);
        }
        let pc = self.register[14];
        let i = match decode_at(bus, pc) {
            Ok(i) => i,
            Err(f) => {
                return Err(f);
            },
        };
        let mut c = *self;
        let res: Result<(), Fault> = match i.op {
            Op::Mov => c.exec_move(bus, i, Width::D, cmds),
            Op::Movb => c.exec_move(bus, i, Width::B, cmds),
            Op::Movw => c.exec_move(bus, i, Width::W, cmds),
            Op::Movd => c.exec_move(bus, i, Width::D, cmds),
            Op::Or => c.exec_binop(bus, i, cmds),
            Op::Xor => c.exec_binop(bus, i, cmds),
            Op::And => c.exec_binop(bus, i, cmds),
            Op::Shl => c.exec_binop(bus, i, cmds),
            Op::Shr => c.exec_binop(bus, i, cmds),
            Op::Not => {
                match c.read_par(bus, i.par1) {
                    Ok(a) => c.write_par(i.par1, Width::D, !a, cmds),
                    Err(f) => Err(f),
                }
            },
        };
        match res {
            Ok(u) => u,
            Err(f) => {
                return Err(f);
            },
        };
        let pc2 = c.register[14];
        c.register[14] = wrapping_add32(pc2, i.len);
        Ok(c)
    }
}

/// Polling one device against the start-of-step bus: a processor decodes
/// and executes one instruction and may queue one command; every other
/// device passes through unchanged.
pub open spec fn poll_one(c: ComputerView, j: int) -> Result<
    (MappedDeviceView, Seq<Command>),
    Fault,
> {
    match c.devices[j].dev {
        DeviceView::Cpu(regs) => match spec_cpu_step(regs, c) {
            Err(f) => Err(f),
            Ok((regs2, cmd)) => Ok(
                (
                    MappedDeviceView { mapping: c.devices[j].mapping, dev: DeviceView::Cpu(regs2) },
                    opt_cmd_seq(cmd),
                ),
            ),
        },
        DeviceView::Ram(_) => Ok((c.devices[j], Seq::empty())),
    }
}

/// Polling the first `i` devices, in registration order, all against the
/// same start-of-step bus: the devices' new states and all queued
/// commands in emission order. The first fault, in order, wins.
pub open spec fn spec_poll_upto(c: ComputerView, i: int) -> Result<
    (Seq<MappedDeviceView>, Seq<Command>),
    Fault,
>
    decreases i,
{
    if i <= 0 {
        Ok((Seq::empty(), Seq::empty()))
    } else {
        match spec_poll_upto(c, i - 1) {
            Err(f) => Err(f),
            Ok(pr) => match poll_one(c, i - 1) {
                Err(f) => Err(f),
                Ok(one) => Ok((pr.0.push(one.0), pr.1 + one.1)),
            },
        }
    }
}

/// Once polling has faulted, polling further devices reports that fault.
proof fn lemma_poll_upto_err(c: ComputerView, i: int, j: int)
    requires
        0 <= i <= j,
        spec_poll_upto(c, i) is Err,
    ensures
        spec_poll_upto(c, j) == spec_poll_upto(c, i),
    decreases j - i,
{
    if j > i {
        lemma_poll_upto_err(c, i, j - 1);
    }
}

/// Applying one queued command through the ordinary byte/word/dword
/// write entry point it names: the result and the bus it leaves behind
/// (on a fault, the state the faulting write left).
#[verifier::opaque]
pub open spec fn spec_apply_one(c: ComputerView, cmd: Command) -> (Result<(), Fault>, ComputerView) {
    match cmd {
        Command::WriteByte(a, v) => match c.write_byte(a, v) {
            Err(f) => (Err(f), c),
            Ok(c2) => (Ok(()), c2),
        },
        Command::WriteWord16(a, v) => {
            let pr = c.write16(a, v);
            match pr.0 {
                Err(f) => (Err(f), pr.1),
                Ok(u) => (Ok(()), pr.1),
            }
        },
        Command::WriteDword32(a, v) => {
            let pr = c.write32(a, v);
            match pr.0 {
                Err(f) => (Err(f), pr.1),
                Ok(u) => (Ok(()), pr.1),
            }
        },
    }
}

/// Applying the queued commands from index `i` on, in emission order. A
/// faulting command stops the application, leaving the commands before
/// it applied.
pub open spec fn spec_apply(c: ComputerView, cmds: Seq<Command>, i: int) -> (Result<(), Fault>,
ComputerView)
    decreases cmds.len() - i,
{
    if i < 0 || i >= cmds.len() {
        (Ok(()), c)
    } else {
        let pr = spec_apply_one(c, cmds[i]);
        match pr.0 {
            Err(f) => (Err(f), pr.1),
            Ok(u) => spec_apply(pr.1, cmds, i + 1),
        }
    }
}

/// One global step: poll every device, in registration order, against the
/// start-of-step bus — no device observes another device's same-step
/// mutation — then install the devices' new states and apply every queued
/// command, in emission order, through the ordinary write entry points.
/// A fault while polling leaves the bus exactly as it was.
pub open spec fn spec_step(c: ComputerView) -> (Result<(), Fault>, ComputerView) {
    match spec_poll_upto(c, c.devices.len() as int) {
        Err(f) => (Err(f), c),
        Ok(pr) => spec_apply(
            ComputerView {
                mem: c.mem,
                offset: c.offset,
                devices: pr.0,
                cpu_index: c.cpu_index,
            },
            pr.1,
            0,
        ),
    }
}

/// Lifts the pointwise poll relation over one more polled device.
proof fn lemma_poll_step(
    nd0: Seq<MappedDeviceView>,
    ndp: Seq<Option<CPU>>,
    ndn: Seq<Option<CPU>>,
    cur: Seq<MappedDeviceView>,
    c0: ComputerView,
    i: int,
)
    requires
        0 <= i,
        nd0.len() == i,
        ndp.len() == i,
        ndn.len() == i + 1,
        forall|k: int| 0 <= k < i ==> ndn[k] == ndp[k],
        cur.len() == i + 1,
        forall|k: int| 0 <= k < i ==> cur[k] == nd0[k],
        forall|k: int|
            0 <= k < i ==> nd0[k] == (match ndp[k] {
                Some(cpu) => MappedDeviceView {
                    mapping: c0.devices[k].mapping,
                    dev: DeviceView::Cpu(cpu@),
                },
                None => c0.devices[k],
            }),
        cur[i] == (match ndn[i] {
            Some(cpu) => MappedDeviceView {
                mapping: c0.devices[i].mapping,
                dev: DeviceView::Cpu(cpu@),
            },
            None => c0.devices[i],
        }),
    ensures
        forall|k: int|
            0 <= k < i + 1 ==> cur[k] == (match ndn[k] {
                Some(cpu) => MappedDeviceView {
                    mapping: c0.devices[k].mapping,
                    dev: DeviceView::Cpu(cpu@),
                },
                None => c0.devices[k],
            }),
{
}

/// What applying a byte-write command means, in terms of the byte write.
proof fn lemma_apply_one_byte(c: ComputerView, a: u32, v: u8)
    ensures
        match c.write_byte(a, v) {
            Err(f) => spec_apply_one(c, Command::WriteByte(a, v)) == (Err::<(), Fault>(f), c),
            Ok(c2) => spec_apply_one(c, Command::WriteByte(a, v)) == (Ok::<(), Fault>(()), c2),
        },
{
    reveal(spec_apply_one);
}

/// What applying a word-write command means, in terms of the word write.
proof fn lemma_apply_one_word(c: ComputerView, a: u32, v: u16)
    ensures
        spec_apply_one(c, Command::WriteWord16(a, v)).1 == c.write16(a, v).1,
        spec_apply_one(c, Command::WriteWord16(a, v)).0 == (match c.write16(a, v).0 {
            Err(f) => Err::<(), Fault>(f),
            Ok(u) => Ok::<(), Fault>(()),
        }),
{
    reveal(spec_apply_one);
}

/// What applying a dword-write command means, in terms of the dword write.
proof fn lemma_apply_one_dword(c: ComputerView, a: u32, v: u32)
    ensures
        spec_apply_one(c, Command::WriteDword32(a, v)).1 == c.write32(a, v).1,
        spec_apply_one(c, Command::WriteDword32(a, v)).0 == (match c.write32(a, v).0 {
            Err(f) => Err::<(), Fault>(f),
            Ok(u) => Ok::<(), Fault>(()),
        }),
{
    reveal(spec_apply_one);
}

impl Computer {
    /// Poll every device, in registration order, against the current bus
    /// state, collecting the processors' new register files and all
    /// queued commands in emission order. The bus itself is untouched.
    fn poll_devices(&self, dt: u64) -> (r: Result<(Vec<Option<CPU>>, Vec<Command>), Fault>)
        requires
            self@.wf(),
        ensures
            match r {
                Ok(pr) => {
                    &&& spec_poll_upto(self@, self@.devices.len() as int) is Ok
                    &&& (spec_poll_upto(self@, self@.devices.len() as int)->Ok_0).0.len()
                        == self@.devices.len()
                    &&& pr.1@ == (spec_poll_upto(self@, self@.devices.len() as int)->Ok_0).1
                    &&& pr.0@.len() == self@.devices.len()
                    &&& forall|k: int|
                        0 <= k < self@.devices.len() ==> (spec_poll_upto(
                            self@,
                            self@.devices.len() as int,
                        )->Ok_0).0[k] == (match pr.0@[k] {
                            Some(cpu) => MappedDeviceView {
                                mapping: self@.devices[k].mapping,
                                dev: DeviceView::Cpu(cpu@),
                            },
                            None => self@.devices[k],
                        })
                    &&& forall|k: int|
                        0 <= k < self@.devices.len() ==> ((#[trigger] pr.0@[k]) is Some
                            ==> self@.devices[k].dev is Cpu)
                },
                Err(f) => spec_poll_upto(self@, self@.devices.len() as int) == Err::<
                    (Seq<MappedDeviceView>, Seq<Command>),
                    Fault,
                >(f),
            },
    {
        let ghost c0 = self@;
        let n = self.devices.len();
        let mut cmds: Vec<Command> = Vec::new();
        let mut new_devs: Vec<Option<CPU>> = Vec::new();
        let mut i: usize = 0;
        while i < n
            invariant
                self@ == c0,
                c0.wf(),
                n == c0.devices.len(),
                i <= n,
                spec_poll_upto(c0, i as int) is Ok,
                (spec_poll_upto(c0, i as int)->Ok_0).0.len() == i,
                cmds@ == (spec_poll_upto(c0, i as int)->Ok_0).1,
                new_devs@.len() == i,
                forall|k: int|
                    0 <= k < i ==> (spec_poll_upto(c0, i as int)->Ok_0).0[k] == (match new_devs@[k] {
                        Some(cpu) => MappedDeviceView {
                            mapping: c0.devices[k].mapping,
                            dev: DeviceView::Cpu(cpu@),
                        },
                        None => c0.devices[k],
                    }),
                forall|k: int|
                    0 <= k < i ==> ((#[trigger] new_devs@[k]) is Some ==> c0.devices[k].dev
                        is Cpu),
            decreases n - i,
        {
            let ghost prev = spec_poll_upto(c0, i as int)->Ok_0;
            let ghost nd_prev = new_devs@;
            match &self.devices[i].dev {
                DeviceKind::Cpu(cpu) => {
                    let stepped = cpu.step_device(self, dt, &mut cmds);
                    match stepped {
                        Ok(c2) => {
                            new_devs.push(Some(c2));
                            proof {
                                let cur = spec_poll_upto(c0, i as int + 1)->Ok_0;
                                assert(cur.0 =~= prev.0.push(
                                    MappedDeviceView {
                                        mapping: c0.devices[i as int].mapping,
                                        dev: DeviceView::Cpu(c2@),
                                    },
                                ));
                                lemma_poll_step(prev.0, nd_prev, new_devs@, cur.0, c0, i as int);
                            }
                        },
                        Err(f) => {
                            proof {
                                lemma_poll_upto_err(c0, i as int + 1, n as int);
                            }
                            return Err(f);
                        },
                    }
                },
                DeviceKind::Ram(_) => {
                    new_devs.push(None);
                    proof {
                        let cur = spec_poll_upto(c0, i as int + 1)->Ok_0;
                        assert(cur.0 =~= prev.0.push(c0.devices[i as int]));
                        assert(cur.1 =~= prev.1);
                        lemma_poll_step(prev.0, nd_prev, new_devs@, cur.0, c0, i as int);
                    }
                },
            }
            i += 1;
        }
        Ok((new_devs, cmds))
    }

    /// Install the polled processor states back into the device table,
    /// leaving mappings, order and everything else of the bus alone.
    fn install_devices(&mut self, new_devs: &Vec<Option<CPU>>)
        requires
            old(self)@.wf(),
            new_devs@.len() == old(self)@.devices.len(),
            forall|k: int|
                0 <= k < new_devs@.len() ==> ((#[trigger] new_devs@[k]) is Some ==> old(
                    self,
                )@.devices[k].dev is Cpu),
        ensures
            final(self)@.wf(),
            final(self)@.mem == old(self)@.mem,
            final(self)@.offset == old(self)@.offset,
            final(self)@.cpu_index == old(self)@.cpu_index,
            final(self)@.devices.len() == old(self)@.devices.len(),
            forall|k: int|
                0 <= k < new_devs@.len() ==> final(self)@.devices[k] == (match new_devs@[k] {
                    Some(cpu) => MappedDeviceView {
                        mapping: old(self)@.devices[k].mapping,
                        dev: DeviceView::Cpu(cpu@),
                    },
                    None => old(self)@.devices[k],
                }),
    {
        let ghost c0 = self@;
        let n = self.devices.len();
        let mut k: usize = 0;
        while k < n
            invariant
                c0.wf(),
                n == c0.devices.len(),
                n == self.devices@.len(),
                n == new_devs@.len(),
                k <= n,
                forall|j: int|
                    0 <= j < new_devs@.len() ==> ((#[trigger] new_devs@[j]) is Some
                        ==> c0.devices[j].dev is Cpu),
                forall|j: int|
                    0 <= j < k ==> self@.devices[j] == (match new_devs@[j] {
                        Some(cpu) => MappedDeviceView {
                            mapping: c0.devices[j].mapping,
                            dev: DeviceView::Cpu(cpu@),
                        },
                        None => c0.devices[j],
                    }),
                forall|j: int| k <= j < n ==> self@.devices[j] == c0.devices[j],
                self@.mem == c0.mem,
                self@.offset == c0.offset,
                self@.cpu_index == c0.cpu_index,
            decreases n - k,
        {
            let ghost pre = self@;
            match new_devs[k] {
                Some(cpu) => {
                    let m = self.devices[k].mapping;
                    self.devices[k] = MappedDevice { mapping: m, dev: DeviceKind::Cpu(cpu) };
                    proof {
                        assert(self@.devices =~= pre.devices.update(
                            k as int,
                            MappedDeviceView {
                                mapping: pre.devices[k as int].mapping,
                                dev: DeviceView::Cpu(cpu@),
                            },
                        ));
                    }
                },
                None => {},
            }
            k += 1;
        }
        proof {
            assert forall|j: int| 0 <= j < n implies entry_wf(#[trigger] self@.devices[j]) by {
                assert(entry_wf(c0.devices[j]));
            }
            if c0.cpu_index is Some {
                let ci = c0.cpu_i();
                assert(c0.devices[ci].dev is Cpu);
                assert(self@.devices[ci].dev is Cpu);
            }
        }
    }

    /// Apply one queued byte-write command.
    fn apply_byte(&mut self, ad: u32, v: u8) -> (r: Result<(), Fault>)
        requires
            old(self)@.wf(),
        ensures
            final(self)@.wf(),
            r == spec_apply_one(old(self)@, Command::WriteByte(ad, v)).0,
            final(self)@ == spec_apply_one(old(self)@, Command::WriteByte(ad, v)).1,
    {
        proof {
            lemma_apply_one_byte(self@, ad, v);
        }
        self.set(ad, v)
    }

    /// Apply one queued word-write command.
    fn apply_word(&mut self, ad: u32, v: u16) -> (r: Result<(), Fault>)
        requires
            old(self)@.wf(),
        ensures
            final(self)@.wf(),
            r == spec_apply_one(old(self)@, Command::WriteWord16(ad, v)).0,
            final(self)@ == spec_apply_one(old(self)@, Command::WriteWord16(ad, v)).1,
    {
        proof {
            lemma_apply_one_word(self@, ad, v);
        }
        self.set16(ad, v)
    }

    /// Apply one queued dword-write command.
    fn apply_dword(&mut self, ad: u32, v: u32) -> (r: Result<(), Fault>)
        requires
            old(self)@.wf(),
        ensures
            final(self)@.wf(),
            r == spec_apply_one(old(self)@, Command::WriteDword32(ad, v)).0,
            final(self)@ == spec_apply_one(old(self)@, Command::WriteDword32(ad, v)).1,
    {
        proof {
            lemma_apply_one_dword(self@, ad, v);
        }
        self.set32(ad, v)
    }

    /// Apply one queued command through the write entry point it names.
    fn apply_one(&mut self, cmd: Command) -> (r: Result<(), Fault>)
        requires
            old(self)@.wf(),
        ensures
            final(self)@.wf(),
            r == spec_apply_one(old(self)@, cmd).0,
            final(self)@ == spec_apply_one(old(self)@, cmd).1,
    {
        match cmd {
            Command::WriteByte(ad, v) => self.apply_byte(ad, v),
            Command::WriteWord16(ad, v) => self.apply_word(ad, v),
            Command::WriteDword32(ad, v) => self.apply_dword(ad, v),
        }
    }

    /// Apply queued commands from the front, in emission order, through
    /// the ordinary write entry points. A faulting command stops the
    /// application, leaving the commands before it applied.
    fn apply_commands(&mut self, cmds: &Vec<Command>) -> (r: Result<(), Fault>)
        requires
            old(self)@.wf(),
        ensures
            final(self)@.wf(),
            r == spec_apply(old(self)@, cmds@, 0).0,
            final(self)@ == spec_apply(old(self)@, cmds@, 0).1,
    {
        let ghost c1 = self@;
        let m = cmds.len();
        let mut a: usize = 0;
        while a < m
            invariant
                self@.wf(),
                c1 == old(self)@,
                m == cmds@.len(),
                a <= m,
                spec_apply(c1, cmds@, 0) == spec_apply(self@, cmds@, a as int),
            decreases m - a,
        {
            let ghost cpre = self@;
            let r: Result<(), Fault> = self.apply_one(cmds[a]);
            match r {
                Ok(u) => {
                    proof {
                        assert(spec_apply(cpre, cmds@, a as int) == spec_apply(
                            self@,
                            cmds@,
                            a as int + 1,
                        ));
                    }
                    u
                },
                Err(f) => {
                    proof {
                        assert(spec_apply(cpre, cmds@, a as int) == (
                            Err::<(), Fault>(f),
                            self@,
                        ));
                    }
                    return Err(f);
                },
            };
            a += 1;
        }
        proof {
            assert(spec_apply(self@, cmds@, m as int) == (Ok::<(), Fault>(()), self@));
        }
        Ok(())
    }

    /// Drive one global step: poll every registered device (passing the
    /// elapsed time through), collect all emitted deferred commands, and
    /// after all devices have been polled apply every command in emission
    /// order. The two-phase protocol guarantees that no device observes
    /// another device's same-step mutation and that the bus is never
    /// mutated while any device is mid-step. A fault while polling leaves
    /// the bus unchanged; a faulting command stops the step with the
    /// earlier commands applied.
    pub fn step(&mut self, dt: u64) -> (r: Result<(), Fault>)
        requires
            old(self)@.wf(),
        ensures
            final(self)@.wf(),
            r == spec_step(old(self)@).0,
            final(self)@ == spec_step(old(self)@).1,
    {
        let ghost c0 = self@;
        let polled = match self.poll_devices(dt) {
            Ok(pr) => pr,
            Err(f) => {
                return Err(f);
            },
        };
        let (new_devs, cmds) = polled;
        let ghost spec_polled = spec_poll_upto(c0, c0.devices.len() as int)->Ok_0;
        self.install_devices(&new_devs);
        proof {
            assert(self@.devices =~= spec_polled.0);
            assert(self@ =~= (ComputerView {
                mem: c0.mem,
                offset: c0.offset,
                devices: spec_polled.0,
                cpu_index: c0.cpu_index,
            }));
        }
        self.apply_commands(&cmds)
    }
}

} // verus!
