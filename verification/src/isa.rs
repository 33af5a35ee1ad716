//! The binary instruction set: operands, opcodes and table-driven decode.
//!
//! One opcode byte selects a mnemonic, an operand pattern and a fixed
//! total length. Register-pair operands pack two register indices into a
//! single byte (high nibble first); single-register operands take a whole
//! byte; immediates and memory-indirect addresses are little-endian.
//! Decode is a pure function of the bus contents: the specification
//! `spec_decode` defines it, and `decode_at` is proved equal to it.

use vstd::prelude::*;

use crate::computer::{Computer, ComputerView};
use crate::fault::Fault;
use crate::lebytes::{compose16, compose32, le16, le32};

verus! {

/// A decoded instruction operand.
#[derive(Clone, Copy, Debug, PartialEq, Eq)]
pub enum Par {
    /// Register-direct: the value is the register's.
    Reg(u8),
    /// Register-indirect: the address is the register's 32-bit value.
    IndReg(u8),
    /// 8-bit immediate, zero-extended on read.
    Imm8(u8),
    /// 16-bit immediate, zero-extended on read.
    Imm16(u16),
    /// 32-bit immediate.
    Imm32(u32),
    /// Memory-indirect: the address is a literal embedded in the
    /// instruction.
    IndImm(u32),
}

/// An operand names only registers that exist.
pub open spec fn par_wf(p: Par) -> bool {
    match p {
        Par::Reg(i) => i < 16,
        Par::IndReg(i) => i < 16,
        _ => true,
    }
}

/// The executed mnemonics: the move family (with byte/word/dword widths)
/// and the logic group.
#[derive(Clone, Copy, Debug, PartialEq, Eq, Structural)]
pub enum Op {
    Mov,
    Movb,
    Movw,
    Movd,
    Or,
    Xor,
    And,
    Shl,
    Shr,
    Not,
}

/// The operand-kind pattern of an opcode: what the bytes after the
/// opcode encode. `Reg` is a register byte, pairs of registers share one
/// byte, `Imm` is a little-endian immediate, `Ind` marks indirection.
#[derive(Clone, Copy, Debug, PartialEq, Eq, Structural)]
pub enum Pattern {
    RegReg,
    RegImm8,
    RegImm16,
    RegImm32,
    RegIndReg,
    RegIndImm,
    IndRegReg,
    IndRegIndReg,
    IndRegIndImm,
    IndImmReg,
    IndImmIndReg,
    IndRegImm8,
    IndRegImm16,
    IndRegImm32,
    IndImmImm8,
    IndImmImm16,
    IndImmImm32,
    IndImmIndImm,
    RegOnly,
}

/// A decoded instruction: mnemonic, first operand, optional second
/// operand, and total encoded length in bytes.
#[derive(Clone, Copy, Debug, PartialEq, Eq)]
pub struct Instr {
    /// The mnemonic.
    pub op: Op,
    /// The first operand (the destination for the executed set).
    pub par1: Par,
    /// The second operand, absent for single-operand mnemonics.
    pub par2: Option<Par>,
    /// Total encoded length: one opcode byte plus the operand bytes.
    pub len: u32,
}

/// A decoded instruction names only registers that exist, and its length
/// is the pattern's.
pub open spec fn instr_wf(i: Instr) -> bool {
    &&& par_wf(i.par1)
    &&& match i.par2 {
        Some(p) => par_wf(p),
        None => true,
    }
    &&& 1 <= i.len <= 9
}

/// Total encoded length of an opcode with the given operand pattern.
pub open spec fn pattern_len(p: Pattern) -> u32 {
    match p {
        Pattern::RegReg => 2,
        Pattern::RegImm8 => 3,
        Pattern::RegImm16 => 4,
        Pattern::RegImm32 => 6,
        Pattern::RegIndReg => 2,
        Pattern::RegIndImm => 6,
        Pattern::IndRegReg => 2,
        Pattern::IndRegIndReg => 2,
        Pattern::IndRegIndImm => 6,
        Pattern::IndImmReg => 6,
        Pattern::IndImmIndReg => 6,
        Pattern::IndRegImm8 => 3,
        Pattern::IndRegImm16 => 4,
        Pattern::IndRegImm32 => 6,
        Pattern::IndImmImm8 => 6,
        Pattern::IndImmImm16 => 7,
        Pattern::IndImmImm32 => 9,
        Pattern::IndImmIndImm => 9,
        Pattern::RegOnly => 2,
    }
}

/// The instruction table: opcode byte to mnemonic and operand pattern.
///
/// The move family opens the table: plain `mov` into a register
/// (`0x01..=0x04`), then the byte, word and dword move groups, ten
/// opcodes each, in a fixed pattern order. The logic group follows from
/// `0x2D`: `or`, `xor`, `and`, `shl`, `shr` with the four
/// register-destination patterns each, and single-operand `not` at
/// `0x41`. The encoding scheme reserves the bytes after `not` for the
/// arithmetic, comparison, branch and stack groups (the test assembler
/// encodes `add reg, imm8` as `0x43` there), but the machine defines no
/// execute semantics for them, so those bytes — like every other byte
/// without an entry — decode to an illegal instruction rather than to an
/// instruction the engine could not run.
pub open spec fn opcode_entry(b: u8) -> Option<(Op, Pattern)> {
    match b {
        0x01u8 => Some((Op::Mov, Pattern::RegReg)),
        0x02u8 => Some((Op::Mov, Pattern::RegImm8)),
        0x03u8 => Some((Op::Mov, Pattern::RegImm16)),
        0x04u8 => Some((Op::Mov, Pattern::RegImm32)),
        0x05u8 => Some((Op::Movb, Pattern::RegIndReg)),
        0x06u8 => Some((Op::Movb, Pattern::RegIndImm)),
        0x07u8 => Some((Op::Movb, Pattern::IndRegReg)),
        0x08u8 => Some((Op::Movb, Pattern::IndRegIndReg)),
        0x09u8 => Some((Op::Movb, Pattern::IndRegIndImm)),
        0x0Au8 => Some((Op::Movb, Pattern::IndImmReg)),
        0x0Bu8 => Some((Op::Movb, Pattern::IndImmIndReg)),
        0x0Cu8 => Some((Op::Movb, Pattern::IndRegImm8)),
        0x0Du8 => Some((Op::Movb, Pattern::IndImmImm8)),
        0x0Eu8 => Some((Op::Movb, Pattern::IndImmIndImm)),
        0x0Fu8 => Some((Op::Movw, Pattern::RegIndReg)),
        0x10u8 => Some((Op::Movw, Pattern::RegIndImm)),
        0x11u8 => Some((Op::Movw, Pattern::IndRegReg)),
        0x12u8 => Some((Op::Movw, Pattern::IndRegIndReg)),
        0x13u8 => Some((Op::Movw, Pattern::IndRegIndImm)),
        0x14u8 => Some((Op::Movw, Pattern::IndImmReg)),
        0x15u8 => Some((Op::Movw, Pattern::IndImmIndReg)),
        0x16u8 => Some((Op::Movw, Pattern::IndRegImm16)),
        0x17u8 => Some((Op::Movw, Pattern::IndImmImm16)),
        0x18u8 => Some((Op::Movw, Pattern::IndImmIndImm)),
        0x19u8 => Some((Op::Movd, Pattern::RegIndReg)),
        0x1Au8 => Some((Op::Movd, Pattern::RegIndImm)),
        0x1Bu8 => Some((Op::Movd, Pattern::IndRegReg)),
        0x1Cu8 => Some((Op::Movd, Pattern::IndRegIndReg)),
        0x1Du8 => Some((Op::Movd, Pattern::IndRegIndImm)),
        0x1Eu8 => Some((Op::Movd, Pattern::IndImmReg)),
        0x1Fu8 => Some((Op::Movd, Pattern::IndImmIndReg)),
        0x20u8 => Some((Op::Movd, Pattern::IndRegImm32)),
        0x21u8 => Some((Op::Movd, Pattern::IndImmImm32)),
        0x22u8 => Some((Op::Movd, Pattern::IndImmIndImm)),
        0x2Du8 => Some((Op::Or, Pattern::RegReg)),
        0x2Eu8 => Some((Op::Or, Pattern::RegImm8)),
        0x2Fu8 => Some((Op::Or, Pattern::RegImm16)),
        0x30u8 => Some((Op::Or, Pattern::RegImm32)),
        0x31u8 => Some((Op::Xor, Pattern::RegReg)),
        0x32u8 => Some((Op::Xor, Pattern::RegImm8)),
        0x33u8 => Some((Op::Xor, Pattern::RegImm16)),
        0x34u8 => Some((Op::Xor, Pattern::RegImm32)),
        0x35u8 => Some((Op::And, Pattern::RegReg)),
        0x36u8 => Some((Op::And, Pattern::RegImm8)),
        0x37u8 => Some((Op::And, Pattern::RegImm16)),
        0x38u8 => Some((Op::And, Pattern::RegImm32)),
        0x39u8 => Some((Op::Shl, Pattern::RegReg)),
        0x3Au8 => Some((Op::Shl, Pattern::RegImm8)),
        0x3Bu8 => Some((Op::Shl, Pattern::RegImm16)),
        0x3Cu8 => Some((Op::Shl, Pattern::RegImm32)),
        0x3Du8 => Some((Op::Shr, Pattern::RegReg)),
        0x3Eu8 => Some((Op::Shr, Pattern::RegImm8)),
        0x3Fu8 => Some((Op::Shr, Pattern::RegImm16)),
        0x40u8 => Some((Op::Shr, Pattern::RegImm32)),
        0x41u8 => Some((Op::Not, Pattern::RegOnly)),
        _ => None,
    }
}

/// A 16-bit little-endian field at `base + k`.
pub open spec fn spec_field16(c: ComputerView, base: u32, k: int) -> Result<u16, Fault> {
    match c.read_rel(base, k) {
        Err(f) => Err(f),
        Ok(b0) => match c.read_rel(base, k + 1) {
            Err(f) => Err(f),
            Ok(b1) => Ok(le16(b0, b1)),
        },
    }
}

/// A 32-bit little-endian field at `base + k`.
pub open spec fn spec_field32(c: ComputerView, base: u32, k: int) -> Result<u32, Fault> {
    match c.read_rel(base, k) {
        Err(f) => Err(f),
        Ok(b0) => match c.read_rel(base, k + 1) {
            Err(f) => Err(f),
            Ok(b1) => match c.read_rel(base, k + 2) {
                Err(f) => Err(f),
                Ok(b2) => match c.read_rel(base, k + 3) {
                    Err(f) => Err(f),
                    Ok(b3) => Ok(le32(b0, b1, b2, b3)),
                },
            },
        },
    }
}

/// A single-register operand byte at `base + k`: a byte that does not
/// name a register is an illegal instruction.
pub open spec fn spec_reg_byte(c: ComputerView, base: u32, k: int) -> Result<u8, Fault> {
    match c.read_rel(base, k) {
        Err(f) => Err(f),
        Ok(b) => if b < 16 {
            Ok(b)
        } else {
            Err(Fault::IllegalInstruction)
        },
    }
}

/// The operands an opcode's pattern decodes from the bytes after the
/// opcode at `addr`.
pub open spec fn spec_decode_pars(c: ComputerView, addr: u32, p: Pattern) -> Result<
    (Par, Option<Par>),
    Fault,
> {
    match p {
        Pattern::RegReg => match c.read_rel(addr, 1) {
            Err(f) => Err(f),
            Ok(b) => Ok((Par::Reg(b / 16), Some(Par::Reg(b % 16)))),
        },
        Pattern::RegImm8 => match spec_reg_byte(c, addr, 1) {
            Err(f) => Err(f),
            Ok(b) => match c.read_rel(addr, 2) {
                Err(f) => Err(f),
                Ok(v) => Ok((Par::Reg(b), Some(Par::Imm8(v)))),
            },
        },
        Pattern::RegImm16 => match spec_reg_byte(c, addr, 1) {
            Err(f) => Err(f),
            Ok(b) => match spec_field16(c, addr, 2) {
                Err(f) => Err(f),
                Ok(v) => Ok((Par::Reg(b), Some(Par::Imm16(v)))),
            },
        },
        Pattern::RegImm32 => match spec_reg_byte(c, addr, 1) {
            Err(f) => Err(f),
            Ok(b) => match spec_field32(c, addr, 2) {
                Err(f) => Err(f),
                Ok(v) => Ok((Par::Reg(b), Some(Par::Imm32(v)))),
            },
        },
        Pattern::RegIndReg => match c.read_rel(addr, 1) {
            Err(f) => Err(f),
            Ok(b) => Ok((Par::Reg(b / 16), Some(Par::IndReg(b % 16)))),
        },
        Pattern::RegIndImm => match spec_reg_byte(c, addr, 1) {
            Err(f) => Err(f),
            Ok(b) => match spec_field32(c, addr, 2) {
                Err(f) => Err(f),
                Ok(a) => Ok((Par::Reg(b), Some(Par::IndImm(a)))),
            },
        },
        Pattern::IndRegReg => match c.read_rel(addr, 1) {
            Err(f) => Err(f),
            Ok(b) => Ok((Par::IndReg(b / 16), Some(Par::Reg(b % 16)))),
        },
        Pattern::IndRegIndReg => match c.read_rel(addr, 1) {
            Err(f) => Err(f),
            Ok(b) => Ok((Par::IndReg(b / 16), Some(Par::IndReg(b % 16)))),
        },
        Pattern::IndRegIndImm => match spec_reg_byte(c, addr, 1) {
            Err(f) => Err(f),
            Ok(b) => match spec_field32(c, addr, 2) {
                Err(f) => Err(f),
                Ok(a) => Ok((Par::IndReg(b), Some(Par::IndImm(a)))),
            },
        },
        Pattern::IndImmReg => match spec_field32(c, addr, 1) {
            Err(f) => Err(f),
            Ok(a) => match spec_reg_byte(c, addr, 5) {
                Err(f) => Err(f),
                Ok(b) => Ok((Par::IndImm(a), Some(Par::Reg(b)))),
            },
        },
        Pattern::IndImmIndReg => match spec_field32(c, addr, 1) {
            Err(f) => Err(f),
            Ok(a) => match spec_reg_byte(c, addr, 5) {
                Err(f) => Err(f),
                Ok(b) => Ok((Par::IndImm(a), Some(Par::IndReg(b)))),
            },
        },
        Pattern::IndRegImm8 => match spec_reg_byte(c, addr, 1) {
            Err(f) => Err(f),
            Ok(b) => match c.read_rel(addr, 2) {
                Err(f) => Err(f),
                Ok(v) => Ok((Par::IndReg(b), Some(Par::Imm8(v)))),
            },
        },
        Pattern::IndRegImm16 => match spec_reg_byte(c, addr, 1) {
            Err(f) => Err(f),
            Ok(b) => match spec_field16(c, addr, 2) {
                Err(f) => Err(f),
                Ok(v) => Ok((Par::IndReg(b), Some(Par::Imm16(v)))),
            },
        },
        Pattern::IndRegImm32 => match spec_reg_byte(c, addr, 1) {
            Err(f) => Err(f),
            Ok(b) => match spec_field32(c, addr, 2) {
                Err(f) => Err(f),
                Ok(v) => Ok((Par::IndReg(b), Some(Par::Imm32(v)))),
            },
        },
        Pattern::IndImmImm8 => match spec_field32(c, addr, 1) {
            Err(f) => Err(f),
            Ok(a) => match c.read_rel(addr, 5) {
                Err(f) => Err(f),
                Ok(v) => Ok((Par::IndImm(a), Some(Par::Imm8(v)))),
            },
        },
        Pattern::IndImmImm16 => match spec_field32(c, addr, 1) {
            Err(f) => Err(f),
            Ok(a) => match spec_field16(c, addr, 5) {
                Err(f) => Err(f),
                Ok(v) => Ok((Par::IndImm(a), Some(Par::Imm16(v)))),
            },
        },
        Pattern::IndImmImm32 => match spec_field32(c, addr, 1) {
            Err(f) => Err(f),
            Ok(a) => match spec_field32(c, addr, 5) {
                Err(f) => Err(f),
                Ok(v) => Ok((Par::IndImm(a), Some(Par::Imm32(v)))),
            },
        },
        Pattern::IndImmIndImm => match spec_field32(c, addr, 1) {
            Err(f) => Err(f),
            Ok(a) => match spec_field32(c, addr, 5) {
                Err(f) => Err(f),
                Ok(a2) => Ok((Par::IndImm(a), Some(Par::IndImm(a2)))),
            },
        },
        Pattern::RegOnly => match spec_reg_byte(c, addr, 1) {
            Err(f) => Err(f),
            Ok(b) => Ok((Par::Reg(b), None)),
        },
    }
}

/// Decoding one instruction at an address, as a pure function of the bus
/// contents: the opcode byte selects the table entry, the entry's
/// pattern decodes the operand bytes, and the instruction carries the
/// pattern's fixed length.
pub open spec fn spec_decode(c: ComputerView, addr: u32) -> Result<Instr, Fault> {
    match c.read_rel(addr, 0) {
        Err(f) => Err(f),
        Ok(b) => match opcode_entry(b) {
            None => Err(Fault::IllegalInstruction),
            Some((o, p)) => match spec_decode_pars(c, addr, p) {
                Err(f) => Err(f),
                Ok(pars) => Ok(Instr { op: o, par1: pars.0, par2: pars.1, len: pattern_len(p) }),
            },
        },
    }
}

/// Whatever decodes successfully names only registers that exist and has
/// the pattern's length.
pub proof fn lemma_decode_wf(c: ComputerView, addr: u32)
    ensures
        spec_decode(c, addr) is Ok ==> instr_wf(spec_decode(c, addr)->Ok_0),
{
}

/// Look one opcode byte up in the instruction table.
pub fn opcode_lookup(b: u8) -> (r: Option<(Op, Pattern)>)
    ensures
        r == opcode_entry(b),
{
    match b {
        0x01u8 => Some((Op::Mov, Pattern::RegReg)),
        0x02u8 => Some((Op::Mov, Pattern::RegImm8)),
        0x03u8 => Some((Op::Mov, Pattern::RegImm16)),
        0x04u8 => Some((Op::Mov, Pattern::RegImm32)),
        0x05u8 => Some((Op::Movb, Pattern::RegIndReg)),
        0x06u8 => Some((Op::Movb, Pattern::RegIndImm)),
        0x07u8 => Some((Op::Movb, Pattern::IndRegReg)),
        0x08u8 => Some((Op::Movb, Pattern::IndRegIndReg)),
        0x09u8 => Some((Op::Movb, Pattern::IndRegIndImm)),
        0x0Au8 => Some((Op::Movb, Pattern::IndImmReg)),
        0x0Bu8 => Some((Op::Movb, Pattern::IndImmIndReg)),
        0x0Cu8 => Some((Op::Movb, Pattern::IndRegImm8)),
        0x0Du8 => Some((Op::Movb, Pattern::IndImmImm8)),
        0x0Eu8 => Some((Op::Movb, Pattern::IndImmIndImm)),
        0x0Fu8 => Some((Op::Movw, Pattern::RegIndReg)),
        0x10u8 => Some((Op::Movw, Pattern::RegIndImm)),
        0x11u8 => Some((Op::Movw, Pattern::IndRegReg)),
        0x12u8 => Some((Op::Movw, Pattern::IndRegIndReg)),
        0x13u8 => Some((Op::Movw, Pattern::IndRegIndImm)),
        0x14u8 => Some((Op::Movw, Pattern::IndImmReg)),
        0x15u8 => Some((Op::Movw, Pattern::IndImmIndReg)),
        0x16u8 => Some((Op::Movw, Pattern::IndRegImm16)),
        0x17u8 => Some((Op::Movw, Pattern::IndImmImm16)),
        0x18u8 => Some((Op::Movw, Pattern::IndImmIndImm)),
        0x19u8 => Some((Op::Movd, Pattern::RegIndReg)),
        0x1Au8 => Some((Op::Movd, Pattern::RegIndImm)),
        0x1Bu8 => Some((Op::Movd, Pattern::IndRegReg)),
        0x1Cu8 => Some((Op::Movd, Pattern::IndRegIndReg)),
        0x1Du8 => Some((Op::Movd, Pattern::IndRegIndImm)),
        0x1Eu8 => Some((Op::Movd, Pattern::IndImmReg)),
        0x1Fu8 => Some((Op::Movd, Pattern::IndImmIndReg)),
        0x20u8 => Some((Op::Movd, Pattern::IndRegImm32)),
        0x21u8 => Some((Op::Movd, Pattern::IndImmImm32)),
        0x22u8 => Some((Op::Movd, Pattern::IndImmIndImm)),
        0x2Du8 => Some((Op::Or, Pattern::RegReg)),
        0x2Eu8 => Some((Op::Or, Pattern::RegImm8)),
        0x2Fu8 => Some((Op::Or, Pattern::RegImm16)),
        0x30u8 => Some((Op::Or, Pattern::RegImm32)),
        0x31u8 => Some((Op::Xor, Pattern::RegReg)),
        0x32u8 => Some((Op::Xor, Pattern::RegImm8)),
        0x33u8 => Some((Op::Xor, Pattern::RegImm16)),
        0x34u8 => Some((Op::Xor, Pattern::RegImm32)),
        0x35u8 => Some((Op::And, Pattern::RegReg)),
        0x36u8 => Some((Op::And, Pattern::RegImm8)),
        0x37u8 => Some((Op::And, Pattern::RegImm16)),
        0x38u8 => Some((Op::And, Pattern::RegImm32)),
        0x39u8 => Some((Op::Shl, Pattern::RegReg)),
        0x3Au8 => Some((Op::Shl, Pattern::RegImm8)),
        0x3Bu8 => Some((Op::Shl, Pattern::RegImm16)),
        0x3Cu8 => Some((Op::Shl, Pattern::RegImm32)),
        0x3Du8 => Some((Op::Shr, Pattern::RegReg)),
        0x3Eu8 => Some((Op::Shr, Pattern::RegImm8)),
        0x3Fu8 => Some((Op::Shr, Pattern::RegImm16)),
        0x40u8 => Some((Op::Shr, Pattern::RegImm32)),
        0x41u8 => Some((Op::Not, Pattern::RegOnly)),
        _ => None,
    }
}

/// Read a 16-bit little-endian field at `base + k`.
fn field16(bus: &Computer, base: u32, k: u32) -> (r: Result<u16, Fault>)
    requires
        bus@.wf(),
        k <= 7,
    ensures
        r == spec_field16(bus@, base, k as int),
{
    let b0 = match bus.get_rel(base, k) {
        Ok(b) => b,
        Err(f) => {
            return Err(f);
        },
    };
    let b1 = match bus.get_rel(base, k + 1) {
        Ok(b) => b,
        Err(f) => {
            return Err(f);
        },
    };
    Ok(compose16(b0, b1))
}

/// Read a 32-bit little-endian field at `base + k`.
fn field32(bus: &Computer, base: u32, k: u32) -> (r: Result<u32, Fault>)
    requires
        bus@.wf(),
        k <= 7,
    ensures
        r == spec_field32(bus@, base, k as int),
{
    let b0 = match bus.get_rel(base, k) {
        Ok(b) => b,
        Err(f) => {
            return Err(f);
        },
    };
    let b1 = match bus.get_rel(base, k + 1) {
        Ok(b) => b,
        Err(f) => {
            return Err(f);
        },
    };
    let b2 = match bus.get_rel(base, k + 2) {
        Ok(b) => b,
        Err(f) => {
            return Err(f);
        },
    };
    let b3 = match bus.get_rel(base, k + 3) {
        Ok(b) => b,
        Err(f) => {
            return Err(f);
        },
    };
    Ok(compose32(b0, b1, b2, b3))
}

/// Read a single-register operand byte at `base + k`.
fn reg_byte(bus: &Computer, base: u32, k: u32) -> (r: Result<u8, Fault>)
    requires
        bus@.wf(),
        k <= 7,
    ensures
        r == spec_reg_byte(bus@, base, k as int),
{
    match bus.get_rel(base, k) {
        Ok(b) => if b < 16 {
            Ok(b)
        } else {
            Err(Fault::IllegalInstruction)
        },
        Err(f) => Err(f),
    }
}

/// Decode the operands of a pattern from the bytes after the opcode.
fn decode_pars(bus: &Computer, addr: u32, p: Pattern) -> (r: Result<(Par, Option<Par>), Fault>)
    requires
        bus@.wf(),
    ensures
        r == spec_decode_pars(bus@, addr, p),
{
    match p {
        Pattern::RegReg => match bus.get_rel(addr, 1) {
            Err(f) => Err(f),
            Ok(b) => Ok((Par::Reg(b / 16), Some(Par::Reg(b % 16)))),
        },
        Pattern::RegImm8 => match reg_byte(bus, addr, 1) {
            Err(f) => Err(f),
            Ok(b) => match bus.get_rel(addr, 2) {
                Err(f) => Err(f),
                Ok(v) => Ok((Par::Reg(b), Some(Par::Imm8(v)))),
            },
        },
        Pattern::RegImm16 => match reg_byte(bus, addr, 1) {
            Err(f) => Err(f),
            Ok(b) => match field16(bus, addr, 2) {
                Err(f) => Err(f),
                Ok(v) => Ok((Par::Reg(b), Some(Par::Imm16(v)))),
            },
        },
        Pattern::RegImm32 => match reg_byte(bus, addr, 1) {
            Err(f) => Err(f),
            Ok(b) => match field32(bus, addr, 2) {
                Err(f) => Err(f),
                Ok(v) => Ok((Par::Reg(b), Some(Par::Imm32(v)))),
            },
        },
        Pattern::RegIndReg => match bus.get_rel(addr, 1) {
            Err(f) => Err(f),
            Ok(b) => Ok((Par::Reg(b / 16), Some(Par::IndReg(b % 16)))),
        },
        Pattern::RegIndImm => match reg_byte(bus, addr, 1) {
            Err(f) => Err(f),
            Ok(b) => match field32(bus, addr, 2) {
                Err(f) => Err(f),
                Ok(a) => Ok((Par::Reg(b), Some(Par::IndImm(a)))),
            },
        },
        Pattern::IndRegReg => match bus.get_rel(addr, 1) {
            Err(f) => Err(f),
            Ok(b) => Ok((Par::IndReg(b / 16), Some(Par::Reg(b % 16)))),
        },
        Pattern::IndRegIndReg => match bus.get_rel(addr, 1) {
            Err(f) => Err(f),
            Ok(b) => Ok((Par::IndReg(b / 16), Some(Par::IndReg(b % 16)))),
        },
        Pattern::IndRegIndImm => match reg_byte(bus, addr, 1) {
            Err(f) => Err(f),
            Ok(b) => match field32(bus, addr, 2) {
                Err(f) => Err(f),
                Ok(a) => Ok((Par::IndReg(b), Some(Par::IndImm(a)))),
            },
        },
        Pattern::IndImmReg => match field32(bus, addr, 1) {
            Err(f) => Err(f),
            Ok(a) => match reg_byte(bus, addr, 5) {
                Err(f) => Err(f),
                Ok(b) => Ok((Par::IndImm(a), Some(Par::Reg(b)))),
            },
        },
        Pattern::IndImmIndReg => match field32(bus, addr, 1) {
            Err(f) => Err(f),
            Ok(a) => match reg_byte(bus, addr, 5) {
                Err(f) => Err(f),
                Ok(b) => Ok((Par::IndImm(a), Some(Par::IndReg(b)))),
            },
        },
        Pattern::IndRegImm8 => match reg_byte(bus, addr, 1) {
            Err(f) => Err(f),
            Ok(b) => match bus.get_rel(addr, 2) {
                Err(f) => Err(f),
                Ok(v) => Ok((Par::IndReg(b), Some(Par::Imm8(v)))),
            },
        },
        Pattern::IndRegImm16 => match reg_byte(bus, addr, 1) {
            Err(f) => Err(f),
            Ok(b) => match field16(bus, addr, 2) {
                Err(f) => Err(f),
                Ok(v) => Ok((Par::IndReg(b), Some(Par::Imm16(v)))),
            },
        },
        Pattern::IndRegImm32 => match reg_byte(bus, addr, 1) {
            Err(f) => Err(f),
            Ok(b) => match field32(bus, addr, 2) {
                Err(f) => Err(f),
                Ok(v) => Ok((Par::IndReg(b), Some(Par::Imm32(v)))),
            },
        },
        Pattern::IndImmImm8 => match field32(bus, addr, 1) {
            Err(f) => Err(f),
            Ok(a) => match bus.get_rel(addr, 5) {
                Err(f) => Err(f),
                Ok(v) => Ok((Par::IndImm(a), Some(Par::Imm8(v)))),
            },
        },
        Pattern::IndImmImm16 => match field32(bus, addr, 1) {
            Err(f) => Err(f),
            Ok(a) => match field16(bus, addr, 5) {
                Err(f) => Err(f),
                Ok(v) => Ok((Par::IndImm(a), Some(Par::Imm16(v)))),
            },
        },
        Pattern::IndImmImm32 => match field32(bus, addr, 1) {
            Err(f) => Err(f),
            Ok(a) => match field32(bus, addr, 5) {
                Err(f) => Err(f),
                Ok(v) => Ok((Par::IndImm(a), Some(Par::Imm32(v)))),
            },
        },
        Pattern::IndImmIndImm => match field32(bus, addr, 1) {
            Err(f) => Err(f),
            Ok(a) => match field32(bus, addr, 5) {
                Err(f) => Err(f),
                Ok(a2) => Ok((Par::IndImm(a), Some(Par::IndImm(a2)))),
            },
        },
        Pattern::RegOnly => match reg_byte(bus, addr, 1) {
            Err(f) => Err(f),
            Ok(b) => Ok((Par::Reg(b), None)),
        },
    }
}

/// Decode one instruction at an address, without executing and without
/// touching the bus. The result is exactly `spec_decode` of the bus
/// contents — a pure function of the unmodified memory region, so
/// decoding again yields the same instruction, operands and length.
pub fn decode_at(bus: &Computer, addr: u32) -> (r: Result<Instr, Fault>)
    requires
        bus@.wf(),
    ensures
        r == spec_decode(bus@, addr),
        r is Ok ==> instr_wf(r->Ok_0),
{
    proof {
        lemma_decode_wf(bus@, addr);
    }
    let b = match bus.get_rel(addr, 0) {
        Ok(b) => b,
        Err(f) => {
            return Err(f);
        },
    };
    match opcode_lookup(b) {
        None => Err(Fault::IllegalInstruction),
        Some((o, p)) => match decode_pars(bus, addr, p) {
            Err(f) => Err(f),
            Ok(pars) => Ok(Instr { op: o, par1: pars.0, par2: pars.1, len: pattern_len_of(p) }),
        },
    }
}

/// Total encoded length of a pattern, as executable code.
pub fn pattern_len_of(p: Pattern) -> (n: u32)
    ensures
        n == pattern_len(p),
{
    match p {
        Pattern::RegReg => 2,
        Pattern::RegImm8 => 3,
        Pattern::RegImm16 => 4,
        Pattern::RegImm32 => 6,
        Pattern::RegIndReg => 2,
        Pattern::RegIndImm => 6,
        Pattern::IndRegReg => 2,
        Pattern::IndRegIndReg => 2,
        Pattern::IndRegIndImm => 6,
        Pattern::IndImmReg => 6,
        Pattern::IndImmIndReg => 6,
        Pattern::IndRegImm8 => 3,
        Pattern::IndRegImm16 => 4,
        Pattern::IndRegImm32 => 6,
        Pattern::IndImmImm8 => 6,
        Pattern::IndImmImm16 => 7,
        Pattern::IndImmImm32 => 9,
        Pattern::IndImmIndImm => 9,
        Pattern::RegOnly => 2,
    }
}

} // verus!
