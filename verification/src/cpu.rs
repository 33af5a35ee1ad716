//! The processor: a 16-register file with condition flags.
//!
//! The execution engine itself (operand resolution, decode, execute) lives
//! in `exec` and `isa`; this module holds the register file and the flag
//! accessors, which external harnesses and debuggers also use.

use vstd::prelude::*;

use crate::device::{Device, DeviceView};

verus! {

/// The sixteen 32-bit register slots, in file order: twelve general
/// registers, frame pointer, stack pointer, program counter, flags.
#[derive(Clone, Copy, Debug, PartialEq, Eq, Structural)]
pub enum Register {
    A,
    B,
    C,
    D,
    E,
    F,
    G,
    H,
    I,
    J,
    K,
    L,
    FP,
    SP,
    PC,
    FL,
}

/// The condition-flag bits of the `FL` register, in bit order from bit 0:
/// carry, overflow, zero, sign, greater-than, less-than, parity (even),
/// interrupt-enable (reserved).
#[derive(Clone, Copy, Debug, PartialEq, Eq, Structural)]
pub enum Flag {
    Y,
    V,
    Z,
    S,
    GT,
    LT,
    P,
    T,
}

/// Index of a register slot in the file.
pub open spec fn register_index(r: Register) -> int {
    match r {
        Register::A => 0,
        Register::B => 1,
        Register::C => 2,
        Register::D => 3,
        Register::E => 4,
        Register::F => 5,
        Register::G => 6,
        Register::H => 7,
        Register::I => 8,
        Register::J => 9,
        Register::K => 10,
        Register::L => 11,
        Register::FP => 12,
        Register::SP => 13,
        Register::PC => 14,
        Register::FL => 15,
    }
}

/// Index of the program counter in the register file.
pub open spec fn pc_index() -> int {
    register_index(Register::PC)
}

/// Index of the flags register in the register file.
pub open spec fn fl_index() -> int {
    register_index(Register::FL)
}

/// Bit position of a flag inside the `FL` register.
pub open spec fn flag_bit(f: Flag) -> u32 {
    match f {
        Flag::Y => 0,
        Flag::V => 1,
        Flag::Z => 2,
        Flag::S => 3,
        Flag::GT => 4,
        Flag::LT => 5,
        Flag::P => 6,
        Flag::T => 7,
    }
}

/// Whether flag `f` is set in an `FL` register value.
pub open spec fn flag_set_in(fl: u32, f: Flag) -> bool {
    (fl >> flag_bit(f)) & 1 == 1
}

/// Whether flag `f` is set in a register file (given as its view).
pub open spec fn spec_flag(regs: Seq<u32>, f: Flag) -> bool {
    flag_set_in(regs[fl_index()], f)
}

/// The `FL` value after setting or clearing one flag bit.
pub open spec fn flag_update(fl: u32, f: Flag, value: bool) -> u32 {
    if value {
        fl | (1u32 << flag_bit(f))
    } else {
        fl & !(1u32 << flag_bit(f))
    }
}

/// Setting bit `b` leaves exactly the other bits alone.
proof fn lemma_or_bit(x: u32, b: u32, c: u32)
    by (bit_vector)
    requires
        b < 32,
        c < 32,
    ensures
        ((x | (1u32 << b)) >> c) & 1 == if b == c {
            1u32
        } else {
            (x >> c) & 1
        },
{
}

/// Clearing bit `b` leaves exactly the other bits alone.
proof fn lemma_mask_bit(x: u32, b: u32, c: u32)
    by (bit_vector)
    requires
        b < 32,
        c < 32,
    ensures
        ((x & !(1u32 << b)) >> c) & 1 == if b == c {
            0u32
        } else {
            (x >> c) & 1
        },
{
}

/// Distinct flags sit on distinct bits.
proof fn lemma_flag_bit_injective(f: Flag, g: Flag)
    ensures
        flag_bit(f) == flag_bit(g) ==> f == g,
{
}

/// One flag update changes that flag and no other.
pub proof fn lemma_flag_update(fl: u32, f: Flag, value: bool, g: Flag)
    ensures
        flag_set_in(flag_update(fl, f, value), g) == if g == f {
            value
        } else {
            flag_set_in(fl, g)
        },
{
    lemma_flag_bit_injective(f, g);
    if value {
        lemma_or_bit(fl, flag_bit(f), flag_bit(g));
    } else {
        lemma_mask_bit(fl, flag_bit(f), flag_bit(g));
    }
}

/// The processor: sixteen 32-bit registers, including the program counter
/// and the flags register. Its view is the sequence of register values.
#[derive(Clone, Copy, Debug)]
pub struct CPU {
    pub register: [u32; 16],
}

impl View for CPU {
    type V = Seq<u32>;

    open spec fn view(&self) -> Seq<u32> {
        self.register@
    }
}

impl CPU {
    /// A fresh processor: every register, including flags, is zero.
    pub fn new() -> (c: CPU)
        ensures
            c@.len() == 16,
            forall|i: int| 0 <= i < 16 ==> c@[i] == 0u32,
    {
        CPU { register: [0u32; 16] }
    }

    /// Index of a register slot, as executable code.
    pub fn index_of(r: Register) -> (i: usize)
        ensures
            i == register_index(r),
    {
        match r {
            Register::A => 0,
            Register::B => 1,
            Register::C => 2,
            Register::D => 3,
            Register::E => 4,
            Register::F => 5,
            Register::G => 6,
            Register::H => 7,
            Register::I => 8,
            Register::J => 9,
            Register::K => 10,
            Register::L => 11,
            Register::FP => 12,
            Register::SP => 13,
            Register::PC => 14,
            Register::FL => 15,
        }
    }

    /// Read one register.
    pub fn reg(&self, r: Register) -> (v: u32)
        ensures
            v == self@[register_index(r)],
    {
        self.register[CPU::index_of(r)]
    }

    /// Write one register, leaving the others alone.
    pub fn set_reg(&mut self, r: Register, v: u32)
        ensures
            final(self)@ == old(self)@.update(register_index(r), v),
    {
        let i = CPU::index_of(r);
        self.register[i] = v;
    }

    /// Whether a condition flag is set in the `FL` register.
    pub fn flag(&self, f: Flag) -> (b: bool)
        ensures
            b == spec_flag(self@, f),
    {
        let b = CPU::flag_bit_of(f);
        (self.register[15] >> b) & 1 == 1
    }

    /// Set or clear one condition flag, leaving every other bit of `FL`
    /// and every other register alone.
    pub fn set_flag(&mut self, f: Flag, value: bool)
        ensures
            final(self)@ == old(self)@.update(
                fl_index(),
                flag_update(old(self)@[fl_index()], f, value),
            ),
            forall|g: Flag|
                spec_flag(final(self)@, g) == if g == f {
                    value
                } else {
                    spec_flag(old(self)@, g)
                },
    {
        let b = CPU::flag_bit_of(f);
        let fl = self.register[15];
        let nfl = if value {
            fl | (1u32 << b)
        } else {
            fl & !(1u32 << b)
        };
        self.register[15] = nfl;
        proof {
            assert forall|g: Flag|
                spec_flag(final(self)@, g) == if g == f {
                    value
                } else {
                    spec_flag(old(self)@, g)
                } by {
                lemma_flag_update(fl, f, value, g);
            }
        }
    }

    /// Bit position of a flag, as executable code.
    pub fn flag_bit_of(f: Flag) -> (b: u32)
        ensures
            b == flag_bit(f),
    {
        match f {
            Flag::Y => 0,
            Flag::V => 1,
            Flag::Z => 2,
            Flag::S => 3,
            Flag::GT => 4,
            Flag::LT => 5,
            Flag::P => 6,
            Flag::T => 7,
        }
    }
}

/// The processor on the bus: it exposes no addressable bytes of its own;
/// its state is reached through the bus's processor accessors instead.
/// The capability contract therefore gives it an empty footprint, reads
/// that answer zero, and writes that leave the register file untouched.
impl Device for CPU {
    /// A processor's observable device state is its register file.
    open spec fn dev_model(&self) -> DeviceView {
        DeviceView::Cpu(self@)
    }

    /// No addressable bytes: every local read answers zero.
    fn dev_get(&self, _pos: u32) -> u8 {
        0x0
    }

    /// No addressable bytes: writes are dropped.
    fn dev_set(&mut self, _pos: u32, _data: u8) {
    }

    /// The processor occupies no address-space window.
    fn dev_size(&self) -> u32 {
        0x0
    }
}

} // verus!
