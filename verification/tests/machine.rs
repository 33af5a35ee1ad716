//! Processor behaviour: flags, decode, execution scenarios and the
//! deferred-write protocol, driven through the bus's global step.

use toyvm::computer::Computer;
use toyvm::cpu::{Flag, Register, CPU};
use toyvm::device::Command;
use toyvm::engine::Width;
use toyvm::fault::Fault;
use toyvm::isa::{decode_at, Instr, Op, Par};

/// Index of a register name in the file, for the tiny test assembler.
fn register_index(name: &str) -> u8 {
    match name {
        "A" => 0,
        "B" => 1,
        "C" => 2,
        "D" => 3,
        "E" => 4,
        "F" => 5,
        "G" => 6,
        "H" => 7,
        "I" => 8,
        "J" => 9,
        "K" => 10,
        "L" => 11,
        "FP" => 12,
        "SP" => 13,
        "PC" => 14,
        "FL" => 15,
        _ => panic!("unknown register {}", name),
    }
}

/// A tiny text assembler for test programs: only the register/8-bit
/// immediate forms the tests use. The real interface of the machine is
/// raw bytes; this is harness convenience, not part of the core.
fn add_code(computer: &mut Computer, code: &str) {
    let mut at: u32 = 0;
    for line in code.lines() {
        let line = line.trim();
        if line.is_empty() {
            continue;
        }
        let (mnemonic, rest) = line.split_once(' ').expect("operands");
        let mut ops = rest.split(',').map(|s| s.trim());
        let reg = register_index(ops.next().expect("register"));
        let imm_text = ops.next().expect("immediate");
        let imm = if let Some(hex) = imm_text.strip_prefix("0x") {
            u32::from_str_radix(hex, 16).expect("hex immediate")
        } else {
            imm_text.parse::<u32>().expect("immediate")
        };
        assert!(imm <= 0xFF, "only 8-bit immediates are assembled here");
        let opcode = match mnemonic {
            "mov" => 0x02,
            "add" => 0x43,
            _ => panic!("unknown mnemonic {}", mnemonic),
        };
        computer.set(at, opcode).unwrap();
        computer.set(at + 1, reg).unwrap();
        computer.set(at + 2, imm as u8).unwrap();
        at += 3;
    }
}

fn prepare_cpu<F>(preparation: F, code: &str) -> Computer
where
    F: Fn(&mut Computer),
{
    let mut computer = Computer::new(64 * 1024);
    computer.set_cpu(CPU::new(), 0xF000_1000).unwrap();
    preparation(&mut computer);
    add_code(&mut computer, code);
    computer
}

/// A machine with the given program image at address zero.
fn prepare_bytes(program: &[u8]) -> Computer {
    let mut computer = Computer::new(64 * 1024);
    computer.set_cpu(CPU::new(), 0xF000_1000).unwrap();
    for (i, b) in program.iter().enumerate() {
        computer.set(i as u32, *b).unwrap();
    }
    computer
}

#[test]
fn flags() {
    let mut cpu = CPU::new();
    assert_eq!(cpu.flag(Flag::GT), false);
    cpu.set_flag(Flag::GT, true);
    assert_eq!(cpu.flag(Flag::GT), true);
}

#[test]
fn parser() {
    let computer = prepare_cpu(|_| (), "add B, 0xBF");
    assert_eq!(computer.get(0x0).unwrap(), 0x43);
    assert_eq!(computer.get(0x1).unwrap(), 0x01);
    assert_eq!(computer.get(0x2).unwrap(), 0xBF);
}

#[test]
fn mov_reg_reg() {
    // mov B, C — register pair byte (B << 4) | C.
    let mut computer = prepare_bytes(&[0x01, 0x12, 0x00]);
    let mut state = computer.cpu_state();
    state.set_reg(Register::C, 0x42);
    computer.set_cpu_state(state);
    computer.step(0).unwrap();
    let state = computer.cpu_state();
    assert_eq!(state.reg(Register::B), 0x42);
    assert_eq!(state.reg(Register::PC), 2);
}

#[test]
fn mov_zero_sets_flags() {
    // mov A, 0
    let mut computer = prepare_bytes(&[0x02, 0x00, 0x00]);
    computer.step(0).unwrap();
    let state = computer.cpu_state();
    assert_eq!(state.reg(Register::A), 0);
    assert_eq!(state.flag(Flag::Z), true);
    assert_eq!(state.flag(Flag::P), true);
    assert_eq!(state.flag(Flag::S), false);
}

#[test]
fn mov_high_bit_sets_sign() {
    // mov A, 0xF0000001
    let mut computer = prepare_bytes(&[0x04, 0x00, 0x01, 0x00, 0x00, 0xF0]);
    computer.step(0).unwrap();
    let state = computer.cpu_state();
    assert_eq!(state.reg(Register::A), 0xF000_0001);
    assert_eq!(state.flag(Flag::Z), false);
    assert_eq!(state.flag(Flag::P), false);
    assert_eq!(state.flag(Flag::S), true);
}

#[test]
fn movb_indirect_two_phase() {
    // movb [A], [B] with A = 0x32, B = 0x64, mem[0x64] = 0xFF: the byte
    // becomes visible at 0x32 only once the step has completed.
    let mut computer = prepare_bytes(&[0x08, 0x01]);
    let mut state = computer.cpu_state();
    state.set_reg(Register::A, 0x32);
    state.set_reg(Register::B, 0x64);
    computer.set_cpu_state(state);
    computer.set(0x64, 0xFF).unwrap();
    assert_eq!(computer.get(0x32).unwrap(), 0x00);
    computer.step(0).unwrap();
    assert_eq!(computer.get(0x32).unwrap(), 0xFF);
    assert_eq!(computer.cpu_state().reg(Register::PC), 2);
}

#[test]
fn movb_reads_byte_width_flags() {
    // movb A, [B] with mem[B] = 0xFF: the byte is zero-extended into A
    // and the sign flag follows bit 7, the byte width's high bit.
    let mut computer = prepare_bytes(&[0x05, 0x01]);
    let mut state = computer.cpu_state();
    state.set_reg(Register::B, 0x64);
    computer.set_cpu_state(state);
    computer.set(0x64, 0xFF).unwrap();
    computer.step(0).unwrap();
    let state = computer.cpu_state();
    assert_eq!(state.reg(Register::A), 0xFF);
    assert_eq!(state.flag(Flag::S), true);
    assert_eq!(state.flag(Flag::Z), false);
    assert_eq!(state.flag(Flag::P), false);
}

#[test]
fn decode_idempotent() {
    let computer = prepare_bytes(&[0x04, 0x02, 0x78, 0x56, 0x34, 0x12]);
    let first = decode_at(&computer, 0);
    let second = decode_at(&computer, 0);
    assert_eq!(first, second);
}

#[test]
fn decode_exact_instruction() {
    let computer = prepare_bytes(&[0x04, 0x02, 0x78, 0x56, 0x34, 0x12]);
    let instr = decode_at(&computer, 0).unwrap();
    assert_eq!(
        instr,
        Instr { op: Op::Mov, par1: Par::Reg(2), par2: Some(Par::Imm32(0x1234_5678)), len: 6 }
    );
}

#[test]
fn decode_bad_register_byte() {
    // A single-register operand byte that names no register.
    let computer = prepare_bytes(&[0x02, 0x10, 0x05]);
    assert_eq!(decode_at(&computer, 0), Err(Fault::IllegalInstruction));
}

#[test]
fn illegal_instruction_fault() {
    // Opcode 0x00 has no table entry; the step fails and the machine is
    // left exactly as it was.
    let mut computer = prepare_bytes(&[0x00, 0x00]);
    assert_eq!(computer.step(0), Err(Fault::IllegalInstruction));
    assert_eq!(computer.cpu_state().reg(Register::PC), 0);
}

#[test]
fn invalid_destination_fault() {
    let mut cpu = CPU::new();
    let mut cmds: Vec<Command> = Vec::new();
    assert_eq!(
        cpu.write_par(Par::Imm8(5), Width::D, 1, &mut cmds),
        Err(Fault::InvalidDestination)
    );
    assert_eq!(cmds.len(), 0);
}

#[test]
fn write_par_queues_deferred_command() {
    let mut cpu = CPU::new();
    cpu.set_reg(Register::A, 0x32);
    let mut cmds: Vec<Command> = Vec::new();
    cpu.write_par(Par::IndReg(0), Width::B, 0xFF, &mut cmds).unwrap();
    assert_eq!(cmds, vec![Command::WriteByte(0x32, 0xFF)]);
}

#[test]
fn xor_self_clears() {
    // mov A, 5; xor A, A
    let mut computer = prepare_bytes(&[0x02, 0x00, 0x05, 0x31, 0x00]);
    computer.step(0).unwrap();
    computer.step(0).unwrap();
    let state = computer.cpu_state();
    assert_eq!(state.reg(Register::A), 0);
    assert_eq!(state.flag(Flag::Z), true);
    assert_eq!(state.flag(Flag::P), true);
    assert_eq!(state.reg(Register::PC), 5);
}

#[test]
fn or_combines() {
    // mov A, 0xF0; mov B, 0x0F; or A, B
    let mut computer = prepare_bytes(&[0x02, 0x00, 0xF0, 0x02, 0x01, 0x0F, 0x2D, 0x01]);
    computer.step(0).unwrap();
    computer.step(0).unwrap();
    computer.step(0).unwrap();
    assert_eq!(computer.cpu_state().reg(Register::A), 0xFF);
}

#[test]
fn and_masks() {
    // mov A, 0xF0; mov B, 0x3C; and A, B
    let mut computer = prepare_bytes(&[0x02, 0x00, 0xF0, 0x02, 0x01, 0x3C, 0x35, 0x01]);
    computer.step(0).unwrap();
    computer.step(0).unwrap();
    computer.step(0).unwrap();
    assert_eq!(computer.cpu_state().reg(Register::A), 0x30);
}

#[test]
fn shl_shifts() {
    // mov A, 1; mov B, 4; shl A, B
    let mut computer = prepare_bytes(&[0x02, 0x00, 0x01, 0x02, 0x01, 0x04, 0x39, 0x01]);
    computer.step(0).unwrap();
    computer.step(0).unwrap();
    computer.step(0).unwrap();
    assert_eq!(computer.cpu_state().reg(Register::A), 16);
}

#[test]
fn shl_overlong_shift_empties() {
    // mov A, 1; mov B, 40; shl A, B — shifting by 32 or more empties.
    let mut computer = prepare_bytes(&[0x02, 0x00, 0x01, 0x02, 0x01, 0x28, 0x39, 0x01]);
    computer.step(0).unwrap();
    computer.step(0).unwrap();
    computer.step(0).unwrap();
    let state = computer.cpu_state();
    assert_eq!(state.reg(Register::A), 0);
    assert_eq!(state.flag(Flag::Z), true);
}

#[test]
fn shr_shifts() {
    // mov A, 0x80; mov B, 3; shr A, B
    let mut computer = prepare_bytes(&[0x02, 0x00, 0x80, 0x02, 0x01, 0x03, 0x3D, 0x01]);
    computer.step(0).unwrap();
    computer.step(0).unwrap();
    computer.step(0).unwrap();
    assert_eq!(computer.cpu_state().reg(Register::A), 0x10);
}

#[test]
fn not_complements() {
    // not A with A = 0
    let mut computer = prepare_bytes(&[0x41, 0x00]);
    computer.step(0).unwrap();
    let state = computer.cpu_state();
    assert_eq!(state.reg(Register::A), 0xFFFF_FFFF);
    assert_eq!(state.flag(Flag::S), true);
    assert_eq!(state.flag(Flag::Z), false);
    assert_eq!(state.flag(Flag::P), false);
}

#[test]
fn movw_indirect_word() {
    // mov A, 0x200; mov B, 0x12345678; movw [A], B — only the low word
    // is written, little-endian.
    let mut computer = prepare_bytes(&[
        0x03, 0x00, 0x00, 0x02, 0x04, 0x01, 0x78, 0x56, 0x34, 0x12, 0x11, 0x01,
    ]);
    computer.step(0).unwrap();
    computer.step(0).unwrap();
    computer.step(0).unwrap();
    assert_eq!(computer.get16(0x200).unwrap(), 0x5678);
    assert_eq!(computer.get(0x202).unwrap(), 0x00);
}

#[test]
fn pc_advances_after_pc_write() {
    // mov PC, 0x100 writes the program counter through the ordinary
    // write path; the length is then added to the written value.
    let mut computer = prepare_bytes(&[0x03, 0x0E, 0x00, 0x01]);
    computer.step(0).unwrap();
    assert_eq!(computer.cpu_state().reg(Register::PC), 0x104);
}

#[test]
fn reserved_flag_survives_writes() {
    // The reserved interrupt-enable flag is neither recomputed nor
    // cleared by a write-back.
    let mut computer = prepare_bytes(&[0x02, 0x00, 0x05]);
    let mut state = computer.cpu_state();
    state.set_flag(Flag::T, true);
    computer.set_cpu_state(state);
    computer.step(0).unwrap();
    let state = computer.cpu_state();
    assert_eq!(state.reg(Register::A), 5);
    assert_eq!(state.flag(Flag::T), true);
    assert_eq!(state.flag(Flag::Y), false);
    assert_eq!(state.flag(Flag::V), false);
}

#[test]
fn deferred_write_out_of_range() {
    // movb [A], 5 with A aimed between the offset register and the
    // device region: polling succeeds, applying the queued write faults,
    // and the register file keeps the completed instruction.
    let mut computer = prepare_bytes(&[0x0C, 0x00, 0x05]);
    let mut state = computer.cpu_state();
    state.set_reg(Register::A, 0xF000_0004);
    computer.set_cpu_state(state);
    assert_eq!(computer.step(0), Err(Fault::OutOfRangeAccess));
    assert_eq!(computer.cpu_state().reg(Register::PC), 3);
}
