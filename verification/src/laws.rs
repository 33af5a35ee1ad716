//! Laws of the bus and the decoder, stated over the specification model
//! and proved once and for all. Each law speaks through the same spec
//! functions that the executable entry points are proved equal to, so it
//! carries over to the running code directly.

use vstd::prelude::*;

use crate::computer::{
    covers, lemma_route_is, ComputerView, MappedDeviceView,
    DEVICE_REGION_START, PHYSICAL_MEMORY_LIMIT,
};
use crate::cpu::{fl_index, pc_index, register_index, spec_flag, Flag, Register};
use crate::device::{dev_read_spec, dev_size_spec, dev_wf, Command, DeviceView};
use crate::engine::{
    flags_for, lemma_flags_of_write, opt_cmd_seq, poll_one, spec_apply, spec_apply_one,
    spec_cpu_step, spec_poll_upto, spec_step, Width,
};
use crate::fault::Fault;
use crate::isa::{spec_decode, Instr};
use crate::lebytes::{
    lemma_bytes_of_le32, lemma_le32_of_bytes, u32_byte, u32_with_byte,
};

verus! {

/// A RAM byte write is read back unchanged: for any address below
/// `PHYSICAL_MEMORY_LIMIT` whose shifted cell exists, writing a byte and
/// reading the same address yields that byte — under any prior offset
/// value, since the offset shifts the write and the read alike.
pub proof fn lemma_ram_round_trip(c: ComputerView, a: u32, v: u8)
    requires
        c.wf(),
        a < PHYSICAL_MEMORY_LIMIT,
        a + c.offset < c.mem.len(),
    ensures
        c.write_byte(a, v) is Ok,
        (c.write_byte(a, v)->Ok_0).read_byte(a) == Ok::<u8, Fault>(v),
{
}

/// The offset register round-trips: writing a 32-bit value over its four
/// byte cells replaces the offset with exactly that value, and reading
/// the four cells back composes exactly that value — independent of the
/// RAM offset that was in effect before, and touching nothing else.
pub proof fn lemma_offset_round_trip(c: ComputerView, x: u32)
    requires
        c.wf(),
    ensures
        ({
            let pr = c.write32(PHYSICAL_MEMORY_LIMIT, x);
            &&& pr.0 == Ok::<(), Fault>(())
            &&& pr.1 == (ComputerView { offset: x, ..c })
            &&& pr.1.read32(PHYSICAL_MEMORY_LIMIT) == Ok::<u32, Fault>(x)
        }),
{
    let x0 = u32_byte(x, 0);
    let x1 = u32_byte(x, 1);
    let x2 = u32_byte(x, 2);
    let x3 = u32_byte(x, 3);
    let o1 = u32_with_byte(c.offset, 0, x0);
    lemma_bytes_of_le32(
        x0,
        u32_byte(c.offset, 1),
        u32_byte(c.offset, 2),
        u32_byte(c.offset, 3),
    );
    let o2 = u32_with_byte(o1, 1, x1);
    lemma_bytes_of_le32(u32_byte(o1, 0), x1, u32_byte(o1, 2), u32_byte(o1, 3));
    let o3 = u32_with_byte(o2, 2, x2);
    lemma_bytes_of_le32(u32_byte(o2, 0), u32_byte(o2, 1), x2, u32_byte(o2, 3));
    let o4 = u32_with_byte(o3, 3, x3);
    lemma_bytes_of_le32(u32_byte(o3, 0), u32_byte(o3, 1), u32_byte(o3, 2), x3);
    assert(u32_byte(o4, 0) == x0 && u32_byte(o4, 1) == x1 && u32_byte(o4, 2) == x2 && u32_byte(
        o4,
        3,
    ) == x3);
    lemma_le32_of_bytes(x);
    lemma_le32_of_bytes(o4);
    assert(o4 == x);
    let pr = c.write32(PHYSICAL_MEMORY_LIMIT, x);
    assert(pr.1 =~= (ComputerView { offset: x, ..c }));
}

/// The 32-bit composite accessor is little-endian and self-inverse over
/// RAM: writing `x` at `a` and reading 32 bits back yields `x`, and the
/// byte at `a` alone is the least-significant byte of `x`.
pub proof fn lemma_composite_round_trip(c: ComputerView, a: u32, x: u32)
    requires
        c.wf(),
        a as int + 3 < PHYSICAL_MEMORY_LIMIT,
        a + c.offset + 3 < c.mem.len(),
    ensures
        ({
            let pr = c.write32(a, x);
            &&& pr.0 == Ok::<(), Fault>(())
            &&& pr.1.read32(a) == Ok::<u32, Fault>(x)
            &&& pr.1.read_byte(a) == Ok::<u8, Fault>((x % 0x100) as u8)
        }),
{
    lemma_le32_of_bytes(x);
}

/// Device mapping routes reads into the device: after registering a
/// device with window `[base, base + size)`, reading `base + k` for
/// `k < size` answers the device's own byte at `k` — provided no earlier
/// device's window already covers that address, since the first match in
/// registration order wins.
pub proof fn lemma_device_mapping(c: ComputerView, d: DeviceView, base: u32, k: u32)
    requires
        c.wf(),
        dev_wf(d),
        base >= DEVICE_REGION_START,
        base as int + dev_size_spec(d) <= 0xFFFF_FFFF,
        (k as int) < dev_size_spec(d),
        forall|j: int|
            0 <= j < c.devices.len() ==> !covers(#[trigger] c.devices[j], (base + k) as u32),
    ensures
        ({
            let c2 = ComputerView {
                devices: c.devices.push(
                    MappedDeviceView {
                        mapping: Some((base, dev_size_spec(d) as u32)),
                        dev: d,
                    },
                ),
                ..c
            };
            c2.read_byte((base + k) as u32) == Ok::<u8, Fault>(dev_read_spec(d, k as int))
        }),
{
    let addr = (base + k) as u32;
    let entry = MappedDeviceView { mapping: Some((base, dev_size_spec(d) as u32)), dev: d };
    let c2 = ComputerView { devices: c.devices.push(entry), ..c };
    assert(covers(entry, addr));
    assert forall|j: int| 0 <= j < c.devices.len() implies !covers(
        #[trigger] c2.devices[j],
        addr,
    ) by {
        assert(c2.devices[j] == c.devices[j]);
    }
    lemma_route_is(c2.devices, addr, c.devices.len() as int);
}

/// A bus whose device table holds exactly one device: an installed
/// processor.
pub open spec fn single_cpu_bus(c: ComputerView) -> bool {
    &&& c.devices.len() == 1
    &&& c.devices[0].dev is Cpu
    &&& c.cpu_index == Some(0int)
}

/// The bus the global step leaves when its one device is a processor
/// whose step produced register file `regs2`, before the queued commands
/// are applied.
pub open spec fn with_cpu_regs(c: ComputerView, regs2: Seq<u32>) -> ComputerView {
    ComputerView {
        devices: seq![
            MappedDeviceView { mapping: c.devices[0].mapping, dev: DeviceView::Cpu(regs2) },
        ],
        ..c
    }
}

/// On a single-processor bus the global step is exactly: one processor
/// step against the start-of-step state, then the queued command (if
/// any) applied to the bus holding the new register file. A processor
/// fault leaves the bus exactly as it was.
proof fn lemma_single_cpu_step(c: ComputerView)
    requires
        c.wf(),
        single_cpu_bus(c),
    ensures
        match spec_cpu_step(c.cpu_regs(), c) {
            Err(f) => spec_step(c) == (Err::<(), Fault>(f), c),
            Ok(pr) => spec_step(c) == spec_apply(with_cpu_regs(c, pr.0), opt_cmd_seq(pr.1), 0),
        },
{
    assert(spec_poll_upto(c, 0) == Ok::<(Seq<MappedDeviceView>, Seq<Command>), Fault>(
        (Seq::empty(), Seq::empty()),
    ));
    match spec_cpu_step(c.cpu_regs(), c) {
        Err(f) => {
            assert(poll_one(c, 0) == Err::<(MappedDeviceView, Seq<Command>), Fault>(f));
            assert(spec_poll_upto(c, 1) == Err::<(Seq<MappedDeviceView>, Seq<Command>), Fault>(f));
        },
        Ok(pr) => {
            let entry = MappedDeviceView {
                mapping: c.devices[0].mapping,
                dev: DeviceView::Cpu(pr.0),
            };
            assert(poll_one(c, 0) == Ok::<(MappedDeviceView, Seq<Command>), Fault>(
                (entry, opt_cmd_seq(pr.1)),
            ));
            let polled = spec_poll_upto(c, 1)->Ok_0;
            assert(polled.0 =~= seq![entry]);
            assert(polled.1 =~= opt_cmd_seq(pr.1));
            assert((ComputerView {
                mem: c.mem,
                offset: c.offset,
                devices: polled.0,
                cpu_index: c.cpu_index,
            }) =~= with_cpu_regs(c, pr.0));
        },
    }
}

/// The register-move scenario, in general: on a single-processor bus
/// whose program counter addresses the bytes of `mov B, C` (opcode
/// `0x01`, pair byte `0x12`), one global step copies C into B, leaves C
/// itself alone, advances the program counter by the instruction's two
/// bytes, recomputes zero, parity and sign from the copied value, and
/// queues nothing — memory and the offset are untouched.
pub proof fn lemma_mov_reg_reg_step(c: ComputerView)
    requires
        c.wf(),
        single_cpu_bus(c),
        c.read_rel(c.cpu_regs()[pc_index()], 0) == Ok::<u8, Fault>(0x01),
        c.read_rel(c.cpu_regs()[pc_index()], 1) == Ok::<u8, Fault>(0x12),
    ensures
        ({
            let regs = c.cpu_regs();
            let v = regs[register_index(Register::C)];
            let r = spec_step(c);
            &&& r.0 == Ok::<(), Fault>(())
            &&& r.1.mem == c.mem
            &&& r.1.offset == c.offset
            &&& r.1.cpu_regs()[register_index(Register::B)] == v
            &&& r.1.cpu_regs()[register_index(Register::C)] == v
            &&& r.1.cpu_regs()[pc_index()] == ((regs[pc_index()] + 2) % 0x1_0000_0000) as u32
            &&& spec_flag(r.1.cpu_regs(), Flag::Z) == (v == 0u32)
            &&& spec_flag(r.1.cpu_regs(), Flag::P) == (v % 2 == 0)
            &&& spec_flag(r.1.cpu_regs(), Flag::S) == (v >= 0x8000_0000)
        }),
{
    reveal(spec_cpu_step);
    lemma_single_cpu_step(c);
    let regs = c.cpu_regs();
    let pc = regs[pc_index()];
    let v = regs[register_index(Register::C)];
    assert(spec_decode(c, pc) == Ok::<Instr, Fault>(
        Instr { op: crate::isa::Op::Mov, par1: crate::isa::Par::Reg(1), par2: Some(
            crate::isa::Par::Reg(2),
        ), len: 2 },
    ));
    let regs1 = regs.update(fl_index(), flags_for(regs[fl_index()], Width::D, v)).update(1, v);
    let regs3 = regs1.update(pc_index(), ((regs1[pc_index()] + 2) % 0x1_0000_0000) as u32);
    assert(spec_cpu_step(regs, c) == Ok::<(Seq<u32>, Option<Command>), Fault>((regs3, None)));
    lemma_flags_of_write(regs[fl_index()], Width::D, v);
}

/// The deferred byte-move scenario, in general: on a single-processor
/// bus whose program counter addresses the bytes of `movb [A], [B]`
/// (opcode `0x08`, pair byte `0x01`), with register A aimed at a RAM
/// cell and the 32-bit source read at register B's address succeeding,
/// one global step leaves exactly the start-of-step bus with the source's
/// low byte written at A's cell and the processor's flags and program
/// counter advanced. The processor polled the start-of-step state — the
/// queued byte write lands only after polling — so reading A's address
/// yields the old byte in the start state and the source byte in the
/// final state.
/// Applying one queued byte write that lands in RAM: exactly that cell
/// changes.
proof fn lemma_apply_byte_ram(c1: ComputerView, dst: u32, b: u8)
    requires
        dst < PHYSICAL_MEMORY_LIMIT,
        dst + c1.offset < c1.mem.len(),
    ensures
        spec_apply_one(c1, Command::WriteByte(dst, b)) == (
            Ok::<(), Fault>(()),
            ComputerView { mem: c1.mem.update(dst + c1.offset, b), ..c1 },
        ),
{
    reveal(spec_apply_one);
}

/// One processor step of `movb [A], [B]`: flags from the source's low
/// byte, the program counter advanced by two, and the byte write queued
/// at A's address.
proof fn lemma_movb_cpu_step(c: ComputerView)
    requires
        c.wf(),
        single_cpu_bus(c),
        c.read_rel(c.cpu_regs()[pc_index()], 0) == Ok::<u8, Fault>(0x08),
        c.read_rel(c.cpu_regs()[pc_index()], 1) == Ok::<u8, Fault>(0x01),
        c.read32(c.cpu_regs()[register_index(Register::B)]) is Ok,
    ensures
        ({
            let regs = c.cpu_regs();
            let v8 = c.read32(regs[register_index(Register::B)])->Ok_0 % 0x100;
            let regs3 = regs.update(fl_index(), flags_for(regs[fl_index()], Width::B, v8)).update(
                pc_index(),
                ((regs[pc_index()] + 2) % 0x1_0000_0000) as u32,
            );
            spec_cpu_step(regs, c) == Ok::<(Seq<u32>, Option<Command>), Fault>(
                (regs3, Some(Command::WriteByte(regs[register_index(Register::A)], v8 as u8))),
            )
        }),
{
    reveal(spec_cpu_step);
    let regs = c.cpu_regs();
    let pc = regs[pc_index()];
    let dst = regs[register_index(Register::A)];
    let src = c.read32(regs[register_index(Register::B)])->Ok_0;
    let v8 = src % 0x100;
    assert(spec_decode(c, pc) == Ok::<Instr, Fault>(
        Instr { op: crate::isa::Op::Movb, par1: crate::isa::Par::IndReg(0), par2: Some(
            crate::isa::Par::IndReg(1),
        ), len: 2 },
    ));
    let regs1 = regs.update(fl_index(), flags_for(regs[fl_index()], Width::B, v8));
    assert(regs1[register_index(Register::A)] == dst);
    assert(regs1[pc_index()] == pc);
}

pub proof fn lemma_movb_indirect_step(c: ComputerView)
    requires
        c.wf(),
        single_cpu_bus(c),
        c.read_rel(c.cpu_regs()[pc_index()], 0) == Ok::<u8, Fault>(0x08),
        c.read_rel(c.cpu_regs()[pc_index()], 1) == Ok::<u8, Fault>(0x01),
        c.read32(c.cpu_regs()[register_index(Register::B)]) is Ok,
        c.cpu_regs()[register_index(Register::A)] < PHYSICAL_MEMORY_LIMIT,
        c.cpu_regs()[register_index(Register::A)] + c.offset < c.mem.len(),
    ensures
        ({
            let regs = c.cpu_regs();
            let dst = regs[register_index(Register::A)];
            let v8 = c.read32(regs[register_index(Register::B)])->Ok_0 % 0x100;
            let regs3 = regs.update(fl_index(), flags_for(regs[fl_index()], Width::B, v8)).update(
                pc_index(),
                ((regs[pc_index()] + 2) % 0x1_0000_0000) as u32,
            );
            let r = spec_step(c);
            &&& r.0 == Ok::<(), Fault>(())
            &&& r.1 == (ComputerView {
                mem: c.mem.update(dst + c.offset, v8 as u8),
                ..with_cpu_regs(c, regs3)
            })
            &&& r.1.read_byte(dst) == Ok::<u8, Fault>(v8 as u8)
        }),
{
    lemma_single_cpu_step(c);
    lemma_movb_cpu_step(c);
    let regs = c.cpu_regs();
    let dst = regs[register_index(Register::A)];
    let src = c.read32(regs[register_index(Register::B)])->Ok_0;
    let v8 = src % 0x100;
    let regs3 = regs.update(fl_index(), flags_for(regs[fl_index()], Width::B, v8)).update(
        pc_index(),
        ((regs[pc_index()] + 2) % 0x1_0000_0000) as u32,
    );
    let cmd = Command::WriteByte(dst, v8 as u8);
    let c1 = with_cpu_regs(c, regs3);
    assert(opt_cmd_seq(Some(cmd)) =~= seq![cmd]);
    lemma_apply_byte_ram(c1, dst, v8 as u8);
    let c2 = ComputerView { mem: c1.mem.update(dst + c1.offset, v8 as u8), ..c1 };
    reveal_with_fuel(spec_apply, 3);
    assert(spec_step(c) == (Ok::<(), Fault>(()), c2));
    assert(c2 =~= (ComputerView { mem: c.mem.update(dst + c.offset, v8 as u8), ..c1 }));
    assert(regs3 =~= regs.update(fl_index(), flags_for(regs[fl_index()], Width::B, v8)).update(
        pc_index(),
        ((regs[pc_index()] + 2) % 0x1_0000_0000) as u32,
    ));
}

/// Decoding is idempotent: it is a pure function of the bus contents, so
/// on the same unmodified memory region any two decodes yield the same
/// instruction, operands and length. `decode_at` ensures its result
/// equals `spec_decode` of the bus, so two calls on an unchanged bus
/// agree.
pub proof fn lemma_decode_idempotent(
    c: ComputerView,
    addr: u32,
    r1: Result<Instr, Fault>,
    r2: Result<Instr, Fault>,
)
    requires
        r1 == spec_decode(c, addr),
        r2 == spec_decode(c, addr),
    ensures
        r1 == r2,
{
}

} // verus!
