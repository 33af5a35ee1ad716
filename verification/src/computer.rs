//! The memory bus: flat physical memory, the bank-switch offset register,
//! and the ordered device mapping table.
//!
//! Every byte access is routed by address range: below
//! `PHYSICAL_MEMORY_LIMIT` into physical memory (shifted by the current
//! offset), the four cells at the limit into the offset register
//! (little-endian), and addresses from `DEVICE_REGION_START` up to the
//! first device, in registration order, whose window covers them.
//! The whole routing is captured by the `ComputerView` spec model, and
//! every executable entry point is proved equal to it.

use vstd::prelude::*;

use crate::cpu::CPU;
use crate::device::{
    dev_read_spec, dev_size_spec, dev_wf, dev_write_spec, DeviceKind, DeviceView,
};
use crate::fault::Fault;
use crate::lebytes::{
    compose16, compose32, extract_byte, le16, le32, replace_byte, u32_byte, u32_with_byte,
};

verus! {

/// Addresses below this limit index physical RAM (after adding the
/// offset); the offset register sits in the four cells at the limit.
pub const PHYSICAL_MEMORY_LIMIT: u32 = 0xF000_0000;

/// Lowest address a device window may start at.
pub const DEVICE_REGION_START: u32 = 0xF000_0100;

/// One entry of the device mapping table: the device, and its window
/// `[base, base + size)` if it is address-mapped at all. Unmapped devices
/// are stepped but never address-routed.
#[derive(Debug)]
pub struct MappedDevice {
    /// The mapped window as `(base, size)`, or `None` for unmapped.
    pub mapping: Option<(u32, u32)>,
    /// The device itself, owned by the bus.
    pub dev: DeviceKind,
}

/// Specification-level image of one mapping table entry.
#[verifier::ext_equal]
pub struct MappedDeviceView {
    /// The mapped window as `(base, size)`, or `None` for unmapped.
    pub mapping: Option<(u32, u32)>,
    /// The device contents.
    pub dev: DeviceView,
}

impl View for MappedDevice {
    type V = MappedDeviceView;

    open spec fn view(&self) -> MappedDeviceView {
        MappedDeviceView { mapping: self.mapping, dev: self.dev@ }
    }
}

/// A mapping entry is well formed when its device is, and any window
/// starts in the device region, matches the device's footprint, and fits
/// the 32-bit address space.
pub open spec fn entry_wf(e: MappedDeviceView) -> bool {
    &&& dev_wf(e.dev)
    &&& match e.mapping {
        Some((base, size)) => {
            &&& base >= DEVICE_REGION_START
            &&& size as int == dev_size_spec(e.dev)
            &&& base as int + size as int <= 0x1_0000_0000
        },
        None => true,
    }
}

/// Whether an entry's window covers an absolute address.
pub open spec fn covers(e: MappedDeviceView, addr: u32) -> bool {
    match e.mapping {
        Some((base, size)) => base <= addr && (addr as int - base as int) < size as int,
        None => false,
    }
}

/// The device-local address of an absolute address within an entry's
/// window.
pub open spec fn local_of(e: MappedDeviceView, addr: u32) -> int {
    match e.mapping {
        Some((base, _size)) => addr as int - base as int,
        None => 0,
    }
}

/// Index of the first entry, in registration order, whose window covers
/// the address — first match wins when windows overlap.
pub open spec fn route(devs: Seq<MappedDeviceView>, addr: u32) -> Option<int>
    decreases devs.len(),
{
    if devs.len() <= 0 {
        None
    } else if covers(devs[0], addr) {
        Some(0int)
    } else {
        match route(devs.drop_first(), addr) {
            Some(i) => Some(i + 1),
            None => None,
        }
    }
}

/// What a successful route means: the chosen entry covers the address and
/// no earlier entry does; a failed route means no entry covers it.
pub proof fn lemma_route(devs: Seq<MappedDeviceView>, addr: u32)
    ensures
        match route(devs, addr) {
            Some(i) => 0 <= i < devs.len() && covers(devs[i], addr) && forall|j: int|
                0 <= j < i ==> !covers(devs[j], addr),
            None => forall|j: int| 0 <= j < devs.len() ==> !covers(devs[j], addr),
        },
    decreases devs.len(),
{
    if devs.len() > 0 && !covers(devs[0], addr) {
        let sub = devs.drop_first();
        lemma_route(sub, addr);
        match route(sub, addr) {
            Some(i) => {
                assert(covers(devs[i + 1], addr));
                assert forall|j: int| 0 <= j < i + 1 implies !covers(devs[j], addr) by {
                    if j > 0 {
                        assert(devs[j] == sub[j - 1]);
                    }
                }
            },
            None => {
                assert forall|j: int| 0 <= j < devs.len() implies !covers(devs[j], addr) by {
                    if j > 0 {
                        assert(devs[j] == sub[j - 1]);
                    }
                }
            },
        }
    }
}

/// Routing finds exactly the first covering entry.
pub proof fn lemma_route_is(devs: Seq<MappedDeviceView>, addr: u32, i: int)
    requires
        0 <= i < devs.len(),
        covers(devs[i], addr),
        forall|j: int| 0 <= j < i ==> !covers(devs[j], addr),
    ensures
        route(devs, addr) == Some(i),
    decreases i,
{
    if i > 0 {
        lemma_route_is(devs.drop_first(), addr, i - 1);
    }
}

/// Routing fails exactly when no entry covers the address.
pub proof fn lemma_route_none(devs: Seq<MappedDeviceView>, addr: u32)
    requires
        forall|j: int| 0 <= j < devs.len() ==> !covers(devs[j], addr),
    ensures
        route(devs, addr) is None,
    decreases devs.len(),
{
    if devs.len() > 0 {
        lemma_route_none(devs.drop_first(), addr);
    }
}

/// Specification-level image of the whole bus.
#[verifier::ext_equal]
pub struct ComputerView {
    /// Physical memory contents.
    pub mem: Seq<u8>,
    /// The bank-switch offset register.
    pub offset: u32,
    /// The device mapping table, in registration order.
    pub devices: Seq<MappedDeviceView>,
    /// Index of the installed processor in the table, if one is.
    pub cpu_index: Option<int>,
}

impl ComputerView {
    /// Every table entry is well formed and the processor handle, if any,
    /// points at a processor entry.
    pub open spec fn wf(self) -> bool {
        &&& forall|i: int| 0 <= i < self.devices.len() ==> entry_wf(#[trigger] self.devices[i])
        &&& match self.cpu_index {
            Some(i) => 0 <= i < self.devices.len() && self.devices[i].dev is Cpu,
            None => true,
        }
    }

    /// Whether a processor has been installed.
    pub open spec fn has_cpu(self) -> bool {
        self.cpu_index is Some
    }

    /// Index of the installed processor in the mapping table.
    pub open spec fn cpu_i(self) -> int {
        match self.cpu_index {
            Some(i) => i,
            None => 0,
        }
    }

    /// Register file of the installed processor.
    pub open spec fn cpu_regs(self) -> Seq<u32> {
        match self.devices[self.cpu_i()].dev {
            DeviceView::Cpu(regs) => regs,
            DeviceView::Ram(_) => Seq::empty(),
        }
    }

    /// The byte the bus answers at an absolute address: physical memory
    /// shifted by the offset, a byte of the offset register, or the first
    /// covering device's byte; anything else is out of range.
    pub open spec fn read_byte(self, addr: u32) -> Result<u8, Fault> {
        if addr < PHYSICAL_MEMORY_LIMIT {
            if addr + self.offset < self.mem.len() {
                Ok(self.mem[addr + self.offset])
            } else {
                Err(Fault::OutOfRangeAccess)
            }
        } else if addr < PHYSICAL_MEMORY_LIMIT + 4 {
            Ok(u32_byte(self.offset, addr - PHYSICAL_MEMORY_LIMIT))
        } else {
            match route(self.devices, addr) {
                Some(i) => Ok(dev_read_spec(self.devices[i].dev, local_of(self.devices[i], addr))),
                None => Err(Fault::OutOfRangeAccess),
            }
        }
    }

    /// The bus after a byte write at an absolute address, routed exactly
    /// as `read_byte` routes reads.
    pub open spec fn write_byte(self, addr: u32, data: u8) -> Result<ComputerView, Fault> {
        if addr < PHYSICAL_MEMORY_LIMIT {
            if addr + self.offset < self.mem.len() {
                Ok(ComputerView { mem: self.mem.update(addr + self.offset, data), ..self })
            } else {
                Err(Fault::OutOfRangeAccess)
            }
        } else if addr < PHYSICAL_MEMORY_LIMIT + 4 {
            Ok(
                ComputerView {
                    offset: u32_with_byte(self.offset, addr - PHYSICAL_MEMORY_LIMIT, data),
                    ..self
                },
            )
        } else {
            match route(self.devices, addr) {
                Some(i) => Ok(
                    ComputerView {
                        devices: self.devices.update(
                            i,
                            MappedDeviceView {
                                mapping: self.devices[i].mapping,
                                dev: dev_write_spec(
                                    self.devices[i].dev,
                                    local_of(self.devices[i], addr),
                                    data,
                                ),
                            },
                        ),
                        ..self
                    },
                ),
                None => Err(Fault::OutOfRangeAccess),
            }
        }
    }

    /// A byte read at `base + k`, out of range when the address would
    /// leave the 32-bit address space.
    pub open spec fn read_rel(self, base: u32, k: int) -> Result<u8, Fault> {
        if base + k > 0xFFFF_FFFF {
            Err(Fault::OutOfRangeAccess)
        } else {
            self.read_byte((base + k) as u32)
        }
    }

    /// A byte write at `base + k`, out of range when the address would
    /// leave the 32-bit address space.
    pub open spec fn write_rel(self, base: u32, k: int, data: u8) -> Result<ComputerView, Fault> {
        if base + k > 0xFFFF_FFFF {
            Err(Fault::OutOfRangeAccess)
        } else {
            self.write_byte((base + k) as u32, data)
        }
    }

    /// The 16-bit little-endian composite read at an address.
    pub open spec fn read16(self, addr: u32) -> Result<u16, Fault> {
        match self.read_rel(addr, 0) {
            Err(f) => Err(f),
            Ok(b0) => match self.read_rel(addr, 1) {
                Err(f) => Err(f),
                Ok(b1) => Ok(le16(b0, b1)),
            },
        }
    }

    /// The 32-bit little-endian composite read at an address.
    pub open spec fn read32(self, addr: u32) -> Result<u32, Fault> {
        match self.read_rel(addr, 0) {
            Err(f) => Err(f),
            Ok(b0) => match self.read_rel(addr, 1) {
                Err(f) => Err(f),
                Ok(b1) => match self.read_rel(addr, 2) {
                    Err(f) => Err(f),
                    Ok(b2) => match self.read_rel(addr, 3) {
                        Err(f) => Err(f),
                        Ok(b3) => Ok(le32(b0, b1, b2, b3)),
                    },
                },
            },
        }
    }

    /// The 16-bit composite write: two byte writes, low byte first. A
    /// failure after the first write leaves that write in place, exactly
    /// as the executable code behaves.
    pub open spec fn write16(self, addr: u32, x: u16) -> (Result<(), Fault>, ComputerView) {
        match self.write_rel(addr, 0, u32_byte(x as u32, 0)) {
            Err(f) => (Err(f), self),
            Ok(c1) => match c1.write_rel(addr, 1, u32_byte(x as u32, 1)) {
                Err(f) => (Err(f), c1),
                Ok(c2) => (Ok(()), c2),
            },
        }
    }

    /// The 32-bit composite write: four byte writes, low byte first, each
    /// seeing the state the previous one left.
    pub open spec fn write32(self, addr: u32, x: u32) -> (Result<(), Fault>, ComputerView) {
        match self.write_rel(addr, 0, u32_byte(x, 0)) {
            Err(f) => (Err(f), self),
            Ok(c1) => match c1.write_rel(addr, 1, u32_byte(x, 1)) {
                Err(f) => (Err(f), c1),
                Ok(c2) => match c2.write_rel(addr, 2, u32_byte(x, 2)) {
                    Err(f) => (Err(f), c2),
                    Ok(c3) => match c3.write_rel(addr, 3, u32_byte(x, 3)) {
                        Err(f) => (Err(f), c3),
                        Ok(c4) => (Ok(()), c4),
                    },
                },
            },
        }
    }
}

/// A byte write preserves well-formedness and the shape of the table:
/// same windows, same device variants, same processor handle.
pub proof fn lemma_write_byte_wf(c: ComputerView, addr: u32, data: u8)
    requires
        c.wf(),
    ensures
        match c.write_byte(addr, data) {
            Ok(c2) => {
                &&& c2.wf()
                &&& c2.devices.len() == c.devices.len()
                &&& c2.cpu_index == c.cpu_index
                &&& c2.mem.len() == c.mem.len()
                &&& forall|i: int|
                    0 <= i < c.devices.len() ==> (#[trigger] c2.devices[i]).mapping
                        == c.devices[i].mapping && (c2.devices[i].dev is Cpu <==> c.devices[i].dev
                        is Cpu)
            },
            Err(_) => true,
        },
{
    if PHYSICAL_MEMORY_LIMIT + 4 <= addr {
        lemma_route(c.devices, addr);
    }
}

/// The bus: physical memory, the offset register, the device table, and
/// the distinguished processor handle used for external inspection.
///
/// The fields are exposed for external harnesses (test setup, debugger
/// front ends), which poke memory and the offset directly; every contract
/// of the bus requires the well-formedness `wf()` that the constructors
/// establish and every verified operation preserves, so a harness that
/// edits the device table by hand takes that obligation on itself.
pub struct Computer {
    /// Flat physical memory, created once at construction.
    pub physical_memory: Vec<u8>,
    /// The bank-switch offset register, initially zero.
    pub offset: u32,
    /// The ordered device mapping table.
    pub devices: Vec<MappedDevice>,
    /// Index of the installed processor, for `cpu_state` inspection.
    pub cpu_index: Option<usize>,
}

impl View for Computer {
    type V = ComputerView;

    open spec fn view(&self) -> ComputerView {
        ComputerView {
            mem: self.physical_memory@,
            offset: self.offset,
            devices: Seq::new(self.devices@.len(), |i: int| self.devices@[i]@),
            cpu_index: match self.cpu_index {
                Some(i) => Some(i as int),
                None => None,
            },
        }
    }
}

impl Computer {
    /// A bus with `mem_size` bytes of zeroed physical memory, offset
    /// zero, and no devices.
    pub fn new(mem_size: u32) -> (c: Computer)
        ensures
            c@.wf(),
            c@.mem.len() == mem_size as nat,
            forall|i: int| 0 <= i < mem_size as nat ==> c@.mem[i] == 0u8,
            c@.offset == 0u32,
            c@.devices.len() == 0,
            c@.cpu_index is None,
    {
        Computer {
            physical_memory: vec![0u8; mem_size as usize],
            offset: 0,
            devices: Vec::new(),
            cpu_index: None,
        }
    }

    /// Read the byte at an absolute bus address.
    pub fn get(&self, pos: u32) -> (r: Result<u8, Fault>)
        requires
            self@.wf(),
        ensures
            r == self@.read_byte(pos),
    {
        if pos < PHYSICAL_MEMORY_LIMIT {
            let idx: u64 = pos as u64 + self.offset as u64;
            if idx < self.physical_memory.len() as u64 {
                Ok(self.physical_memory[idx as usize])
            } else {
                Err(Fault::OutOfRangeAccess)
            }
        } else if pos < PHYSICAL_MEMORY_LIMIT + 4 {
            Ok(extract_byte(self.offset, pos - PHYSICAL_MEMORY_LIMIT))
        } else {
            let n = self.devices.len();
            let mut i: usize = 0;
            while i < n
                invariant
                    self@.wf(),
                    n == self@.devices.len(),
                    i <= n,
                    forall|j: int| 0 <= j < i ==> !covers(self@.devices[j], pos),
                decreases n - i,
            {
                match self.devices[i].mapping {
                    Some((base, size)) => {
                        if base <= pos && pos - base < size {
                            proof {
                                lemma_route_is(self@.devices, pos, i as int);
                            }
                            return Ok(self.devices[i].dev.read_at(pos - base));
                        }
                    },
                    None => {},
                }
                i += 1;
            }
            proof {
                lemma_route_none(self@.devices, pos);
            }
            Err(Fault::OutOfRangeAccess)
        }
    }

    /// Write the byte at an absolute bus address. On a fault the bus is
    /// left unchanged.
    pub fn set(&mut self, pos: u32, data: u8) -> (r: Result<(), Fault>)
        requires
            old(self)@.wf(),
        ensures
            final(self)@.wf(),
            match old(self)@.write_byte(pos, data) {
                Ok(cv) => r == Ok::<(), Fault>(()) && final(self)@ == cv,
                Err(f) => r == Err::<(), Fault>(f) && final(self)@ == old(self)@,
            },
    {
        proof {
            lemma_write_byte_wf(old(self)@, pos, data);
        }
        if pos < PHYSICAL_MEMORY_LIMIT {
            let idx: u64 = pos as u64 + self.offset as u64;
            if idx < self.physical_memory.len() as u64 {
                self.physical_memory[idx as usize] = data;
                proof {
                    assert(self@ =~= old(self)@.write_byte(pos, data)->Ok_0);
                }
                Ok(())
            } else {
                Err(Fault::OutOfRangeAccess)
            }
        } else if pos < PHYSICAL_MEMORY_LIMIT + 4 {
            self.offset = replace_byte(self.offset, pos - PHYSICAL_MEMORY_LIMIT, data);
            proof {
                assert(self@ =~= old(self)@.write_byte(pos, data)->Ok_0);
            }
            Ok(())
        } else {
            let n = self.devices.len();
            let mut i: usize = 0;
            while i < n
                invariant
                    self@.wf(),
                    self@ == old(self)@,
                    n == self@.devices.len(),
                    i <= n,
                    forall|j: int| 0 <= j < i ==> !covers(self@.devices[j], pos),
                decreases n - i,
            {
                match self.devices[i].mapping {
                    Some((base, size)) => {
                        if base <= pos && pos - base < size {
                            proof {
                                lemma_route_is(self@.devices, pos, i as int);
                            }
                            self.devices[i].dev.write_at(pos - base, data);
                            proof {
                                assert(self@.devices =~= (old(self)@.write_byte(
                                    pos,
                                    data,
                                )->Ok_0).devices);
                                assert(self@ =~= old(self)@.write_byte(pos, data)->Ok_0);
                            }
                            return Ok(());
                        }
                    },
                    None => {},
                }
                i += 1;
            }
            proof {
                lemma_route_none(self@.devices, pos);
            }
            Err(Fault::OutOfRangeAccess)
        }
    }

    /// Read the byte at `pos + k`, out of range when the address leaves
    /// the 32-bit address space.
    pub(crate) fn get_rel(&self, pos: u32, k: u32) -> (r: Result<u8, Fault>)
        requires
            self@.wf(),
        ensures
            r == self@.read_rel(pos, k as int),
    {
        if pos as u64 + k as u64 > 0xFFFF_FFFFu64 {
            Err(Fault::OutOfRangeAccess)
        } else {
            self.get(pos + k)
        }
    }

    /// Write the byte at `pos + k`, out of range when the address leaves
    /// the 32-bit address space.
    fn set_rel(&mut self, pos: u32, k: u32, data: u8) -> (r: Result<(), Fault>)
        requires
            old(self)@.wf(),
        ensures
            final(self)@.wf(),
            match old(self)@.write_rel(pos, k as int, data) {
                Ok(cv) => r == Ok::<(), Fault>(()) && final(self)@ == cv,
                Err(f) => r == Err::<(), Fault>(f) && final(self)@ == old(self)@,
            },
    {
        if pos as u64 + k as u64 > 0xFFFF_FFFFu64 {
            Err(Fault::OutOfRangeAccess)
        } else {
            self.set(pos + k, data)
        }
    }

    /// Read a 16-bit word, little-endian, composed from two byte reads.
    pub fn get16(&self, pos: u32) -> (r: Result<u16, Fault>)
        requires
            self@.wf(),
        ensures
            r == self@.read16(pos),
    {
        let b0 = match self.get_rel(pos, 0) {
            Ok(b) => b,
            Err(f) => {
                return Err(f);
            },
        };
        let b1 = match self.get_rel(pos, 1) {
            Ok(b) => b,
            Err(f) => {
                return Err(f);
            },
        };
        Ok(compose16(b0, b1))
    }

    /// Read a 32-bit word, little-endian, composed from four byte reads.
    pub fn get32(&self, pos: u32) -> (r: Result<u32, Fault>)
        requires
            self@.wf(),
        ensures
            r == self@.read32(pos),
    {
        let b0 = match self.get_rel(pos, 0) {
            Ok(b) => b,
            Err(f) => {
                return Err(f);
            },
        };
        let b1 = match self.get_rel(pos, 1) {
            Ok(b) => b,
            Err(f) => {
                return Err(f);
            },
        };
        let b2 = match self.get_rel(pos, 2) {
            Ok(b) => b,
            Err(f) => {
                return Err(f);
            },
        };
        let b3 = match self.get_rel(pos, 3) {
            Ok(b) => b,
            Err(f) => {
                return Err(f);
            },
        };
        Ok(compose32(b0, b1, b2, b3))
    }

    /// Write a 16-bit word as two byte writes, low byte first. A failure
    /// after the first write leaves that write in place.
    pub fn set16(&mut self, pos: u32, x: u16) -> (r: Result<(), Fault>)
        requires
            old(self)@.wf(),
        ensures
            final(self)@.wf(),
            r == old(self)@.write16(pos, x).0,
            final(self)@ == old(self)@.write16(pos, x).1,
    {
        match self.set_rel(pos, 0, extract_byte(x as u32, 0)) {
            Ok(u) => u,
            Err(f) => {
                return Err(f);
            },
        };
        match self.set_rel(pos, 1, extract_byte(x as u32, 1)) {
            Ok(u) => u,
            Err(f) => {
                return Err(f);
            },
        };
        Ok(())
    }

    /// Write a 32-bit word as four byte writes, low byte first, each
    /// seeing the state the previous one left.
    pub fn set32(&mut self, pos: u32, x: u32) -> (r: Result<(), Fault>)
        requires
            old(self)@.wf(),
        ensures
            final(self)@.wf(),
            r == old(self)@.write32(pos, x).0,
            final(self)@ == old(self)@.write32(pos, x).1,
    {
        match self.set_rel(pos, 0, extract_byte(x, 0)) {
            Ok(u) => u,
            Err(f) => {
                return Err(f);
            },
        };
        match self.set_rel(pos, 1, extract_byte(x, 1)) {
            Ok(u) => u,
            Err(f) => {
                return Err(f);
            },
        };
        match self.set_rel(pos, 2, extract_byte(x, 2)) {
            Ok(u) => u,
            Err(f) => {
                return Err(f);
            },
        };
        match self.set_rel(pos, 3, extract_byte(x, 3)) {
            Ok(u) => u,
            Err(f) => {
                return Err(f);
            },
        };
        Ok(())
    }

    /// Register a device. With a base, the device gets the window
    /// `[base, base + size)` and the call returns `base + size`, so
    /// callers can lay out devices contiguously; a base below
    /// `DEVICE_REGION_START`, or a window without a representable
    /// one-past-the-end address, is refused as an invalid mapping and
    /// leaves the bus unchanged. With no base the device is registered
    /// unmapped — stepped but never address-routed — and the call
    /// returns zero.
    pub fn add_device(&mut self, dev: DeviceKind, base: Option<u32>) -> (r: Result<u32, Fault>)
        requires
            old(self)@.wf(),
            dev_wf(dev@),
        ensures
            final(self)@.wf(),
            match base {
                Some(b) => {
                    if b >= DEVICE_REGION_START && b as int + dev_size_spec(dev@) <= 0xFFFF_FFFF {
                        &&& r == Ok::<u32, Fault>((b + dev_size_spec(dev@)) as u32)
                        &&& final(self)@ == (ComputerView {
                            devices: old(self)@.devices.push(
                                MappedDeviceView {
                                    mapping: Some((b, dev_size_spec(dev@) as u32)),
                                    dev: dev@,
                                },
                            ),
                            ..old(self)@
                        })
                    } else {
                        &&& r == Err::<u32, Fault>(Fault::InvalidMapping)
                        &&& final(self)@ == old(self)@
                    }
                },
                None => {
                    &&& r == Ok::<u32, Fault>(0u32)
                    &&& final(self)@ == (ComputerView {
                        devices: old(self)@.devices.push(
                            MappedDeviceView { mapping: None, dev: dev@ },
                        ),
                        ..old(self)@
                    })
                },
            },
    {
        match base {
            Some(b) => {
                let size = dev.size();
                if b >= DEVICE_REGION_START && b as u64 + size as u64 <= 0xFFFF_FFFFu64 {
                    self.devices.push(MappedDevice { mapping: Some((b, size)), dev });
                    proof {
                        assert(self@.devices =~= old(self)@.devices.push(
                            MappedDeviceView {
                                mapping: Some((b, dev_size_spec(dev@) as u32)),
                                dev: dev@,
                            },
                        ));
                        assert(self@ =~= (ComputerView {
                            devices: old(self)@.devices.push(
                                MappedDeviceView {
                                    mapping: Some((b, dev_size_spec(dev@) as u32)),
                                    dev: dev@,
                                },
                            ),
                            ..old(self)@
                        }));
                    }
                    Ok(b + size)
                } else {
                    Err(Fault::InvalidMapping)
                }
            },
            None => {
                self.devices.push(MappedDevice { mapping: None, dev });
                proof {
                    assert(self@.devices =~= old(self)@.devices.push(
                        MappedDeviceView { mapping: None, dev: dev@ },
                    ));
                    assert(self@ =~= (ComputerView {
                        devices: old(self)@.devices.push(
                            MappedDeviceView { mapping: None, dev: dev@ },
                        ),
                        ..old(self)@
                    }));
                }
                Ok(0)
            },
        }
    }

    /// Install the processor: register it like any other device at the
    /// given base, and additionally record the handle that the
    /// `cpu_state` accessors use. The processor gains no special
    /// addressing behaviour from this.
    pub fn set_cpu(&mut self, cpu: CPU, base: u32) -> (r: Result<u32, Fault>)
        requires
            old(self)@.wf(),
        ensures
            final(self)@.wf(),
            if base >= DEVICE_REGION_START {
                &&& r == Ok::<u32, Fault>(base)
                &&& final(self)@ == (ComputerView {
                    devices: old(self)@.devices.push(
                        MappedDeviceView { mapping: Some((base, 0u32)), dev: DeviceView::Cpu(cpu@) },
                    ),
                    cpu_index: Some(old(self)@.devices.len() as int),
                    ..old(self)@
                })
                &&& final(self)@.has_cpu()
                &&& final(self)@.cpu_regs() == cpu@
            } else {
                &&& r == Err::<u32, Fault>(Fault::InvalidMapping)
                &&& final(self)@ == old(self)@
            },
    {
        let n = self.devices.len();
        let r = self.add_device(DeviceKind::Cpu(cpu), Some(base));
        match r {
            Ok(next) => {
                self.cpu_index = Some(n);
                proof {
                    assert(self@ =~= (ComputerView {
                        devices: old(self)@.devices.push(
                            MappedDeviceView {
                                mapping: Some((base, 0u32)),
                                dev: DeviceView::Cpu(cpu@),
                            },
                        ),
                        cpu_index: Some(old(self)@.devices.len() as int),
                        ..old(self)@
                    }));
                }
                Ok(next)
            },
            Err(f) => Err(f),
        }
    }

    /// The installed processor's state, for external inspection (test
    /// harnesses, debuggers).
    pub fn cpu_state(&self) -> (c: CPU)
        requires
            self@.wf(),
            self@.has_cpu(),
        ensures
            c@ == self@.cpu_regs(),
    {
        match self.cpu_index {
            Some(i) => match &self.devices[i].dev {
                DeviceKind::Cpu(c) => *c,
                DeviceKind::Ram(_) => vstd::pervasive::unreached(),
            },
            None => vstd::pervasive::unreached(),
        }
    }

    /// Replace the installed processor's state, for external mutation
    /// (test setup, debuggers). Mapping, table order and every other part
    /// of the bus stay as they are.
    pub fn set_cpu_state(&mut self, c: CPU)
        requires
            old(self)@.wf(),
            old(self)@.has_cpu(),
        ensures
            final(self)@.wf(),
            final(self)@ == (ComputerView {
                devices: old(self)@.devices.update(
                    old(self)@.cpu_i(),
                    MappedDeviceView {
                        mapping: old(self)@.devices[old(self)@.cpu_i()].mapping,
                        dev: DeviceView::Cpu(c@),
                    },
                ),
                ..old(self)@
            }),
            final(self)@.has_cpu(),
            final(self)@.cpu_regs() == c@,
    {
        match self.cpu_index {
            Some(i) => {
                let m = self.devices[i].mapping;
                self.devices[i] = MappedDevice { mapping: m, dev: DeviceKind::Cpu(c) };
                proof {
                    assert(self@.devices =~= old(self)@.devices.update(
                        old(self)@.cpu_i(),
                        MappedDeviceView {
                            mapping: old(self)@.devices[old(self)@.cpu_i()].mapping,
                            dev: DeviceView::Cpu(c@),
                        },
                    ));
                    assert(self@ =~= (ComputerView {
                        devices: old(self)@.devices.update(
                            old(self)@.cpu_i(),
                            MappedDeviceView {
                                mapping: old(self)@.devices[old(self)@.cpu_i()].mapping,
                                dev: DeviceView::Cpu(c@),
                            },
                        ),
                        ..old(self)@
                    }));
                }
            },
            None => {
                vstd::pervasive::unreached::<()>();
            },
        }
    }
}

} // verus!
