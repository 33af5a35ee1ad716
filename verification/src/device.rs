//! The device capability, the known device kinds, and deferred commands.
//!
//! Anything addressable on the bus (including the processor) answers
//! byte-level reads and writes relative to its own base and reports its
//! footprint. During a global step a device may not mutate the bus
//! directly: it queues `Command` records, which the bus applies after all
//! devices have been polled.

use vstd::prelude::*;

use crate::cpu::CPU;

verus! {

/// Contents of a device, as the bus's specification sees it.
pub enum DeviceView {
    /// A processor: its register file.
    Cpu(Seq<u32>),
    /// A byte bank: its contents.
    Ram(Seq<u8>),
}

/// Footprint of a device, over its view: the processor exposes no
/// addressable bytes; a byte bank exposes its contents.
pub open spec fn dev_size_spec(d: DeviceView) -> int {
    match d {
        DeviceView::Cpu(_) => 0,
        DeviceView::Ram(bytes) => bytes.len() as int,
    }
}

/// The byte a device answers at a device-local address.
pub open spec fn dev_read_spec(d: DeviceView, local: int) -> u8 {
    match d {
        DeviceView::Cpu(_) => 0,
        DeviceView::Ram(bytes) => if 0 <= local < bytes.len() {
            bytes[local]
        } else {
            0
        },
    }
}

/// The device contents after a byte write at a device-local address.
pub open spec fn dev_write_spec(d: DeviceView, local: int, data: u8) -> DeviceView {
    match d {
        DeviceView::Cpu(regs) => DeviceView::Cpu(regs),
        DeviceView::Ram(bytes) => DeviceView::Ram(
            if 0 <= local < bytes.len() {
                bytes.update(local, data)
            } else {
                bytes
            },
        ),
    }
}

/// A device view is well formed when its footprint fits the 32-bit
/// address space and a processor's register file has its sixteen slots.
pub open spec fn dev_wf(d: DeviceView) -> bool {
    match d {
        DeviceView::Cpu(regs) => regs.len() == 16,
        DeviceView::Ram(bytes) => bytes.len() <= 0xFFFF_FFFF,
    }
}

/// The capability every bus-addressable peripheral implements: byte-level
/// access relative to the device's own base, and its footprint size.
/// Each implementor names its abstract state (`dev_model`), and the
/// method contracts fix reads, writes and the footprint against it — so
/// whatever is proved of the bus through this capability holds of every
/// device that satisfies it.
pub trait Device {
    /// The device's state, abstracted to what the bus can observe.
    spec fn dev_model(&self) -> DeviceView;

    /// Read the byte at a device-local address: exactly the model's byte
    /// there, zero beyond the footprint.
    fn dev_get(&self, pos: u32) -> (b: u8)
        ensures
            b == dev_read_spec(self.dev_model(), pos as int),
    ;

    /// Write the byte at a device-local address: exactly a model write —
    /// in particular, a processor's register file is left untouched, and
    /// a write beyond the footprint is dropped.
    fn dev_set(&mut self, pos: u32, data: u8)
        ensures
            final(self).dev_model() == dev_write_spec(old(self).dev_model(), pos as int, data),
    ;

    /// Footprint of the device in address space: exactly the model's.
    fn dev_size(&self) -> (s: u32)
        requires
            dev_size_spec(self.dev_model()) <= 0xFFFF_FFFF,
        ensures
            s as int == dev_size_spec(self.dev_model()),
    ;
}

/// A bus mutation a device wants performed during a step, queued instead
/// of applied immediately: the bus applies all queued commands, in
/// emission order, only after every device has been polled.
#[derive(Clone, Copy, Debug, PartialEq, Eq, Structural)]
pub enum Command {
    /// Write one byte at an absolute bus address.
    WriteByte(u32, u8),
    /// Write a 16-bit word, little-endian, at an absolute bus address.
    WriteWord16(u32, u16),
    /// Write a 32-bit word, little-endian, at an absolute bus address.
    WriteDword32(u32, u32),
}

/// A pass-through memory-mapped byte bank: the simplest peripheral, used
/// for device-mapped scratch registers. Its view is its byte contents.
#[derive(Debug)]
pub struct Ram {
    pub bytes: Vec<u8>,
}

impl View for Ram {
    type V = Seq<u8>;

    open spec fn view(&self) -> Seq<u8> {
        self.bytes@
    }
}

impl Ram {
    /// A zero-filled byte bank of the given footprint.
    pub fn new(size: u32) -> (r: Ram)
        ensures
            r@.len() == size as nat,
            forall|i: int| 0 <= i < size as nat ==> r@[i] == 0u8,
    {
        Ram { bytes: vec![0u8; size as usize] }
    }
}

impl Device for Ram {
    /// A byte bank's observable state is its contents.
    open spec fn dev_model(&self) -> DeviceView {
        DeviceView::Ram(self@)
    }

    /// Read a stored byte; out-of-footprint reads answer zero (the bus
    /// never issues them for a mapped window).
    fn dev_get(&self, pos: u32) -> u8 {
        if (pos as usize) < self.bytes.len() {
            self.bytes[pos as usize]
        } else {
            0
        }
    }

    /// Store a byte; out-of-footprint writes are dropped.
    fn dev_set(&mut self, pos: u32, data: u8) {
        if (pos as usize) < self.bytes.len() {
            self.bytes[pos as usize] = data;
        }
    }

    /// Footprint: the length the bank was created with.
    fn dev_size(&self) -> u32 {
        self.bytes.len() as u32
    }
}

/// The closed set of device kinds the bus can own. Heterogeneous devices
/// live in one collection as variants of this enum; the bus dispatches by
/// matching on it.
#[derive(Debug)]
pub enum DeviceKind {
    /// The processor, installed as an ordinary device.
    Cpu(CPU),
    /// A pass-through memory-mapped byte bank.
    Ram(Ram),
}

impl View for DeviceKind {
    type V = DeviceView;

    open spec fn view(&self) -> DeviceView {
        match self {
            DeviceKind::Cpu(c) => DeviceView::Cpu(c@),
            DeviceKind::Ram(r) => DeviceView::Ram(r@),
        }
    }
}

impl DeviceKind {
    /// Read the byte at a device-local address, through the capability.
    pub fn read_at(&self, local: u32) -> (b: u8)
        ensures
            b == dev_read_spec(self@, local as int),
    {
        match self {
            DeviceKind::Cpu(c) => c.dev_get(local),
            DeviceKind::Ram(r) => r.dev_get(local),
        }
    }

    /// Write the byte at a device-local address, through the capability.
    pub fn write_at(&mut self, local: u32, data: u8)
        ensures
            final(self)@ == dev_write_spec(old(self)@, local as int, data),
    {
        match self {
            DeviceKind::Cpu(c) => c.dev_set(local, data),
            DeviceKind::Ram(r) => r.dev_set(local, data),
        }
    }

    /// Footprint of the device in address space, through the capability.
    pub fn size(&self) -> (s: u32)
        requires
            dev_wf(self@),
        ensures
            s as int == dev_size_spec(self@),
    {
        match self {
            DeviceKind::Cpu(c) => c.dev_size(),
            DeviceKind::Ram(r) => r.dev_size(),
        }
    }
}

} // verus!
