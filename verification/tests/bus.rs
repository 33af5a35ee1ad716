//! Bus-level behaviour: physical memory, the offset register, the
//! composite accessors, device mapping and the fault cases.

use toyvm::computer::Computer;
use toyvm::cpu::CPU;
use toyvm::device::{Device, DeviceKind, Ram};
use toyvm::fault::Fault;

#[test]
fn physical_memory() {
    let mut computer = Computer::new(64 * 1024);
    computer.set(0x12, 0xAF).unwrap();
    assert_eq!(computer.get(0x12).unwrap(), 0xAF);
}

#[test]
fn offset() {
    let mut computer = Computer::new(64 * 1024);
    computer.offset = 0x1000;
    computer.set(0x34, 0x68).unwrap();
    computer.offset = 0x0;
    assert_eq!(computer.get(0x1034).unwrap(), 0x68);
}

#[test]
fn ram_round_trip_under_offset() {
    let mut computer = Computer::new(64 * 1024);
    computer.offset = 0x2000;
    computer.set(0x77, 0x5A).unwrap();
    assert_eq!(computer.get(0x77).unwrap(), 0x5A);
}

#[test]
fn offset_register_round_trip() {
    let mut computer = Computer::new(64 * 1024);
    computer.offset = 0x1234;
    computer.set32(0xF000_0000, 0xDEAD_BEEF).unwrap();
    assert_eq!(computer.offset, 0xDEAD_BEEF);
    assert_eq!(computer.get32(0xF000_0000).unwrap(), 0xDEAD_BEEF);
    assert_eq!(computer.get(0xF000_0000).unwrap(), 0xEF);
    assert_eq!(computer.get(0xF000_0001).unwrap(), 0xBE);
    assert_eq!(computer.get(0xF000_0002).unwrap(), 0xAD);
    assert_eq!(computer.get(0xF000_0003).unwrap(), 0xDE);
}

#[test]
fn offset_register_single_byte() {
    let mut computer = Computer::new(64 * 1024);
    computer.set(0xF000_0001, 0x10).unwrap();
    assert_eq!(computer.offset, 0x1000);
    // The new offset shifts the next access, not earlier ones.
    computer.set(0x34, 0x68).unwrap();
    computer.set(0xF000_0001, 0x00).unwrap();
    assert_eq!(computer.get(0x1034).unwrap(), 0x68);
}

#[test]
fn composite_round_trip() {
    let mut computer = Computer::new(64 * 1024);
    computer.set32(0x100, 0x1234_5678).unwrap();
    assert_eq!(computer.get32(0x100).unwrap(), 0x1234_5678);
    assert_eq!(computer.get(0x100).unwrap(), 0x78);
    assert_eq!(computer.get(0x101).unwrap(), 0x56);
    assert_eq!(computer.get(0x102).unwrap(), 0x34);
    assert_eq!(computer.get(0x103).unwrap(), 0x12);
    assert_eq!(computer.get16(0x100).unwrap(), 0x5678);
}

#[test]
fn set16_little_endian() {
    let mut computer = Computer::new(64 * 1024);
    computer.set16(0x40, 0xBEEF).unwrap();
    assert_eq!(computer.get(0x40).unwrap(), 0xEF);
    assert_eq!(computer.get(0x41).unwrap(), 0xBE);
    assert_eq!(computer.get16(0x40).unwrap(), 0xBEEF);
}

#[test]
fn device_mapping() {
    let mut computer = Computer::new(64 * 1024);
    let ram = Ram::new(16);
    let next = computer.add_device(DeviceKind::Ram(ram), Some(0xF000_0100)).unwrap();
    assert_eq!(next, 0xF000_0110);
    // Fresh device bytes read back zero, then a write lands in the device.
    assert_eq!(computer.get(0xF000_0105).unwrap(), 0x00);
    computer.set(0xF000_0105, 0xAB).unwrap();
    assert_eq!(computer.get(0xF000_0105).unwrap(), 0xAB);
    // One past the window is unmapped.
    assert_eq!(computer.get(0xF000_0110), Err(Fault::OutOfRangeAccess));
}

#[test]
fn device_mapping_below_threshold() {
    let mut computer = Computer::new(64 * 1024);
    let ram = Ram::new(16);
    assert_eq!(
        computer.add_device(DeviceKind::Ram(ram), Some(0xF000_00FF)),
        Err(Fault::InvalidMapping)
    );
}

#[test]
fn device_first_match_wins() {
    let mut computer = Computer::new(64 * 1024);
    let mut first = Ram::new(8);
    first.bytes[2] = 0x11;
    let mut second = Ram::new(8);
    second.bytes[2] = 0x22;
    computer.add_device(DeviceKind::Ram(first), Some(0xF000_0200)).unwrap();
    computer.add_device(DeviceKind::Ram(second), Some(0xF000_0200)).unwrap();
    assert_eq!(computer.get(0xF000_0202).unwrap(), 0x11);
}

#[test]
fn unmapped_device_not_routed() {
    let mut computer = Computer::new(64 * 1024);
    let ram = Ram::new(16);
    assert_eq!(computer.add_device(DeviceKind::Ram(ram), None).unwrap(), 0);
    assert_eq!(computer.get(0xF000_0100), Err(Fault::OutOfRangeAccess));
}

#[test]
fn device_capability() {
    let mut ram = Ram::new(4);
    assert_eq!(ram.dev_size(), 4);
    ram.dev_set(2, 7);
    assert_eq!(ram.dev_get(2), 7);
    // Out-of-footprint accesses answer zero and are dropped.
    ram.dev_set(9, 1);
    assert_eq!(ram.dev_get(9), 0);
    // The processor exposes no addressable bytes of its own.
    let cpu = CPU::new();
    assert_eq!(cpu.dev_size(), 0);
    assert_eq!(cpu.dev_get(0), 0);
}

#[test]
fn out_of_range_access() {
    let mut computer = Computer::new(1024);
    assert_eq!(computer.get(0x1000), Err(Fault::OutOfRangeAccess));
    assert_eq!(computer.set(0x1000, 1), Err(Fault::OutOfRangeAccess));
    // Shifting by the offset can push an otherwise valid address out.
    computer.offset = 0x400;
    assert_eq!(computer.get(0x0), Err(Fault::OutOfRangeAccess));
    // Between the offset register and the device region nothing answers.
    assert_eq!(computer.get(0xF000_0004), Err(Fault::OutOfRangeAccess));
}
