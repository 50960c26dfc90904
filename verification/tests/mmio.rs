use atsamd_regs::dmac::bus::{Bus, Width};
use atsamd_regs::dmac::mmio::Mmio;
use atsamd_regs::dmac::register::{
    ReadableRegister, WritableRegister, APB_BASE_ADDRESS, BASEADDR, CRCSTATUS, CTRL, INTSTATUS,
};
use vcell::VolatileCell;

struct Cells {
    bytes: Vec<VolatileCell<u8>>,
    halves: Vec<VolatileCell<u16>>,
    words: Vec<VolatileCell<u32>>,
}

fn cells(words: usize) -> Cells {
    Cells {
        bytes: (0..4 * words).map(|_| VolatileCell::new(0)).collect(),
        halves: (0..2 * words).map(|_| VolatileCell::new(0)).collect(),
        words: (0..words).map(|_| VolatileCell::new(0)).collect(),
    }
}

#[test]
fn a_window_needs_slices_of_one_span() {
    let c = cells(16);
    assert!(Mmio::new(APB_BASE_ADDRESS, &c.bytes, &c.halves, &c.words).is_some());
    assert!(Mmio::new(APB_BASE_ADDRESS, &c.bytes[..60], &c.halves, &c.words).is_none());
    assert!(Mmio::new(APB_BASE_ADDRESS, &c.bytes, &c.halves[..31], &c.words).is_none());
    assert!(Mmio::new(APB_BASE_ADDRESS, &c.bytes, &c.halves, &c.words[..15]).is_none());
    assert!(Mmio::new(APB_BASE_ADDRESS, &c.bytes[..62], &c.halves[..31], &c.words[..15]).is_none());
}

#[test]
fn a_window_starts_at_a_multiple_of_four() {
    let c = cells(4);
    assert!(Mmio::new(0x4100_a002, &c.bytes, &c.halves, &c.words).is_none());
    assert!(Mmio::new(0x4100_a001, &c.bytes, &c.halves, &c.words).is_none());
    assert!(Mmio::new(0x4100_a004, &c.bytes, &c.halves, &c.words).is_some());
}

#[test]
fn a_window_ends_inside_the_address_space() {
    let c = cells(4);
    assert!(Mmio::new(0xffff_fff0, &c.bytes, &c.halves, &c.words).is_some());
    assert!(Mmio::new(0xffff_fff4, &c.bytes, &c.halves, &c.words).is_none());
    let empty = cells(0);
    assert!(Mmio::new(0xffff_fffc, &empty.bytes, &empty.halves, &empty.words).is_some());
}

#[test]
fn a_half_word_write_reaches_its_cell() {
    let c = cells(16);
    let mut bus = Mmio::new(APB_BASE_ADDRESS, &c.bytes, &c.halves, &c.words).unwrap();
    CTRL.write(&mut bus, 0xbeef);
    assert_eq!(c.halves[0].get(), 0xbeef);
    assert_eq!(CTRL.read(&mut bus), 0xbeef);
    assert_eq!(c.halves[1].get(), 0);
}

#[test]
fn a_byte_write_reaches_its_cell() {
    let c = cells(16);
    let mut bus = Mmio::new(APB_BASE_ADDRESS, &c.bytes, &c.halves, &c.words).unwrap();
    CRCSTATUS.write(&mut bus, 0x5a);
    assert_eq!(c.bytes[0x0c].get(), 0x5a);
    assert_eq!(CRCSTATUS.read(&mut bus), 0x5a);
    assert_eq!(c.bytes[0x0d].get(), 0);
}

#[test]
fn a_word_write_reaches_its_cell() {
    let c = cells(16);
    let mut bus = Mmio::new(APB_BASE_ADDRESS, &c.bytes, &c.halves, &c.words).unwrap();
    BASEADDR.write(&mut bus, 0x2000_0040);
    assert_eq!(c.words[0x34 / 4].get(), 0x2000_0040);
    assert_eq!(BASEADDR.read(&mut bus), 0x2000_0040);
}

#[test]
fn a_read_sees_what_the_hardware_put_there() {
    let c = cells(16);
    let mut bus = Mmio::new(APB_BASE_ADDRESS, &c.bytes, &c.halves, &c.words).unwrap();
    assert_eq!(INTSTATUS.read(&mut bus), 0);
    c.words[0x24 / 4].set(0x0000_0104);
    assert_eq!(INTSTATUS.read(&mut bus), 0x0000_0104);
}

#[test]
fn bits_are_set_and_cleared_in_a_volatile_cell() {
    let c = cells(16);
    c.halves[0].set(0x00f0);
    let mut bus = Mmio::new(APB_BASE_ADDRESS, &c.bytes, &c.halves, &c.words).unwrap();
    CTRL.set_bits(&mut bus, 0x0003);
    assert_eq!(c.halves[0].get(), 0x00f3);
    CTRL.clear_bits(&mut bus, 0x0030);
    assert_eq!(c.halves[0].get(), 0x00c3);
}

#[test]
fn loads_and_stores_go_by_width_and_address() {
    let c = cells(4);
    let mut bus = Mmio::new(0x1000, &c.bytes, &c.halves, &c.words).unwrap();
    bus.store(0x1003, Width::Byte, 0x7f);
    bus.store(0x1006, Width::Half, 0x1234);
    bus.store(0x100c, Width::Word, 0xdead_beef);
    assert_eq!(c.bytes[3].get(), 0x7f);
    assert_eq!(c.halves[3].get(), 0x1234);
    assert_eq!(c.words[3].get(), 0xdead_beef);
    assert_eq!(bus.load(0x1003, Width::Byte), 0x7f);
    assert_eq!(bus.load(0x1006, Width::Half), 0x1234);
    assert_eq!(bus.load(0x100c, Width::Word), 0xdead_beef);
    assert_eq!(bus.load(0x1000, Width::Word), 0);
}
