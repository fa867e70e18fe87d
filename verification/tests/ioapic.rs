use vmm_core::ioapic::decode_irq_from_selector;
use vmm_core::ioapic::delivery_mode;
use vmm_core::ioapic::destination_field_logical;
use vmm_core::ioapic::destination_field_physical;
use vmm_core::ioapic::destination_mode;
use vmm_core::ioapic::interrupt_mask;
use vmm_core::ioapic::remote_irr;
use vmm_core::ioapic::set_delivery_status;
use vmm_core::ioapic::set_remote_irr;
use vmm_core::ioapic::trigger_mode;
use vmm_core::ioapic::vector;
use vmm_core::ioapic::Error;
use vmm_core::ioapic::Ioapic;
use vmm_core::ioapic::MsiMessage;
use vmm_core::ioapic::IOAPIC_VERSION_ID;
use vmm_core::ioapic::NUM_IOAPIC_PINS;

const IOREGSEL: u64 = 0x00;
const IOWIN: u64 = 0x10;

fn mmio_write(io: &mut Ioapic, offset: u64, value: u32) {
    io.write(0xfec0_0000, offset, &value.to_le_bytes());
}

fn mmio_read(io: &mut Ioapic, offset: u64) -> u32 {
    let mut data = [0xaau8; 4];
    io.read(0xfec0_0000, offset, &mut data);
    u32::from_le_bytes(data)
}

fn write_reg(io: &mut Ioapic, selector: u32, value: u32) {
    mmio_write(io, IOREGSEL, selector);
    mmio_write(io, IOWIN, value);
}

fn read_reg(io: &mut Ioapic, selector: u32) -> u32 {
    mmio_write(io, IOREGSEL, selector);
    mmio_read(io, IOWIN)
}

fn program(io: &mut Ioapic, pin: u32, entry: u64) {
    write_reg(io, 0x10 + 2 * pin, entry as u32);
    write_reg(io, 0x11 + 2 * pin, (entry >> 32) as u32);
}

#[test]
fn entry_fields() {
    let e: u64 = 0xab00_0000_0001_c9fe;
    assert_eq!(vector(e), 0xfe);
    assert_eq!(delivery_mode(e), 0b001);
    assert_eq!(destination_mode(e), 1);
    assert_eq!(remote_irr(e), 1);
    assert_eq!(trigger_mode(e), 1);
    assert_eq!(interrupt_mask(e), 1);
    assert_eq!(destination_field_physical(e), 0xb);
    assert_eq!(destination_field_logical(e), 0xab);
    assert_eq!(vector(0), 0);
    assert_eq!(delivery_mode(0x700), 7);
    assert_eq!(remote_irr(0xffff_ffff_ffff_bfff), 0);
}

#[test]
fn read_only_bits_setters() {
    let mut e: u64 = 0;
    set_delivery_status(&mut e, 1);
    assert_eq!(e, 0x1000);
    set_remote_irr(&mut e, 0xff);
    assert_eq!(e, 0x5000);
    set_delivery_status(&mut e, 2);
    assert_eq!(e, 0x4000);
    set_remote_irr(&mut e, 0);
    assert_eq!(e, 0);
    let mut all: u64 = u64::MAX;
    set_remote_irr(&mut all, 0);
    assert_eq!(all, 0xffff_ffff_ffff_bfff);
}

#[test]
fn selector_decoding() {
    assert_eq!(decode_irq_from_selector(0x10), (0, false));
    assert_eq!(decode_irq_from_selector(0x11), (0, true));
    assert_eq!(decode_irq_from_selector(0x3e), (23, false));
    assert_eq!(decode_irq_from_selector(0x3f), (23, true));
    assert_eq!(NUM_IOAPIC_PINS, 24);
}

#[test]
fn registers_after_reset() {
    let mut io = Ioapic::new();
    assert_eq!(mmio_read(&mut io, IOREGSEL), 0);
    assert_eq!(read_reg(&mut io, 0x01), 0x0017_0011);
    assert_eq!(IOAPIC_VERSION_ID, 0x0017_0011);
    assert_eq!(read_reg(&mut io, 0x00), 0);
    assert_eq!(read_reg(&mut io, 0x02), 0);
    for sel in 0x10..0x40u32 {
        assert_eq!(read_reg(&mut io, sel), 0);
    }
    for pin in 0..24usize {
        assert_eq!(io.redirection_entry(pin), 0);
    }
}

#[test]
fn identification_register() {
    let mut io = Ioapic::new();
    write_reg(&mut io, 0x00, 0xffff_ffff);
    assert_eq!(read_reg(&mut io, 0x00), 0x0f00_0000);
    assert_eq!(read_reg(&mut io, 0x02), 0x0f00_0000);
    write_reg(&mut io, 0x00, 0x0500_0000);
    assert_eq!(read_reg(&mut io, 0x00), 0x0500_0000);
    // the version register and the arbitration register are not written
    write_reg(&mut io, 0x01, 0x1234_5678);
    write_reg(&mut io, 0x02, 0x0a00_0000);
    assert_eq!(read_reg(&mut io, 0x01), 0x0017_0011);
    assert_eq!(read_reg(&mut io, 0x02), 0x0500_0000);
}

#[test]
fn unknown_offsets_and_selectors() {
    let mut io = Ioapic::new();
    program(&mut io, 0, 0x0100_0000_0000_0030);
    mmio_write(&mut io, IOREGSEL, 0x10);
    // an offset that is neither register reads as zero and is not written
    assert_eq!(mmio_read(&mut io, 0x04), 0);
    mmio_write(&mut io, 0x20, 0xffff_ffff);
    assert_eq!(mmio_read(&mut io, IOREGSEL), 0x10);
    assert_eq!(mmio_read(&mut io, IOWIN), 0x30);
    // only the low byte of the offset and of the selector counts
    assert_eq!(mmio_read(&mut io, 0x110), 0x30);
    assert_eq!(read_reg(&mut io, 0x110), 0x30);
    assert_eq!(mmio_read(&mut io, IOREGSEL), 0x110);
    // a selector that names no register
    assert_eq!(read_reg(&mut io, 0x40), 0);
    write_reg(&mut io, 0x40, 0xffff_ffff);
    assert_eq!(read_reg(&mut io, 0x03), 0);
    for pin in 1..24usize {
        assert_eq!(io.redirection_entry(pin), 0);
    }
    assert_eq!(io.redirection_entry(0), 0x0100_0000_0000_0030);
}

#[test]
fn entry_halves_round_trip() {
    let mut io = Ioapic::new();
    write_reg(&mut io, 0x10 + 2 * 5, 0xffff_ffff);
    write_reg(&mut io, 0x11 + 2 * 5, 0x8765_4321);
    // bits 12 and 14 are not the guest's to write
    assert_eq!(read_reg(&mut io, 0x10 + 2 * 5), 0xffff_afff);
    assert_eq!(read_reg(&mut io, 0x11 + 2 * 5), 0x8765_4321);
    assert_eq!(io.redirection_entry(5), 0x8765_4321_ffff_afff);
    write_reg(&mut io, 0x10 + 2 * 5, 0);
    assert_eq!(io.redirection_entry(5), 0x8765_4321_0000_0000);
    assert_eq!(io.redirection_entry(4), 0);
    assert_eq!(io.redirection_entry(6), 0);
}

#[test]
fn edge_interrupt_message() {
    let mut io = Ioapic::new();
    // vector 0x30, destination 1, physical, edge, fixed
    program(&mut io, 0, 0x0100_0000_0000_0030);
    let msi = io.service_irq(0).unwrap().unwrap();
    assert_eq!(msi, MsiMessage { addr: 0xfee0_1008, data: 0x0000_0030 });
    assert_eq!(io.complete_irq(0, Ok(1)), Ok(()));
    let e = io.redirection_entry(0);
    assert_eq!(e & 0x1000, 0);
    assert_eq!(remote_irr(e), 0);
    assert_eq!(e, 0x0100_0000_0000_0030);
}

#[test]
fn level_interrupt_and_end_of_interrupt() {
    let mut io = Ioapic::new();
    // vector 0x41, logical destination 0xf3, level, lowest priority
    program(&mut io, 3, 0xf300_0000_0000_8941);
    program(&mut io, 4, 0x0000_0000_0000_8041);
    program(&mut io, 5, 0x0000_0000_0000_8042);
    let msi = io.service_irq(3).unwrap().unwrap();
    assert_eq!(msi.addr, 0xfee0_0000 | (0xf3 << 12) | (1 << 3) | (1 << 2));
    assert_eq!(msi.data, (1 << 15) | (1 << 8) | 0x41);
    // blocked by the guest: nothing changes
    assert_eq!(io.complete_irq(3, Ok(0)), Ok(()));
    assert_eq!(io.redirection_entry(3), 0xf300_0000_0000_8941);
    // refused by the host
    assert_eq!(io.complete_irq(3, Err(22)), Err(Error::InterruptFailed(22)));
    assert_eq!(io.redirection_entry(3), 0xf300_0000_0000_8941);
    // accepted
    assert_eq!(io.complete_irq(3, Ok(1)), Ok(()));
    assert_eq!(io.redirection_entry(3), 0xf300_0000_0000_c941);
    assert_eq!(io.complete_irq(5, Ok(2)), Ok(()));
    assert_eq!(remote_irr(io.redirection_entry(5)), 1);
    // the message of an entry in flight carries the level bit
    assert_eq!(io.service_irq(3).unwrap().unwrap().data, (1 << 15) | (1 << 14) | (1 << 8) | 0x41);
    // a guest write to the low half keeps remote IRR
    write_reg(&mut io, 0x10 + 2 * 3, 0x0000_8941);
    assert_eq!(remote_irr(io.redirection_entry(3)), 1);
    // the end of interrupt clears it, for that vector only
    io.end_of_interrupt(0x41);
    assert_eq!(io.redirection_entry(3), 0xf300_0000_0000_8941);
    assert_eq!(io.redirection_entry(4), 0x0000_0000_0000_8041);
    assert_eq!(remote_irr(io.redirection_entry(5)), 1);
    io.end_of_interrupt(0x42);
    assert_eq!(remote_irr(io.redirection_entry(5)), 0);
}

#[test]
fn masked_pin_sends_nothing() {
    let mut io = Ioapic::new();
    program(&mut io, 23, 0x0000_0000_0001_0030);
    assert_eq!(io.service_irq(23), Ok(None));
    program(&mut io, 23, 0x0000_0000_0000_0030);
    assert!(io.service_irq(23).unwrap().is_some());
}

#[test]
fn end_of_interrupt_leaves_edge_entries() {
    let mut io = Ioapic::new();
    program(&mut io, 1, 0x0000_0000_0000_0030);
    io.end_of_interrupt(0x30);
    assert_eq!(io.redirection_entry(1), 0x30);
}
