use gb_rs::io::rom::Rom;
use gb_rs::io::{BusFault, Interconnect, Target};

fn test_rom() -> Rom {
    let mut data = vec![0u8; 0x8000];
    data[0x0123] = 0xAB;
    data[0x7FFF] = 0x42;
    Rom::new(data).unwrap()
}

#[test]
fn rom_accepts_exact_image_size_only() {
    assert!(Rom::new(vec![0u8; 0x8000]).is_some());
    assert!(Rom::new(vec![0u8; 10]).is_none());
    assert!(Rom::new(vec![0u8; 0x8001]).is_none());
    assert!(Rom::new(Vec::new()).is_none());
}

#[test]
fn decode_partitions_the_address_space() {
    assert_eq!(Interconnect::get_peripheral(0x0000), (Target::Rom, 0x0000));
    assert_eq!(Interconnect::get_peripheral(0x7FFF), (Target::Rom, 0x7FFF));
    assert_eq!(Interconnect::get_peripheral(0x8000), (Target::Ram, 0x0000));
    assert_eq!(Interconnect::get_peripheral(0xDFFF), (Target::Ram, 0x5FFF));
    assert_eq!(Interconnect::get_peripheral(0xE000), (Target::Unmapped, 0xE000));
    assert_eq!(Interconnect::get_peripheral(0xFEFF), (Target::Unmapped, 0xFEFF));
    assert_eq!(Interconnect::get_peripheral(0xFF00), (Target::Io, 0x00));
    assert_eq!(Interconnect::get_peripheral(0xFFFF), (Target::Io, 0xFF));
}

#[test]
fn image_reads_return_image_bytes() {
    let ic = Interconnect::new(test_rom());
    assert_eq!(ic.get_byte(0x0123), Ok(0xAB));
    assert_eq!(ic.get_byte(0x7FFF), Ok(0x42));
    assert_eq!(ic.get_byte(0x0000), Ok(0x00));
}

#[test]
fn image_writes_are_discarded() {
    let mut ic = Interconnect::new(test_rom());
    assert_eq!(ic.set_byte(0x0123, 0x99), Ok(()));
    assert_eq!(ic.set_byte(0x0000, 0xFF), Ok(()));
    assert_eq!(ic.get_byte(0x0123), Ok(0xAB));
    assert_eq!(ic.get_byte(0x0000), Ok(0x00));
}

#[test]
fn work_memory_round_trips_writes() {
    let mut ic = Interconnect::new(test_rom());
    assert_eq!(ic.set_byte(0x8000, 0x07), Ok(()));
    assert_eq!(ic.get_byte(0x8000), Ok(0x07));
    assert_eq!(ic.set_byte(0xDFFF, 0xC4), Ok(()));
    assert_eq!(ic.get_byte(0xDFFF), Ok(0xC4));
    assert_eq!(ic.set_byte(0xA123, 0x55), Ok(()));
    assert_eq!(ic.get_byte(0xA123), Ok(0x55));
}

#[test]
fn unmapped_accesses_are_fatal() {
    let mut ic = Interconnect::new(test_rom());
    for addr in [0xE000u16, 0xE001, 0xF000, 0xFEFF] {
        assert_eq!(ic.get_byte(addr), Err(BusFault::Unmapped));
        assert_eq!(ic.set_byte(addr, 0x01), Err(BusFault::Unmapped));
    }
}

#[test]
fn scanline_register_mirrors_video_line() {
    let mut ic = Interconnect::new(test_rom());
    assert_eq!(ic.get_byte(0xFF44), Ok(0));
    ic.set_line(42);
    assert_eq!(ic.get_byte(0xFF44), Ok(42));
    // A write to a neighbouring register cell does not leak into the mirror
    assert_eq!(ic.set_byte(0xFF43, 0x11), Ok(()));
    assert_eq!(ic.set_byte(0xFF45, 0x22), Ok(()));
    assert_eq!(ic.get_byte(0xFF44), Ok(42));
}

#[test]
fn scanline_register_write_is_fatal() {
    let mut ic = Interconnect::new(test_rom());
    ic.set_line(17);
    assert_eq!(ic.set_byte(0xFF44, 0x80), Err(BusFault::ReadOnlyScanline));
    // The write was discarded: the register still mirrors the video line
    assert_eq!(ic.get_byte(0xFF44), Ok(17));
}

#[test]
fn io_registers_fall_back_to_stored_cells() {
    let mut ic = Interconnect::new(test_rom());
    assert_eq!(ic.get_byte(0xFF10), Ok(0));
    assert_eq!(ic.set_byte(0xFF10, 0x80), Ok(()));
    assert_eq!(ic.get_byte(0xFF10), Ok(0x80));
    assert_eq!(ic.set_byte(0xFF00, 0x30), Ok(()));
    assert_eq!(ic.get_byte(0xFF00), Ok(0x30));
    assert_eq!(ic.set_byte(0xFFFF, 0x1F), Ok(()));
    assert_eq!(ic.get_byte(0xFFFF), Ok(0x1F));
}

#[test]
fn every_image_address_reads_back_and_resists_writes() {
    let mut data = vec![0u8; 0x8000];
    for (i, byte) in data.iter_mut().enumerate() {
        *byte = (i % 251) as u8;
    }
    let mut ic = Interconnect::new(Rom::new(data).unwrap());
    for addr in 0x0000..=0x7FFFu16 {
        let expected = (addr % 251) as u8;
        assert_eq!(ic.get_byte(addr), Ok(expected));
        assert_eq!(ic.set_byte(addr, expected.wrapping_add(1)), Ok(()));
        assert_eq!(ic.get_byte(addr), Ok(expected));
    }
}

#[test]
fn every_work_memory_address_round_trips() {
    let mut ic = Interconnect::new(test_rom());
    for addr in 0x8000..=0xDFFFu16 {
        let val = (addr % 253) as u8;
        assert_eq!(ic.set_byte(addr, val), Ok(()));
        assert_eq!(ic.get_byte(addr), Ok(val));
    }
}

#[test]
fn reset_restores_power_on_state() {
    let mut ic = Interconnect::new(test_rom());
    assert_eq!(ic.set_byte(0x9000, 0x77), Ok(()));
    assert_eq!(ic.set_byte(0xFF10, 0x88), Ok(()));
    ic.set_line(99);
    ic.step();
    ic.reset();
    assert_eq!(ic.get_byte(0x9000), Ok(0));
    assert_eq!(ic.get_byte(0xFF10), Ok(0));
    assert_eq!(ic.get_byte(0xFF44), Ok(0));
    // The cartridge image survives a reset
    assert_eq!(ic.get_byte(0x0123), Ok(0xAB));
}
