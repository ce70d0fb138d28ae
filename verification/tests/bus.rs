use gb_core::bus::{MemoryBus, BUS_SIZE};

#[test]
fn bus_spans_the_whole_address_range() {
    let bus = MemoryBus::new();
    assert_eq!(bus.len(), BUS_SIZE);
    assert_eq!(bus.read(0x0000), 0);
    assert_eq!(bus.read(0xFFFF), 0);
}

#[test]
fn write_then_read_back() {
    let mut bus = MemoryBus::new();
    bus.write(0x8000, 0xAB);
    bus.write(0xFFFF, 0x01);
    assert_eq!(bus.read(0x8000), 0xAB);
    assert_eq!(bus.read(0xFFFF), 0x01);
    assert_eq!(bus.read(0x8001), 0x00);
}

#[test]
fn power_on_seeds_hardware_registers() {
    let rom: Vec<u8> = vec![];
    let bus = MemoryBus::power_on(&rom);
    assert_eq!(bus.read(0xFF10), 0x80);
    assert_eq!(bus.read(0xFF11), 0xBF);
    assert_eq!(bus.read(0xFF12), 0xF3);
    assert_eq!(bus.read(0xFF26), 0xF1);
    assert_eq!(bus.read(0xFF40), 0x91);
    assert_eq!(bus.read(0xFF47), 0xFC);
    assert_eq!(bus.read(0xFF48), 0xFF);
    assert_eq!(bus.read(0xFF49), 0xFF);
    assert_eq!(bus.read(0xFF13), 0x00);
    assert_eq!(bus.read(0x0000), 0x00);
}

#[test]
fn power_on_copies_the_program_image_verbatim() {
    let rom: Vec<u8> = vec![0xDE, 0xAD, 0xBE, 0xEF];
    let bus = MemoryBus::power_on(&rom);
    assert_eq!(bus.read(0), 0xDE);
    assert_eq!(bus.read(1), 0xAD);
    assert_eq!(bus.read(2), 0xBE);
    assert_eq!(bus.read(3), 0xEF);
    assert_eq!(bus.read(4), 0x00);
}

#[test]
fn program_image_wins_over_seeded_defaults() {
    // An image long enough to cover a seeded address replaces its
    // default.
    let mut rom = vec![0u8; 0xFF11];
    rom.push(0x77); // lands at 0xFF11, whose default is 0xBF
    let bus = MemoryBus::power_on(&rom);
    assert_eq!(bus.read(0xFF11), 0x77);
    assert_eq!(bus.read(0xFF12), 0xF3);
}

#[test]
fn read_range_copies_a_window() {
    let mut bus = MemoryBus::new();
    bus.write(0x9800, 1);
    bus.write(0x9801, 2);
    bus.write(0x9802, 3);
    let window = bus.read_range(0x9800, 4);
    assert_eq!(window, vec![1, 2, 3, 0]);
}
