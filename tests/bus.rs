use gb_core::bus::{MemoryBus, LY_ADDR};

#[test]
fn flat_memory_read_write() {
    let mut bus = MemoryBus::new();
    assert_eq!(bus.read_byte(0xC123), 0);
    bus.write_byte(0xC123, 0x5A);
    assert_eq!(bus.read_byte(0xC123), 0x5A);
    bus.write_byte(0xFFFF, 0x01);
    assert_eq!(bus.read_byte(0xFFFF), 0x01);
}

#[test]
fn video_memory_window() {
    let mut bus = MemoryBus::new();
    bus.write_byte(0x8000, 0x11);
    bus.write_byte(0x9FFF, 0x22);
    assert_eq!(bus.read_byte(0x8000), 0x11);
    assert_eq!(bus.read_byte(0x9FFF), 0x22);
    assert_eq!(bus.ppu().tile_map_snapshot().len(), 0x400);
}

#[test]
fn io_window_registers() {
    let mut bus = MemoryBus::new();
    bus.write_byte(0xFF40, 0x91);
    bus.write_byte(0xFF43, 0x07);
    assert_eq!(bus.read_byte(0xFF40), 0x91);
    assert_eq!(bus.read_byte(0xFF43), 0x07);
}

#[test]
fn scanline_register_mirrors_counter() {
    let mut bus = MemoryBus::new();
    assert_eq!(bus.read_byte(LY_ADDR), 0);
    bus.tick_ppu(0, 0, 0);
    bus.tick_ppu(0, 0, 0);
    assert_eq!(bus.read_byte(LY_ADDR), 2);
    bus.write_byte(LY_ADDR, 0x77);
    assert_eq!(bus.read_byte(LY_ADDR), 2);
}

#[test]
fn word_little_endian() {
    let mut bus = MemoryBus::new();
    bus.write_word(0xC000, 0xABCD);
    assert_eq!(bus.read_byte(0xC000), 0xCD);
    assert_eq!(bus.read_byte(0xC001), 0xAB);
    assert_eq!(bus.read_word(0xC000), 0xABCD);
}

#[test]
fn word_across_window_boundary() {
    let mut bus = MemoryBus::new();
    bus.write_word(0x9FFF, 0x1234);
    assert_eq!(bus.read_byte(0x9FFF), 0x34);
    assert_eq!(bus.read_byte(0xA000), 0x12);
    assert_eq!(bus.read_word(0x9FFF), 0x1234);
}

#[test]
fn word_wraps_at_top_of_memory() {
    let mut bus = MemoryBus::new();
    bus.write_word(0xFFFF, 0xBEEF);
    assert_eq!(bus.read_byte(0xFFFF), 0xEF);
    assert_eq!(bus.read_byte(0x0000), 0xBE);
    assert_eq!(bus.read_word(0xFFFF), 0xBEEF);
}
