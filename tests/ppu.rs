use gb_core::bus::MemoryBus;
use gb_core::ppu::{PPU, SHADE_0, SHADE_1, SHADE_2, SHADE_3};

const LCDC_ON_UNSIGNED: u8 = 0x80 | 0x10;

fn run_to_vblank(bus: &mut MemoryBus, lcdc: u8, scx: u8, scy: u8) {
    for n in 1..=144 {
        let vblank = bus.tick_ppu(lcdc, scx, scy);
        assert_eq!(vblank, n == 144);
    }
}

#[test]
fn scanline_cycle_reports_vblank_once() {
    let mut ppu = PPU::new();
    let mut reported = Vec::new();
    for n in 1..=154u32 {
        if ppu.tick(0, 0, 0) {
            reported.push(n);
        }
        if n == 144 {
            assert_eq!(ppu.line(), 144);
        }
    }
    assert_eq!(reported, vec![144]);
    assert_eq!(ppu.line(), 0);
}

#[test]
fn scanline_cycle_from_mid_frame() {
    let mut ppu = PPU::new();
    for _ in 0..150 {
        ppu.tick(0, 0, 0);
    }
    assert_eq!(ppu.line(), 150);
    let mut reported = Vec::new();
    for n in 1..=154u32 {
        if ppu.tick(0, 0, 0) {
            reported.push(n);
        }
    }
    assert_eq!(reported, vec![148]);
    assert_eq!(ppu.line(), 150);
}

#[test]
fn tile_addressing_modes() {
    assert_eq!(PPU::tile_data_address(0x10, 0), 0);
    assert_eq!(PPU::tile_data_address(0x10, 1), 16);
    assert_eq!(PPU::tile_data_address(0x10, 0x80), 0x800);
    assert_eq!(PPU::tile_data_address(0x10, 0xFF), 0xFF0);
    assert_eq!(PPU::tile_data_address(0x00, 0x00), 0x1000);
    assert_eq!(PPU::tile_data_address(0x00, 0x7F), 0x17F0);
    // index 0x80 is -128: 0x1000 - 2048
    assert_eq!(PPU::tile_data_address(0x00, 0x80), 0x0800);
    assert_eq!(PPU::tile_data_address(0x00, 0xFF), 0x0FF0);
}

#[test]
fn display_off_fills_blank() {
    let mut bus = MemoryBus::new();
    bus.write_byte(0x8000, 0xFF);
    bus.write_byte(0x8001, 0xFF);
    run_to_vblank(&mut bus, LCDC_ON_UNSIGNED, 0, 0);
    assert_eq!(bus.ppu().frame_buffer()[0], SHADE_3);
    for n in 1..=154 {
        assert_eq!(bus.tick_ppu(0x00, 0, 0), n == 154);
    }
    assert!(bus.ppu().frame_buffer().iter().all(|c| *c == SHADE_0));
}

#[test]
fn background_shades_from_bitplanes() {
    let mut bus = MemoryBus::new();
    // tile 0, row 0: low plane 0b0101_0000, high plane 0b0011_0000
    bus.write_byte(0x8000, 0b0101_0000);
    bus.write_byte(0x8001, 0b0011_0000);
    run_to_vblank(&mut bus, LCDC_ON_UNSIGNED, 0, 0);
    let frame = bus.ppu().frame_buffer();
    assert_eq!(frame[0], SHADE_0);
    assert_eq!(frame[1], SHADE_1);
    assert_eq!(frame[2], SHADE_2);
    assert_eq!(frame[3], SHADE_3);
    assert_eq!(frame[4], SHADE_0);
    // the next tile column reads map entry 1, also tile 0
    assert_eq!(frame[9], SHADE_1);
    // row 1 of the tile is empty
    assert_eq!(frame[160 + 1], SHADE_0);
}

#[test]
fn scroll_x_wraps_to_last_map_column() {
    let mut bus = MemoryBus::new();
    // map entry (row 0, column 31) selects tile 1, whose row 0 is 0x01 / 0x01
    bus.write_byte(0x9800 + 31, 1);
    bus.write_byte(0x8010, 0x01);
    bus.write_byte(0x8011, 0x01);
    run_to_vblank(&mut bus, LCDC_ON_UNSIGNED, 255, 0);
    let frame = bus.ppu().frame_buffer();
    // x = 0 samples map column 255: tile column 31, its last pixel
    assert_eq!(frame[0], SHADE_3);
    // x = 1 wraps to map column 0
    assert_eq!(frame[1], SHADE_0);
}

#[test]
fn scroll_y_wraps() {
    let mut bus = MemoryBus::new();
    // map row 31 (pixel rows 248..255), column 0, selects tile 2; its row 7 is full
    bus.write_byte(0x9800 + 31 * 32, 2);
    bus.write_byte(0x8020 + 14, 0xFF);
    bus.write_byte(0x8020 + 15, 0x00);
    run_to_vblank(&mut bus, LCDC_ON_UNSIGNED, 0, 255);
    let frame = bus.ppu().frame_buffer();
    assert_eq!(frame[0], SHADE_1);
    assert_eq!(frame[7], SHADE_1);
    assert_eq!(frame[8], SHADE_0);
    assert_eq!(frame[160], SHADE_0);
}

#[test]
fn second_map_and_signed_tiles() {
    let mut bus = MemoryBus::new();
    // second map (0x9C00) entry 0 holds index 0x80 (-128): data at 0x8800
    bus.write_byte(0x9C00, 0x80);
    bus.write_byte(0x8800, 0x80);
    bus.write_byte(0x8801, 0x80);
    // first map entry 0 holds index 0, which signed mode places at 0x9000
    bus.write_byte(0x9000, 0x80);
    run_to_vblank(&mut bus, 0x80 | 0x08, 0, 0);
    let frame = bus.ppu().frame_buffer();
    assert_eq!(frame[0], SHADE_3);
    assert_eq!(frame[1], SHADE_0);
    let map = bus.ppu().tile_map_snapshot();
    assert_eq!(map.len(), 0x400);
    assert_eq!(map[0], 0x80);
}

#[test]
fn first_map_signed_index_zero() {
    let mut bus = MemoryBus::new();
    bus.write_byte(0x9000, 0x80);
    run_to_vblank(&mut bus, 0x80, 0, 0);
    let frame = bus.ppu().frame_buffer();
    assert_eq!(frame[0], SHADE_1);
    assert_eq!(bus.ppu().tile_map_snapshot()[0], 0);
}
