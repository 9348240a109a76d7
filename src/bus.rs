use crate::ppu::{lemma_ppu_sizes, power_on_view, tick_spec, PpuView, PPU, VBLANK_LINE, VRAM_SIZE};
use crate::{lemma_compose, lemma_split, high_byte, low_byte, word, wrap16};
use vstd::prelude::*;

verus! {

/// First address of the video-memory window.
pub const VRAM_START: u16 = 0x8000;

/// Last address of the video-memory window.
pub const VRAM_END: u16 = 0x9FFF;

/// First address of the I/O register window.
pub const IO_START: u16 = 0xFF00;

/// Last address of the I/O register window.
pub const IO_END: u16 = 0xFF7F;

/// Display-control register.
pub const LCDC_ADDR: u16 = 0xFF40;

/// Vertical scroll register.
pub const SCY_ADDR: u16 = 0xFF42;

/// Horizontal scroll register.
pub const SCX_ADDR: u16 = 0xFF43;

/// Scanline register: reads give the pixel unit's live counter.
pub const LY_ADDR: u16 = 0xFF44;

/// Interrupt-flag register.
pub const IF_ADDR: u16 = 0xFF0F;

/// Boot-ROM-disable register.
pub const BOOT_OFF_ADDR: u16 = 0xFF50;

/// The 64 KB address space: flat storage, the I/O registers and the pixel unit.
pub struct MemoryBus {
    memory: [u8; 0x10000],
    io: [u8; 0x80],
    ppu: PPU,
}

/// What a bus holds.
pub struct BusView {
    pub memory: Seq<u8>,
    pub io: Seq<u8>,
    pub ppu: PpuView,
}

pub open spec fn in_vram(addr: u16) -> bool {
    VRAM_START <= addr <= VRAM_END
}

pub open spec fn in_io(addr: u16) -> bool {
    IO_START <= addr <= IO_END
}

impl BusView {
    /// The sizes that every bus has.
    pub open spec fn wf(self) -> bool {
        &&& self.memory.len() == 0x10000
        &&& self.io.len() == 0x80
        &&& self.ppu.vram.len() == VRAM_SIZE
    }

    /// The byte that a read of `addr` gives.
    pub open spec fn read(self, addr: u16) -> u8 {
        if in_vram(addr) {
            self.ppu.vram[addr - VRAM_START]
        } else if addr == LY_ADDR {
            self.ppu.line
        } else if in_io(addr) {
            self.io[addr - IO_START]
        } else {
            self.memory[addr as int]
        }
    }

    /// The bus after a write of `byte` to `addr`.
    pub open spec fn write(self, addr: u16, byte: u8) -> BusView {
        if in_vram(addr) {
            BusView {
                ppu: PpuView { vram: self.ppu.vram.update(addr - VRAM_START, byte), ..self.ppu },
                ..self
            }
        } else if in_io(addr) {
            BusView { io: self.io.update(addr - IO_START, byte), ..self }
        } else {
            BusView { memory: self.memory.update(addr as int, byte), ..self }
        }
    }

    /// The little-endian word at `addr`: low byte there, high byte at the next address.
    pub open spec fn read_word(self, addr: u16) -> u16 {
        word(self.read(wrap16(addr + 1)), self.read(addr))
    }

    /// The bus after a little-endian write of `value` at `addr`, low byte first.
    pub open spec fn write_word(self, addr: u16, value: u16) -> BusView {
        self.write(addr, low_byte(value)).write(wrap16(addr + 1), high_byte(value))
    }
}

impl View for MemoryBus {
    type V = BusView;

    closed spec fn view(&self) -> BusView {
        BusView { memory: self.memory@, io: self.io@, ppu: self.ppu@ }
    }
}

/// A bus always spans 64 KB of flat storage, 128 I/O registers and 8 KB of video memory.
pub proof fn lemma_bus_sizes(bus: &MemoryBus)
    ensures
        bus@.memory.len() == 0x10000,
        bus@.io.len() == 0x80,
        bus@.ppu.vram.len() == VRAM_SIZE,
        bus@.wf(),
{
    lemma_ppu_sizes(&bus.ppu);
}

/// A write keeps the sizes of the bus, and a read of another address is not
/// changed by it.
pub proof fn lemma_write_other(bus: BusView, addr: u16, byte: u8, other: u16)
    requires
        bus.wf(),
        other != addr,
    ensures
        bus.write(addr, byte).wf(),
        bus.write(addr, byte).read(other) == bus.read(other),
{
}

/// Reading back a byte just written gives it, except at the scanline
/// register, which always reads as the live counter.
pub proof fn lemma_write_read(bus: BusView, addr: u16, byte: u8)
    requires
        bus.wf(),
        addr != LY_ADDR,
    ensures
        bus.write(addr, byte).read(addr) == byte,
{
}

/// Reading back a word just written gives it, where neither of its two
/// addresses is the scanline register.
pub proof fn lemma_word_round_trip(bus: BusView, addr: u16, value: u16)
    requires
        bus.wf(),
        addr != LY_ADDR,
        wrap16(addr + 1) != LY_ADDR,
    ensures
        bus.write_word(addr, value).wf(),
        bus.write_word(addr, value).read_word(addr) == value,
{
    let next = wrap16(addr + 1);
    let b1 = bus.write(addr, low_byte(value));
    lemma_write_other(bus, addr, low_byte(value), next);
    lemma_write_read(bus, addr, low_byte(value));
    lemma_write_other(b1, next, high_byte(value), addr);
    lemma_write_read(b1, next, high_byte(value));
}

/// A word write leaves every address other than its two unchanged.
pub proof fn lemma_write_word_other(bus: BusView, addr: u16, value: u16, other: u16)
    requires
        bus.wf(),
        other != addr,
        other != wrap16(addr + 1),
    ensures
        bus.write_word(addr, value).read(other) == bus.read(other),
{
    lemma_write_other(bus, addr, low_byte(value), other);
    lemma_write_other(bus.write(addr, low_byte(value)), wrap16(addr + 1), high_byte(value), other);
}

impl MemoryBus {
    /// All storage cleared and a fresh pixel unit.
    pub fn new() -> (r: Self)
        ensures
            r@.memory == Seq::new(0x10000, |i: int| 0u8),
            r@.io == Seq::new(0x80, |i: int| 0u8),
            r@.ppu == power_on_view(),
    {
        let r = MemoryBus { memory: [0; 0x10000], io: [0; 0x80], ppu: PPU::new() };
        assert(r@.memory =~= Seq::new(0x10000, |i: int| 0u8));
        assert(r@.io =~= Seq::new(0x80, |i: int| 0u8));
        r
    }

    pub fn read_byte(&self, address: u16) -> (r: u8)
        ensures
            r == self@.read(address),
    {
        proof {
            lemma_bus_sizes(self);
        }
        match address {
            VRAM_START..=VRAM_END => self.ppu.read_vram((address - VRAM_START) as usize),
            LY_ADDR => self.ppu.line(),
            IO_START..=IO_END => self.io[(address - IO_START) as usize],
            _ => self.memory[address as usize],
        }
    }

    pub fn write_byte(&mut self, address: u16, byte: u8)
        ensures
            final(self)@ == old(self)@.write(address, byte),
    {
        proof {
            lemma_bus_sizes(self);
        }
        match address {
            VRAM_START..=VRAM_END => self.ppu.write_vram((address - VRAM_START) as usize, byte),
            IO_START..=IO_END => {
                self.io[(address - IO_START) as usize] = byte;
                assert(self@.io =~= old(self)@.io.update(address - IO_START, byte));
            },
            _ => {
                self.memory[address as usize] = byte;
                assert(self@.memory =~= old(self)@.memory.update(address as int, byte));
            },
        }
    }

    /// Reads a little-endian word: the low byte first, then the high byte.
    pub fn read_word(&self, address: u16) -> (r: u16)
        ensures
            r == self@.read_word(address),
    {
        let low = self.read_byte(address);
        let high = self.read_byte(address.wrapping_add(1));
        proof {
            lemma_compose(high, low);
        }
        (high as u16) << 8 | low as u16
    }

    /// Writes a little-endian word: the low byte first, then the high byte.
    pub fn write_word(&mut self, address: u16, value: u16)
        ensures
            final(self)@ == old(self)@.write_word(address, value),
    {
        proof {
            lemma_split(value);
        }
        let low = (value & 0x00FF) as u8;
        let high = ((value & 0xFF00) >> 8) as u8;
        self.write_byte(address, low);
        self.write_byte(address.wrapping_add(1), high);
    }

    /// The pixel unit, for reading its frame buffer and counter.
    pub fn ppu(&self) -> (r: &PPU)
        ensures
            r@ == self@.ppu,
    {
        &self.ppu
    }

    /// Advances the pixel unit by one scanline with the given display-control
    /// and scroll values; true when vertical blank begins.
    pub fn tick_ppu(&mut self, lcdc: u8, scx: u8, scy: u8) -> (vblank: bool)
        ensures
            final(self)@ == (BusView { ppu: tick_spec(old(self)@.ppu, lcdc, scx, scy), ..old(self)@ }),
            vblank == (final(self)@.ppu.line == VBLANK_LINE),
    {
        self.ppu.tick(lcdc, scx, scy)
    }
}

} // verus!
