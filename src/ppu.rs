use crate::{signed_byte, wrap8};
use vstd::prelude::*;

verus! {

/// Width of the frame in pixels.
pub const SCREEN_WIDTH: usize = 160;

/// Height of the frame in pixels.
pub const SCREEN_HEIGHT: usize = 144;

/// Number of pixels in a frame.
pub const FRAME_PIXELS: usize = 23040;

/// Size of video memory in bytes.
pub const VRAM_SIZE: usize = 0x2000;

/// Scanlines per frame, the visible ones and those of vertical blank.
pub const LINES_PER_FRAME: u8 = 154;

/// The first scanline of vertical blank.
pub const VBLANK_LINE: u8 = 144;

/// Shade of colour index 0, the lightest (packed 0x00RRGGBB).
pub const SHADE_0: u32 = 0x00FF_FFFF;

/// Shade of colour index 1.
pub const SHADE_1: u32 = 0x00AA_AAAA;

/// Shade of colour index 2.
pub const SHADE_2: u32 = 0x0055_5555;

/// Shade of colour index 3, the darkest.
pub const SHADE_3: u32 = 0x0000_0000;

/// The colour of every pixel while the display is switched off.
pub const BLANK_COLOR: u32 = SHADE_0;

/// Offset in video memory of the first background tile map.
pub const MAP_0: usize = 0x1800;

/// Offset in video memory of the second background tile map.
pub const MAP_1: usize = 0x1C00;

/// Display-control bit that switches the display on.
pub const LCDC_DISPLAY_ENABLE: u8 = 0x80;

/// Display-control bit that selects unsigned tile-data addressing.
pub const LCDC_TILE_DATA_UNSIGNED: u8 = 0x10;

/// Display-control bit that selects the second background tile map.
pub const LCDC_MAP_SELECT: u8 = 0x08;

/// Offset in video memory that signed tile indices count from.
pub const SIGNED_TILE_BASE: i32 = 0x1000;

/// The pixel processing unit: video memory, scanline counter and frame buffer.
pub struct PPU {
    vram: [u8; 0x2000],
    line: u8,
    frame: [u32; 23040],
    second_map: bool,
}

/// What a pixel processing unit holds.
pub struct PpuView {
    pub vram: Seq<u8>,
    pub line: u8,
    pub frame: Seq<u32>,
    pub map_base: int,
}

impl View for PPU {
    type V = PpuView;

    closed spec fn view(&self) -> PpuView {
        PpuView {
            vram: self.vram@,
            line: self.line,
            frame: self.frame@,
            map_base: if self.second_map {
                MAP_1 as int
            } else {
                MAP_0 as int
            },
        }
    }
}

/// The state at power-on: video memory cleared, the counter on line 0, the
/// frame blank and the first tile map selected.
pub open spec fn power_on_view() -> PpuView {
    PpuView {
        vram: Seq::new(VRAM_SIZE as nat, |i: int| 0u8),
        line: 0,
        frame: Seq::new(FRAME_PIXELS as nat, |i: int| BLANK_COLOR),
        map_base: MAP_0 as int,
    }
}

/// The counter after one tick: one line on, back to 0 after the last line.
pub open spec fn next_line(line: u8) -> u8 {
    if line + 1 >= LINES_PER_FRAME {
        0
    } else {
        (line + 1) as u8
    }
}

/// Offset of the tile map that the display-control byte selects.
pub open spec fn map_base_of(lcdc: u8) -> int {
    if lcdc & LCDC_MAP_SELECT != 0 {
        MAP_1 as int
    } else {
        MAP_0 as int
    }
}

/// Offset of a tile's 16 bytes of data: index times 16 in unsigned mode, and
/// 0x1000 plus the signed index times 16 in signed mode.
pub open spec fn tile_data_offset(lcdc: u8, index: u8) -> int {
    if lcdc & LCDC_TILE_DATA_UNSIGNED != 0 {
        index * 16
    } else {
        SIGNED_TILE_BASE + signed_byte(index) * 16
    }
}

/// The map coordinate that a screen coordinate samples under a scroll value,
/// modulo 256.
pub open spec fn scrolled(p: int, scroll: u8) -> u8 {
    wrap8(p + scroll)
}

/// Offset in video memory of the map entry for map coordinates `(mx, my)`.
pub open spec fn map_entry_offset(lcdc: u8, mx: u8, my: u8) -> int {
    map_base_of(lcdc) + (my / 8) * 32 + mx / 8
}

/// Bit `k` of a byte.
pub open spec fn bit_of(b: u8, k: u8) -> u8 {
    (b >> k) & 1
}

/// The shade of a 2-bit colour index.
pub open spec fn shade_of(color: int) -> u32 {
    if color == 0 {
        SHADE_0
    } else if color == 1 {
        SHADE_1
    } else if color == 2 {
        SHADE_2
    } else {
        SHADE_3
    }
}

/// The background colour of screen pixel `(x, y)`; `prior` where the tile
/// row would lie past the end of video memory.
pub open spec fn pixel_color(
    vram: Seq<u8>,
    lcdc: u8,
    scx: u8,
    scy: u8,
    x: int,
    y: int,
    prior: u32,
) -> u32 {
    let mx = scrolled(x, scx);
    let my = scrolled(y, scy);
    let index = vram[map_entry_offset(lcdc, mx, my)];
    let data = tile_data_offset(lcdc, index) + (my % 8) * 2;
    if data + 1 < VRAM_SIZE {
        let k = (7 - mx % 8) as u8;
        shade_of(2 * bit_of(vram[data + 1], k) + bit_of(vram[data], k))
    } else {
        prior
    }
}

/// The unit after drawing the background: a blank frame while the display is
/// off, else every pixel from the tile map that the control byte selects.
pub open spec fn render_spec(p: PpuView, lcdc: u8, scx: u8, scy: u8) -> PpuView {
    if lcdc & LCDC_DISPLAY_ENABLE == 0 {
        PpuView { frame: Seq::new(FRAME_PIXELS as nat, |i: int| BLANK_COLOR), ..p }
    } else {
        PpuView {
            frame: Seq::new(
                FRAME_PIXELS as nat,
                |i: int|
                    pixel_color(
                        p.vram,
                        lcdc,
                        scx,
                        scy,
                        i % SCREEN_WIDTH as int,
                        i / SCREEN_WIDTH as int,
                        p.frame[i],
                    ),
            ),
            map_base: map_base_of(lcdc),
            ..p
        }
    }
}

/// The unit after one tick: the counter moves on, and on reaching the first
/// line of vertical blank the background is drawn.
pub open spec fn tick_spec(p: PpuView, lcdc: u8, scx: u8, scy: u8) -> PpuView {
    let moved = PpuView { line: next_line(p.line), ..p };
    if moved.line == VBLANK_LINE {
        render_spec(moved, lcdc, scx, scy)
    } else {
        moved
    }
}

/// The counter after `n` ticks from `line`.
pub open spec fn line_after(line: u8, n: nat) -> u8
    decreases n,
{
    if n == 0 {
        line
    } else {
        next_line(line_after(line, (n - 1) as nat))
    }
}

/// The tick, counted from 1, of a cycle started on `line` that reaches the
/// first line of vertical blank.
pub open spec fn vblank_tick(line: u8) -> int {
    if line < VBLANK_LINE {
        VBLANK_LINE - line
    } else {
        LINES_PER_FRAME + VBLANK_LINE - line
    }
}

proof fn lemma_line_after(line: u8, n: nat)
    requires
        line < LINES_PER_FRAME,
    ensures
        line_after(line, n) == (line + n) % 154,
    decreases n,
{
    if n > 0 {
        lemma_line_after(line, (n - 1) as nat);
    }
}

/// Over 154 consecutive ticks from any line of the cycle, vertical blank is
/// reported on exactly one tick, the 144th when starting from line 0, and the
/// counter ends on the line it started from.
pub proof fn lemma_scanline_cycle(line: u8)
    requires
        line < LINES_PER_FRAME,
    ensures
        line_after(line, 154) == line,
        1 <= vblank_tick(line) <= 154,
        forall|n: nat|
            1 <= n <= 154 ==> (#[trigger] line_after(line, n) == VBLANK_LINE <==> n == vblank_tick(
                line,
            )),
        line == 0 ==> vblank_tick(line) == 144,
{
    lemma_line_after(line, 154);
    assert forall|n: nat| 1 <= n <= 154 implies (#[trigger] line_after(line, n) == VBLANK_LINE
        <==> n == vblank_tick(line)) by {
        lemma_line_after(line, n);
    }
}

/// The map coordinate sampled for a screen pixel is the pixel coordinate plus
/// the scroll value modulo 256, and the map entry and tile data it selects
/// lie inside video memory, whatever the scroll values and tile index.
pub proof fn lemma_scroll_wraps(lcdc: u8, scx: u8, scy: u8, x: int, y: int, index: u8)
    requires
        0 <= x < SCREEN_WIDTH,
        0 <= y < SCREEN_HEIGHT,
    ensures
        scrolled(x, scx) == (x + scx) % 256,
        scrolled(y, scy) == (y + scy) % 256,
        map_base_of(lcdc) <= map_entry_offset(lcdc, scrolled(x, scx), scrolled(y, scy))
            < map_base_of(lcdc) + 0x400,
        map_entry_offset(lcdc, scrolled(x, scx), scrolled(y, scy)) < VRAM_SIZE,
        0 <= tile_data_offset(lcdc, index),
        tile_data_offset(lcdc, index) + 16 <= VRAM_SIZE,
{
}

proof fn lemma_pixel_index(y: int, x: int)
    requires
        0 <= y < SCREEN_HEIGHT,
        0 <= x < SCREEN_WIDTH,
    ensures
        0 <= y * 160 + x < FRAME_PIXELS,
        (y * 160 + x) % 160 == x,
        (y * 160 + x) / 160 == y,
{
    assert(0 <= y * 160 + x < 23040) by (nonlinear_arith)
        requires
            0 <= y < 144,
            0 <= x < 160,
    ;
    vstd::arithmetic::div_mod::lemma_fundamental_div_mod_converse(y * 160 + x, 160, y, x);
}

/// Video memory always holds 8 KB and the frame one colour per pixel.
pub proof fn lemma_ppu_sizes(p: &PPU)
    ensures
        p@.vram.len() == VRAM_SIZE,
        p@.frame.len() == FRAME_PIXELS,
{
}

impl PPU {
    pub fn new() -> (r: Self)
        ensures
            r@ == power_on_view(),
    {
        let r = PPU { vram: [0; 0x2000], line: 0, frame: [BLANK_COLOR; 23040], second_map: false };
        assert(r@.vram =~= Seq::new(VRAM_SIZE as nat, |i: int| 0u8));
        assert(r@.frame =~= Seq::new(FRAME_PIXELS as nat, |i: int| BLANK_COLOR));
        r
    }

    /// The scanline the counter is on.
    pub fn line(&self) -> (r: u8)
        ensures
            r == self@.line,
    {
        self.line
    }

    pub(crate) fn read_vram(&self, offset: usize) -> (r: u8)
        requires
            offset < VRAM_SIZE,
        ensures
            r == self@.vram[offset as int],
    {
        self.vram[offset]
    }

    pub(crate) fn write_vram(&mut self, offset: usize, byte: u8)
        requires
            offset < VRAM_SIZE,
        ensures
            final(self)@ == (PpuView { vram: old(self)@.vram.update(offset as int, byte), ..old(self)@ }),
    {
        self.vram[offset] = byte;
        assert(self@.vram =~= old(self)@.vram.update(offset as int, byte));
    }

    /// The frame buffer: one packed colour per pixel, row by row.
    pub fn frame_buffer(&self) -> (r: &[u32; 23040])
        ensures
            r@ == self@.frame,
    {
        &self.frame
    }

    /// A copy of the 1 KB background tile map currently selected, for inspection.
    pub fn tile_map_snapshot(&self) -> (r: Vec<u8>)
        ensures
            r@ == self@.vram.subrange(self@.map_base, self@.map_base + 0x400),
    {
        let base = if self.second_map {
            MAP_1
        } else {
            MAP_0
        };
        let mut out: Vec<u8> = Vec::new();
        let mut i: usize = 0;
        while i < 0x400
            invariant
                i <= 0x400,
                base == self@.map_base,
                out@ == self@.vram.subrange(base as int, base + i),
            decreases 0x400 - i,
        {
            out.push(self.vram[base + i]);
            i += 1;
            assert(out@ =~= self@.vram.subrange(base as int, base + i));
        }
        out
    }

    /// Offset in video memory of a tile's data under the addressing mode
    /// that the display-control byte selects.
    pub fn tile_data_address(lcdc: u8, index: u8) -> (r: usize)
        ensures
            r == tile_data_offset(lcdc, index),
    {
        if lcdc & LCDC_TILE_DATA_UNSIGNED != 0 {
            index as usize * 16
        } else {
            let signed = index as i8;
            assert(index < 0x80 ==> (#[verifier::truncate] (index as i8)) as i32 == index as i32)
                by (bit_vector);
            assert(index >= 0x80 ==> (#[verifier::truncate] (index as i8)) as i32 == index as i32
                - 0x100) by (bit_vector);
            (SIGNED_TILE_BASE + signed as i32 * 16) as usize
        }
    }

    /// The 2-bit colour index of bit `k` of a tile row: the high plane gives
    /// its top bit, the low plane its bottom bit.
    fn color_index(low: u8, high: u8, k: u8) -> (r: u8)
        requires
            k < 8,
        ensures
            r == 2 * bit_of(high, k) + bit_of(low, k),
            r < 4,
    {
        let low_bit = (low >> k) & 1;
        let high_bit = (high >> k) & 1;
        assert(high_bit << 1u8 | low_bit == 2 * high_bit + low_bit && 2 * high_bit + low_bit < 4)
            by (bit_vector)
            requires
                low_bit == (low >> k) & 1,
                high_bit == (high >> k) & 1,
        ;
        high_bit << 1 | low_bit
    }

    fn shade(color: u8) -> (r: u32)
        requires
            color < 4,
        ensures
            r == shade_of(color as int),
    {
        match color {
            0 => SHADE_0,
            1 => SHADE_1,
            2 => SHADE_2,
            _ => SHADE_3,
        }
    }

    /// The background colour of pixel `(x, y)`, whose map row is `my`;
    /// `prior` where its tile row lies past video memory.
    fn background_pixel(
        &self,
        lcdc: u8,
        scx: u8,
        scy: u8,
        x: usize,
        y: usize,
        my: u8,
        prior: u32,
    ) -> (r: u32)
        requires
            x < SCREEN_WIDTH,
            y < SCREEN_HEIGHT,
            my == scrolled(y as int, scy),
        ensures
            r == pixel_color(self@.vram, lcdc, scx, scy, x as int, y as int, prior),
    {
        let mx = (x as u8).wrapping_add(scx);
        let base = if lcdc & LCDC_MAP_SELECT != 0 {
            MAP_1
        } else {
            MAP_0
        };
        let index = self.vram[base + (my / 8) as usize * 32 + (mx / 8) as usize];
        let data = Self::tile_data_address(lcdc, index) + (my % 8) as usize * 2;
        if data + 1 < VRAM_SIZE {
            let low = self.vram[data];
            let high = self.vram[data + 1];
            let k = 7 - mx % 8;
            Self::shade(Self::color_index(low, high, k))
        } else {
            prior
        }
    }

    /// Draws the background into the frame buffer.
    fn render(&mut self, lcdc: u8, scx: u8, scy: u8)
        ensures
            final(self)@ == render_spec(old(self)@, lcdc, scx, scy),
    {
        if lcdc & LCDC_DISPLAY_ENABLE == 0 {
            let mut i: usize = 0;
            while i < FRAME_PIXELS
                invariant
                    i <= FRAME_PIXELS,
                    self@ == (PpuView { frame: self@.frame, ..old(self)@ }),
                    forall|j: int| 0 <= j < i ==> self@.frame[j] == BLANK_COLOR,
                decreases FRAME_PIXELS - i,
            {
                self.frame[i] = BLANK_COLOR;
                i += 1;
            }
            assert(self@.frame =~= Seq::new(FRAME_PIXELS as nat, |j: int| BLANK_COLOR));
            return;
        }
        self.second_map = lcdc & LCDC_MAP_SELECT != 0;
        let ghost start = self@;
        proof {
            lemma_ppu_sizes(self);
        }
        let mut y: usize = 0;
        while y < SCREEN_HEIGHT
            invariant
                y <= SCREEN_HEIGHT,
                start.frame.len() == FRAME_PIXELS,
                self@ == (PpuView { frame: self@.frame, ..start }),
                forall|j: int|
                    0 <= j < y * 160 ==> self@.frame[j] == pixel_color(
                        start.vram,
                        lcdc,
                        scx,
                        scy,
                        j % 160,
                        j / 160,
                        start.frame[j],
                    ),
                forall|j: int| y * 160 <= j < FRAME_PIXELS ==> self@.frame[j] == start.frame[j],
            decreases SCREEN_HEIGHT - y,
        {
            let my = (y as u8).wrapping_add(scy);
            let mut x: usize = 0;
            while x < SCREEN_WIDTH
                invariant
                    y < SCREEN_HEIGHT,
                    x <= SCREEN_WIDTH,
                    start.frame.len() == FRAME_PIXELS,
                    my == scrolled(y as int, scy),
                    self@ == (PpuView { frame: self@.frame, ..start }),
                    forall|j: int|
                        0 <= j < y * 160 + x ==> self@.frame[j] == pixel_color(
                            start.vram,
                            lcdc,
                            scx,
                            scy,
                            j % 160,
                            j / 160,
                            start.frame[j],
                        ),
                    forall|j: int| y * 160 + x <= j < FRAME_PIXELS ==> self@.frame[j] == start.frame[j],
                decreases SCREEN_WIDTH - x,
            {
                proof {
                    lemma_pixel_index(y as int, x as int);
                }
                let index = y * SCREEN_WIDTH + x;
                let prior = self.frame[index];
                let color = self.background_pixel(lcdc, scx, scy, x, y, my, prior);
                let ghost prev = self@.frame;
                self.frame[index] = color;
                proof {
                    assert forall|j: int| 0 <= j < index + 1 implies self@.frame[j] == pixel_color(
                        start.vram,
                        lcdc,
                        scx,
                        scy,
                        j % 160,
                        j / 160,
                        start.frame[j],
                    ) by {
                        if j == index {
                            assert(j % 160 == x && j / 160 == y);
                        } else {
                            assert(self@.frame[j] == prev[j]);
                        }
                    }
                }
                x += 1;
            }
            y += 1;
        }
        assert(self@.frame =~= render_spec(old(self)@, lcdc, scx, scy).frame);
    }

    /// Advances the counter by one scanline; on reaching the first line of
    /// vertical blank draws the background and reports it.
    pub fn tick(&mut self, lcdc: u8, scx: u8, scy: u8) -> (vblank: bool)
        ensures
            final(self)@ == tick_spec(old(self)@, lcdc, scx, scy),
            vblank == (final(self)@.line == VBLANK_LINE),
    {
        self.line = if self.line >= LINES_PER_FRAME - 1 {
            0
        } else {
            self.line + 1
        };
        if self.line == VBLANK_LINE {
            self.render(lcdc, scx, scy);
            true
        } else {
            false
        }
    }
}

} // verus!
