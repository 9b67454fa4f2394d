//! Background rendering: the pixel of a text background, of an affine
//! background and of the three bitmap modes, and the loops that fill a line.
use vstd::prelude::*;
use vstd::array::spec_array_update;
use crate::bits::{lemma_tabulate, tabulate};
use crate::gba::{LCD_HEIGHT, LCD_PIXELS, LCD_WIDTH};
use crate::ppu::lcd::{Ppu, BGCONTROL, LINE_WIDTH};
use crate::ppu::sprite::{byte_at, half_at, read_byte, read_half};

verus! {

/// `upper` where it holds a colour, and `lower` where it is transparent.
pub open spec fn spec_overlay(upper: Option<u16>, lower: Option<u16>) -> Option<u16> {
    if upper is Some {
        upper
    } else {
        lower
    }
}

/// `upper` where it holds a colour, and `lower` where it is transparent.
#[verifier::when_used_as_spec(spec_overlay)]
pub fn overlay(upper: Option<u16>, lower: Option<u16>) -> (r: Option<u16>)
    ensures
        r == spec_overlay(upper, lower),
{
    if upper.is_some() {
        upper
    } else {
        lower
    }
}

/// The colour of palette entry `index` of the 16-colour palette that a
/// tile of 4 bits per pixel names, or of the one palette of 256 colours;
/// entry 0 is transparent. `base` is the byte offset of the palette.
pub open spec fn palette_lookup(palette_ram: Seq<u8>, base: int, index: int) -> Option<u16> {
    if index == 0 {
        None
    } else {
        Some(half_at(palette_ram, base + 2 * index))
    }
}

fn lookup(palette_ram: &[u8], base: usize, index: usize) -> (r: Option<u16>)
    requires
        base <= 0x400,
        index <= 255,
    ensures
        r == palette_lookup(palette_ram@, base as int, index as int),
{
    if index == 0 {
        None
    } else {
        Some(read_half(palette_ram, base + 2 * index))
    }
}

/// The colour index that a tile holds for the pixel at `offset` (row times
/// 8 plus column), the tile starting at `tile_start` in video memory.
pub open spec fn tile_index(vram: Seq<u8>, tile_start: int, offset: int, bpp: bool) -> int {
    if bpp {
        byte_at(vram, tile_start + offset) as int
    } else if offset % 2 == 1 {
        byte_at(vram, tile_start + offset / 2) as int / 16
    } else {
        byte_at(vram, tile_start + offset / 2) as int % 16
    }
}

/// Read a colour index out of a tile.
pub fn read_tile_index(vram: &[u8], tile_start: usize, offset: usize, bpp: bool) -> (r: usize)
    requires
        tile_start <= 0x10_0000,
        offset < 64,
    ensures
        r == tile_index(vram@, tile_start as int, offset as int, bpp),
        r <= 255,
        !bpp ==> r <= 15,
{
    if bpp {
        read_byte(vram, tile_start + offset) as usize
    } else if offset % 2 == 1 {
        (read_byte(vram, tile_start + offset / 2) / 16) as usize
    } else {
        (read_byte(vram, tile_start + offset / 2) % 16) as usize
    }
}

/// The position within a row or column of a tile, mirrored where `flip`.
pub open spec fn flipped(v: int, flip: bool) -> int {
    if flip {
        7 - v % 8
    } else {
        v % 8
    }
}

/// The screen block, counted from the background's first, that holds the
/// map entry of the pixel at horizontal position `x_sum` and vertical
/// position `y_off` of the background.
pub open spec fn screen_block(size: u8, x_sum: int, y_off: int) -> int {
    let across = (x_sum % 512) / 256;
    let down = (y_off % 512) / 256;
    if size == 0 {
        0
    } else if size == 1 {
        across
    } else if size == 2 {
        down
    } else {
        across + down
    }
}

/// The pixel of a text background at screen column `x` of line `ly`:
/// the map entry of the tile under the scrolled position names the tile,
/// its flips and its palette, and the tile holds the colour index.
pub open spec fn text_bg_pixel(
    cnt: BGCONTROL,
    hofs: u16,
    vofs: u16,
    ly: u8,
    x: int,
    vram: Seq<u8>,
    palette_ram: Seq<u8>,
) -> Option<u16> {
    let y_off = (ly + vofs) % 256;
    let x_sum = x + hofs;
    let x_off = x_sum % 256;
    let map_data = cnt.spec_screen_base_block() * 0x800 + screen_block(
        cnt.spec_screen_size(),
        x_sum,
        y_off,
    ) * 0x800 + 2 * (32 * (y_off / 8) + x_off / 8);
    let tile_id = half_at(vram, map_data) as int;
    let tile_start = cnt.spec_char_base_block() * 0x4000 + (tile_id % 1024) * (if cnt.spec_bpp() {
        64int
    } else {
        32int
    });
    let h_flip = (tile_id / 1024) % 2 == 1;
    let v_flip = (tile_id / 2048) % 2 == 1;
    let offset = flipped(y_off, v_flip) * 8 + flipped(x_off, h_flip);
    let index = tile_index(vram, tile_start, offset, cnt.spec_bpp());
    if cnt.spec_bpp() {
        palette_lookup(palette_ram, 0, index)
    } else {
        palette_lookup(palette_ram, (tile_id / 4096) * 0x20, index)
    }
}

/// The pixel of a text background at screen column `x` of line `ly`.
pub fn text_pixel(
    cnt: BGCONTROL,
    hofs: u16,
    vofs: u16,
    ly: u8,
    x: usize,
    vram: &[u8],
    palette_ram: &[u8],
) -> (r: Option<u16>)
    requires
        x < LINE_WIDTH,
    ensures
        r == text_bg_pixel(cnt, hofs, vofs, ly, x as int, vram@, palette_ram@),
{
    let y_off = (ly as usize + vofs as usize) % 256;
    let x_sum = x + hofs as usize;
    let x_off = x_sum % 256;
    let across = (x_sum % 512) / 256;
    let down = (y_off % 512) / 256;
    let size = cnt.screen_size();
    let sbb_off = if size == 0 {
        0
    } else if size == 1 {
        across
    } else if size == 2 {
        down
    } else {
        across + down
    };
    let map_data = cnt.screen_base_block() as usize * 0x800 + sbb_off * 0x800 + 2 * (32 * (y_off / 8)
        + x_off / 8);
    let tile_id = read_half(vram, map_data) as usize;
    let bpp = cnt.bpp();
    let tile_start = cnt.char_base_block() as usize * 0x4000 + (tile_id % 1024) * (if bpp {
        64
    } else {
        32
    });
    let h_flip = (tile_id / 1024) % 2 == 1;
    let v_flip = (tile_id / 2048) % 2 == 1;
    let column = if h_flip {
        7 - x_off % 8
    } else {
        x_off % 8
    };
    let row = if v_flip {
        7 - y_off % 8
    } else {
        y_off % 8
    };
    let offset = row * 8 + column;
    let index = read_tile_index(vram, tile_start, offset, bpp);
    if bpp {
        lookup(palette_ram, 0, index)
    } else {
        lookup(palette_ram, (tile_id / 4096) * 0x20, index)
    }
}

/// A 28-bit pattern in the low bits of `raw`, read as a two's complement
/// number.
pub open spec fn signed28(raw: u32) -> int {
    let m = raw as int % 0x1000_0000;
    if m >= 0x800_0000 {
        m - 0x1000_0000
    } else {
        m
    }
}

fn to_signed28(raw: u32) -> (r: i64)
    ensures
        r == signed28(raw),
{
    let m = (raw % 0x1000_0000) as i64;
    if m >= 0x800_0000 {
        m - 0x1000_0000
    } else {
        m
    }
}

/// The side of an affine background in pixels.
pub open spec fn affine_size(size: u8) -> int {
    if size == 0 {
        128
    } else if size == 1 {
        256
    } else if size == 2 {
        512
    } else {
        1024
    }
}

/// A fixed-point coordinate with 8 fraction bits, rounded down to a whole
/// pixel and, where `wrap`, taken modulo the side of the background.
/// Nothing where the pixel lies outside and the background does not wrap.
pub open spec fn affine_coordinate(fixed: int, size: u8, wrap: bool) -> Option<int> {
    let whole = fixed / 256;
    if wrap {
        Some(whole % affine_size(size))
    } else if 0 <= whole < affine_size(size) {
        Some(whole)
    } else {
        None
    }
}

/// Moving a number up by a multiple of the divisor moves the quotient up by
/// the factor and leaves the remainder.
proof fn lemma_shift_multiple(x: int, d: int, k: int)
    requires
        d > 0,
    ensures
        (x + k * d) / d == x / d + k,
        (x + k * d) % d == x % d,
{
    vstd::arithmetic::div_mod::lemma_fundamental_div_mod(x, d);
    assert(x + k * d == (x / d + k) * d + x % d) by (nonlinear_arith)
        requires
            x == d * (x / d) + (x % d),
    ;
    vstd::arithmetic::div_mod::lemma_fundamental_div_mod_converse(x + k * d, d, x / d + k, x % d);
}

fn coordinate(fixed: i64, size: u8, wrap: bool) -> (r: Option<usize>)
    requires
        -0x1_0000_0000 <= fixed <= 0x1_0000_0000,
    ensures
        match affine_coordinate(fixed as int, size, wrap) {
            Some(v) => r == Some(v as usize) && 0 <= v < affine_size(size),
            None => r is None,
        },
{
    // Moved up by a multiple of every side, so that all numbers are positive.
    let shifted: u64 = (fixed + 0x1_0000_0000) as u64;
    let whole: u64 = shifted / 256;
    let ghost q = fixed as int / 256;
    proof {
        lemma_shift_multiple(fixed as int, 256, 0x100_0000);
        assert(whole == q + 0x100_0000);
        lemma_shift_multiple(q, affine_size(size), 0x100_0000int / affine_size(size));
        assert((0x100_0000int / affine_size(size)) * affine_size(size) == 0x100_0000);
        assert(whole as int % affine_size(size) == q % affine_size(size));
    }
    let side: u64 = if size == 0 {
        128
    } else if size == 1 {
        256
    } else if size == 2 {
        512
    } else {
        1024
    };
    if wrap {
        Some((whole % side) as usize)
    } else if 0x100_0000 <= whole && whole < 0x100_0000 + side {
        Some((whole - 0x100_0000) as usize)
    } else {
        None
    }
}

/// The pixel of an affine background at screen column `x`: the reference
/// point of the line plus `x` steps of (PA, PC) gives the texture
/// position; the map holds one byte per tile and every tile has 8 bits
/// per pixel.
pub open spec fn affine_bg_pixel(
    cnt: BGCONTROL,
    ref_x: u32,
    ref_y: u32,
    pa: i16,
    pc: i16,
    x: int,
    vram: Seq<u8>,
    palette_ram: Seq<u8>,
) -> Option<u16> {
    let size = cnt.spec_screen_size();
    let wrap = cnt.spec_disp_area_overflow();
    match (
        affine_coordinate(signed28(ref_x) + pa * x, size, wrap),
        affine_coordinate(signed28(ref_y) + pc * x, size, wrap),
    ) {
        (Some(tx), Some(ty)) => {
            let map_data = cnt.spec_screen_base_block() * 0x800 + (affine_size(size) / 8) * (ty / 8) + tx
                / 8;
            let tile_id = byte_at(vram, map_data) as int;
            let tile_start = cnt.spec_char_base_block() * 0x4000 + tile_id * 64;
            let index = tile_index(vram, tile_start, (ty % 8) * 8 + tx % 8, true);
            palette_lookup(palette_ram, 0, index)
        },
        _ => None,
    }
}

/// The pixel of an affine background at screen column `x`.
pub fn affine_pixel(
    cnt: BGCONTROL,
    ref_x: u32,
    ref_y: u32,
    pa: i16,
    pc: i16,
    x: usize,
    vram: &[u8],
    palette_ram: &[u8],
) -> (r: Option<u16>)
    requires
        x < LINE_WIDTH,
    ensures
        r == affine_bg_pixel(cnt, ref_x, ref_y, pa, pc, x as int, vram@, palette_ram@),
{
    let size = cnt.screen_size();
    let wrap = cnt.disp_area_overflow();
    assert(-0x100_0000 <= pa * x <= 0x100_0000) by (nonlinear_arith)
        requires
            -0x8000 <= pa < 0x8000,
            0 <= x < 512,
    ;
    assert(-0x100_0000 <= pc * x <= 0x100_0000) by (nonlinear_arith)
        requires
            -0x8000 <= pc < 0x8000,
            0 <= x < 512,
    ;
    let fx: i64 = to_signed28(ref_x) + (pa as i64) * (x as i64);
    let fy: i64 = to_signed28(ref_y) + (pc as i64) * (x as i64);
    let cx = coordinate(fx, size, wrap);
    let cy = coordinate(fy, size, wrap);
    match (cx, cy) {
        (Some(tx), Some(ty)) => {
            let side: usize = if size == 0 {
                128
            } else if size == 1 {
                256
            } else if size == 2 {
                512
            } else {
                1024
            };
            assert((side / 8) * (ty / 8) <= 128 * 128) by (nonlinear_arith)
                requires
                    side <= 1024,
                    ty < 1024,
            ;
            let map_data = cnt.screen_base_block() as usize * 0x800 + (side / 8) * (ty / 8) + tx / 8;
            let tile_id = read_byte(vram, map_data) as usize;
            let tile_start = cnt.char_base_block() as usize * 0x4000 + tile_id * 64;
            let index = read_tile_index(vram, tile_start, (ty % 8) * 8 + tx % 8, true);
            lookup(palette_ram, 0, index)
        },
        _ => None,
    }
}

/// The byte offset of the bitmap frame that is shown.
pub open spec fn frame_base(second: bool) -> int {
    if second {
        0xA000
    } else {
        0
    }
}

/// The pixel of the bitmap modes at column `x` of line `ly`. Mode 3 holds
/// 240 by 160 colours; mode 4 holds 240 by 160 palette indices in one of
/// two frames; mode 5 holds 160 by 128 colours in one of two frames, and
/// outside of them nothing. Other modes have no bitmap.
pub open spec fn bitmap_pixel(
    mode: u8,
    second_frame: bool,
    ly: u8,
    x: int,
    vram: Seq<u8>,
    palette_ram: Seq<u8>,
) -> Option<u16> {
    if mode == 3 {
        Some(half_at(vram, (ly * 240 + x) * 2))
    } else if mode == 4 {
        Some(half_at(palette_ram, 2 * byte_at(vram, frame_base(second_frame) + ly * 240 + x)))
    } else if mode == 5 && x < 160 && ly < 128 {
        Some(half_at(vram, frame_base(second_frame) + (ly * 160 + x) * 2))
    } else {
        None
    }
}

/// The pixel of the bitmap modes at column `x` of line `ly`.
pub fn bitmap_px(mode: u8, second_frame: bool, ly: u8, x: usize, vram: &[u8], palette_ram: &[u8]) -> (r:
    Option<u16>)
    requires
        x < LCD_WIDTH,
    ensures
        r == bitmap_pixel(mode, second_frame, ly, x as int, vram@, palette_ram@),
{
    let base: usize = if second_frame {
        0xA000
    } else {
        0
    };
    if mode == 3 {
        Some(read_half(vram, (ly as usize * 240 + x) * 2))
    } else if mode == 4 {
        Some(read_half(palette_ram, 2 * (read_byte(vram, base + ly as usize * 240 + x) as usize)))
    } else if mode == 5 && x < 160 && ly < 128 {
        Some(read_half(vram, base + (ly as usize * 160 + x) * 2))
    } else {
        None
    }
}

/// The text background line as a function of the screen column: the
/// rendered pixel over what the line held.
pub open spec fn text_line(
    base: [Option<u16>; LINE_WIDTH],
    cnt: BGCONTROL,
    hofs: u16,
    vofs: u16,
    ly: u8,
    vram: Seq<u8>,
    palette_ram: Seq<u8>,
) -> spec_fn(int) -> Option<u16> {
    |x: int| spec_overlay(text_bg_pixel(cnt, hofs, vofs, ly, x, vram, palette_ram), base[x])
}

/// The affine background line as a function of the screen column: the
/// rendered pixel over what the line held.
pub open spec fn affine_line(
    base: [Option<u16>; LINE_WIDTH],
    cnt: BGCONTROL,
    ref_x: u32,
    ref_y: u32,
    pa: i16,
    pc: i16,
    vram: Seq<u8>,
    palette_ram: Seq<u8>,
) -> spec_fn(int) -> Option<u16> {
    |x: int| spec_overlay(affine_bg_pixel(cnt, ref_x, ref_y, pa, pc, x, vram, palette_ram), base[x])
}

/// The bitmap line as a function of the screen column.
pub open spec fn bitmap_line(mode: u8, second_frame: bool, ly: u8, vram: Seq<u8>, palette_ram: Seq<u8>)
    -> spec_fn(int) -> Option<u16> {
    |x: int| bitmap_pixel(mode, second_frame, ly, x, vram, palette_ram)
}

impl Ppu {
    /// The unit after text background `bg` was rendered for the current
    /// line: the 240 visible entries of the background's line hold the
    /// rendered pixels, over what was there where a pixel is transparent.
    pub open spec fn render_text_bg_spec(self, bg: int, vram: Seq<u8>, palette_ram: Seq<u8>) -> Ppu {
        Ppu {
            current_bg_line: spec_array_update(
                self.current_bg_line,
                bg,
                tabulate(
                    self.current_bg_line[bg],
                    0,
                    LCD_WIDTH as nat,
                    text_line(
                        self.current_bg_line[bg],
                        self.bgxcnt[bg],
                        self.bgxhofs[bg],
                        self.bgxvofs[bg],
                        self.vcount.spec_ly(),
                        vram,
                        palette_ram,
                    ),
                ),
            ),
            ..self
        }
    }

    /// Render text background `BG` for the current line.
    pub fn render_text_bg<const BG: usize>(&mut self, vram: &[u8], palette_ram: &[u8])
        requires
            BG < 4,
        ensures
            *final(self) == old(self).render_text_bg_spec(BG as int, vram@, palette_ram@),
    {
        let bg_cnt = self.bgxcnt[BG];
        let bg_hofs = self.bgxhofs[BG];
        let bg_vofs = self.bgxvofs[BG];
        let ly = self.vcount.ly();
        let base = self.current_bg_line[BG];
        let mut line = base;
        let ghost f = text_line(base, bg_cnt, bg_hofs, bg_vofs, ly, vram@, palette_ram@);

        let mut x: usize = 0;
        while x < LCD_WIDTH
            invariant
                x <= LCD_WIDTH,
                f == text_line(base, bg_cnt, bg_hofs, bg_vofs, ly, vram@, palette_ram@),
                line == tabulate(base, 0, x as nat, f),
            decreases LCD_WIDTH - x,
        {
            proof {
                lemma_tabulate(base, 0, x as nat, f);
            }
            let px = text_pixel(bg_cnt, bg_hofs, bg_vofs, ly, x, vram, palette_ram);
            line[x] = overlay(px, line[x]);
            x += 1;
        }
        self.current_bg_line[BG] = line;
    }

    /// The unit after affine background `bg` (2 or 3) was rendered for
    /// the current line from its internal reference point.
    pub open spec fn render_affine_bg_spec(self, bg: int, vram: Seq<u8>, palette_ram: Seq<u8>) -> Ppu {
        Ppu {
            current_bg_line: spec_array_update(
                self.current_bg_line,
                bg,
                tabulate(
                    self.current_bg_line[bg],
                    0,
                    LCD_WIDTH as nat,
                    affine_line(
                        self.current_bg_line[bg],
                        self.bgxcnt[bg],
                        self.internal_ref_xx[bg - 2],
                        self.internal_ref_xy[bg - 2],
                        self.bgxpa[bg - 2],
                        self.bgxpc[bg - 2],
                        vram,
                        palette_ram,
                    ),
                ),
            ),
            ..self
        }
    }

    /// Render affine background `BG` for the current line.
    pub fn render_affine_bg<const BG: usize>(&mut self, vram: &[u8], palette_ram: &[u8])
        requires
            2 <= BG < 4,
        ensures
            *final(self) == old(self).render_affine_bg_spec(BG as int, vram@, palette_ram@),
    {
        let bg_cnt = self.bgxcnt[BG];
        let ref_x = self.internal_ref_xx[BG - 2];
        let ref_y = self.internal_ref_xy[BG - 2];
        let pa = self.bgxpa[BG - 2];
        let pc = self.bgxpc[BG - 2];
        let base = self.current_bg_line[BG];
        let mut line = base;
        let ghost f = affine_line(base, bg_cnt, ref_x, ref_y, pa, pc, vram@, palette_ram@);

        let mut x: usize = 0;
        while x < LCD_WIDTH
            invariant
                x <= LCD_WIDTH,
                f == affine_line(base, bg_cnt, ref_x, ref_y, pa, pc, vram@, palette_ram@),
                line == tabulate(base, 0, x as nat, f),
            decreases LCD_WIDTH - x,
        {
            proof {
                lemma_tabulate(base, 0, x as nat, f);
            }
            let px = affine_pixel(bg_cnt, ref_x, ref_y, pa, pc, x, vram, palette_ram);
            line[x] = overlay(px, line[x]);
            x += 1;
        }
        self.current_bg_line[BG] = line;
    }

    /// The unit after the current line of a bitmap mode was written into
    /// the frame.
    pub open spec fn render_bitmap_spec(self, vram: Seq<u8>, palette_ram: Seq<u8>) -> Ppu {
        Ppu {
            buffer: Box::new(
                tabulate(
                    *self.buffer,
                    self.vcount.spec_ly() * LCD_WIDTH,
                    LCD_WIDTH as nat,
                    bitmap_line(
                        self.dispcnt.spec_bg_mode(),
                        self.dispcnt.spec_frame_select(),
                        self.vcount.spec_ly(),
                        vram,
                        palette_ram,
                    ),
                ),
            ),
            ..self
        }
    }

    /// Write the current line of a bitmap mode into the frame.
    pub fn render_bitmap(&mut self, vram: &[u8], palette_ram: &[u8])
        requires
            old(self).vcount.spec_ly() < LCD_HEIGHT,
        ensures
            *final(self) == old(self).render_bitmap_spec(vram@, palette_ram@),
    {
        let mode = self.dispcnt.bg_mode();
        let second = self.dispcnt.frame_select();
        let ly = self.vcount.ly();
        let start = ly as usize * LCD_WIDTH;
        let ghost f = bitmap_line(mode, second, ly, vram@, palette_ram@);

        let mut x: usize = 0;
        while x < LCD_WIDTH
            invariant
                x <= LCD_WIDTH,
                start + LCD_WIDTH <= LCD_PIXELS,
                start == ly * LCD_WIDTH,
                f == bitmap_line(mode, second, ly, vram@, palette_ram@),
                *self == (Ppu {
                    buffer: Box::new(tabulate(*old(self).buffer, start as int, x as nat, f)),
                    ..*old(self)
                }),
            decreases LCD_WIDTH - x,
        {
            let px = bitmap_px(mode, second, ly, x, vram, palette_ram);
            self.buffer[start + x] = px;
            x += 1;
        }
    }
}

} // verus!
