//! Sprite rendering: the pixel of one sprite and the line of all of them.
use vstd::prelude::*;
use crate::bits::{lemma_tabulate_unique, tabulate};
use crate::ppu::background::{flipped, palette_lookup, read_tile_index, tile_index};
use crate::ppu::lcd::{Obj, Ppu, LINE_WIDTH};
use crate::ppu::sprite::{half_at, read_half, ObjMode, Sprite};

verus! {

/// The matrix that leaves a sprite as it is.
pub open spec fn identity_matrix() -> (i16, i16, i16, i16) {
    (0x100i16, 0i16, 0i16, 0x100i16)
}

/// The matrix of a sprite: its rotation group for an affine sprite, where
/// there is such a group, and the identity otherwise.
pub open spec fn sprite_matrix(s: Sprite, params: Seq<(i16, i16, i16, i16)>) -> (i16, i16, i16, i16) {
    if s.rot_scale && s.rot_scale_param < params.len() {
        params[s.rot_scale_param as int]
    } else {
        identity_matrix()
    }
}

/// Whether the sprite's bounding box has twice the size of the sprite.
pub open spec fn doubled(s: Sprite) -> bool {
    s.rot_scale && s.double_or_disable
}

/// The number of screen columns that the sprite paints: the width of its
/// bounding box, and none where a regular sprite is disabled.
pub open spec fn sprite_span(s: Sprite) -> int {
    if !s.rot_scale && s.double_or_disable {
        0
    } else if doubled(s) {
        2 * s.spec_width()
    } else {
        s.spec_width() as int
    }
}

/// The position within the sprite that column `spx` of its bounding box
/// shows on line `ly`: the position relative to the centre of the box goes
/// through the matrix and is rounded down. Nothing where the position lies
/// outside the sprite.
pub open spec fn sprite_texture_position(s: Sprite, matrix: (i16, i16, i16, i16), ly: u8, spx: int)
    -> Option<(int, int)> {
    let w = s.spec_width() as int;
    let h = s.spec_height() as int;
    let box_w = if doubled(s) { 2 * w } else { w };
    let box_h = if doubled(s) { 2 * h } else { h };
    let dx = spx - box_w / 2;
    let dy = (ly - s.top()) - box_h / 2;
    let tx = (matrix.0 * dx + matrix.1 * dy) / 256 + w / 2;
    let ty = (matrix.2 * dx + matrix.3 * dy) / 256 + h / 2;
    if 0 <= tx < w && 0 <= ty < h {
        Some((tx, ty))
    } else {
        None
    }
}

/// The colour of the sprite at position (`tx`, `ty`) within it: flips
/// apply to regular sprites only, `one_dim` selects the tile layout and
/// `low_tiles` whether the sprite tiles start at 0x10000 (and not 0x14000).
pub open spec fn sprite_texel(
    s: Sprite,
    one_dim: bool,
    low_tiles: bool,
    tx: int,
    ty: int,
    vram: Seq<u8>,
    palette_ram: Seq<u8>,
) -> Option<u16> {
    let w = s.spec_width() as int;
    let h = s.spec_height() as int;
    let h_flip = s.h_flip && !s.rot_scale;
    let v_flip = s.v_flip && !s.rot_scale;
    let tile_column = if h_flip { w / 8 - tx / 8 - 1 } else { tx / 8 };
    let tile_row = if v_flip { h / 8 - ty / 8 - 1 } else { ty / 8 };
    let step = if s.bpp { 2int } else { 1int };
    let row_step = if one_dim { (w / 8) * step } else { 0x20 };
    let tile = s.tile_id + tile_column * step + tile_row * row_step;
    let tile_start = (if low_tiles { 0x10000int } else { 0x14000int }) + (tile % 1024) * 32;
    let index = tile_index(vram, tile_start, flipped(ty, v_flip) * 8 + flipped(tx, h_flip), s.bpp);
    palette_lookup(palette_ram, if s.bpp { 0x200 } else { 0x200 + (s.pal_idx % 16) * 0x20 }, index)
}

/// The colour of a sprite at column `spx` of its bounding box on line `ly`.
pub open spec fn sprite_pixel(
    s: Sprite,
    matrix: (i16, i16, i16, i16),
    one_dim: bool,
    low_tiles: bool,
    ly: u8,
    spx: int,
    vram: Seq<u8>,
    palette_ram: Seq<u8>,
) -> Option<u16> {
    match sprite_texture_position(s, matrix, ly, spx) {
        Some((tx, ty)) => sprite_texel(s, one_dim, low_tiles, tx, ty, vram, palette_ram),
        None => None,
    }
}

/// A fixed-point number rounded down to a whole one.
fn floor256(v: i64) -> (r: i64)
    requires
        -0x1_0000_0000 <= v <= 0x1_0000_0000,
    ensures
        r == v as int / 256,
{
    proof {
        vstd::arithmetic::div_mod::lemma_fundamental_div_mod(v as int, 256);
        vstd::arithmetic::div_mod::lemma_fundamental_div_mod_converse(
            v + 0x1_0000_0000,
            256,
            v as int / 256 + 0x100_0000,
            v as int % 256,
        );
    }
    ((v + 0x1_0000_0000) / 256) - 0x100_0000
}

/// A product of a matrix entry and a distance from the centre of the box.
fn scaled(m: i16, d: i64) -> (r: i64)
    requires
        -0x200 <= d <= 0x200,
    ensures
        r == m * d,
        -0x100_0000 <= r <= 0x100_0000,
{
    assert(-0x100_0000 <= m * d <= 0x100_0000) by (nonlinear_arith)
        requires
            -0x8000 <= m < 0x8000,
            -0x200 <= d <= 0x200,
    ;
    (m as i64) * d
}

fn texture_position(s: &Sprite, matrix: (i16, i16, i16, i16), ly: u8, spx: usize) -> (r: Option<
    (usize, usize),
>)
    requires
        spx < 128,
    ensures
        match sprite_texture_position(*s, matrix, ly, spx as int) {
            Some((tx, ty)) => r == Some((tx as usize, ty as usize)) && 0 <= tx < s.spec_width() && 0
                <= ty < s.spec_height(),
            None => r is None,
        },
{
    let w = s.width() as i64;
    let h = s.height() as i64;
    let double = s.rot_scale && s.double_or_disable;
    let box_w: i64 = if double { 2 * w } else { w };
    let box_h: i64 = if double { 2 * h } else { h };
    let top: i64 = if s.y >= 160 { s.y as i64 - 256 } else { s.y as i64 };
    let dx: i64 = spx as i64 - box_w / 2;
    let dy: i64 = (ly as i64 - top) - box_h / 2;
    let tx: i64 = floor256(scaled(matrix.0, dx) + scaled(matrix.1, dy)) + w / 2;
    let ty: i64 = floor256(scaled(matrix.2, dx) + scaled(matrix.3, dy)) + h / 2;
    if 0 <= tx && tx < w && 0 <= ty && ty < h {
        Some((tx as usize, ty as usize))
    } else {
        None
    }
}

fn texel(
    s: &Sprite,
    one_dim: bool,
    low_tiles: bool,
    tx: usize,
    ty: usize,
    vram: &[u8],
    palette_ram: &[u8],
) -> (r: Option<u16>)
    requires
        tx < s.spec_width(),
        ty < s.spec_height(),
    ensures
        r == sprite_texel(*s, one_dim, low_tiles, tx as int, ty as int, vram@, palette_ram@),
{
    let w = s.width() as usize;
    let h = s.height() as usize;
    let h_flip = s.h_flip && !s.rot_scale;
    let v_flip = s.v_flip && !s.rot_scale;
    let tile_column: usize = if h_flip { w / 8 - tx / 8 - 1 } else { tx / 8 };
    let tile_row: usize = if v_flip { h / 8 - ty / 8 - 1 } else { ty / 8 };
    let step: usize = if s.bpp { 2 } else { 1 };
    assert(0 <= (w / 8) * step <= 16) by (nonlinear_arith)
        requires
            0 <= w <= 64,
            1 <= step <= 2,
    ;
    let row_step: usize = if one_dim { (w / 8) * step } else { 0x20 };
    assert(0 <= tile_column * step <= 16) by (nonlinear_arith)
        requires
            0 <= tile_column <= 7,
            1 <= step <= 2,
    ;
    assert(0 <= tile_row * row_step <= 7 * 0x20) by (nonlinear_arith)
        requires
            0 <= tile_row <= 7,
            0 <= row_step <= 0x20,
    ;
    let tile: usize = s.tile_id as usize + tile_column * step + tile_row * row_step;
    let tile_start: usize = (if low_tiles { 0x10000 } else { 0x14000 }) + (tile % 1024) * 32;
    let row_in: usize = if v_flip { 7 - ty % 8 } else { ty % 8 };
    let column_in: usize = if h_flip { 7 - tx % 8 } else { tx % 8 };
    let index = read_tile_index(vram, tile_start, row_in * 8 + column_in, s.bpp);
    let base: usize = if s.bpp { 0x200 } else { 0x200 + (s.pal_idx % 16) as usize * 0x20 };
    if index == 0 {
        None
    } else {
        Some(read_half(palette_ram, base + 2 * index))
    }
}

/// The colour of a sprite at column `spx` of its bounding box.
pub fn sprite_px(
    s: &Sprite,
    matrix: (i16, i16, i16, i16),
    one_dim: bool,
    low_tiles: bool,
    ly: u8,
    spx: usize,
    vram: &[u8],
    palette_ram: &[u8],
) -> (r: Option<u16>)
    requires
        spx < 128,
    ensures
        r == sprite_pixel(*s, matrix, one_dim, low_tiles, ly, spx as int, vram@, palette_ram@),
{
    match texture_position(s, matrix, ly, spx) {
        Some((tx, ty)) => texel(s, one_dim, low_tiles, tx, ty, vram, palette_ram),
        None => None,
    }
}

/// A screen column is `spx` columns to the right of `x`, wrapping at 512,
/// just when it is the column that `x + spx` wraps to.
proof fn lemma_column(x: int, spx: int, c: int)
    requires
        0 <= x,
        0 <= spx < 512,
        0 <= c < 512,
    ensures
        ((c - x) % 512 == spx) <==> (c == (x + spx) % 512),
{
    vstd::arithmetic::div_mod::lemma_fundamental_div_mod(c - x, 512);
    vstd::arithmetic::div_mod::lemma_fundamental_div_mod(x + spx, 512);
    if (c - x) % 512 == spx {
        vstd::arithmetic::div_mod::lemma_fundamental_div_mod_converse(
            x + spx,
            512,
            -((c - x) / 512),
            c,
        );
    }
    if c == (x + spx) % 512 {
        vstd::arithmetic::div_mod::lemma_fundamental_div_mod_converse(
            c - x,
            512,
            -((x + spx) / 512),
            spx,
        );
    }
}

/// The colour of a sprite at screen column `c`, or nothing where the
/// sprite does not reach or is transparent.
pub open spec fn sprite_at_column(
    s: Sprite,
    params: Seq<(i16, i16, i16, i16)>,
    one_dim: bool,
    low_tiles: bool,
    ly: u8,
    c: int,
    vram: Seq<u8>,
    palette_ram: Seq<u8>,
) -> Option<u16> {
    let spx = (c - s.x) % 512;
    if spx < sprite_span(s) {
        sprite_pixel(s, sprite_matrix(s, params), one_dim, low_tiles, ly, spx, vram, palette_ram)
    } else {
        None
    }
}

/// What a sprite shows on screen column `c`: its colour with its priority
/// and its transparency, or nothing where it does not reach, is
/// transparent or belongs to the object window.
pub open spec fn sprite_obj_at(
    s: Sprite,
    params: Seq<(i16, i16, i16, i16)>,
    one_dim: bool,
    low_tiles: bool,
    ly: u8,
    c: int,
    vram: Seq<u8>,
    palette_ram: Seq<u8>,
) -> Option<Obj> {
    match sprite_at_column(s, params, one_dim, low_tiles, ly, c, vram, palette_ram) {
        Some(px) if s.obj_mode != ObjMode::Window => Some(
            Obj { px: Some(px), prio: s.prio, alpha: s.obj_mode == ObjMode::SemiTransparent, window: false },
        ),
        _ => None,
    }
}

/// Whether a sprite puts screen column `c` into the object window: it
/// belongs to the object window and is opaque there.
pub open spec fn sprite_marks_window(
    s: Sprite,
    params: Seq<(i16, i16, i16, i16)>,
    one_dim: bool,
    low_tiles: bool,
    ly: u8,
    c: int,
    vram: Seq<u8>,
    palette_ram: Seq<u8>,
) -> bool {
    s.obj_mode == ObjMode::Window && sprite_at_column(s, params, one_dim, low_tiles, ly, c, vram, palette_ram)
        is Some
}

/// An entry of the sprite line that no sprite reaches.
pub open spec fn blank_obj() -> Obj {
    Obj { px: None, prio: 0, alpha: false, window: false }
}

/// The entry of the sprite line at screen column `c`, the sprites before
/// `from` left aside: the colour is that of the first sprite that shows
/// one there, and the column lies in the object window where any sprite
/// puts it there.
pub open spec fn sprite_line_at(
    sprites: Seq<Sprite>,
    params: Seq<(i16, i16, i16, i16)>,
    one_dim: bool,
    low_tiles: bool,
    ly: u8,
    c: int,
    vram: Seq<u8>,
    palette_ram: Seq<u8>,
    from: int,
) -> Obj
    decreases sprites.len() - from,
{
    if from < 0 || from >= sprites.len() {
        blank_obj()
    } else {
        sprite_over(
            sprites[from],
            sprite_line_at(sprites, params, one_dim, low_tiles, ly, c, vram, palette_ram, from + 1),
            params,
            one_dim,
            low_tiles,
            ly,
            c,
            vram,
            palette_ram,
        )
    }
}

/// The entry of the sprite line at column `c` with sprite `s` in front of
/// what the entry `behind` holds: the colour of `s` where it shows one,
/// and the mark of the object window where `s` sets it.
pub open spec fn sprite_over(
    s: Sprite,
    behind: Obj,
    params: Seq<(i16, i16, i16, i16)>,
    one_dim: bool,
    low_tiles: bool,
    ly: u8,
    c: int,
    vram: Seq<u8>,
    palette_ram: Seq<u8>,
) -> Obj {
    match sprite_obj_at(s, params, one_dim, low_tiles, ly, c, vram, palette_ram) {
        Some(obj) => Obj { window: behind.window, ..obj },
        None => Obj {
            window: behind.window || sprite_marks_window(s, params, one_dim, low_tiles, ly, c, vram, palette_ram),
            ..behind
        },
    }
}

/// The sprite line while one sprite is painted: the columns that lie fewer
/// than `spx` columns to the right of the sprite hold the sprite in front
/// of what they held before, the others what they held before.
pub open spec fn painting(
    s: Sprite,
    prev: [Obj; LINE_WIDTH],
    spx: int,
    params: Seq<(i16, i16, i16, i16)>,
    one_dim: bool,
    low_tiles: bool,
    ly: u8,
    c: int,
    vram: Seq<u8>,
    palette_ram: Seq<u8>,
) -> Obj {
    if (c - s.x) % 512 < spx {
        sprite_over(s, prev[c], params, one_dim, low_tiles, ly, c, vram, palette_ram)
    } else {
        prev[c]
    }
}

/// The sprite line as a function of the screen column.
pub open spec fn sprite_line(
    enabled: bool,
    sprites: Seq<Sprite>,
    params: Seq<(i16, i16, i16, i16)>,
    one_dim: bool,
    low_tiles: bool,
    ly: u8,
    vram: Seq<u8>,
    palette_ram: Seq<u8>,
) -> spec_fn(int) -> Obj {
    |c: int|
        if enabled {
            sprite_line_at(sprites, params, one_dim, low_tiles, ly, c, vram, palette_ram, 0)
        } else {
            blank_obj()
        }
}

impl Ppu {
    /// The unit after the sprites were rendered for the current line: every
    /// entry of the sprite line holds the colour of the first of `sprites`
    /// that shows one there and the mark of the object window, and is
    /// blank where there is nothing or sprites are off.
    pub open spec fn render_sprite_line_spec(
        self,
        vram: Seq<u8>,
        palette_ram: Seq<u8>,
        sprites: Seq<Sprite>,
        params: Seq<(i16, i16, i16, i16)>,
    ) -> Ppu {
        Ppu {
            current_sprite_line: tabulate(
                self.current_sprite_line,
                0,
                LINE_WIDTH as nat,
                sprite_line(
                    self.dispcnt.spec_obj(),
                    sprites,
                    params,
                    self.dispcnt.spec_obj_char_vram_map(),
                    self.dispcnt.spec_bg_mode() < 3,
                    self.vcount.spec_ly(),
                    vram,
                    palette_ram,
                ),
            ),
            ..self
        }
    }

    /// Render the sprites that cover the current line.
    pub fn render_sprite_line(
        &mut self,
        vram: &[u8],
        palette_ram: &[u8],
        sprites: &Vec<Sprite>,
        params: &Vec<(i16, i16, i16, i16)>,
    )
        ensures
            *final(self) == old(self).render_sprite_line_spec(vram@, palette_ram@, sprites@, params@),
    {
        let enabled = self.dispcnt.obj();
        let one_dim = self.dispcnt.obj_char_vram_map();
        let low_tiles = self.dispcnt.bg_mode() < 3;
        let ly = self.vcount.ly();
        let mut line = [Obj { px: None, prio: 0, alpha: false, window: false }; LINE_WIDTH];
        let ghost f = sprite_line(enabled, sprites@, params@, one_dim, low_tiles, ly, vram@, palette_ram@);

        if enabled {
            let mut k: usize = sprites.len();
            while k > 0
                invariant
                    k <= sprites.len(),
                    forall|c: int|
                        0 <= c < LINE_WIDTH ==> #[trigger] line[c] == sprite_line_at(
                            sprites@,
                            params@,
                            one_dim,
                            low_tiles,
                            ly,
                            c,
                            vram@,
                            palette_ram@,
                            k as int,
                        ),
                decreases k,
            {
                k -= 1;
                let s = &sprites[k];
                let ghost prev = line;
                if !(!s.rot_scale && s.double_or_disable) {
                    let matrix = if s.rot_scale && (s.rot_scale_param as usize) < params.len() {
                        params[s.rot_scale_param as usize]
                    } else {
                        (0x100i16, 0i16, 0i16, 0x100i16)
                    };
                    let span: usize = if s.rot_scale && s.double_or_disable {
                        2 * (s.width() as usize)
                    } else {
                        s.width() as usize
                    };
                    let marks = matches!(s.obj_mode, ObjMode::Window);
                    let mut spx: usize = 0;
                    while spx < span
                        invariant
                            spx <= span,
                            span == sprite_span(*s),
                            span <= 128,
                            marks == (s.obj_mode == ObjMode::Window),
                            matrix == sprite_matrix(*s, params@),
                            forall|c: int|
                                0 <= c < LINE_WIDTH ==> #[trigger] line[c] == painting(
                                    *s,
                                    prev,
                                    spx as int,
                                    params@,
                                    one_dim,
                                    low_tiles,
                                    ly,
                                    c,
                                    vram@,
                                    palette_ram@,
                                ),
                        decreases span - spx,
                    {
                        let column = (s.x as usize + spx) % 512;
                        let px = sprite_px(s, matrix, one_dim, low_tiles, ly, spx, vram, palette_ram);
                        let ghost before = line;
                        if let Some(colour) = px {
                            let behind = line[column];
                            line[column] = if marks {
                                Obj { px: behind.px, prio: behind.prio, alpha: behind.alpha, window: true }
                            } else {
                                Obj {
                                    px: Some(colour),
                                    prio: s.prio,
                                    alpha: matches!(s.obj_mode, ObjMode::SemiTransparent),
                                    window: behind.window,
                                }
                            };
                        }
                        proof {
                            assert forall|c: int| 0 <= c < LINE_WIDTH implies #[trigger] line[c] == painting(
                                *s,
                                prev,
                                spx + 1,
                                params@,
                                one_dim,
                                low_tiles,
                                ly,
                                c,
                                vram@,
                                palette_ram@,
                            ) by {
                                lemma_column(s.x as int, spx as int, c);
                                assert(before[c] == painting(
                                    *s,
                                    prev,
                                    spx as int,
                                    params@,
                                    one_dim,
                                    low_tiles,
                                    ly,
                                    c,
                                    vram@,
                                    palette_ram@,
                                ));
                            }
                        }
                        spx += 1;
                    }
                }
            }
        }
        proof {
            lemma_tabulate_unique(line, old(self).current_sprite_line, 0, LINE_WIDTH as nat, f);
        }
        self.current_sprite_line = line;
    }
}

} // verus!
