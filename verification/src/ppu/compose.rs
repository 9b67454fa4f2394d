//! Composition of a line: which layer is on top at a pixel, the colour
//! special effects and the write into the frame.
use vstd::prelude::*;
use vstd::array::spec_array_update;
use crate::bits::{bit16, spec_bit16, tabulate};
use crate::gba::{LCD_HEIGHT, LCD_PIXELS, LCD_WIDTH};
use crate::ppu::lcd::{mask_has, spec_mask_has, ColorEffect, Obj, Ppu, Window, LINE_WIDTH};
use crate::ppu::sprite::{half_at, read_half};
use crate::ppu::{blend, blend_spec, modify_brightness, modify_brightness_spec};

verus! {

/// The layer number of the sprites; the backgrounds are layers 0 to 3.
pub const OBJ_LAYER: usize = 4;

/// The layer number of the backdrop, which lies behind every other layer.
pub const BACKDROP: usize = 5;

/// A layer number that no layer has.
pub const NO_LAYER: usize = 6;

impl Ppu {
    /// Whether the windows let `layer` show at column `x` of the current
    /// line: with no window enabled every layer shows; otherwise the mask
    /// of the region that holds the pixel decides.
    pub open spec fn layer_shown(&self, layer: usize, x: usize) -> bool {
        if !self.dispcnt.spec_windowing() {
            true
        } else if layer > BACKDROP {
            false
        } else {
            match self.in_window_spec(x, self.vcount.spec_ly() as usize) {
                Window::Win0 => spec_bit16(self.winin.0, layer as u16),
                Window::Win1 => spec_bit16(self.winin.0, (layer + 8) as u16),
                Window::WinOut => spec_bit16(self.winout.0, layer as u16),
                Window::ObjWin => spec_bit16(self.winout.0, (layer + 8) as u16),
            }
        }
    }

    /// Whether the windows let `layer` show at column `x` of the current line.
    pub fn is_layer_shown(&self, layer: usize, x: usize) -> (r: bool)
        ensures
            r == self.layer_shown(layer, x),
    {
        if !self.dispcnt.windowing() {
            true
        } else if layer > BACKDROP {
            false
        } else {
            match self.in_window(x, self.vcount.ly() as usize) {
                Window::Win0 => bit16(self.winin.0, layer as u16),
                Window::Win1 => bit16(self.winin.0, (layer + 8) as u16),
                Window::WinOut => bit16(self.winout.0, layer as u16),
                Window::ObjWin => bit16(self.winout.0, (layer + 8) as u16),
            }
        }
    }

    /// The colour that `layer` offers at column `x`: that of its line
    /// buffer where the layer is enabled and shown, and nothing otherwise.
    pub open spec fn layer_px(&self, layer: usize, x: usize) -> Option<u16> {
        if x >= LINE_WIDTH {
            None
        } else if layer == OBJ_LAYER {
            if self.dispcnt.spec_obj() && self.layer_shown(layer, x) {
                self.current_sprite_line[x as int].px
            } else {
                None
            }
        } else if layer < OBJ_LAYER {
            if self.dispcnt.spec_bg(layer) && self.layer_shown(layer, x) {
                self.current_bg_line[layer as int][x as int]
            } else {
                None
            }
        } else {
            None
        }
    }

    /// The colour that `layer` offers at column `x`.
    pub fn read_layer_px(&self, layer: usize, x: usize) -> (r: Option<u16>)
        ensures
            r == self.layer_px(layer, x),
    {
        if x >= LINE_WIDTH {
            None
        } else if layer == OBJ_LAYER {
            if self.dispcnt.obj() && self.is_layer_shown(layer, x) {
                self.current_sprite_line[x].px
            } else {
                None
            }
        } else if layer < OBJ_LAYER {
            if self.dispcnt.bg(layer) && self.is_layer_shown(layer, x) {
                self.current_bg_line[layer][x]
            } else {
                None
            }
        } else {
            None
        }
    }

    /// The priority of `layer` at column `x`, the lower the further in
    /// front: that of the sprite for the sprite layer, that of BGxCNT for a
    /// background, and a number behind all of them for the backdrop.
    pub open spec fn layer_prio(&self, layer: usize, x: usize) -> int {
        if layer == OBJ_LAYER && x < LINE_WIDTH {
            self.current_sprite_line[x as int].prio as int
        } else if layer < OBJ_LAYER {
            self.bgxcnt[layer as int].spec_prio() as int
        } else {
            256
        }
    }

    /// The priority of `layer` at column `x`.
    pub fn read_layer_prio(&self, layer: usize, x: usize) -> (r: u16)
        ensures
            r == self.layer_prio(layer, x),
    {
        if layer == OBJ_LAYER && x < LINE_WIDTH {
            self.current_sprite_line[x].prio as u16
        } else if layer < OBJ_LAYER {
            self.bgxcnt[layer].prio() as u16
        } else {
            256
        }
    }

    /// `layer` where it offers a colour at `x`, is not `without` and lies
    /// in front of `best`; `best` otherwise.
    pub open spec fn better(&self, best: usize, layer: usize, without: usize, x: usize) -> usize {
        if layer != without && self.layer_px(layer, x) is Some && self.layer_prio(layer, x)
            < self.layer_prio(best, x) {
            layer
        } else {
            best
        }
    }

    fn pick_better(&self, best: usize, layer: usize, without: usize, x: usize) -> (r: usize)
        ensures
            r == self.better(best, layer, without, x),
    {
        if layer != without && self.read_layer_px(layer, x).is_some() && self.read_layer_prio(layer, x)
            < self.read_layer_prio(best, x) {
            layer
        } else {
            best
        }
    }

    /// The layer in front at column `x`, the layer `without` left aside:
    /// among the layers that offer a colour the one of least priority
    /// number, the sprites before the backgrounds and a lower background
    /// before a higher one where several share it; the backdrop where no
    /// layer offers a colour.
    pub open spec fn top_layer(&self, x: usize, without: usize) -> usize {
        self.better(
            self.better(
                self.better(
                    self.better(self.better(BACKDROP, OBJ_LAYER, without, x), 0, without, x),
                    1,
                    without,
                    x,
                ),
                2,
                without,
                x,
            ),
            3,
            without,
            x,
        )
    }

    /// The layer in front at column `x`, the layer `without` left aside.
    pub fn find_top_layer(&self, x: usize, without: usize) -> (r: usize)
        ensures
            r == self.top_layer(x, without),
            r <= BACKDROP,
            r != BACKDROP ==> self.layer_px(r, x) is Some,
    {
        let a = self.pick_better(BACKDROP, OBJ_LAYER, without, x);
        let b = self.pick_better(a, 0, without, x);
        let c = self.pick_better(b, 1, without, x);
        let d = self.pick_better(c, 2, without, x);
        self.pick_better(d, 3, without, x)
    }

    /// The colour of the pixel at column `x` after composition: that of the
    /// layer in front, and nothing where the backdrop shows.
    pub open spec fn composed_px(&self, x: usize) -> Option<u16> {
        self.layer_px(self.top_layer(x, NO_LAYER), x)
    }

    /// The colour special effect at column `x`: the layer whose colour the
    /// effect replaces and the new colour, or nothing where only the
    /// backdrop shows. The layer in front is the upper layer and the next
    /// one behind it, or the backdrop, the lower. A semi-transparent sprite
    /// in front is blended with the lower layer where that is a second
    /// target; otherwise the effect of BLDCNT applies where the upper layer
    /// is a first target and, for a blend, the lower a second target.
    pub open spec fn effect_colour(&self, palette_ram: Seq<u8>, x: usize) -> Option<(usize, u16)> {
        let top = self.top_layer(x, NO_LAYER);
        if top == BACKDROP {
            None
        } else {
            let second = self.top_layer(x, top);
            let upper = self.layer_px(top, x)->Some_0;
            let lower = if second == BACKDROP {
                half_at(palette_ram, 0)
            } else {
                self.layer_px(second, x)->Some_0
            };
            let first_target = spec_mask_has(self.bldcnt.spec_first_targets(), top);
            let second_target = spec_mask_has(self.bldcnt.spec_second_targets(), second);
            let blended = blend_spec(upper, lower, self.bldalpha.spec_eva(), self.bldalpha.spec_evb()) as u16;
            if top == OBJ_LAYER && self.current_sprite_line[x as int].alpha {
                Some((top, if second_target { blended } else { upper }))
            } else {
                match self.bldcnt.spec_color_effect() {
                    ColorEffect::AlphaBlending => Some(
                        (top, if first_target && second_target { blended } else { upper }),
                    ),
                    ColorEffect::BrightnessIncrease => Some(
                        (
                            top,
                            if first_target {
                                modify_brightness_spec(upper, self.bldy.spec_evy(), true) as u16
                            } else {
                                upper
                            },
                        ),
                    ),
                    ColorEffect::BrightnessDecrease => Some(
                        (
                            top,
                            if first_target {
                                modify_brightness_spec(upper, self.bldy.spec_evy(), false) as u16
                            } else {
                                upper
                            },
                        ),
                    ),
                    ColorEffect::NoEffect => Some((top, upper)),
                }
            }
        }
    }

    /// The colour special effect at column `x`.
    pub fn effect_at(&self, palette_ram: &[u8], x: usize) -> (r: Option<(usize, u16)>)
        requires
            x < LINE_WIDTH,
        ensures
            r == self.effect_colour(palette_ram@, x),
    {
        let top = self.find_top_layer(x, NO_LAYER);
        if top == BACKDROP {
            return None;
        }
        let second = self.find_top_layer(x, top);
        let upper = match self.read_layer_px(top, x) {
            Some(px) => px,
            None => 0,
        };
        let lower = if second == BACKDROP {
            read_half(palette_ram, 0)
        } else {
            match self.read_layer_px(second, x) {
                Some(px) => px,
                None => 0,
            }
        };
        let first_target = mask_has(self.bldcnt.first_targets(), top);
        let second_target = mask_has(self.bldcnt.second_targets(), second);
        if top == OBJ_LAYER && self.current_sprite_line[x].alpha {
            if second_target {
                Some((top, blend(upper, lower, self.bldalpha.eva(), self.bldalpha.evb())))
            } else {
                Some((top, upper))
            }
        } else {
            match self.bldcnt.color_effect() {
                ColorEffect::AlphaBlending => {
                    if first_target && second_target {
                        Some((top, blend(upper, lower, self.bldalpha.eva(), self.bldalpha.evb())))
                    } else {
                        Some((top, upper))
                    }
                },
                ColorEffect::BrightnessIncrease => {
                    if first_target {
                        Some((top, modify_brightness::<true>(upper, self.bldy.evy())))
                    } else {
                        Some((top, upper))
                    }
                },
                ColorEffect::BrightnessDecrease => {
                    if first_target {
                        Some((top, modify_brightness::<false>(upper, self.bldy.evy())))
                    } else {
                        Some((top, upper))
                    }
                },
                ColorEffect::NoEffect => Some((top, upper)),
            }
        }
    }

    /// The entry of the sprite line at column `x` after the effect.
    pub open spec fn effect_obj(&self, palette_ram: Seq<u8>, x: usize) -> Obj {
        match self.effect_colour(palette_ram, x) {
            Some((layer, colour)) if layer == OBJ_LAYER => Obj {
                px: Some(colour),
                ..self.current_sprite_line[x as int]
            },
            _ => self.current_sprite_line[x as int],
        }
    }

    /// The entry of the line of background `bg` at column `x` after the effect.
    pub open spec fn effect_bg(&self, palette_ram: Seq<u8>, bg: usize, x: usize) -> Option<u16> {
        match self.effect_colour(palette_ram, x) {
            Some((layer, colour)) if layer == bg => Some(colour),
            _ => self.current_bg_line[bg as int][x as int],
        }
    }

    /// The sprite line after the effect, as a function of the column.
    pub open spec fn effect_obj_line(self, palette_ram: Seq<u8>) -> spec_fn(int) -> Obj {
        |x: int| self.effect_obj(palette_ram, x as usize)
    }

    /// The line of background `bg` after the effect, as a function of the column.
    pub open spec fn effect_bg_line(self, palette_ram: Seq<u8>, bg: usize) -> spec_fn(int) -> Option<u16> {
        |x: int| self.effect_bg(palette_ram, bg, x as usize)
    }

    /// The unit after the colour special effects were applied to the line
    /// buffers: at every column the colour of the layer in front is replaced
    /// by the colour the effect gives it.
    pub open spec fn special_color_effect_spec(self, palette_ram: Seq<u8>) -> Ppu {
        Ppu {
            current_sprite_line: tabulate(
                self.current_sprite_line,
                0,
                LINE_WIDTH as nat,
                self.effect_obj_line(palette_ram),
            ),
            current_bg_line: spec_array_update(
                spec_array_update(
                    spec_array_update(
                        spec_array_update(
                            self.current_bg_line,
                            0,
                            tabulate(
                                self.current_bg_line[0],
                                0,
                                LINE_WIDTH as nat,
                                self.effect_bg_line(palette_ram, 0),
                            ),
                        ),
                        1,
                        tabulate(
                            self.current_bg_line[1],
                            0,
                            LINE_WIDTH as nat,
                            self.effect_bg_line(palette_ram, 1),
                        ),
                    ),
                    2,
                    tabulate(
                        self.current_bg_line[2],
                        0,
                        LINE_WIDTH as nat,
                        self.effect_bg_line(palette_ram, 2),
                    ),
                ),
                3,
                tabulate(
                    self.current_bg_line[3],
                    0,
                    LINE_WIDTH as nat,
                    self.effect_bg_line(palette_ram, 3),
                ),
            ),
            ..self
        }
    }

    /// Apply the colour special effects to the line buffers.
    pub fn special_color_effect(&mut self, palette_ram: &[u8])
        ensures
            *final(self) == old(self).special_color_effect_spec(palette_ram@),
    {
        let mut sprites = self.current_sprite_line;
        let mut bg0 = self.current_bg_line[0];
        let mut bg1 = self.current_bg_line[1];
        let mut bg2 = self.current_bg_line[2];
        let mut bg3 = self.current_bg_line[3];

        let mut x: usize = 0;
        while x < LINE_WIDTH
            invariant
                x <= LINE_WIDTH,
                *self == *old(self),
                sprites == tabulate(
                    self.current_sprite_line,
                    0,
                    x as nat,
                    self.effect_obj_line(palette_ram@),
                ),
                bg0 == tabulate(self.current_bg_line[0], 0, x as nat, self.effect_bg_line(palette_ram@, 0)),
                bg1 == tabulate(self.current_bg_line[1], 0, x as nat, self.effect_bg_line(palette_ram@, 1)),
                bg2 == tabulate(self.current_bg_line[2], 0, x as nat, self.effect_bg_line(palette_ram@, 2)),
                bg3 == tabulate(self.current_bg_line[3], 0, x as nat, self.effect_bg_line(palette_ram@, 3)),
            decreases LINE_WIDTH - x,
        {
            let effect = self.effect_at(palette_ram, x);
            let old_obj = self.current_sprite_line[x];
            sprites[x] = match effect {
                Some((layer, colour)) if layer == OBJ_LAYER => Obj {
                    px: Some(colour),
                    prio: old_obj.prio,
                    alpha: old_obj.alpha,
                    window: old_obj.window,
                },
                _ => old_obj,
            };
            bg0[x] = match effect {
                Some((layer, colour)) if layer == 0 => Some(colour),
                _ => self.current_bg_line[0][x],
            };
            bg1[x] = match effect {
                Some((layer, colour)) if layer == 1 => Some(colour),
                _ => self.current_bg_line[1][x],
            };
            bg2[x] = match effect {
                Some((layer, colour)) if layer == 2 => Some(colour),
                _ => self.current_bg_line[2][x],
            };
            bg3[x] = match effect {
                Some((layer, colour)) if layer == 3 => Some(colour),
                _ => self.current_bg_line[3][x],
            };
            x += 1;
        }
        self.current_sprite_line = sprites;
        self.current_bg_line[0] = bg0;
        self.current_bg_line[1] = bg1;
        self.current_bg_line[2] = bg2;
        self.current_bg_line[3] = bg3;
    }

    /// The composed line as a function of the column.
    pub open spec fn composed_line(self) -> spec_fn(int) -> Option<u16> {
        |x: int| self.composed_px(x as usize)
    }

    /// The unit after the current line was composed: the colour special
    /// effects are applied to the line buffers, and the 240 visible pixels
    /// of the line in the frame hold the colour of the layer in front.
    pub open spec fn draw_line_spec(self, palette_ram: Seq<u8>) -> Ppu {
        let after = self.special_color_effect_spec(palette_ram);
        Ppu {
            buffer: Box::new(
                tabulate(
                    *after.buffer,
                    after.vcount.spec_ly() * LCD_WIDTH,
                    LCD_WIDTH as nat,
                    after.composed_line(),
                ),
            ),
            ..after
        }
    }

    /// Compose the background and sprite lines into the frame.
    pub fn draw_line(&mut self, palette_ram: &[u8])
        requires
            old(self).vcount.spec_ly() < LCD_HEIGHT,
        ensures
            *final(self) == old(self).draw_line_spec(palette_ram@),
    {
        self.special_color_effect(palette_ram);
        let ghost after = *self;
        let y = self.vcount.ly() as usize;
        let start = y * LCD_WIDTH;

        let mut x: usize = 0;
        while x < LCD_WIDTH
            invariant
                x <= LCD_WIDTH,
                start + LCD_WIDTH <= LCD_PIXELS,
                start == after.vcount.spec_ly() * LCD_WIDTH,
                *self == (Ppu {
                    buffer: Box::new(tabulate(*after.buffer, start as int, x as nat, after.composed_line())),
                    ..after
                }),
            decreases LCD_WIDTH - x,
        {
            let top = self.find_top_layer(x, NO_LAYER);
            let px = self.read_layer_px(top, x);
            assert(px == after.composed_px(x));
            self.buffer[start + x] = px;
            x += 1;
        }
    }
}

} // verus!
