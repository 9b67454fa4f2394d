//! The LCD registers and the scanline engine.
use vstd::prelude::*;
use vstd::array::{spec_array_fill_for_copy_type, spec_array_update};
use vstd::arithmetic::power2::lemma2_to64;
use crate::bits::{
    bit16, bit_range, extract_range, hi8, le16, lo8, replace_range, spec_bit16, spec_hi8,
    spec_le16, spec_lo8, spec_with_bit16, with_bit16, with_bit_range,
};
use crate::gba::{LCD_HEIGHT, LCD_PIXELS, LCD_WIDTH};
use crate::mmu::irq::{Interrupt, IF};
use crate::ppu::sprite::{signed16, to_signed16};

verus! {

/// Cycles of a scanline that are spent drawing.
pub const HDRAW_LEN: u16 = 1007;

/// Cycles of a whole scanline, horizontal blank included.
pub const TOTAL_LEN: u16 = 1232;

/// Scanlines of a whole frame, vertical blank included.
pub const TOTAL_LINES: u8 = 228;

/// Entries of a line buffer.
pub const LINE_WIDTH: usize = 512;

/// The three phases of the display.
#[derive(Clone, Copy, PartialEq, Eq, Structural, Debug)]
pub enum Mode {
    HDraw,
    HBlank,
    VBlank,
}

/// The colour special effect that BLDCNT selects.
#[derive(Clone, Copy, PartialEq, Eq, Structural, Debug)]
pub enum ColorEffect {
    NoEffect,
    AlphaBlending,
    BrightnessIncrease,
    BrightnessDecrease,
}

/// One entry of the sprite line: the colour of the sprite in front, if
/// one is opaque there, with its priority and whether it is
/// semi-transparent; and whether a sprite of the object window is opaque
/// there.
#[derive(Clone, Copy, Debug)]
pub struct Obj {
    pub px: Option<u16>,
    pub prio: u8,
    pub alpha: bool,
    pub window: bool,
}

/// The window regions a pixel can lie in.
#[derive(Clone, Copy, PartialEq, Eq, Structural, Debug)]
pub enum Window {
    Win0,
    Win1,
    ObjWin,
    WinOut,
}

/// DISPCNT, LCD control.
#[derive(Clone, Copy, Debug)]
pub struct DISPCNT(pub u16);

/// DISPSTAT, general LCD status.
#[derive(Clone, Copy, Debug)]
pub struct DISPSTAT(pub u16);

/// VCOUNT, the line counter.
#[derive(Clone, Copy, Debug)]
pub struct VCOUNT(pub u16);

/// BGxCNT, background control.
#[derive(Clone, Copy, Debug)]
pub struct BGCONTROL(pub u16);

/// BLDCNT, colour special effects selection.
#[derive(Clone, Copy, Debug)]
pub struct BLDCNT(pub u16);

/// BLDALPHA, alpha blending coefficients.
#[derive(Clone, Copy, Debug)]
pub struct BLDALPHA(pub u16);

/// BLDY, brightness coefficient.
#[derive(Clone, Copy, Debug)]
pub struct BLDY(pub u16);

/// WININ, layers shown inside windows 0 and 1.
#[derive(Clone, Copy, Debug)]
pub struct WININ(pub u16);

/// WINOUT, layers shown outside the windows and inside the object window.
#[derive(Clone, Copy, Debug)]
pub struct WINOUT(pub u16);

impl DISPCNT {
    /// The background mode, 0 to 7.
    pub open spec fn spec_bg_mode(&self) -> u8 {
        (self.0 % 8) as u8
    }

    #[verifier::when_used_as_spec(spec_bg_mode)]
    pub fn bg_mode(&self) -> (r: u8)
        ensures
            r == self.spec_bg_mode(),
            r < 8,
    {
        (self.0 % 8) as u8
    }

    /// Which of the two bitmap frames is shown.
    pub open spec fn spec_frame_select(&self) -> bool {
        spec_bit16(self.0, 4)
    }

    #[verifier::when_used_as_spec(spec_frame_select)]
    pub fn frame_select(&self) -> (r: bool)
        ensures
            r == self.spec_frame_select(),
    {
        bit16(self.0, 4)
    }

    /// Whether sprite tiles are laid out in one dimension.
    pub open spec fn spec_obj_char_vram_map(&self) -> bool {
        spec_bit16(self.0, 6)
    }

    #[verifier::when_used_as_spec(spec_obj_char_vram_map)]
    pub fn obj_char_vram_map(&self) -> (r: bool)
        ensures
            r == self.spec_obj_char_vram_map(),
    {
        bit16(self.0, 6)
    }

    /// The enable bits of the four backgrounds as a number: bit `i` for background `i`.
    pub open spec fn spec_enabled_bgs(&self) -> u8 {
        ((self.0 / 0x100) % 16) as u8
    }

    #[verifier::when_used_as_spec(spec_enabled_bgs)]
    pub fn enabled_bgs(&self) -> (r: u8)
        ensures
            r == self.spec_enabled_bgs(),
            r < 16,
    {
        proof {
            lemma2_to64();
        }
        bit_range::<8, 12>(self.0 as u32) as u8
    }

    /// Whether background `bg` is enabled.
    pub open spec fn spec_bg(&self, bg: usize) -> bool {
        bg < 4 && spec_bit16(self.0, (8 + bg) as u16)
    }

    #[verifier::when_used_as_spec(spec_bg)]
    pub fn bg(&self, bg: usize) -> (r: bool)
        ensures
            r == self.spec_bg(bg),
    {
        bg < 4 && bit16(self.0, 8 + bg as u16)
    }

    /// Whether sprites are shown.
    pub open spec fn spec_obj(&self) -> bool {
        spec_bit16(self.0, 12)
    }

    #[verifier::when_used_as_spec(spec_obj)]
    pub fn obj(&self) -> (r: bool)
        ensures
            r == self.spec_obj(),
    {
        bit16(self.0, 12)
    }

    /// Whether window `win` (0 or 1) is enabled.
    pub open spec fn spec_win(&self, win: usize) -> bool {
        win < 2 && spec_bit16(self.0, (13 + win) as u16)
    }

    #[verifier::when_used_as_spec(spec_win)]
    pub fn win(&self, win: usize) -> (r: bool)
        ensures
            r == self.spec_win(win),
    {
        win < 2 && bit16(self.0, 13 + win as u16)
    }

    /// Whether the object window is enabled.
    pub open spec fn spec_obj_win(&self) -> bool {
        spec_bit16(self.0, 15)
    }

    #[verifier::when_used_as_spec(spec_obj_win)]
    pub fn obj_win(&self) -> (r: bool)
        ensures
            r == self.spec_obj_win(),
    {
        bit16(self.0, 15)
    }

    /// Whether any window gates the layers.
    pub open spec fn spec_windowing(&self) -> bool {
        self.spec_win(0) || self.spec_win(1) || self.spec_obj_win()
    }

    #[verifier::when_used_as_spec(spec_windowing)]
    pub fn windowing(&self) -> (r: bool)
        ensures
            r == self.spec_windowing(),
    {
        self.win(0) || self.win(1) || self.obj_win()
    }
}

impl DISPSTAT {
    /// The vertical blank flag.
    pub open spec fn spec_vblank(&self) -> bool {
        spec_bit16(self.0, 0)
    }

    #[verifier::when_used_as_spec(spec_vblank)]
    pub fn vblank(&self) -> (r: bool)
        ensures
            r == self.spec_vblank(),
    {
        bit16(self.0, 0)
    }

    /// The horizontal blank flag.
    pub open spec fn spec_hblank(&self) -> bool {
        spec_bit16(self.0, 1)
    }

    #[verifier::when_used_as_spec(spec_hblank)]
    pub fn hblank(&self) -> (r: bool)
        ensures
            r == self.spec_hblank(),
    {
        bit16(self.0, 1)
    }

    /// The line counter match flag.
    pub open spec fn spec_v_counter(&self) -> bool {
        spec_bit16(self.0, 2)
    }

    #[verifier::when_used_as_spec(spec_v_counter)]
    pub fn v_counter(&self) -> (r: bool)
        ensures
            r == self.spec_v_counter(),
    {
        bit16(self.0, 2)
    }

    /// Whether entering vertical blank requests an interrupt.
    pub open spec fn spec_vblank_irq(&self) -> bool {
        spec_bit16(self.0, 3)
    }

    #[verifier::when_used_as_spec(spec_vblank_irq)]
    pub fn vblank_irq(&self) -> (r: bool)
        ensures
            r == self.spec_vblank_irq(),
    {
        bit16(self.0, 3)
    }

    /// Whether entering horizontal blank requests an interrupt.
    pub open spec fn spec_hblank_irq(&self) -> bool {
        spec_bit16(self.0, 4)
    }

    #[verifier::when_used_as_spec(spec_hblank_irq)]
    pub fn hblank_irq(&self) -> (r: bool)
        ensures
            r == self.spec_hblank_irq(),
    {
        bit16(self.0, 4)
    }

    /// Whether a line counter match requests an interrupt.
    pub open spec fn spec_v_counter_irq(&self) -> bool {
        spec_bit16(self.0, 5)
    }

    #[verifier::when_used_as_spec(spec_v_counter_irq)]
    pub fn v_counter_irq(&self) -> (r: bool)
        ensures
            r == self.spec_v_counter_irq(),
    {
        bit16(self.0, 5)
    }

    /// The line that the counter is compared with.
    pub open spec fn spec_lyc(&self) -> u8 {
        (self.0 / 0x100) as u8
    }

    #[verifier::when_used_as_spec(spec_lyc)]
    pub fn lyc(&self) -> (r: u8)
        ensures
            r == self.spec_lyc(),
    {
        (self.0 / 0x100) as u8
    }

    /// The register with flag `n` set to `v`.
    pub open spec fn with_flag(&self, n: u16, v: bool) -> DISPSTAT {
        DISPSTAT(spec_with_bit16(self.0, n, v))
    }

    pub fn set_vblank(&mut self, v: bool)
        ensures
            *final(self) == old(self).with_flag(0, v),
    {
        self.0 = with_bit16(self.0, 0, v);
    }

    pub fn set_hblank(&mut self, v: bool)
        ensures
            *final(self) == old(self).with_flag(1, v),
    {
        self.0 = with_bit16(self.0, 1, v);
    }

    pub fn set_v_counter(&mut self, v: bool)
        ensures
            *final(self) == old(self).with_flag(2, v),
    {
        self.0 = with_bit16(self.0, 2, v);
    }
}

impl VCOUNT {
    /// The current scanline.
    pub open spec fn spec_ly(&self) -> u8 {
        (self.0 % 0x100) as u8
    }

    #[verifier::when_used_as_spec(spec_ly)]
    pub fn ly(&self) -> (r: u8)
        ensures
            r == self.spec_ly(),
    {
        (self.0 % 0x100) as u8
    }

    pub fn set_ly(&mut self, ly: u8)
        ensures
            *final(self) == VCOUNT(ly as u16),
            final(self).spec_ly() == ly,
    {
        self.0 = ly as u16;
    }
}

impl BGCONTROL {
    /// The priority of the background, 0 (in front) to 3.
    pub open spec fn spec_prio(&self) -> u8 {
        (self.0 % 4) as u8
    }

    #[verifier::when_used_as_spec(spec_prio)]
    pub fn prio(&self) -> (r: u8)
        ensures
            r == self.spec_prio(),
            r < 4,
    {
        (self.0 % 4) as u8
    }

    /// The 16 KiB block of video memory that holds the tiles.
    pub open spec fn spec_char_base_block(&self) -> u8 {
        ((self.0 / 4) % 4) as u8
    }

    #[verifier::when_used_as_spec(spec_char_base_block)]
    pub fn char_base_block(&self) -> (r: u8)
        ensures
            r == self.spec_char_base_block(),
            r < 4,
    {
        ((self.0 / 4) % 4) as u8
    }

    /// Whether tiles have 8 bits per pixel (and not 4).
    pub open spec fn spec_bpp(&self) -> bool {
        spec_bit16(self.0, 7)
    }

    #[verifier::when_used_as_spec(spec_bpp)]
    pub fn bpp(&self) -> (r: bool)
        ensures
            r == self.spec_bpp(),
    {
        bit16(self.0, 7)
    }

    /// The 2 KiB block of video memory that holds the tile map.
    pub open spec fn spec_screen_base_block(&self) -> u8 {
        ((self.0 / 0x100) % 32) as u8
    }

    #[verifier::when_used_as_spec(spec_screen_base_block)]
    pub fn screen_base_block(&self) -> (r: u8)
        ensures
            r == self.spec_screen_base_block(),
            r < 32,
    {
        ((self.0 / 0x100) % 32) as u8
    }

    /// Whether an affine background wraps around at its edges.
    pub open spec fn spec_disp_area_overflow(&self) -> bool {
        spec_bit16(self.0, 13)
    }

    #[verifier::when_used_as_spec(spec_disp_area_overflow)]
    pub fn disp_area_overflow(&self) -> (r: bool)
        ensures
            r == self.spec_disp_area_overflow(),
    {
        bit16(self.0, 13)
    }

    /// The size selector of the background, 0 to 3.
    pub open spec fn spec_screen_size(&self) -> u8 {
        (self.0 / 0x4000) as u8
    }

    #[verifier::when_used_as_spec(spec_screen_size)]
    pub fn screen_size(&self) -> (r: u8)
        ensures
            r == self.spec_screen_size(),
            r < 4,
    {
        (self.0 / 0x4000) as u8
    }
}

impl BLDCNT {
    /// The layers that can be the upper layer of an effect: bit `i` for
    /// background `i`, bit 4 for sprites, bit 5 for the backdrop.
    pub open spec fn spec_first_targets(&self) -> u8 {
        (self.0 % 64) as u8
    }

    #[verifier::when_used_as_spec(spec_first_targets)]
    pub fn first_targets(&self) -> (r: u8)
        ensures
            r == self.spec_first_targets(),
            r < 64,
    {
        proof {
            lemma2_to64();
        }
        bit_range::<0, 6>(self.0 as u32) as u8
    }

    /// The layers that can be the lower layer of a blend, numbered as the
    /// first targets are.
    pub open spec fn spec_second_targets(&self) -> u8 {
        ((self.0 / 0x100) % 64) as u8
    }

    #[verifier::when_used_as_spec(spec_second_targets)]
    pub fn second_targets(&self) -> (r: u8)
        ensures
            r == self.spec_second_targets(),
            r < 64,
    {
        proof {
            lemma2_to64();
        }
        bit_range::<8, 14>(self.0 as u32) as u8
    }

    /// The effect that bits 6 and 7 select.
    pub open spec fn spec_color_effect(&self) -> ColorEffect {
        let raw = (self.0 / 64) % 4;
        if raw == 0 {
            ColorEffect::NoEffect
        } else if raw == 1 {
            ColorEffect::AlphaBlending
        } else if raw == 2 {
            ColorEffect::BrightnessIncrease
        } else {
            ColorEffect::BrightnessDecrease
        }
    }

    #[verifier::when_used_as_spec(spec_color_effect)]
    pub fn color_effect(&self) -> (r: ColorEffect)
        ensures
            r == self.spec_color_effect(),
    {
        let raw = (self.0 / 64) % 4;
        if raw == 0 {
            ColorEffect::NoEffect
        } else if raw == 1 {
            ColorEffect::AlphaBlending
        } else if raw == 2 {
            ColorEffect::BrightnessIncrease
        } else {
            ColorEffect::BrightnessDecrease
        }
    }
}

impl BLDALPHA {
    /// The coefficient of the first target.
    pub open spec fn spec_eva(&self) -> u8 {
        (self.0 % 32) as u8
    }

    #[verifier::when_used_as_spec(spec_eva)]
    pub fn eva(&self) -> (r: u8)
        ensures
            r == self.spec_eva(),
    {
        (self.0 % 32) as u8
    }

    /// The coefficient of the second target.
    pub open spec fn spec_evb(&self) -> u8 {
        ((self.0 / 0x100) % 32) as u8
    }

    #[verifier::when_used_as_spec(spec_evb)]
    pub fn evb(&self) -> (r: u8)
        ensures
            r == self.spec_evb(),
    {
        ((self.0 / 0x100) % 32) as u8
    }
}

impl BLDY {
    /// The brightness coefficient.
    pub open spec fn spec_evy(&self) -> u8 {
        (self.0 % 32) as u8
    }

    #[verifier::when_used_as_spec(spec_evy)]
    pub fn evy(&self) -> (r: u8)
        ensures
            r == self.spec_evy(),
    {
        (self.0 % 32) as u8
    }
}

/// Whether bit `layer` of a layer mask is set.
pub open spec fn spec_mask_has(mask: u8, layer: usize) -> bool {
    layer < 8 && spec_bit16(mask as u16, layer as u16)
}

/// Whether bit `layer` of a layer mask is set.
#[verifier::when_used_as_spec(spec_mask_has)]
pub fn mask_has(mask: u8, layer: usize) -> (r: bool)
    ensures
        r == spec_mask_has(mask, layer),
{
    layer < 8 && bit16(mask as u16, layer as u16)
}

/// A signed 16-bit number as the 16-bit pattern that holds it.
pub open spec fn spec_raw16(v: i16) -> u16 {
    if v < 0 {
        (v + 0x1_0000) as u16
    } else {
        v as u16
    }
}

/// A signed 16-bit number as the 16-bit pattern that holds it.
#[verifier::when_used_as_spec(spec_raw16)]
pub fn raw16(v: i16) -> (r: u16)
    ensures
        r == spec_raw16(v),
{
    if v < 0 {
        (v as i32 + 0x1_0000) as u16
    } else {
        v as u16
    }
}

/// The picture processing unit: its registers, its line buffers and the frame.
pub struct Ppu {
    pub dispcnt: DISPCNT,
    pub dispstat: DISPSTAT,
    pub vcount: VCOUNT,
    /// Background control for backgrounds 0 to 3.
    pub bgxcnt: [BGCONTROL; 4],
    /// Scroll offsets of the four backgrounds.
    pub bgxhofs: [u16; 4],
    pub bgxvofs: [u16; 4],
    /// Reference points of the affine backgrounds 2 and 3, 28 bits each.
    pub bgxx: [u32; 2],
    pub bgxy: [u32; 2],
    /// Rotation and scaling parameters of the affine backgrounds.
    pub bgxpa: [i16; 2],
    pub bgxpb: [i16; 2],
    pub bgxpc: [i16; 2],
    pub bgxpd: [i16; 2],
    pub bldcnt: BLDCNT,
    pub bldalpha: BLDALPHA,
    pub bldy: BLDY,
    /// Horizontal and vertical extent of windows 0 and 1.
    pub winxh: [u16; 2],
    pub winxv: [u16; 2],
    pub winin: WININ,
    pub winout: WINOUT,
    /// The frame: one entry per pixel, `None` where the backdrop shows.
    pub buffer: Box<[Option<u16>; LCD_PIXELS]>,
    /// The current line of each background.
    pub current_bg_line: [[Option<u16>; LINE_WIDTH]; 4],
    /// The current line of the sprites.
    pub current_sprite_line: [Obj; LINE_WIDTH],
    /// The reference points as they advance from line to line.
    pub internal_ref_xx: [u32; 2],
    pub internal_ref_xy: [u32; 2],
    pub prev_mode: Mode,
    pub current_mode: Mode,
    /// The position within the current scanline.
    pub cycle: u16,
}

/// The address of the halfword that holds the byte at `address`.
pub open spec fn spec_align2(address: u32) -> u32 {
    (address - address % 2) as u32
}

/// The address of the halfword that holds the byte at `address`.
#[verifier::when_used_as_spec(spec_align2)]
pub fn align2(address: u32) -> (r: u32)
    ensures
        r == spec_align2(address),
{
    address - address % 2
}

impl Ppu {
    /// The line counter and the position within the line are in range.
    pub open spec fn wf(&self) -> bool {
        &&& self.vcount.0 < TOTAL_LINES
        &&& self.cycle <= TOTAL_LEN
    }

    /// The unit at power-on: at the start of the first line, with every
    /// register zero, blank line buffers and an empty frame.
    pub open spec fn power_on() -> Ppu {
        Ppu {
            dispcnt: DISPCNT(0),
            dispstat: DISPSTAT(0),
            vcount: VCOUNT(0),
            bgxcnt: spec_array_fill_for_copy_type::<BGCONTROL, 4>(BGCONTROL(0)),
            bgxhofs: spec_array_fill_for_copy_type::<u16, 4>(0),
            bgxvofs: spec_array_fill_for_copy_type::<u16, 4>(0),
            bgxx: spec_array_fill_for_copy_type::<u32, 2>(0),
            bgxy: spec_array_fill_for_copy_type::<u32, 2>(0),
            bgxpa: spec_array_fill_for_copy_type::<i16, 2>(0),
            bgxpb: spec_array_fill_for_copy_type::<i16, 2>(0),
            bgxpc: spec_array_fill_for_copy_type::<i16, 2>(0),
            bgxpd: spec_array_fill_for_copy_type::<i16, 2>(0),
            bldcnt: BLDCNT(0),
            bldalpha: BLDALPHA(0),
            bldy: BLDY(0),
            winxh: spec_array_fill_for_copy_type::<u16, 2>(0),
            winxv: spec_array_fill_for_copy_type::<u16, 2>(0),
            winin: WININ(0),
            winout: WINOUT(0),
            buffer: Box::new(spec_array_fill_for_copy_type::<Option<u16>, LCD_PIXELS>(None)),
            current_bg_line: spec_array_fill_for_copy_type::<[Option<u16>; LINE_WIDTH], 4>(
                spec_array_fill_for_copy_type::<Option<u16>, LINE_WIDTH>(None),
            ),
            current_sprite_line: spec_array_fill_for_copy_type::<Obj, LINE_WIDTH>(
                Obj { px: None, prio: 0, alpha: false, window: false },
            ),
            internal_ref_xx: spec_array_fill_for_copy_type::<u32, 2>(0),
            internal_ref_xy: spec_array_fill_for_copy_type::<u32, 2>(0),
            prev_mode: Mode::HDraw,
            current_mode: Mode::HDraw,
            cycle: 0,
        }
    }

    /// A unit at power-on.
    pub fn new() -> (ppu: Ppu)
        ensures
            ppu == Self::power_on(),
            ppu.wf(),
    {
        Ppu {
            dispcnt: DISPCNT(0),
            dispstat: DISPSTAT(0),
            vcount: VCOUNT(0),
            bgxcnt: [BGCONTROL(0); 4],
            bgxhofs: [0; 4],
            bgxvofs: [0; 4],
            bgxx: [0; 2],
            bgxy: [0; 2],
            bgxpa: [0; 2],
            bgxpb: [0; 2],
            bgxpc: [0; 2],
            bgxpd: [0; 2],
            bldcnt: BLDCNT(0),
            bldalpha: BLDALPHA(0),
            bldy: BLDY(0),
            winxh: [0; 2],
            winxv: [0; 2],
            winin: WININ(0),
            winout: WINOUT(0),
            buffer: Box::new([None; LCD_PIXELS]),
            current_bg_line: [[None; LINE_WIDTH]; 4],
            current_sprite_line: [Obj { px: None, prio: 0, alpha: false, window: false }; LINE_WIDTH],
            internal_ref_xx: [0; 2],
            internal_ref_xy: [0; 2],
            prev_mode: Mode::HDraw,
            current_mode: Mode::HDraw,
            cycle: 0,
        }
    }

    /// What a 16-bit read of the register at `address` (an offset into the
    /// I/O region) returns: the register where it is readable, else 0.
    pub open spec fn read16_spec(&self, address: u32) -> u16 {
        if address == 0x0000 {
            self.dispcnt.0
        } else if address == 0x0004 {
            self.dispstat.0
        } else if address == 0x0006 {
            self.vcount.0
        } else if 0x0008 <= address <= 0x000E && address % 2 == 0 {
            self.bgxcnt[(address - 0x0008) / 2].0
        } else if address == 0x0048 {
            self.winin.0
        } else if address == 0x004A {
            self.winout.0
        } else if address == 0x0050 {
            self.bldcnt.0
        } else {
            0
        }
    }

    /// Read a register as the bus sees it.
    pub fn read16(&self, address: u32) -> (r: u16)
        ensures
            r == self.read16_spec(address),
    {
        if address == 0x0000 {
            self.dispcnt.0
        } else if address == 0x0004 {
            self.dispstat.0
        } else if address == 0x0006 {
            self.vcount.0
        } else if 0x0008 <= address && address <= 0x000E && address % 2 == 0 {
            self.bgxcnt[((address - 0x0008) / 2) as usize].0
        } else if address == 0x0048 {
            self.winin.0
        } else if address == 0x004A {
            self.winout.0
        } else if address == 0x0050 {
            self.bldcnt.0
        } else {
            0
        }
    }

    /// What a byte read at `address` returns: the byte of the halfword
    /// register that holds it.
    pub open spec fn read8_spec(&self, address: u32) -> u8 {
        if address % 2 == 0 {
            spec_lo8(self.read16_spec(address))
        } else {
            spec_hi8(self.read16_spec(spec_align2(address)))
        }
    }

    /// Read one byte of a register as the bus sees it.
    pub fn read8(&self, address: u32) -> (r: u8)
        ensures
            r == self.read8_spec(address),
    {
        if address % 2 == 0 {
            lo8(self.read16(address))
        } else {
            hi8(self.read16(align2(address)))
        }
    }

    /// The halfword that the register at `address` holds, whether the bus
    /// can read it or not; 0 where there is no register.
    pub open spec fn raw_read16_spec(&self, address: u32) -> u16 {
        if address <= 0x000F {
            self.read16_spec(address)
        } else if 0x0010 <= address <= 0x001E && address % 4 == 0 {
            self.bgxhofs[(address - 0x0010) / 4]
        } else if 0x0010 <= address <= 0x001E && address % 4 == 2 {
            self.bgxvofs[(address - 0x0010) / 4]
        } else if 0x0020 <= address <= 0x003E && address % 2 == 0 {
            let bg = (address - 0x0020) / 0x10;
            let reg = (address % 0x10) / 2;
            if reg == 0 {
                spec_raw16(self.bgxpa[bg])
            } else if reg == 1 {
                spec_raw16(self.bgxpb[bg])
            } else if reg == 2 {
                spec_raw16(self.bgxpc[bg])
            } else if reg == 3 {
                spec_raw16(self.bgxpd[bg])
            } else if reg == 4 {
                (self.bgxx[bg] % 0x1_0000) as u16
            } else if reg == 5 {
                (self.bgxx[bg] / 0x1_0000) as u16
            } else if reg == 6 {
                (self.bgxy[bg] % 0x1_0000) as u16
            } else {
                (self.bgxy[bg] / 0x1_0000) as u16
            }
        } else if address == 0x0040 || address == 0x0042 {
            self.winxh[(address - 0x0040) / 2]
        } else if address == 0x0044 || address == 0x0046 {
            self.winxv[(address - 0x0044) / 2]
        } else if 0x0048 <= address <= 0x0050 {
            self.read16_spec(address)
        } else if address == 0x0052 {
            self.bldalpha.0
        } else if address == 0x0054 {
            self.bldy.0
        } else {
            0
        }
    }

    /// Read the halfword behind a register without going through the bus.
    pub fn raw_read16(&self, address: u32) -> (r: u16)
        ensures
            r == self.raw_read16_spec(address),
    {
        if address <= 0x000F {
            self.read16(address)
        } else if 0x0010 <= address && address <= 0x001E && address % 4 == 0 {
            self.bgxhofs[((address - 0x0010) / 4) as usize]
        } else if 0x0010 <= address && address <= 0x001E && address % 4 == 2 {
            self.bgxvofs[((address - 0x0010) / 4) as usize]
        } else if 0x0020 <= address && address <= 0x003E && address % 2 == 0 {
            let bg = ((address - 0x0020) / 0x10) as usize;
            let reg = (address % 0x10) / 2;
            if reg == 0 {
                raw16(self.bgxpa[bg])
            } else if reg == 1 {
                raw16(self.bgxpb[bg])
            } else if reg == 2 {
                raw16(self.bgxpc[bg])
            } else if reg == 3 {
                raw16(self.bgxpd[bg])
            } else if reg == 4 {
                (self.bgxx[bg] % 0x1_0000) as u16
            } else if reg == 5 {
                (self.bgxx[bg] / 0x1_0000) as u16
            } else if reg == 6 {
                (self.bgxy[bg] % 0x1_0000) as u16
            } else {
                (self.bgxy[bg] / 0x1_0000) as u16
            }
        } else if address == 0x0040 || address == 0x0042 {
            self.winxh[((address - 0x0040) / 2) as usize]
        } else if address == 0x0044 || address == 0x0046 {
            self.winxv[((address - 0x0044) / 2) as usize]
        } else if 0x0048 <= address && address <= 0x0050 {
            self.read16(address)
        } else if address == 0x0052 {
            self.bldalpha.0
        } else if address == 0x0054 {
            self.bldy.0
        } else {
            0
        }
    }

    /// The unit after a 16-bit write of `value` to the register at
    /// `address`. The three status flags of DISPSTAT and the whole of VCOUNT
    /// are read-only; a write to a reference point register also restarts
    /// the internal reference point; a write to no register changes nothing.
    pub open spec fn write16_spec(self, address: u32, value: u16) -> Ppu {
        if address == 0x0000 {
            Ppu { dispcnt: DISPCNT(value), ..self }
        } else if address == 0x0004 {
            Ppu { dispstat: DISPSTAT((value & !0b111u16) | (self.dispstat.0 & 0b111u16)), ..self }
        } else if 0x0008 <= address <= 0x000E && address % 2 == 0 {
            Ppu {
                bgxcnt: spec_array_update(self.bgxcnt, (address - 0x0008) / 2, BGCONTROL(value)),
                ..self
            }
        } else if 0x0010 <= address <= 0x001E && address % 4 == 0 {
            Ppu { bgxhofs: spec_array_update(self.bgxhofs, (address - 0x0010) / 4, value), ..self }
        } else if 0x0010 <= address <= 0x001E && address % 4 == 2 {
            Ppu { bgxvofs: spec_array_update(self.bgxvofs, (address - 0x0010) / 4, value), ..self }
        } else if 0x0020 <= address <= 0x003E && address % 2 == 0 {
            let bg = (address - 0x0020) / 0x10;
            let reg = (address % 0x10) / 2;
            if reg == 0 {
                Ppu { bgxpa: spec_array_update(self.bgxpa, bg, signed16(value) as i16), ..self }
            } else if reg == 1 {
                Ppu { bgxpb: spec_array_update(self.bgxpb, bg, signed16(value) as i16), ..self }
            } else if reg == 2 {
                Ppu { bgxpc: spec_array_update(self.bgxpc, bg, signed16(value) as i16), ..self }
            } else if reg == 3 {
                Ppu { bgxpd: spec_array_update(self.bgxpd, bg, signed16(value) as i16), ..self }
            } else if reg == 4 {
                let x = replace_range(self.bgxx[bg], 0, 16, value as u32) as u32;
                Ppu {
                    bgxx: spec_array_update(self.bgxx, bg, x),
                    internal_ref_xx: spec_array_update(self.internal_ref_xx, bg, x),
                    ..self
                }
            } else if reg == 5 {
                let x = replace_range(self.bgxx[bg], 16, 28, (value % 0x1000) as u32) as u32;
                Ppu {
                    bgxx: spec_array_update(self.bgxx, bg, x),
                    internal_ref_xx: spec_array_update(self.internal_ref_xx, bg, x),
                    ..self
                }
            } else if reg == 6 {
                let y = replace_range(self.bgxy[bg], 0, 16, value as u32) as u32;
                Ppu {
                    bgxy: spec_array_update(self.bgxy, bg, y),
                    internal_ref_xy: spec_array_update(self.internal_ref_xy, bg, y),
                    ..self
                }
            } else {
                let y = replace_range(self.bgxy[bg], 16, 28, (value % 0x1000) as u32) as u32;
                Ppu {
                    bgxy: spec_array_update(self.bgxy, bg, y),
                    internal_ref_xy: spec_array_update(self.internal_ref_xy, bg, y),
                    ..self
                }
            }
        } else if address == 0x0040 || address == 0x0042 {
            Ppu { winxh: spec_array_update(self.winxh, (address - 0x0040) / 2, value), ..self }
        } else if address == 0x0044 || address == 0x0046 {
            Ppu { winxv: spec_array_update(self.winxv, (address - 0x0044) / 2, value), ..self }
        } else if address == 0x0048 {
            Ppu { winin: WININ(value), ..self }
        } else if address == 0x004A {
            Ppu { winout: WINOUT(value), ..self }
        } else if address == 0x0050 {
            Ppu { bldcnt: BLDCNT(value), ..self }
        } else if address == 0x0052 {
            Ppu { bldalpha: BLDALPHA(value), ..self }
        } else if address == 0x0054 {
            Ppu { bldy: BLDY(value), ..self }
        } else {
            self
        }
    }

    /// Write a register as the bus does.
    pub fn write16(&mut self, address: u32, value: u16)
        ensures
            *final(self) == old(self).write16_spec(address, value),
            old(self).wf() ==> final(self).wf(),
    {
        if address == 0x0000 {
            self.dispcnt = DISPCNT(value);
        } else if address == 0x0004 {
            self.dispstat = DISPSTAT((value & !0b111u16) | (self.dispstat.0 & 0b111u16));
        } else if 0x0008 <= address && address <= 0x000E && address % 2 == 0 {
            self.bgxcnt[((address - 0x0008) / 2) as usize] = BGCONTROL(value);
        } else if 0x0010 <= address && address <= 0x001E && address % 4 == 0 {
            self.bgxhofs[((address - 0x0010) / 4) as usize] = value;
        } else if 0x0010 <= address && address <= 0x001E && address % 4 == 2 {
            self.bgxvofs[((address - 0x0010) / 4) as usize] = value;
        } else if 0x0020 <= address && address <= 0x003E && address % 2 == 0 {
            let bg = ((address - 0x0020) / 0x10) as usize;
            let reg = (address % 0x10) / 2;
            if reg == 0 {
                self.bgxpa[bg] = to_signed16(value);
            } else if reg == 1 {
                self.bgxpb[bg] = to_signed16(value);
            } else if reg == 2 {
                self.bgxpc[bg] = to_signed16(value);
            } else if reg == 3 {
                self.bgxpd[bg] = to_signed16(value);
            } else if reg == 4 {
                let x = with_bit_range::<0, 16>(self.bgxx[bg], value as u32);
                self.bgxx[bg] = x;
                self.internal_ref_xx[bg] = x;
            } else if reg == 5 {
                let x = with_bit_range::<16, 28>(self.bgxx[bg], (value % 0x1000) as u32);
                self.bgxx[bg] = x;
                self.internal_ref_xx[bg] = x;
            } else if reg == 6 {
                let y = with_bit_range::<0, 16>(self.bgxy[bg], value as u32);
                self.bgxy[bg] = y;
                self.internal_ref_xy[bg] = y;
            } else {
                let y = with_bit_range::<16, 28>(self.bgxy[bg], (value % 0x1000) as u32);
                self.bgxy[bg] = y;
                self.internal_ref_xy[bg] = y;
            }
        } else if address == 0x0040 || address == 0x0042 {
            self.winxh[((address - 0x0040) / 2) as usize] = value;
        } else if address == 0x0044 || address == 0x0046 {
            self.winxv[((address - 0x0044) / 2) as usize] = value;
        } else if address == 0x0048 {
            self.winin = WININ(value);
        } else if address == 0x004A {
            self.winout = WINOUT(value);
        } else if address == 0x0050 {
            self.bldcnt = BLDCNT(value);
        } else if address == 0x0052 {
            self.bldalpha = BLDALPHA(value);
        } else if address == 0x0054 {
            self.bldy = BLDY(value);
        }
    }

    /// The unit after a byte write: the halfword register that holds the
    /// byte is written with the new byte beside the byte that was there.
    pub open spec fn write8_spec(self, address: u32, value: u8) -> Ppu {
        let old = self.raw_read16_spec(spec_align2(address));
        if address % 2 == 0 {
            self.write16_spec(address, spec_le16(value, spec_hi8(old)))
        } else {
            self.write16_spec(spec_align2(address), spec_le16(spec_lo8(old), value))
        }
    }

    /// Write one byte of a register as the bus does.
    pub fn write8(&mut self, address: u32, value: u8)
        ensures
            *final(self) == old(self).write8_spec(address, value),
            old(self).wf() ==> final(self).wf(),
    {
        let old = self.raw_read16(align2(address));
        if address % 2 == 0 {
            self.write16(address, le16(value, hi8(old)));
        } else {
            self.write16(align2(address), le16(lo8(old), value));
        }
    }

    /// Whether the pixel lies inside the rectangle of window `win`.
    pub open spec fn inside(&self, win: usize, x: usize, y: usize) -> bool {
        &&& win < 2
        &&& self.winxh[win as int] / 0x100 <= x < self.winxh[win as int] % 0x100
        &&& self.winxv[win as int] / 0x100 <= y < self.winxv[win as int] % 0x100
    }

    /// Whether the pixel at column `x` of the current line lies in the
    /// object window: a sprite of the object window is opaque there.
    pub open spec fn in_obj_window(&self, x: usize) -> bool {
        x < LINE_WIDTH && self.current_sprite_line[x as int].window
    }

    /// The window region of a pixel: window 0 where it is enabled and holds
    /// the pixel, else window 1 likewise, else the object window likewise,
    /// else the outside. The object window is that of the current line.
    pub open spec fn in_window_spec(&self, x: usize, y: usize) -> Window {
        if self.dispcnt.spec_win(0) && self.inside(0, x, y) {
            Window::Win0
        } else if self.dispcnt.spec_win(1) && self.inside(1, x, y) {
            Window::Win1
        } else if self.dispcnt.spec_obj_win() && self.in_obj_window(x) {
            Window::ObjWin
        } else {
            Window::WinOut
        }
    }

    /// The window region of the pixel at column `x` of line `y`.
    pub fn in_window(&self, x: usize, y: usize) -> (r: Window)
        ensures
            r == self.in_window_spec(x, y),
    {
        let mut win: usize = 0;
        while win < 2
            invariant
                win <= 2,
                forall|w: usize| w < win ==> !(self.dispcnt.spec_win(w) && self.inside(w, x, y)),
            decreases 2 - win,
        {
            if self.dispcnt.win(win) {
                let x1 = (self.winxh[win] / 0x100) as usize;
                let x2 = (self.winxh[win] % 0x100) as usize;
                let y1 = (self.winxv[win] / 0x100) as usize;
                let y2 = (self.winxv[win] % 0x100) as usize;
                if x >= x1 && x < x2 && y >= y1 && y < y2 {
                    return if win == 0 {
                        Window::Win0
                    } else {
                        Window::Win1
                    };
                }
            }
            win += 1;
        }
        if self.dispcnt.obj_win() && x < LINE_WIDTH && self.current_sprite_line[x].window {
            Window::ObjWin
        } else {
            Window::WinOut
        }
    }
}

} // verus!
