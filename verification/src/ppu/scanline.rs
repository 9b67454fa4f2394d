//! The scanline state machine: one call per cycle takes the display
//! through drawing, horizontal blank and vertical blank.
use vstd::prelude::*;
use vstd::array::{spec_array_fill_for_copy_type, spec_array_update};
use crate::gba::LCD_HEIGHT;
use crate::mmu::irq::{Interrupt, IF};
use crate::ppu::lcd::{Mode, Ppu, HDRAW_LEN, LINE_WIDTH, TOTAL_LEN, TOTAL_LINES, VCOUNT};
use crate::ppu::sprite::{rot_scale_groups, Sprite, OAM_SIZE};

verus! {

/// Four background lines without a pixel.
pub open spec fn blank_lines() -> [[Option<u16>; LINE_WIDTH]; 4] {
    spec_array_fill_for_copy_type::<[Option<u16>; LINE_WIDTH], 4>(
        spec_array_fill_for_copy_type::<Option<u16>, LINE_WIDTH>(None),
    )
}

/// A reference point moved on by one step, modulo 2^32.
pub open spec fn spec_advance(point: u32, step: i16) -> u32 {
    ((point + step + 0x1_0000_0000) % 0x1_0000_0000) as u32
}

/// A reference point moved on by one step, modulo 2^32.
#[verifier::when_used_as_spec(spec_advance)]
pub fn advance(point: u32, step: i16) -> (r: u32)
    ensures
        r == spec_advance(point, step),
{
    ((point as i64 + step as i64 + 0x1_0000_0000) % 0x1_0000_0000) as u32
}

impl Ppu {
    /// The registers are in range and agree with the phase: the line
    /// counter stays below the number of lines and below 160 outside of
    /// vertical blank, and the position within the line stays within it.
    pub open spec fn timing_wf(&self) -> bool {
        &&& self.wf()
        &&& self.current_mode == Mode::HDraw ==> self.cycle <= HDRAW_LEN
        &&& self.current_mode != Mode::VBlank ==> self.vcount.spec_ly() < LCD_HEIGHT
    }

    /// The unit after the backgrounds of the current line were rendered.
    /// Modes 0 to 2 clear the background lines and render the enabled
    /// backgrounds: all four as text in mode 0; 0 and 1 as text and 2 as
    /// affine in mode 1; 2 and 3 as affine in mode 2. Modes 3 to 5 write the
    /// line of the bitmap into the frame. Other modes render nothing.
    pub open spec fn update_bg_scanline_spec(self, vram: Seq<u8>, palette_ram: Seq<u8>) -> Ppu {
        let mode = self.dispcnt.spec_bg_mode();
        let cleared = Ppu { current_bg_line: blank_lines(), ..self };
        if mode == 0 {
            let a = if self.dispcnt.spec_bg(0) { cleared.render_text_bg_spec(0, vram, palette_ram) } else { cleared };
            let b = if self.dispcnt.spec_bg(1) { a.render_text_bg_spec(1, vram, palette_ram) } else { a };
            let c = if self.dispcnt.spec_bg(2) { b.render_text_bg_spec(2, vram, palette_ram) } else { b };
            if self.dispcnt.spec_bg(3) { c.render_text_bg_spec(3, vram, palette_ram) } else { c }
        } else if mode == 1 {
            let a = if self.dispcnt.spec_bg(0) { cleared.render_text_bg_spec(0, vram, palette_ram) } else { cleared };
            let b = if self.dispcnt.spec_bg(1) { a.render_text_bg_spec(1, vram, palette_ram) } else { a };
            if self.dispcnt.spec_bg(2) { b.render_affine_bg_spec(2, vram, palette_ram) } else { b }
        } else if mode == 2 {
            let a = if self.dispcnt.spec_bg(2) { cleared.render_affine_bg_spec(2, vram, palette_ram) } else { cleared };
            if self.dispcnt.spec_bg(3) { a.render_affine_bg_spec(3, vram, palette_ram) } else { a }
        } else if mode <= 5 {
            self.render_bitmap_spec(vram, palette_ram)
        } else {
            self
        }
    }

    /// Render the backgrounds of the current line.
    pub fn update_bg_scanline(&mut self, vram: &[u8], palette_ram: &[u8])
        requires
            old(self).vcount.spec_ly() < LCD_HEIGHT,
        ensures
            *final(self) == old(self).update_bg_scanline_spec(vram@, palette_ram@),
    {
        let mode = self.dispcnt.bg_mode();
        let cnt = self.dispcnt;
        if mode == 0 {
            self.current_bg_line = [[None; LINE_WIDTH]; 4];
            if cnt.bg(0) {
                self.render_text_bg::<0>(vram, palette_ram);
            }
            if cnt.bg(1) {
                self.render_text_bg::<1>(vram, palette_ram);
            }
            if cnt.bg(2) {
                self.render_text_bg::<2>(vram, palette_ram);
            }
            if cnt.bg(3) {
                self.render_text_bg::<3>(vram, palette_ram);
            }
        } else if mode == 1 {
            self.current_bg_line = [[None; LINE_WIDTH]; 4];
            if cnt.bg(0) {
                self.render_text_bg::<0>(vram, palette_ram);
            }
            if cnt.bg(1) {
                self.render_text_bg::<1>(vram, palette_ram);
            }
            if cnt.bg(2) {
                self.render_affine_bg::<2>(vram, palette_ram);
            }
        } else if mode == 2 {
            self.current_bg_line = [[None; LINE_WIDTH]; 4];
            if cnt.bg(2) {
                self.render_affine_bg::<2>(vram, palette_ram);
            }
            if cnt.bg(3) {
                self.render_affine_bg::<3>(vram, palette_ram);
            }
        } else if mode <= 5 {
            self.render_bitmap(vram, palette_ram);
        }
    }

    /// The unit after the current line was rendered: the backgrounds, then
    /// the sprites that cover the line, then, in modes 0 to 2, the
    /// composition of both into the frame. The object attribute memory
    /// `oam` holds 1 KiB or more.
    #[verifier::opaque]
    pub open spec fn scanline_spec(self, vram: Seq<u8>, palette_ram: Seq<u8>, oam: Seq<u8>) -> Ppu {
        let backgrounds = self.update_bg_scanline_spec(vram, palette_ram);
        let sprites = backgrounds.render_sprite_line_spec(
            vram,
            palette_ram,
            Sprite::collect_obj_ly_spec(oam, self.vcount.spec_ly()),
            rot_scale_groups(oam),
        );
        if self.dispcnt.spec_bg_mode() < 3 {
            sprites.draw_line_spec(palette_ram)
        } else {
            sprites
        }
    }

    /// Render and draw the current line.
    pub fn scanline(&mut self, vram: &[u8], palette_ram: &[u8], oam: &[u8])
        requires
            old(self).vcount.spec_ly() < LCD_HEIGHT,
            oam@.len() >= OAM_SIZE,
        ensures
            *final(self) == old(self).scanline_spec(vram@, palette_ram@, oam@),
            final(self).dispstat == old(self).dispstat,
            final(self).vcount == old(self).vcount,
            final(self).cycle == old(self).cycle,
            final(self).current_mode == old(self).current_mode,
    {
        reveal(Ppu::scanline_spec);
        self.update_bg_scanline(vram, palette_ram);
        let current_sprites = Sprite::collect_obj_ly(oam, self.vcount.ly());
        let current_rot_scale = Sprite::collect_rot_scale_params(oam);
        self.render_sprite_line(vram, palette_ram, &current_sprites, &current_rot_scale);
        if self.dispcnt.bg_mode() < 3 {
            self.draw_line(palette_ram);
        }
    }

    /// The unit and the request flags at the start of line `ly`: the
    /// position within the line is 0, the horizontal blank flag is clear,
    /// and the match flag says whether `ly` is the line of the LYC field,
    /// which requests an interrupt where DISPSTAT enables it.
    pub open spec fn line_started(self, ly: u8, iff: IF) -> (Ppu, IF) {
        let matched = ly == self.dispstat.spec_lyc();
        (
            Ppu {
                cycle: 0,
                dispstat: self.dispstat.with_flag(1, false).with_flag(2, matched),
                vcount: VCOUNT(ly as u16),
                ..self
            },
            if matched && self.dispstat.spec_v_counter_irq() {
                iff.with(Interrupt::VCount, true)
            } else {
                iff
            },
        )
    }

    fn start_line(&mut self, ly: u8, iff: &mut IF)
        ensures
            (*final(self), *final(iff)) == old(self).line_started(ly, *old(iff)),
    {
        let matched = ly == self.dispstat.lyc();
        let irq = self.dispstat.v_counter_irq();
        self.cycle = 0;
        self.dispstat.set_hblank(false);
        self.dispstat.set_v_counter(matched);
        self.vcount.set_ly(ly);
        if matched && irq {
            iff.set_vcount(true);
        }
    }

    /// The unit with the internal reference points of both affine
    /// backgrounds moved on by PB and PD.
    pub open spec fn references_advanced(self) -> Ppu {
        Ppu {
            internal_ref_xx: spec_array_update(
                spec_array_update(self.internal_ref_xx, 0, spec_advance(self.internal_ref_xx[0], self.bgxpb[0])),
                1,
                spec_advance(self.internal_ref_xx[1], self.bgxpb[1]),
            ),
            internal_ref_xy: spec_array_update(
                spec_array_update(self.internal_ref_xy, 0, spec_advance(self.internal_ref_xy[0], self.bgxpd[0])),
                1,
                spec_advance(self.internal_ref_xy[1], self.bgxpd[1]),
            ),
            ..self
        }
    }

    /// The unit and the request flags after the work of a cycle while
    /// drawing: position `HDRAW_LEN` renders the line, raises the
    /// horizontal blank flag and requests its interrupt where enabled.
    #[verifier::opaque]
    pub open spec fn hdraw_spec(self, vram: Seq<u8>, palette_ram: Seq<u8>, oam: Seq<u8>, iff: IF) -> (Ppu, IF) {
        if self.cycle >= HDRAW_LEN {
            (
                Ppu {
                    dispstat: self.dispstat.with_flag(1, true),
                    prev_mode: Mode::HDraw,
                    current_mode: Mode::HBlank,
                    ..self.scanline_spec(vram, palette_ram, oam)
                },
                if self.dispstat.spec_hblank_irq() {
                    iff.with(Interrupt::HBlank, true)
                } else {
                    iff
                },
            )
        } else {
            (self, iff)
        }
    }

    /// The unit and the request flags after the work of a cycle in
    /// horizontal blank: position `TOTAL_LEN` moves the reference points
    /// on and starts the next line; line 160 raises the vertical blank
    /// flag, requests its interrupt where enabled and reloads the
    /// reference points from their registers.
    #[verifier::opaque]
    pub open spec fn hblank_spec(self, iff: IF) -> (Ppu, IF) {
        let ly = self.vcount.spec_ly();
        if self.cycle >= TOTAL_LEN {
            let (l, f1) = self.references_advanced().line_started((ly + 1) as u8, iff);
            if ly + 1 >= LCD_HEIGHT {
                (
                    Ppu {
                        dispstat: l.dispstat.with_flag(0, true),
                        prev_mode: Mode::HBlank,
                        current_mode: Mode::VBlank,
                        internal_ref_xx: l.bgxx,
                        internal_ref_xy: l.bgxy,
                        ..l
                    },
                    if self.dispstat.spec_vblank_irq() {
                        f1.with(Interrupt::VBlank, true)
                    } else {
                        f1
                    },
                )
            } else {
                (Ppu { prev_mode: Mode::HBlank, current_mode: Mode::HDraw, ..l }, f1)
            }
        } else {
            (self, iff)
        }
    }

    /// The unit and the request flags after the work of a cycle in
    /// vertical blank: the horizontal blank flag is raised at `HDRAW_LEN`;
    /// `TOTAL_LEN` starts the next line, and after the last line the frame
    /// starts again at line 0 with the vertical blank flag clear.
    #[verifier::opaque]
    pub open spec fn vblank_spec(self, iff: IF) -> (Ppu, IF) {
        let ly = self.vcount.spec_ly();
        let h = if self.cycle >= HDRAW_LEN {
            Ppu { dispstat: self.dispstat.with_flag(1, true), ..self }
        } else {
            self
        };
        if self.cycle >= TOTAL_LEN {
            let wrapped = ly + 1 >= TOTAL_LINES;
            let (l, f1) = h.line_started(if wrapped { 0u8 } else { (ly + 1) as u8 }, iff);
            if wrapped {
                (
                    Ppu {
                        dispstat: l.dispstat.with_flag(0, false),
                        prev_mode: Mode::VBlank,
                        current_mode: Mode::HDraw,
                        ..l
                    },
                    f1,
                )
            } else {
                (l, f1)
            }
        } else {
            (h, iff)
        }
    }

    /// The unit and the request flags after one cycle: the work of the
    /// current phase, and the position within the line moved on by one.
    pub open spec fn cycle_spec(self, vram: Seq<u8>, palette_ram: Seq<u8>, oam: Seq<u8>, iff: IF) -> (Ppu, IF) {
        let (p, f) = match self.current_mode {
            Mode::HDraw => self.hdraw_spec(vram, palette_ram, oam, iff),
            Mode::HBlank => self.hblank_spec(iff),
            Mode::VBlank => self.vblank_spec(iff),
        };
        (Ppu { cycle: (p.cycle + 1) as u16, ..p }, f)
    }

    fn hdraw_cycle(&mut self, vram: &[u8], palette_ram: &[u8], oam: &[u8], iff: &mut IF)
        requires
            old(self).timing_wf(),
            old(self).current_mode == Mode::HDraw,
            oam@.len() >= OAM_SIZE,
        ensures
            (*final(self), *final(iff)) == old(self).hdraw_spec(vram@, palette_ram@, oam@, *old(iff)),
            final(self).wf(),
            final(self).cycle == old(self).cycle,
            final(self).vcount == old(self).vcount,
            final(self).current_mode == Mode::HDraw ==> final(self).cycle < HDRAW_LEN,
            final(self).current_mode != Mode::VBlank,
    {
        reveal(Ppu::hdraw_spec);
        if self.cycle >= HDRAW_LEN {
            let irq = self.dispstat.hblank_irq();
            self.scanline(vram, palette_ram, oam);
            self.dispstat.set_hblank(true);
            self.prev_mode = Mode::HDraw;
            self.current_mode = Mode::HBlank;
            if irq {
                iff.set_hblank(true);
            }
        }
    }

    fn hblank_cycle(&mut self, iff: &mut IF)
        requires
            old(self).timing_wf(),
            old(self).current_mode == Mode::HBlank,
        ensures
            (*final(self), *final(iff)) == old(self).hblank_spec(*old(iff)),
            final(self).wf(),
            final(self).cycle < TOTAL_LEN,
            final(self).current_mode == Mode::HDraw ==> final(self).cycle == 0,
            final(self).current_mode != Mode::VBlank ==> final(self).vcount.spec_ly() < LCD_HEIGHT,
    {
        reveal(Ppu::hblank_spec);
        let ly = self.vcount.ly();
        if self.cycle >= TOTAL_LEN {
            let irq = self.dispstat.vblank_irq();
            self.internal_ref_xx[0] = advance(self.internal_ref_xx[0], self.bgxpb[0]);
            self.internal_ref_xx[1] = advance(self.internal_ref_xx[1], self.bgxpb[1]);
            self.internal_ref_xy[0] = advance(self.internal_ref_xy[0], self.bgxpd[0]);
            self.internal_ref_xy[1] = advance(self.internal_ref_xy[1], self.bgxpd[1]);
            self.start_line(ly + 1, iff);
            if ly as usize + 1 >= LCD_HEIGHT {
                self.dispstat.set_vblank(true);
                self.prev_mode = Mode::HBlank;
                self.current_mode = Mode::VBlank;
                self.internal_ref_xx = self.bgxx;
                self.internal_ref_xy = self.bgxy;
                if irq {
                    iff.set_vblank(true);
                }
            } else {
                self.prev_mode = Mode::HBlank;
                self.current_mode = Mode::HDraw;
            }
        }
    }

    fn vblank_cycle(&mut self, iff: &mut IF)
        requires
            old(self).timing_wf(),
            old(self).current_mode == Mode::VBlank,
        ensures
            (*final(self), *final(iff)) == old(self).vblank_spec(*old(iff)),
            final(self).wf(),
            final(self).cycle < TOTAL_LEN,
            final(self).current_mode == Mode::HDraw ==> final(self).cycle == 0,
            final(self).current_mode != Mode::VBlank ==> final(self).vcount.spec_ly() < LCD_HEIGHT,
            final(self).current_mode != Mode::HBlank,
    {
        reveal(Ppu::vblank_spec);
        let ly = self.vcount.ly();
        if self.cycle >= HDRAW_LEN {
            self.dispstat.set_hblank(true);
        }
        if self.cycle >= TOTAL_LEN {
            let wrapped = ly + 1 >= TOTAL_LINES;
            self.start_line(if wrapped { 0 } else { ly + 1 }, iff);
            if wrapped {
                self.dispstat.set_vblank(false);
                self.prev_mode = Mode::VBlank;
                self.current_mode = Mode::HDraw;
            }
        }
    }

    /// Advance the display by one cycle.
    pub fn cycle(&mut self, vram: &[u8], palette_ram: &[u8], oam: &[u8], iff: &mut IF)
        requires
            old(self).timing_wf(),
            oam@.len() >= OAM_SIZE,
        ensures
            (*final(self), *final(iff)) == old(self).cycle_spec(vram@, palette_ram@, oam@, *old(iff)),
            final(self).timing_wf(),
    {
        match self.current_mode {
            Mode::HDraw => self.hdraw_cycle(vram, palette_ram, oam, iff),
            Mode::HBlank => self.hblank_cycle(iff),
            Mode::VBlank => self.vblank_cycle(iff),
        }
        self.cycle = self.cycle + 1;
    }
}

impl Ppu {
    /// Whether the registers are in range and agree with the phase.
    pub fn check(&self) -> (ok: bool)
        ensures
            ok == self.timing_wf(),
    {
        self.vcount.0 < TOTAL_LINES as u16 && self.cycle <= TOTAL_LEN && (!matches!(
            self.current_mode,
            Mode::HDraw
        ) || self.cycle <= HDRAW_LEN) && (matches!(self.current_mode, Mode::VBlank) || (
        self.vcount.ly() as usize) < LCD_HEIGHT)
    }
}

/// The cycle that ends line 159 takes the display into vertical blank:
/// the line counter is 160, the phase before was horizontal blank, the
/// vertical blank flag is set, and the interrupt is requested where
/// DISPSTAT enables it.
pub proof fn lemma_vblank_entry(ppu: Ppu, vram: Seq<u8>, palette_ram: Seq<u8>, oam: Seq<u8>, iff: IF)
    requires
        ppu.current_mode == Mode::HBlank,
        ppu.cycle >= TOTAL_LEN,
        ppu.vcount.spec_ly() == 159,
    ensures
        ({
            let (after, flags) = ppu.cycle_spec(vram, palette_ram, oam, iff);
            &&& after.vcount.spec_ly() == 160
            &&& after.current_mode == Mode::VBlank
            &&& after.prev_mode == Mode::HBlank
            &&& after.dispstat.spec_vblank()
            &&& ppu.dispstat.spec_vblank_irq() ==> flags.spec_has(Interrupt::VBlank)
        }),
{
    reveal(Ppu::hblank_spec);
    let (line, f1) = ppu.references_advanced().line_started(160, iff);
    crate::bits::lemma_with_bit16(line.dispstat.0, 0, true, 0);
    crate::mmu::irq::lemma_request_flags(f1, Interrupt::VBlank, true, Interrupt::VBlank);
}

/// Whether the cycle that the display is about to have ends its phase.
pub open spec fn ends_phase(ppu: Ppu) -> bool {
    match ppu.current_mode {
        Mode::HDraw => ppu.cycle >= HDRAW_LEN,
        Mode::HBlank => ppu.cycle >= TOTAL_LEN,
        Mode::VBlank => ppu.cycle >= TOTAL_LEN && ppu.vcount.spec_ly() + 1 >= TOTAL_LINES,
    }
}

/// A cycle that does not end the phase leaves the display in its phase,
/// and leaves the phase that it remembers as the one before.
pub proof fn lemma_phase_kept(ppu: Ppu, vram: Seq<u8>, palette_ram: Seq<u8>, oam: Seq<u8>, iff: IF)
    requires
        !ends_phase(ppu),
    ensures
        ppu.cycle_spec(vram, palette_ram, oam, iff).0.current_mode == ppu.current_mode,
        ppu.cycle_spec(vram, palette_ram, oam, iff).0.prev_mode == ppu.prev_mode,
{
    reveal(Ppu::hdraw_spec);
    reveal(Ppu::hblank_spec);
    reveal(Ppu::vblank_spec);
}

} // verus!
