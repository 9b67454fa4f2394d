use kba::mmu::irq::{Interrupt, IF};
use kba::ppu::lcd::{ColorEffect, Mode, Obj, Ppu, Window, BGCONTROL, BLDALPHA, BLDCNT, BLDY, DISPCNT, WININ, WINOUT};
use kba::ppu::sprite::{ObjMode, ObjShape, Sprite};
use kba::ppu::{blend, modify_brightness, rgb555_to_color};

#[test]
fn blend_saturates_each_channel() {
    // Channels (1, 2, 3) and (4, 5, 6) with coefficients 2 and 3.
    let a = 1 | (2 << 5) | (3 << 10);
    let b = 4 | (5 << 5) | (6 << 10);
    assert_eq!(blend(a, b, 2, 3), 14 | (19 << 5) | (24 << 10));
    assert_eq!(blend(a, b, 16, 16), 31 | (31 << 5) | (31 << 10));
    assert_eq!(blend(a, b, 0, 0), 0);
    // Coefficients above 16 count as 16.
    assert_eq!(blend(1, 0, 31, 0), 16);
}

#[test]
fn brightness_moves_towards_white_or_black() {
    let px = 8 | (16 << 5) | (31 << 10);
    // 8 + 23 * 8 / 16 = 19, 16 + 15 * 8 / 16 = 23, 31.
    assert_eq!(modify_brightness::<true>(px, 8), 19 | (23 << 5) | (31 << 10));
    // 8 - 8 * 8 / 16 = 4, 16 - 8 = 8, 31 - 15 = 16.
    assert_eq!(modify_brightness::<false>(px, 8), 4 | (8 << 5) | (16 << 10));
    assert_eq!(modify_brightness::<true>(px, 0), px);
    assert_eq!(modify_brightness::<true>(px, 16), 0x7FFF);
    assert_eq!(modify_brightness::<false>(px, 31), 0);
}

#[test]
fn rgb555_expands_to_32_bits() {
    assert_eq!(rgb555_to_color(0x7FFF), 0xFFFF_FFFF);
    assert_eq!(rgb555_to_color(0), 0x0000_00FF);
    assert_eq!(rgb555_to_color(0x001F), 0xFF00_00FF);
    // Green 16: 16 * 8 + 16 / 4 = 132.
    assert_eq!(rgb555_to_color(16 << 5), 0x0084_00FF);
    assert_eq!(rgb555_to_color(1 << 10), 0x0000_08FF);
}

#[test]
fn sprite_attributes_decode() {
    // y = 0x9C, affine, double size, semi-transparent, 8 bits per pixel, vertical.
    let obj0: u64 = 0x9C | (1 << 8) | (1 << 9) | (1 << 10) | (1 << 13) | (2 << 14);
    // x = 0x1F0, rotation group 5, size 3.
    let obj1: u64 = 0x1F0 | (5 << 9) | (3 << 14);
    // tile 0x155, priority 2, palette 9.
    let obj2: u64 = 0x155 | (2 << 10) | (9 << 12);
    let sprite = Sprite::from(obj0 | (obj1 << 16) | (obj2 << 32));
    assert_eq!(sprite.y, 0x9C);
    assert_eq!(sprite.x, 0x1F0);
    assert!(sprite.rot_scale && sprite.double_or_disable && sprite.bpp && !sprite.mosaic);
    assert_eq!(sprite.obj_mode, ObjMode::SemiTransparent);
    assert_eq!(sprite.shape, ObjShape::Vertical);
    assert_eq!(sprite.rot_scale_param, 5);
    assert_eq!(sprite.size, 3);
    assert_eq!(sprite.tile_id, 0x155);
    assert_eq!(sprite.prio, 2);
    assert_eq!(sprite.pal_idx, 9);
    assert_eq!((sprite.width(), sprite.height()), (32, 64));
    // Flips share their bits with the rotation group.
    let flipped = Sprite::from((3u64 << 12) << 16);
    assert!(flipped.h_flip && flipped.v_flip);
}

#[test]
fn sprite_sizes() {
    let mut sprite = Sprite::from(0);
    let expected = [
        (ObjShape::Square, [(8, 8), (16, 16), (32, 32), (64, 64)]),
        (ObjShape::Horizontal, [(16, 8), (32, 8), (32, 16), (64, 32)]),
        (ObjShape::Vertical, [(8, 16), (8, 32), (16, 32), (32, 64)]),
        (ObjShape::Prohibited, [(0, 0), (0, 0), (0, 0), (0, 0)]),
    ];
    for (shape, sizes) in expected {
        for (size, (w, h)) in sizes.iter().enumerate() {
            sprite.shape = shape;
            sprite.size = size as u8;
            assert_eq!((sprite.width(), sprite.height()), (*w, *h));
        }
    }
}

#[test]
fn sprites_are_collected_by_line() {
    let mut oam = vec![0u8; 0x400];
    // Every entry but two lies below the screen.
    for k in 0..128 {
        oam[8 * k] = 200;
    }
    // Entry 3: y = 10, 8 by 8.
    oam[8 * 3] = 10;
    // Entry 7: y = 250 (6 lines above the screen), 16 by 16.
    oam[8 * 7] = 250;
    oam[8 * 7 + 3] = 0x40;
    let line_12 = Sprite::collect_obj_ly(&oam, 12);
    assert_eq!(line_12.len(), 1);
    assert_eq!(line_12[0].y, 10);
    let line_9 = Sprite::collect_obj_ly(&oam, 9);
    assert_eq!(line_9.len(), 1);
    assert_eq!(line_9[0].y, 250);
    assert!(Sprite::collect_obj_ly(&oam, 18).is_empty());
    assert!(Sprite::from(10).is_on_line(17));
    assert!(!Sprite::from(10).is_on_line(18));
    // An incomplete entry at the end is passed over.
    assert_eq!(Sprite::collect_obj_ly(&[0u8; 12], 0).len(), 1);
}

#[test]
fn rotation_groups_are_collected() {
    let mut oam = vec![0u8; 0x400];
    // Group 2: PA = 0x0100, PB = -1, PC = 2, PD = -256.
    let base = 2 * 0x20 + 6;
    oam[base] = 0x00;
    oam[base + 1] = 0x01;
    oam[base + 8] = 0xFF;
    oam[base + 9] = 0xFF;
    oam[base + 16] = 0x02;
    oam[base + 25] = 0xFF;
    let params = Sprite::collect_rot_scale_params(&oam);
    assert_eq!(params.len(), 32);
    assert_eq!(params[2], (0x0100, -1, 2, -256));
    assert_eq!(params[0], (0, 0, 0, 0));
    assert_eq!(params[31], (0, 0, 0, 0));
    // The last group ends with the last byte of the memory.
    oam[0x3FE] = 0x34;
    oam[0x3FF] = 0x12;
    assert_eq!(Sprite::collect_rot_scale_params(&oam)[31], (0, 0, 0, 0x1234));
}

#[test]
fn register_fields() {
    let cnt = DISPCNT(0xB545);
    assert_eq!(cnt.bg_mode(), 5);
    assert!(cnt.obj_char_vram_map() && !cnt.frame_select());
    assert_eq!(cnt.enabled_bgs(), 0b0101);
    assert!(cnt.bg(0) && !cnt.bg(1) && cnt.bg(2) && !cnt.bg(3) && !cnt.bg(4));
    assert!(cnt.obj() && cnt.win(0) && !cnt.win(1) && cnt.obj_win() && cnt.windowing());
    let bg = BGCONTROL(0xDF8E);
    assert_eq!(bg.prio(), 2);
    assert_eq!(bg.char_base_block(), 3);
    assert!(bg.bpp() && !bg.disp_area_overflow());
    assert_eq!(bg.screen_base_block(), 31);
    assert_eq!(bg.screen_size(), 3);
    let bld = BLDCNT(0x2F51);
    assert_eq!(bld.first_targets(), 0x11);
    assert_eq!(bld.second_targets(), 0x2F);
    assert_eq!(bld.color_effect(), ColorEffect::AlphaBlending);
    assert_eq!(BLDCNT(0x00C0).color_effect(), ColorEffect::BrightnessDecrease);
    assert_eq!(BLDCNT(0x0080).color_effect(), ColorEffect::BrightnessIncrease);
    assert_eq!(BLDCNT(0).color_effect(), ColorEffect::NoEffect);
    assert_eq!((BLDALPHA(0x0A07).eva(), BLDALPHA(0x0A07).evb()), (7, 10));
    assert_eq!(BLDY(0x10).evy(), 16);
}

#[test]
fn scanline_timing() {
    let mut ppu = Ppu::new();
    let mut iff = IF(0);
    let oam = vec![0u8; 0x400];
    // Horizontal blank and line match interrupts enabled, match at line 1.
    ppu.write16(0x0004, 0x0130);
    for _ in 0..1007 {
        assert!(!ppu.dispstat.hblank());
        assert_eq!(ppu.current_mode, Mode::HDraw);
        ppu.cycle(&[], &[], &oam, &mut iff);
    }
    assert_eq!(ppu.cycle, 1007);
    assert!(!ppu.dispstat.hblank());
    assert!(!iff.has(Interrupt::HBlank));
    // Cycle 1007 of line 0.
    ppu.cycle(&[], &[], &oam, &mut iff);
    assert!(ppu.dispstat.hblank());
    assert_eq!(ppu.current_mode, Mode::HBlank);
    assert!(iff.has(Interrupt::HBlank));
    for _ in 1008..1232 {
        ppu.cycle(&[], &[], &oam, &mut iff);
        assert!(ppu.dispstat.hblank());
        assert_eq!(ppu.vcount.ly(), 0);
    }
    assert_eq!(ppu.cycle, 1232);
    // Cycle 1232: the next line starts.
    ppu.cycle(&[], &[], &oam, &mut iff);
    assert_eq!(ppu.vcount.ly(), 1);
    assert!(!ppu.dispstat.hblank());
    assert_eq!(ppu.current_mode, Mode::HDraw);
    assert!(ppu.dispstat.v_counter());
    assert!(iff.has(Interrupt::VCount));
}

#[test]
fn frame_timing() {
    let mut ppu = Ppu::new();
    let mut iff = IF(0);
    let oam = vec![0u8; 0x400];
    // Vertical blank interrupt enabled.
    ppu.write16(0x0004, 0x0008);
    ppu.write16(0x0028, 0x0100);
    ppu.write16(0x0022, 0x0010);
    let mut ticks: u32 = 0;
    while ppu.vcount.ly() < 159 {
        ppu.cycle(&[], &[], &oam, &mut iff);
        ticks += 1;
    }
    // The reference point has moved on by PB for every line so far.
    assert_eq!(ppu.internal_ref_xx[0], 0x0100 + 159 * 0x10);
    assert!(!iff.has(Interrupt::VBlank));
    while ppu.vcount.ly() < 160 {
        ppu.cycle(&[], &[], &oam, &mut iff);
        ticks += 1;
    }
    assert_eq!(ticks, 160 * 1232 + 1);
    assert_eq!(ppu.current_mode, Mode::VBlank);
    assert!(ppu.dispstat.vblank());
    assert!(iff.has(Interrupt::VBlank));
    // At the top of vertical blank the reference point is reloaded.
    assert_eq!(ppu.internal_ref_xx[0], 0x0100);
    while ppu.vcount.ly() != 0 {
        ppu.cycle(&[], &[], &oam, &mut iff);
        ticks += 1;
        assert!(ppu.vcount.ly() < 228);
    }
    assert_eq!(ticks, 228 * 1232 + 1);
    assert_eq!(ppu.current_mode, Mode::HDraw);
    assert!(!ppu.dispstat.vblank());
}

#[test]
fn text_background_pixel() {
    let mut ppu = Ppu::new();
    let mut vram = vec![0u8; 0x18000];
    let mut palette = vec![0u8; 0x400];
    // Background 0: map in screen block 1, 4 bits per pixel.
    ppu.write16(0x0008, 0x0100);
    // Map entry (0, 0): tile 1, palette 2.
    vram[0x800] = 0x01;
    vram[0x801] = 0x20;
    // Tile 1: pixel 0 of row 0 has colour index 3, pixel 1 is transparent.
    vram[0x20] = 0x03;
    // Colour 3 of palette 2.
    palette[0x46] = 0x1F;
    palette[0x47] = 0x7C;
    ppu.render_text_bg::<0>(&vram, &palette);
    assert_eq!(ppu.current_bg_line[0][0], Some(0x7C1F));
    assert_eq!(ppu.current_bg_line[0][1], None);
    // Scrolled by one pixel the tile moves left; the map wraps at 256.
    ppu.write16(0x0010, 255);
    ppu.current_bg_line[0][0] = None;
    ppu.render_text_bg::<0>(&vram, &palette);
    assert_eq!(ppu.current_bg_line[0][0], None);
    assert_eq!(ppu.current_bg_line[0][1], Some(0x7C1F));
    // A horizontal flip mirrors the tile.
    ppu.write16(0x0010, 0);
    vram[0x801] = 0x24;
    ppu.current_bg_line[0][1] = None;
    ppu.render_text_bg::<0>(&vram, &palette);
    assert_eq!(ppu.current_bg_line[0][7], Some(0x7C1F));
    assert_eq!(ppu.current_bg_line[0][0], None);
    // 8 bits per pixel use the one palette of 256 colours.
    ppu.write16(0x0008, 0x0180);
    vram[0x801] = 0x00;
    vram[0x40] = 0x80;
    palette[0x100] = 0x34;
    palette[0x101] = 0x12;
    ppu.render_text_bg::<0>(&vram, &palette);
    assert_eq!(ppu.current_bg_line[0][0], Some(0x1234));
}

#[test]
fn affine_background_pixel() {
    let mut ppu = Ppu::new();
    let mut vram = vec![0u8; 0x18000];
    let mut palette = vec![0u8; 0x400];
    // Background 2: map in screen block 2, tiles in block 1, 128 by 128.
    ppu.write16(0x000C, 0x0204);
    // PA = 1.0: one texture pixel per screen pixel.
    ppu.write16(0x0020, 0x0100);
    // Map entry (1, 0) names tile 5.
    vram[0x1001] = 5;
    // Tile 5, row 0, column 2.
    vram[0x4000 + 5 * 64 + 2] = 9;
    palette[18] = 0xEF;
    palette[19] = 0x3D;
    ppu.render_affine_bg::<2>(&vram, &palette);
    assert_eq!(ppu.current_bg_line[2][10], Some(0x3DEF));
    assert_eq!(ppu.current_bg_line[2][9], None);
    // Outside of the background nothing shows without wraparound.
    assert_eq!(ppu.current_bg_line[2][138], None);
    ppu.write16(0x000C, 0x2204);
    ppu.render_affine_bg::<2>(&vram, &palette);
    assert_eq!(ppu.current_bg_line[2][138], Some(0x3DEF));
    // A reference point of -2 pixels moves the picture right.
    ppu.write16(0x000C, 0x0204);
    ppu.write16(0x0028, 0xFE00);
    ppu.write16(0x002A, 0x0FFF);
    ppu.current_bg_line[2] = [None; 512];
    ppu.render_affine_bg::<2>(&vram, &palette);
    assert_eq!(ppu.current_bg_line[2][12], Some(0x3DEF));
    assert_eq!(ppu.current_bg_line[2][0], None);
}

#[test]
fn bitmap_modes_write_the_frame() {
    let mut ppu = Ppu::new();
    let mut vram = vec![0u8; 0x18000];
    let mut palette = vec![0u8; 0x400];
    ppu.vcount.set_ly(2);
    // Mode 3: pixel (5, 2).
    ppu.write16(0x0000, 0x0403);
    vram[(2 * 240 + 5) * 2] = 0xCD;
    vram[(2 * 240 + 5) * 2 + 1] = 0x2B;
    ppu.render_bitmap(&vram, &palette);
    assert_eq!(ppu.buffer[2 * 240 + 5], Some(0x2BCD));
    assert_eq!(ppu.buffer[2 * 240 + 6], Some(0));
    assert_eq!(ppu.buffer[3 * 240], None);
    // Mode 4, second frame: pixel (7, 2) has palette index 4.
    ppu.write16(0x0000, 0x0414);
    vram[0xA000 + 2 * 240 + 7] = 4;
    palette[8] = 0x11;
    palette[9] = 0x22;
    ppu.render_bitmap(&vram, &palette);
    assert_eq!(ppu.buffer[2 * 240 + 7], Some(0x2211));
    // Mode 5: 160 pixels wide.
    ppu.write16(0x0000, 0x0405);
    vram[(2 * 160 + 159) * 2] = 0x55;
    ppu.render_bitmap(&vram, &palette);
    assert_eq!(ppu.buffer[2 * 240 + 159], Some(0x0055));
    assert_eq!(ppu.buffer[2 * 240 + 160], None);
}

#[test]
fn first_sprite_wins_on_the_sprite_line() {
    let mut ppu = Ppu::new();
    let mut vram = vec![0u8; 0x18000];
    let mut palette = vec![0u8; 0x400];
    ppu.write16(0x0000, 0x1000);
    // Two 8 by 8 sprites at x = 4 and x = 8, tiles 1 and 2, priorities 1 and 0.
    let first = Sprite::from((4u64 << 16) | ((1u64 | (1 << 10)) << 32));
    let second = Sprite::from((8u64 << 16) | ((2u64 | (1 << 12)) << 32) | (1 << 10));
    // Row 0 of tile 1: colour 1 everywhere; of tile 2: colour 2 everywhere.
    for i in 0..4 {
        vram[0x10000 + 32 + i] = 0x11;
        vram[0x10000 + 64 + i] = 0x22;
    }
    palette[0x202] = 0x01;
    palette[0x224] = 0x02;
    let params = Sprite::collect_rot_scale_params(&[0u8; 0x400]);
    ppu.render_sprite_line(&vram, &palette, &vec![first, second], &params);
    assert_eq!(ppu.current_sprite_line[3].px, None);
    assert_eq!(ppu.current_sprite_line[4].px, Some(1));
    assert_eq!(ppu.current_sprite_line[4].prio, 1);
    // The sprites overlap from 8 to 11: the first of the list shows.
    assert_eq!(ppu.current_sprite_line[8].px, Some(1));
    assert_eq!(ppu.current_sprite_line[11].px, Some(1));
    assert_eq!(ppu.current_sprite_line[12].px, Some(2));
    assert!(ppu.current_sprite_line[12].alpha);
    assert_eq!(ppu.current_sprite_line[15].px, Some(2));
    assert_eq!(ppu.current_sprite_line[16].px, None);
    // With sprites disabled the line is blank.
    ppu.write16(0x0000, 0x0000);
    ppu.render_sprite_line(&vram, &palette, &vec![first, second], &params);
    assert_eq!(ppu.current_sprite_line[4].px, None);
}

#[test]
fn composition_picks_the_layer_in_front() {
    let mut ppu = Ppu::new();
    // Mode 0 with backgrounds 0 and 1 and sprites.
    ppu.write16(0x0000, 0x1300);
    // Background 0 has priority 2, background 1 priority 1.
    ppu.write16(0x0008, 0x0002);
    ppu.write16(0x000A, 0x0001);
    ppu.current_bg_line[0][0] = Some(0x0A);
    ppu.current_bg_line[1][0] = Some(0x0B);
    ppu.current_bg_line[0][1] = Some(0x0A);
    ppu.current_sprite_line[1] = Obj { px: Some(0x0C), prio: 2, alpha: false, window: false };
    ppu.current_bg_line[1][2] = Some(0x0B);
    ppu.current_sprite_line[2] = Obj { px: Some(0x0C), prio: 2, alpha: false, window: false };
    ppu.current_sprite_line[3] = Obj { px: Some(0x0C), prio: 3, alpha: false, window: false };
    ppu.draw_line(&[]);
    assert_eq!(ppu.buffer[0], Some(0x0B));
    // A sprite in front of a background of its own priority.
    assert_eq!(ppu.buffer[1], Some(0x0C));
    assert_eq!(ppu.buffer[2], Some(0x0B));
    assert_eq!(ppu.buffer[3], Some(0x0C));
    assert_eq!(ppu.buffer[4], None);
    assert_eq!(ppu.find_top_layer(0, 6), 1);
    assert_eq!(ppu.find_top_layer(0, 1), 0);
    assert_eq!(ppu.find_top_layer(4, 6), 5);
}

#[test]
fn windows_gate_the_layers() {
    let mut ppu = Ppu::new();
    // Backgrounds 0 and 1, window 0 enabled.
    ppu.write16(0x0000, 0x2300);
    ppu.write16(0x0008, 0x0000);
    ppu.write16(0x000A, 0x0001);
    // Window 0 covers x from 8 to 15 and y from 0 to 9.
    ppu.write16(0x0040, 0x0810);
    ppu.write16(0x0044, 0x000A);
    // Inside only background 1 shows, outside only background 0.
    ppu.winin = WININ(0x0002);
    ppu.winout = WINOUT(0x0001);
    assert_eq!(ppu.in_window(8, 0), Window::Win0);
    assert_eq!(ppu.in_window(16, 0), Window::WinOut);
    assert_eq!(ppu.in_window(8, 10), Window::WinOut);
    for x in [4usize, 8, 15, 16] {
        ppu.current_bg_line[0][x] = Some(0xA0);
        ppu.current_bg_line[1][x] = Some(0xB1);
    }
    ppu.draw_line(&[]);
    assert_eq!(ppu.buffer[4], Some(0xA0));
    assert_eq!(ppu.buffer[8], Some(0xB1));
    assert_eq!(ppu.buffer[15], Some(0xB1));
    assert_eq!(ppu.buffer[16], Some(0xA0));
}

#[test]
fn colour_effects_change_the_layer_in_front() {
    let mut ppu = Ppu::new();
    ppu.write16(0x0000, 0x1300);
    ppu.write16(0x0008, 0x0000);
    ppu.write16(0x000A, 0x0001);
    // Alpha blending: background 0 over background 1 and the backdrop.
    ppu.bldcnt = BLDCNT(0x2241);
    ppu.bldalpha = BLDALPHA(0x0201);
    ppu.current_bg_line[0][0] = Some(3);
    ppu.current_bg_line[1][0] = Some(5);
    ppu.current_bg_line[0][1] = Some(3);
    // A semi-transparent sprite blends even though it is no first target.
    ppu.current_sprite_line[2] = Obj { px: Some(4), prio: 0, alpha: true, window: false };
    ppu.current_bg_line[1][2] = Some(5);
    let palette = [6u8, 0];
    ppu.special_color_effect(&palette);
    assert_eq!(ppu.current_bg_line[0][0], Some(3 + 2 * 5));
    assert_eq!(ppu.current_bg_line[1][0], Some(5));
    // The backdrop is the lower layer where no other layer is.
    assert_eq!(ppu.current_bg_line[0][1], Some(3 + 2 * 6));
    assert_eq!(ppu.current_sprite_line[2].px, Some(4 + 2 * 5));
    assert_eq!(ppu.current_bg_line[0][3], None);
    // Brightness increase of background 1 only.
    let mut ppu = Ppu::new();
    ppu.write16(0x0000, 0x0300);
    ppu.write16(0x000A, 0x0001);
    ppu.bldcnt = BLDCNT(0x0082);
    ppu.bldy = BLDY(8);
    ppu.current_bg_line[0][0] = Some(8);
    ppu.current_bg_line[1][1] = Some(8);
    ppu.special_color_effect(&palette);
    assert_eq!(ppu.current_bg_line[0][0], Some(8));
    assert_eq!(ppu.current_bg_line[1][1], Some(19 | (15 << 5) | (15 << 10)));
}

#[test]
fn whole_scanline_through_the_state_machine() {
    let mut ppu = Ppu::new();
    let mut iff = IF(0);
    let mut vram = vec![0u8; 0x18000];
    let mut palette = vec![0u8; 0x400];
    let mut oam = vec![0u8; 0x400];
    for k in 0..128 {
        oam[8 * k] = 200;
    }
    // Mode 0, background 0 and sprites; an 8 by 8 sprite at (2, 0), tile 1.
    ppu.write16(0x0000, 0x1100);
    ppu.write16(0x0008, 0x0103);
    oam[0] = 0;
    oam[2] = 2;
    oam[4] = 1;
    vram[0x10000 + 32] = 0x01;
    palette[0x202] = 0x77;
    vram[0x800] = 0x01;
    vram[0x20] = 0x44;
    palette[8] = 0x99;
    for _ in 0..1008 {
        ppu.cycle(&vram, &palette, &oam, &mut iff);
    }
    assert_eq!(ppu.buffer[0], Some(0x99));
    assert_eq!(ppu.buffer[1], Some(0x99));
    assert_eq!(ppu.buffer[2], Some(0x77));
    assert_eq!(ppu.buffer[3], None);
    assert_eq!(ppu.buffer[240], None);
}

#[test]
fn object_window_gates_the_layers() {
    let mut ppu = Ppu::new();
    let mut vram = vec![0u8; 0x18000];
    // Mode 0 with background 0, sprites and the object window.
    ppu.write16(0x0000, 0x9100);
    // Outside nothing shows; inside the object window background 0 shows.
    ppu.winout = WINOUT(0x0100);
    // An 8 by 8 sprite of the object window at x = 4 with tile 1.
    let marker = Sprite::from(0x0800 | (4u64 << 16) | (1u64 << 32));
    assert_eq!(marker.obj_mode, ObjMode::Window);
    for i in 0..4 {
        vram[0x10000 + 32 + i] = 0x11;
    }
    let params = Sprite::collect_rot_scale_params(&[0u8; 0x400]);
    ppu.render_sprite_line(&vram, &[], &vec![marker], &params);
    assert!(!ppu.current_sprite_line[3].window);
    assert!(ppu.current_sprite_line[4].window);
    assert!(ppu.current_sprite_line[11].window);
    assert!(!ppu.current_sprite_line[12].window);
    assert_eq!(ppu.current_sprite_line[4].px, None);
    assert_eq!(ppu.in_window(4, 0), Window::ObjWin);
    assert_eq!(ppu.in_window(12, 0), Window::WinOut);
    for x in 0..16 {
        ppu.current_bg_line[0][x] = Some(0xAA);
    }
    ppu.draw_line(&[]);
    assert_eq!(ppu.buffer[3], None);
    assert_eq!(ppu.buffer[4], Some(0xAA));
    assert_eq!(ppu.buffer[11], Some(0xAA));
    assert_eq!(ppu.buffer[12], None);
}

#[test]
fn affine_sprite_is_scaled_by_its_matrix() {
    let mut ppu = Ppu::new();
    let mut vram = vec![0u8; 0x18000];
    let mut palette = vec![0u8; 0x400];
    let mut oam = vec![0u8; 0x400];
    ppu.write16(0x0000, 0x1000);
    // Rotation group 0 zooms by two: PA = PD = 0.5.
    oam[6] = 0x80;
    oam[30] = 0x80;
    // An 8 by 8 affine sprite of double size at x = 16, tile 1.
    let sprite = Sprite::from((0x0300u64) | (16u64 << 16) | (1u64 << 32));
    assert!(sprite.rot_scale && sprite.double_or_disable);
    // Row 0 of tile 1: colours 1, 2, 3, 4, then transparent.
    vram[0x10000 + 32] = 0x21;
    vram[0x10000 + 33] = 0x43;
    for colour in 1..5usize {
        palette[0x200 + 2 * colour] = colour as u8;
    }
    let params = Sprite::collect_rot_scale_params(&oam);
    ppu.render_sprite_line(&vram, &palette, &vec![sprite], &params);
    let line: Vec<Option<u16>> = (16..26).map(|x| ppu.current_sprite_line[x].px).collect();
    assert_eq!(
        line,
        vec![Some(1), Some(1), Some(2), Some(2), Some(3), Some(3), Some(4), Some(4), None, None]
    );
    assert_eq!(ppu.current_sprite_line[15].px, None);
    // The box is 16 lines high: line 15 shows the last row, line 16 nothing.
    assert!(sprite.is_on_line(15));
    assert!(!sprite.is_on_line(16));
}

#[test]
fn flipped_and_wide_sprites() {
    let mut ppu = Ppu::new();
    let mut vram = vec![0u8; 0x18000];
    let mut palette = vec![0u8; 0x400];
    ppu.write16(0x0000, 0x1040);
    // A 16 by 8 sprite (horizontal, size 0) at x = 508, tile 4, with 8
    // bits per pixel and a horizontal flip; it wraps round the line.
    let sprite = Sprite::from((0x6000u64) | ((508u64 | (1 << 12)) << 16) | (4u64 << 32));
    assert_eq!((sprite.width(), sprite.height()), (16, 8));
    // The first pixel of the first tile and the last pixel of the second.
    vram[0x10000 + 4 * 32] = 7;
    vram[0x10000 + 4 * 32 + 64 + 7] = 9;
    palette[0x200 + 14] = 0x70;
    palette[0x200 + 18] = 0x90;
    let params = Sprite::collect_rot_scale_params(&[0u8; 0x400]);
    ppu.render_sprite_line(&vram, &palette, &vec![sprite], &params);
    // Flipped: the last pixel of the sprite shows first.
    assert_eq!(ppu.current_sprite_line[508].px, Some(0x90));
    assert_eq!(ppu.current_sprite_line[11].px, Some(0x70));
    assert_eq!(ppu.current_sprite_line[10].px, None);
    assert_eq!(ppu.current_sprite_line[12].px, None);
    // A regular sprite with the disable bit shows nothing.
    let disabled = Sprite::from(0x0200 | (4u64 << 32) | (0x2000));
    ppu.render_sprite_line(&vram, &palette, &vec![disabled], &params);
    assert_eq!(ppu.current_sprite_line[0].px, None);
}
