//! The picture processing unit: colour arithmetic shared by the renderer and
//! the host, the sprite attribute decoder and the scanline engine.
use vstd::prelude::*;

pub mod background;
pub mod compose;
pub mod lcd;
pub mod objects;
pub mod scanline;
pub mod sprite;

verus! {

/// The red channel of an RGB555 colour.
pub open spec fn red(px: u16) -> int {
    px as int % 32
}

/// The green channel of an RGB555 colour.
pub open spec fn green(px: u16) -> int {
    (px as int / 32) % 32
}

/// The blue channel of an RGB555 colour.
pub open spec fn blue(px: u16) -> int {
    (px as int / 1024) % 32
}

/// The RGB555 colour with the three channels given; bit 15 is clear.
pub open spec fn rgb(r: int, g: int, b: int) -> int {
    b * 1024 + g * 32 + r
}

/// A blending coefficient as the hardware reads it: values above 16 count as 16.
pub open spec fn coefficient(ev: u8) -> int {
    if ev > 16 {
        16
    } else {
        ev as int
    }
}

/// One channel of an alpha blend: `eva * a + evb * b`, saturated at 31.
pub open spec fn blend_channel(a: int, b: int, eva: u8, evb: u8) -> int {
    let sum = coefficient(eva) * a + coefficient(evb) * b;
    if sum > 31 {
        31
    } else {
        sum
    }
}

/// The alpha blend of two colours, channel by channel.
pub open spec fn blend_spec(target_px_a: u16, target_px_b: u16, eva: u8, evb: u8) -> int {
    rgb(
        blend_channel(red(target_px_a), red(target_px_b), eva, evb),
        blend_channel(green(target_px_a), green(target_px_b), eva, evb),
        blend_channel(blue(target_px_a), blue(target_px_b), eva, evb),
    )
}

/// One channel made brighter (`increase`) or darker by `evy` sixteenths of
/// its distance to white or to black.
pub open spec fn brightness_channel(c: int, evy: u8, increase: bool) -> int {
    if increase {
        c + (31 - c) * coefficient(evy) / 16
    } else {
        c - c * coefficient(evy) / 16
    }
}

/// A colour made brighter or darker, channel by channel.
pub open spec fn modify_brightness_spec(target_px_a: u16, evy: u8, increase: bool) -> int {
    rgb(
        brightness_channel(red(target_px_a), evy, increase),
        brightness_channel(green(target_px_a), evy, increase),
        brightness_channel(blue(target_px_a), evy, increase),
    )
}

/// A five-bit channel stretched to eight bits by repeating its top bits.
pub open spec fn expand_channel(c: int) -> int {
    c * 8 + c / 4
}

/// The 32-bit colour of an RGB555 value: red in the top byte, then green,
/// then blue, and an opaque alpha in the lowest byte.
pub open spec fn rgb555_to_color_spec(rgb: u16) -> int {
    expand_channel(red(rgb)) * 0x100_0000 + expand_channel(green(rgb)) * 0x1_0000 + expand_channel(
        blue(rgb),
    ) * 0x100 + 255
}

fn clamp_coefficient(ev: u8) -> (r: u16)
    ensures
        r == coefficient(ev),
{
    if ev > 16 {
        16
    } else {
        ev as u16
    }
}

fn saturate(sum: u16) -> (r: u16)
    ensures
        r == (if sum > 31 { 31 } else { sum as int }),
{
    if sum > 31 {
        31
    } else {
        sum
    }
}

/// Special colour effect: alpha blending of a first target over a second.
pub fn blend(target_px_a: u16, target_px_b: u16, eva: u8, evb: u8) -> (r: u16)
    ensures
        r == blend_spec(target_px_a, target_px_b, eva, evb),
        r < 0x8000,
{
    let eva_coeff = clamp_coefficient(eva);
    let evb_coeff = clamp_coefficient(evb);

    let r_a = target_px_a % 32;
    let g_a = (target_px_a / 32) % 32;
    let b_a = (target_px_a / 1024) % 32;

    let r_b = target_px_b % 32;
    let g_b = (target_px_b / 32) % 32;
    let b_b = (target_px_b / 1024) % 32;

    assert(eva_coeff * r_a + evb_coeff * r_b <= 992) by (nonlinear_arith)
        requires
            eva_coeff <= 16,
            evb_coeff <= 16,
            r_a <= 31,
            r_b <= 31,
    ;
    assert(eva_coeff * g_a + evb_coeff * g_b <= 992) by (nonlinear_arith)
        requires
            eva_coeff <= 16,
            evb_coeff <= 16,
            g_a <= 31,
            g_b <= 31,
    ;
    assert(eva_coeff * b_a + evb_coeff * b_b <= 992) by (nonlinear_arith)
        requires
            eva_coeff <= 16,
            evb_coeff <= 16,
            b_a <= 31,
            b_b <= 31,
    ;
    assert(0 <= eva_coeff * r_a && 0 <= eva_coeff * g_a && 0 <= eva_coeff * b_a) by (nonlinear_arith);
    let r = saturate(eva_coeff * r_a + evb_coeff * r_b);
    let g = saturate(eva_coeff * g_a + evb_coeff * g_b);
    let b = saturate(eva_coeff * b_a + evb_coeff * b_b);

    b * 1024 + g * 32 + r
}

/// Special colour effect: brightness increase (`MODE`) or decrease.
pub fn modify_brightness<const MODE: bool>(target_px_a: u16, evy: u8) -> (r: u16)
    ensures
        r == modify_brightness_spec(target_px_a, evy, MODE),
        r < 0x8000,
{
    let evy_coeff = clamp_coefficient(evy);

    let r_a = target_px_a % 32;
    let g_a = (target_px_a / 32) % 32;
    let b_a = (target_px_a / 1024) % 32;

    let r = brightness(r_a, evy_coeff, MODE);
    let g = brightness(g_a, evy_coeff, MODE);
    let b = brightness(b_a, evy_coeff, MODE);

    b * 1024 + g * 32 + r
}

fn brightness(c: u16, evy_coeff: u16, increase: bool) -> (r: u16)
    requires
        c <= 31,
        evy_coeff <= 16,
    ensures
        r == (if increase {
            c + (31 - c) * evy_coeff / 16
        } else {
            c - c * evy_coeff / 16
        }),
        r <= 31,
{
    if increase {
        assert(0 <= (31 - c) * evy_coeff <= (31 - c) * 16) by (nonlinear_arith)
            requires
                c <= 31,
                evy_coeff <= 16,
        ;
        c + (31 - c) * evy_coeff / 16
    } else {
        assert(0 <= c * evy_coeff <= c * 16) by (nonlinear_arith)
            requires
                evy_coeff <= 16,
        ;
        c - c * evy_coeff / 16
    }
}

/// Convert an RGB555 colour to a full 32-bit pixel.
pub fn rgb555_to_color(rgb: u16) -> (r: u32)
    ensures
        r == rgb555_to_color_spec(rgb),
{
    let red = (rgb % 32) as u32;
    let green = ((rgb / 32) % 32) as u32;
    let blue = ((rgb / 1024) % 32) as u32;

    (red * 8 + red / 4) * 0x100_0000 + (green * 8 + green / 4) * 0x1_0000 + (blue * 8 + blue / 4)
        * 0x100 + 255
}

} // verus!
