//! Color model for the rainbow effect: HSV to RGB conversion and the
//! diagnostic color-band label derived from the hue.
//!
//! All quantities are fixed-point integers so the conversion is exact:
//! a hue is measured in tenths of a degree (`0..3600` covers one turn),
//! and saturation and value are measured in thousandths (`1000` is `1.0`).

use vstd::prelude::*;

verus! {

/// Tenths of a degree in one full turn of the hue wheel.
pub const FULL_TURN_TENTHS: u16 = 3600;

/// The fixed-point representation of `1.0` for saturation and value.
pub const UNIT_THOUSANDTHS: u16 = 1000;

/// How far the hue advances each frame: 1.5 degrees.
pub const HUE_STEP_TENTHS: u16 = 15;

/// The fully saturated, full brightness channel: `255 * v`, truncated.
pub open spec fn full_channel(v: int) -> int {
    255 * v / 1000
}

/// The channel that carries no chroma, only the match value `m = v - v*s`:
/// `255 * v * (1 - s)`, truncated.
pub open spec fn base_channel(s: int, v: int) -> int {
    255 * v * (1000 - s) / 1000000
}

/// The rising/falling ramp weight of the hue within its pair of sectors, in
/// units of 1/600 of the chroma: `600 * (1 - |((h/600) mod 2) - 1|)`.
pub open spec fn ramp_weight(h: int) -> int {
    let u = h % 1200;
    if u < 600 {
        u
    } else {
        1200 - u
    }
}

/// The intermediate channel `x + m = v*s*(w/600) + v*(1 - s)`, scaled by 255
/// and truncated.
pub open spec fn mid_channel(h: int, s: int, v: int) -> int {
    255 * v * (s * ramp_weight(h) + 600 * (1000 - s)) / 600000000
}

/// The exact HSV to RGB conversion: chroma `c = v*s`, intermediate
/// `x = c * (1 - |((h/60 deg) mod 2) - 1|)`, match value `m = v - c`; the
/// sector of the hue picks which channel gets `c + m`, `x + m` and `m`, and
/// each channel is scaled by 255 and truncated toward zero.
pub open spec fn spec_hsv_to_rgb(h: int, s: int, v: int) -> (int, int, int) {
    let f = full_channel(v);
    let z = base_channel(s, v);
    let x = mid_channel(h, s, v);
    if h < 600 {
        (f, x, z)
    } else if h < 1200 {
        (x, f, z)
    } else if h < 1800 {
        (z, f, x)
    } else if h < 2400 {
        (z, x, f)
    } else if h < 3000 {
        (x, z, f)
    } else {
        (f, z, x)
    }
}

/// HSV to RGB. `h` is in tenths of a degree, `s` and `v` in thousandths.
pub fn hsv_to_rgb(h: u16, s: u16, v: u16) -> (rgb: (u8, u8, u8))
    requires
        h < FULL_TURN_TENTHS,
        s <= UNIT_THOUSANDTHS,
        v <= UNIT_THOUSANDTHS,
    ensures
        (rgb.0 as int, rgb.1 as int, rgb.2 as int) == spec_hsv_to_rgb(
            h as int,
            s as int,
            v as int,
        ),
{
    let hw: u64 = h as u64;
    let sw: u64 = s as u64;
    let vw: u64 = v as u64;

    let f_num: u64 = 255 * vw;
    let f: u64 = f_num / 1000;
    assert(f <= 255);

    assert(255 * vw * (1000 - sw) <= 255000000) by (nonlinear_arith)
        requires
            vw <= 1000,
            sw <= 1000,
    ;
    let z_num: u64 = 255 * vw * (1000 - sw);
    let z: u64 = z_num / 1000000;
    assert(z <= 255);

    let u: u64 = hw % 1200;
    let w: u64 = if u < 600 {
        u
    } else {
        1200 - u
    };
    assert(w <= 600);
    assert(sw * w + 600 * (1000 - sw) <= 600000) by (nonlinear_arith)
        requires
            sw <= 1000,
            w <= 600,
    ;
    let ramp: u64 = sw * w + 600 * (1000 - sw);
    assert(255 * vw * ramp <= 153000000000) by (nonlinear_arith)
        requires
            vw <= 1000,
            ramp <= 600000,
    ;
    let x_num: u64 = 255 * vw * ramp;
    let x: u64 = x_num / 600000000;
    assert(x <= 255);

    let fc: u8 = f as u8;
    let zc: u8 = z as u8;
    let xc: u8 = x as u8;
    if h < 600 {
        (fc, xc, zc)
    } else if h < 1200 {
        (xc, fc, zc)
    } else if h < 1800 {
        (zc, fc, xc)
    } else if h < 2400 {
        (zc, xc, fc)
    } else if h < 3000 {
        (xc, zc, fc)
    } else {
        (fc, zc, xc)
    }
}

/// Advance the hue by `step` tenths of a degree, wrapping at a full turn.
pub fn advance_hue(h: u16, step: u16) -> (next: u16)
    ensures
        next == (h + step) % (FULL_TURN_TENTHS as int),
        next < FULL_TURN_TENTHS,
{
    let wide: u32 = h as u32 + step as u32;
    (wide % 3600) as u16
}

/// The diagnostic band label for a hue given in whole degrees.
pub open spec fn spec_color_name(deg: int) -> Seq<char> {
    if deg <= 30 {
        "Red"@
    } else if deg <= 90 {
        "Yellow"@
    } else if deg <= 150 {
        "Green"@
    } else if deg <= 210 {
        "Cyan"@
    } else if deg <= 270 {
        "Blue"@
    } else if deg <= 330 {
        "Magenta"@
    } else {
        "Red"@
    }
}

/// The terminal display tag that goes with each band label.
pub open spec fn spec_color_tag(deg: int) -> Seq<char> {
    if deg <= 30 {
        "\x1b[31m"@
    } else if deg <= 90 {
        "\x1b[33m"@
    } else if deg <= 150 {
        "\x1b[32m"@
    } else if deg <= 210 {
        "\x1b[36m"@
    } else if deg <= 270 {
        "\x1b[34m"@
    } else if deg <= 330 {
        "\x1b[35m"@
    } else {
        "\x1b[31m"@
    }
}

/// The human-readable color-band label and its terminal display tag for a hue
/// given in tenths of a degree. Diagnostics only; not part of the wire
/// protocol.
pub fn get_color_name(h: u16) -> (name: (&'static str, &'static str))
    ensures
        name.0@ == spec_color_name(h as int / 10),
        name.1@ == spec_color_tag(h as int / 10),
{
    let deg: u16 = h / 10;
    if deg <= 30 {
        ("Red", "\x1b[31m")
    } else if deg <= 90 {
        ("Yellow", "\x1b[33m")
    } else if deg <= 150 {
        ("Green", "\x1b[32m")
    } else if deg <= 210 {
        ("Cyan", "\x1b[36m")
    } else if deg <= 270 {
        ("Blue", "\x1b[34m")
    } else if deg <= 330 {
        ("Magenta", "\x1b[35m")
    } else {
        ("Red", "\x1b[31m")
    }
}

} // verus!
