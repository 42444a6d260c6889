use vstd::prelude::*;

verus! {

/// A background color in RGBA order, one byte per channel.
pub type RGBA = (u8, u8, u8, u8);

/// The color a backend that cannot render translucent backgrounds keeps:
/// any alpha other than fully transparent is replaced by fully opaque.
pub open spec fn clamped_color_spec(c: RGBA, clamps_alpha: bool) -> RGBA {
    if clamps_alpha && c.3 != 0 {
        (c.0, c.1, c.2, 255u8)
    } else {
        c
    }
}

/// How a stored background color reaches the screen: the alpha channel is
/// honored only when the control itself was made transparent; otherwise the
/// pixels are fully opaque.
pub open spec fn rendered_color_spec(c: RGBA, transparent: bool) -> RGBA {
    if transparent {
        c
    } else {
        (c.0, c.1, c.2, 255u8)
    }
}

/// Apply the platform's alpha clamping rule to a requested color.
pub fn clamped_color(c: RGBA, clamps_alpha: bool) -> (r: RGBA)
    ensures
        r == clamped_color_spec(c, clamps_alpha),
{
    if clamps_alpha && c.3 != 0 {
        (c.0, c.1, c.2, 255u8)
    } else {
        c
    }
}

} // verus!
