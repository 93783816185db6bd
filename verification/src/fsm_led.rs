use vstd::prelude::*;

verus! {

/// The 8-bit channel of `color` that starts at bit `shift`
/// (16: red, 8: green, 0: blue).
pub open spec fn channel(color: u32, shift: u32) -> u32 {
    (color >> shift) & 0xffu32
}

/// The colour written to the status LED for `color` (`0xRRGGBB`): each
/// channel is brought down to an eighth of its intensity.
pub open spec fn dimmed(color: u32) -> u32 {
    ((channel(color, 16) >> 3u32) << 16u32) | ((channel(color, 8) >> 3u32) << 8u32) | (channel(
        color,
        0,
    ) >> 3u32)
}

/// Brings one channel down to an eighth of its intensity.
pub fn dim(x: u32) -> (r: u32)
    ensures
        r == x / 8,
{
    assert(x >> 3u32 == x / 8) by (bit_vector);
    x >> 3
}

/// The dimmed colour that `set_color` hands to the LED driver.
pub fn dimmed_color(color: u32) -> (c: u32)
    ensures
        c == dimmed(color),
{
    let mut r = (color >> 16) & 0xffu32;
    let mut g = (color >> 8) & 0xffu32;
    let mut b = color & 0xffu32;
    let ghost (r0, g0, b0) = (r, g, b);
    proof {
        assert(r0 >> 3u32 == r0 / 8) by (bit_vector);
        assert(g0 >> 3u32 == g0 / 8) by (bit_vector);
        assert(b0 >> 3u32 == b0 / 8) by (bit_vector);
    }
    r = dim(r);
    g = dim(g);
    b = dim(b);
    assert((r << 16u32) + (g << 8u32) + b <= 0xffffffffu32 && (r << 16u32) + (g << 8u32) + b
        == dimmed(color)) by (bit_vector)
        requires
            r0 == (color >> 16u32) & 0xffu32,
            g0 == (color >> 8u32) & 0xffu32,
            b0 == color & 0xffu32,
            r == r0 >> 3u32,
            g == g0 >> 3u32,
            b == b0 >> 3u32,
    ;
    (r << 16) + (g << 8) + (b)
}

/// Each channel of the dimmed colour is the matching channel of the
/// requested colour divided by 8, and the top byte stays clear.
pub proof fn lemma_dimmed_channels(color: u32)
    ensures
        channel(dimmed(color), 16) == channel(color, 16) / 8,
        channel(dimmed(color), 8) == channel(color, 8) / 8,
        channel(dimmed(color), 0) == channel(color, 0) / 8,
        dimmed(color) >> 24u32 == 0,
{
    let d = dimmed(color);
    assert(((d >> 16u32) & 0xffu32) == ((color >> 16u32) & 0xffu32) / 8) by (bit_vector)
        requires
            d == ((((color >> 16u32) & 0xffu32) >> 3u32) << 16u32) | ((((color >> 8u32) & 0xffu32)
                >> 3u32) << 8u32) | (((color >> 0u32) & 0xffu32) >> 3u32),
    ;
    assert(((d >> 8u32) & 0xffu32) == ((color >> 8u32) & 0xffu32) / 8) by (bit_vector)
        requires
            d == ((((color >> 16u32) & 0xffu32) >> 3u32) << 16u32) | ((((color >> 8u32) & 0xffu32)
                >> 3u32) << 8u32) | (((color >> 0u32) & 0xffu32) >> 3u32),
    ;
    assert(((d >> 0u32) & 0xffu32) == ((color >> 0u32) & 0xffu32) / 8) by (bit_vector)
        requires
            d == ((((color >> 16u32) & 0xffu32) >> 3u32) << 16u32) | ((((color >> 8u32) & 0xffu32)
                >> 3u32) << 8u32) | (((color >> 0u32) & 0xffu32) >> 3u32),
    ;
    assert((d >> 24u32) == 0) by (bit_vector)
        requires
            d == ((((color >> 16u32) & 0xffu32) >> 3u32) << 16u32) | ((((color >> 8u32) & 0xffu32)
                >> 3u32) << 8u32) | (((color >> 0u32) & 0xffu32) >> 3u32),
    ;
}

} // verus!
