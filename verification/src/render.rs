//! Painting the tint: every pixel of a frame gets the fixed hue and the
//! opacity in force.

use vstd::prelude::*;

verus! {

/// Red channel of the tint.
pub const TINT_RED: u8 = 255;

/// Green channel of the tint.
pub const TINT_GREEN: u8 = 0;

/// Blue channel of the tint.
pub const TINT_BLUE: u8 = 0;

/// Bytes per pixel of a frame: red, green, blue, alpha.
pub const BYTES_PER_PIXEL: usize = 4;

/// The byte at offset `i` of a frame tinted at `alpha`.
pub open spec fn tint_byte(i: int, alpha: u8) -> u8 {
    if i % 4 == 0 {
        TINT_RED
    } else if i % 4 == 1 {
        TINT_GREEN
    } else if i % 4 == 2 {
        TINT_BLUE
    } else {
        alpha
    }
}

/// Number of bytes of a frame of `len` bytes that belong to whole pixels.
pub open spec fn whole_pixel_bytes(len: int) -> int {
    len - len % 4
}

/// The frame after tinting at `alpha`: every whole pixel holds the tint, and
/// bytes behind the last whole pixel are as they were.
pub open spec fn tinted(frame: Seq<u8>, alpha: u8) -> Seq<u8> {
    Seq::new(
        frame.len(),
        |i: int|
            if i < whole_pixel_bytes(frame.len() as int) {
                tint_byte(i, alpha)
            } else {
                frame[i]
            },
    )
}

/// Fills every whole pixel of `frame` with the tint at `alpha`.
pub fn fill_frame(frame: &mut [u8], alpha: u8)
    ensures
        final(frame)@ == tinted(old(frame)@, alpha),
{
    let len: usize = frame.len();
    let mut at: usize = 0;
    while len - at >= 4
        invariant
            at <= len,
            at % 4 == 0,
            frame@.len() == len,
            old(frame)@.len() == len,
            forall|k: int| 0 <= k < at ==> #[trigger] frame@[k] == tint_byte(k, alpha),
            forall|k: int| at <= k < len ==> #[trigger] frame@[k] == old(frame)@[k],
        decreases len - at,
    {
        frame[at] = TINT_RED;
        frame[at + 1] = TINT_GREEN;
        frame[at + 2] = TINT_BLUE;
        frame[at + 3] = alpha;
        at = at + 4;
    }
    assert(at == whole_pixel_bytes(len as int));
    assert(frame@ =~= tinted(old(frame)@, alpha));
}

/// A tinted frame has the length it had, and each of its whole pixels is the
/// tint colour at the given alpha.
pub proof fn tinted_pixels_are_uniform(frame: Seq<u8>, alpha: u8, pixel: int)
    requires
        0 <= pixel,
        4 * pixel + 4 <= frame.len(),
    ensures
        tinted(frame, alpha).len() == frame.len(),
        tinted(frame, alpha)[4 * pixel] == TINT_RED,
        tinted(frame, alpha)[4 * pixel + 1] == TINT_GREEN,
        tinted(frame, alpha)[4 * pixel + 2] == TINT_BLUE,
        tinted(frame, alpha)[4 * pixel + 3] == alpha,
{
}

/// Tinting a frame twice leaves what the second tinting gives: nothing of an
/// earlier alpha survives in a whole pixel.
pub proof fn tinting_overwrites(frame: Seq<u8>, first: u8, second: u8)
    ensures
        tinted(tinted(frame, first), second) == tinted(frame, second),
{
    assert(tinted(tinted(frame, first), second) =~= tinted(frame, second));
}

} // verus!
