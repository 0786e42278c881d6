//! Alpha blending of a BGRA overlay onto a BGRA background, in place.
//!
//! Each pixel is four bytes: blue, green, red, alpha. An overlay pixel with
//! alpha 0 leaves the background pixel as it is; any other alpha mixes the
//! colour channels as `(overlay * a + background * (255 - a)) / 255` and makes
//! the result fully opaque.
use vstd::prelude::*;

verus! {

/// One colour channel of the blend: `(ov * a + bg * (255 - a)) / 255`.
pub open spec fn blend_channel(bg: u8, ov: u8, a: u8) -> u8 {
    ((ov * a + bg * (255 - a)) / 255) as u8
}

/// The byte at index `k` of the blended frame, for `k` inside the frame.
pub open spec fn blended_byte(bg: Seq<u8>, ov: Seq<u8>, k: int) -> u8 {
    let a: u8 = ov[k - k % 4 + 3];
    if a == 0 {
        bg[k]
    } else if k % 4 == 3 {
        255u8
    } else {
        blend_channel(bg[k], ov[k], a)
    }
}

/// The background after blending the first `len` bytes (whole pixels) of `ov` onto it.
pub open spec fn blended(bg: Seq<u8>, ov: Seq<u8>, len: int) -> Seq<u8> {
    Seq::new(bg.len(), |k: int| if k < len { blended_byte(bg, ov, k) } else { bg[k] })
}

/// Number of bytes of a BGRA frame of the given size.
pub open spec fn frame_bytes(width: u32, height: u32) -> int {
    width * height * 4
}

proof fn lemma_blend_channel_bound(bg: u8, ov: u8, a: u8)
    ensures
        0 <= (ov * a + bg * (255 - a)) / 255 <= 255,
        a == 255 ==> (ov * a + bg * (255 - a)) / 255 == ov,
{
    assert(0 <= ov * a + bg * (255 - a) <= 255 * 255) by (nonlinear_arith);
    if a == 255 {
        assert((ov * 255 + bg * 0) / 255 == ov) by (nonlinear_arith);
    }
}

/// Every blended colour channel lies between the background and the overlay
/// values.
pub proof fn lemma_blend_channel_between(bg: u8, ov: u8, a: u8)
    ensures
        (bg <= ov ==> bg <= blend_channel(bg, ov, a) <= ov),
        (ov <= bg ==> ov <= blend_channel(bg, ov, a) <= bg),
{
    lemma_blend_channel_bound(bg, ov, a);
    let s: int = ov * a + bg * (255 - a);
    if bg <= ov {
        assert(bg * 255 <= s <= ov * 255) by (nonlinear_arith)
            requires s == ov * a + bg * (255 - a), bg <= ov, 0 <= a <= 255;
    } else {
        assert(ov * 255 <= s <= bg * 255) by (nonlinear_arith)
            requires s == ov * a + bg * (255 - a), ov <= bg, 0 <= a <= 255;
    }
    assert(s / 255 >= (if bg <= ov { bg as int } else { ov as int })) by (nonlinear_arith)
        requires s >= (if bg <= ov { bg as int } else { ov as int }) * 255;
    assert(s / 255 <= (if bg <= ov { ov as int } else { bg as int })) by (nonlinear_arith)
        requires s <= (if bg <= ov { ov as int } else { bg as int }) * 255, s >= 0;
}

/// An overlay whose pixels are all fully transparent leaves the background
/// as it is.
pub proof fn lemma_blend_transparent(bg: Seq<u8>, ov: Seq<u8>, len: int)
    requires
        0 <= len <= bg.len(),
        len <= ov.len(),
        len % 4 == 0,
        forall|p: int| 0 <= p < len && p % 4 == 3 ==> #[trigger] ov[p] == 0,
    ensures
        blended(bg, ov, len) == bg,
{
    assert forall|k: int| 0 <= k < bg.len() implies #[trigger] blended(bg, ov, len)[k] == bg[k] by {
        if k < len {
            assert((k - k % 4 + 3) % 4 == 3);
            assert(k - k % 4 + 3 < len);
        }
    }
    assert(blended(bg, ov, len) =~= bg);
}

/// An overlay whose pixels are all fully opaque replaces the colours of the
/// background, and the result is fully opaque.
pub proof fn lemma_blend_opaque(bg: Seq<u8>, ov: Seq<u8>, len: int)
    requires
        0 <= len <= bg.len(),
        len <= ov.len(),
        len % 4 == 0,
        forall|p: int| 0 <= p < len && p % 4 == 3 ==> #[trigger] ov[p] == 255,
    ensures
        forall|k: int| 0 <= k < len && k % 4 != 3 ==> #[trigger] blended(bg, ov, len)[k] == ov[k],
        forall|k: int| 0 <= k < len && k % 4 == 3 ==> #[trigger] blended(bg, ov, len)[k] == 255,
{
    assert forall|k: int| 0 <= k < len implies #[trigger] blended(bg, ov, len)[k] == (if k % 4 == 3 { 255u8 } else { ov[k] }) by {
        assert((k - k % 4 + 3) % 4 == 3);
        assert(k - k % 4 + 3 < len);
        lemma_blend_channel_bound(bg[k], ov[k], 255);
    }
}

/// Blending an overlay whose alphas are all 0 or 255 a second time changes
/// nothing more.
pub proof fn lemma_blend_binary_alpha_idempotent(bg: Seq<u8>, ov: Seq<u8>, len: int)
    requires
        0 <= len <= bg.len(),
        len <= ov.len(),
        len % 4 == 0,
        forall|p: int| 0 <= p < len && p % 4 == 3 ==> #[trigger] ov[p] == 0 || ov[p] == 255,
    ensures
        blended(blended(bg, ov, len), ov, len) == blended(bg, ov, len),
{
    let once = blended(bg, ov, len);
    assert forall|k: int| 0 <= k < bg.len() implies #[trigger] blended(once, ov, len)[k] == once[k] by {
        if k < len {
            assert((k - k % 4 + 3) % 4 == 3);
            assert(k - k % 4 + 3 < len);
            lemma_blend_channel_bound(bg[k], ov[k], ov[k - k % 4 + 3]);
            lemma_blend_channel_bound(once[k], ov[k], ov[k - k % 4 + 3]);
        }
    }
    assert(blended(once, ov, len) =~= once);
}

/// What blending does to each byte, in plain arithmetic: a byte outside the
/// frame, or of a pixel whose overlay alpha `a` is 0, keeps its value; for
/// any other alpha the alpha byte becomes 255 and each colour byte becomes
/// `(ov * a + bg * (255 - a)) / 255` (so alpha 255 copies the overlay colour).
pub proof fn lemma_blend_arithmetic(bg: Seq<u8>, ov: Seq<u8>, len: int)
    requires
        0 <= len <= bg.len(),
        len <= ov.len(),
        len % 4 == 0,
    ensures
        blended(bg, ov, len).len() == bg.len(),
        forall|k: int|
            0 <= k < bg.len() && (k >= len || ov[k - k % 4 + 3] == 0) ==> #[trigger] blended(bg, ov, len)[k]
                == bg[k],
        forall|k: int|
            0 <= k < len && k % 4 == 3 && ov[k - k % 4 + 3] > 0 ==> #[trigger] blended(bg, ov, len)[k] == 255,
        forall|k: int|
            0 <= k < len && k % 4 != 3 && ov[k - k % 4 + 3] > 0 ==> #[trigger] blended(bg, ov, len)[k] as int == (
            ov[k] * ov[k - k % 4 + 3] + bg[k] * (255 - ov[k - k % 4 + 3])) / 255,
        forall|k: int|
            0 <= k < len && k % 4 != 3 && ov[k - k % 4 + 3] == 255 ==> #[trigger] blended(bg, ov, len)[k] == ov[k],
{
    assert forall|k: int| 0 <= k < len && k % 4 != 3 && ov[k - k % 4 + 3] > 0 implies #[trigger] blended(
        bg,
        ov,
        len,
    )[k] as int == (ov[k] * ov[k - k % 4 + 3] + bg[k] * (255 - ov[k - k % 4 + 3])) / 255 by {
        assert((k - k % 4 + 3) % 4 == 3);
        assert(k - k % 4 + 3 < len);
        lemma_blend_channel_bound(bg[k], ov[k], ov[k - k % 4 + 3]);
    }
    assert forall|k: int| 0 <= k < len && k % 4 != 3 && ov[k - k % 4 + 3] == 255 implies #[trigger] blended(
        bg,
        ov,
        len,
    )[k] == ov[k] by {
        lemma_blend_channel_bound(bg[k], ov[k], ov[k - k % 4 + 3]);
    }
}

/// Blends `overlay` onto `bg` for a frame of `width` x `height` BGRA pixels.
///
/// When either buffer is shorter than the frame nothing is changed. Otherwise,
/// for every pixel of the frame: an overlay alpha of 0 keeps the background
/// pixel; an alpha of 255 copies the overlay colour; any other alpha mixes the
/// colours; in the last two cases the background alpha becomes 255. Bytes past
/// the frame are not touched.
pub fn blend_frames(bg: &mut [u8], overlay: &[u8], width: u32, height: u32)
    requires
        frame_bytes(width, height) <= u32::MAX,
    ensures
        old(bg)@.len() < frame_bytes(width, height) || overlay@.len() < frame_bytes(width, height)
            ==> final(bg)@ == old(bg)@,
        old(bg)@.len() >= frame_bytes(width, height) && overlay@.len() >= frame_bytes(width, height)
            ==> final(bg)@ == blended(old(bg)@, overlay@, frame_bytes(width, height)),
        final(bg)@.len() == old(bg)@.len(),
        forall|k: int|
            0 <= k < old(bg)@.len() && (k >= frame_bytes(width, height) || overlay@.len() < frame_bytes(width, height)
                || old(bg)@.len() < frame_bytes(width, height) || overlay@[k - k % 4 + 3] == 0)
                ==> #[trigger] final(bg)@[k] == old(bg)@[k],
        old(bg)@.len() >= frame_bytes(width, height) && overlay@.len() >= frame_bytes(width, height) ==> forall|k: int|
            0 <= k < frame_bytes(width, height) && k % 4 == 3 && overlay@[k - k % 4 + 3] > 0 ==> #[trigger] final(bg)@[k] == 255,
        old(bg)@.len() >= frame_bytes(width, height) && overlay@.len() >= frame_bytes(width, height) ==> forall|k: int|
            0 <= k < frame_bytes(width, height) && k % 4 != 3 && overlay@[k - k % 4 + 3] > 0 ==> #[trigger] final(bg)@[k] as int == (overlay@[k] * overlay@[k - k % 4 + 3] + old(bg)@[k] * (255 - overlay@[k - k % 4
                + 3])) / 255,
{
    assert(width * height <= width * height * 4) by (nonlinear_arith);
    let pixels: u32 = width * height;
    let len: usize = (pixels * 4) as usize;
    if bg.len() < len || overlay.len() < len {
        return;
    }
    let ghost orig = bg@;
    let mut i: usize = 0;
    while i < len
        invariant
            len == frame_bytes(width, height),
            len % 4 == 0,
            i % 4 == 0,
            i <= len,
            len <= bg@.len(),
            len <= overlay@.len(),
            bg@.len() == orig.len(),
            forall|k: int| 0 <= k < i ==> bg@[k] == #[trigger] blended_byte(orig, overlay@, k),
            forall|k: int| i <= k < bg@.len() ==> bg@[k] == orig[k],
        decreases len - i,
    {
        let a: u8 = overlay[i + 3];
        if a == 255 {
            bg[i] = overlay[i];
            bg[i + 1] = overlay[i + 1];
            bg[i + 2] = overlay[i + 2];
            bg[i + 3] = 255;
            proof {
                lemma_blend_channel_bound(orig[i as int], overlay@[i as int], a);
                lemma_blend_channel_bound(orig[i + 1], overlay@[i + 1], a);
                lemma_blend_channel_bound(orig[i + 2], overlay@[i + 2], a);
            }
        } else if a != 0 {
            let inv: u32 = 255 - a as u32;
            let aa: u32 = a as u32;
            proof {
                lemma_blend_channel_bound(orig[i as int], overlay@[i as int], a);
                lemma_blend_channel_bound(orig[i + 1], overlay@[i + 1], a);
                lemma_blend_channel_bound(orig[i + 2], overlay@[i + 2], a);
            }
            let b0: u32 = (overlay[i] as u32 * aa + bg[i] as u32 * inv) / 255;
            let g0: u32 = (overlay[i + 1] as u32 * aa + bg[i + 1] as u32 * inv) / 255;
            let r0: u32 = (overlay[i + 2] as u32 * aa + bg[i + 2] as u32 * inv) / 255;
            bg[i] = b0 as u8;
            bg[i + 1] = g0 as u8;
            bg[i + 2] = r0 as u8;
            bg[i + 3] = 255;
        }
        proof {
            assert forall|k: int| 0 <= k < i + 4 implies bg@[k] == #[trigger] blended_byte(orig, overlay@, k) by {
                if k >= i {
                    assert(k % 4 == k - i);
                    assert(k - k % 4 + 3 == i + 3);
                }
            }
        }
        i = i + 4;
    }
    assert(bg@ =~= blended(orig, overlay@, len as int));
    proof {
        lemma_blend_arithmetic(orig, overlay@, len as int);
    }
}

} // verus!
