//! The integer side of the hybrid (chroma + luma) key on BGRA frames.
//!
//! The per-pixel matte value itself is computed in floating point by the
//! caller; this module decides whether a frame can be keyed and with which
//! smoothing, writes the matte into the alpha bytes, keeps the smoothing
//! history and suppresses green spill.
use vstd::prelude::*;
use vstd::math::{max, min};

verus! {

/// One matte sample: the alpha byte to write, and whether the key left any
/// opacity at all (spill suppression applies only then).
#[derive(Clone, Copy, Debug)]
pub struct MatteSample {
    pub alpha: u8,
    pub visible: bool,
}

/// How a frame is keyed: the number of pixels, and whether the previous
/// matte is blended in.
#[derive(Clone, Copy, Debug)]
pub struct KeyPass {
    pub pixels: usize,
    pub smoothing: bool,
}

/// The pass for a frame of `width` x `height` pixels held in `data_len`
/// bytes: none when the data is shorter than the frame, else all
/// `width * height` pixels, with smoothing exactly when the previous matte has
/// one byte per pixel and `smoothing` is above zero.
pub open spec fn key_pass_of(data_len: usize, width: u32, height: u32, prev_len: Option<usize>, smoothing: u32) -> Option<KeyPass> {
    if data_len < width * height * 4 {
        None
    } else {
        Some(KeyPass {
            pixels: (width * height) as usize,
            smoothing: prev_len == Some((width * height) as usize) && smoothing > 0,
        })
    }
}

/// A previous matte of the wrong length, or one given while smoothing is 0,
/// is ignored: the pass is the same as without one.
pub proof fn lemma_unusable_history_ignored(data_len: usize, width: u32, height: u32, prev_len: Option<usize>, smoothing: u32)
    requires
        prev_len != Some((width * height) as usize) || smoothing == 0,
    ensures
        key_pass_of(data_len, width, height, prev_len, smoothing) == key_pass_of(data_len, width, height, None, smoothing),
{
}

/// Decides how a frame of `width` x `height` BGRA pixels held in `data_len`
/// bytes is keyed.
///
/// Gives `None` when the data is shorter than the frame (the frame is then
/// left as it is). Otherwise the pass covers `width * height` pixels and
/// blends in the previous matte exactly when one was given, it has one byte
/// per pixel, and `smoothing` is above zero.
pub fn plan_key_pass(data_len: usize, width: u32, height: u32, prev_len: Option<usize>, smoothing: u32) -> (pass: Option<KeyPass>)
    requires
        width * height <= u32::MAX,
        width * height * 4 <= usize::MAX,
    ensures
        pass == key_pass_of(data_len, width, height, prev_len, smoothing),
        pass is None <==> data_len < width * height * 4,
        pass matches Some(p) ==> p.pixels == width * height,
        pass matches Some(p) ==> (p.smoothing <==> (prev_len == Some((width * height) as usize) && smoothing > 0)),
{
    let pixels: usize = (width * height) as usize;
    let expected: usize = pixels * 4;
    if data_len < expected {
        return None;
    }
    let mut use_smoothing = false;
    match prev_len {
        Some(n) => {
            if n == pixels {
                use_smoothing = smoothing > 0;
            }
        },
        None => {},
    }
    Some(KeyPass { pixels, smoothing: use_smoothing })
}

/// Largest green value allowed by spill suppression for a pixel with red `r`
/// and blue `b`: 1.2 times the larger of the two, rounded down, at most 255.
pub open spec fn spill_limit(r: u8, b: u8) -> u8 {
    let m: int = if r >= b { r as int } else { b as int };
    if m * 6 / 5 > 255 {
        255u8
    } else {
        (m * 6 / 5) as u8
    }
}

/// Computes [`spill_limit`].
pub fn spill_threshold(r: u8, b: u8) -> (t: u8)
    ensures
        t == spill_limit(r, b),
        t as int == min(255, max(r as int, b as int) * 6 / 5),
{
    let m: u32 = if r >= b { r as u32 } else { b as u32 };
    let scaled: u32 = m * 6 / 5;
    if scaled > 255 {
        255
    } else {
        scaled as u8
    }
}

/// The byte at index `k` of a frame after its first `matte.len()` pixels got
/// their alpha from `matte`, and, with `spill` on, the green of each visible
/// pixel was lowered to its spill limit.
pub open spec fn keyed_byte(data: Seq<u8>, matte: Seq<MatteSample>, spill: bool, k: int) -> u8 {
    let i: int = k / 4;
    if k >= matte.len() * 4 {
        data[k]
    } else if k % 4 == 3 {
        matte[i].alpha
    } else if k % 4 == 1 && spill && matte[i].visible && data[k] > spill_limit(data[k + 1], data[k - 1]) {
        spill_limit(data[k + 1], data[k - 1])
    } else {
        data[k]
    }
}

/// The whole frame after keying.
pub open spec fn keyed(data: Seq<u8>, matte: Seq<MatteSample>, spill: bool) -> Seq<u8> {
    Seq::new(data.len(), |k: int| keyed_byte(data, matte, spill, k))
}

/// Writes the matte into the alpha byte of each of the first `matte.len()`
/// pixels of `data`; with `spill` on, the green byte of every visible pixel
/// is lowered to its spill limit when it lies above it. Blue, red and the
/// bytes past those pixels are not touched.
pub fn apply_key_matte(data: &mut [u8], matte: &[MatteSample], spill: bool)
    requires
        matte@.len() * 4 <= old(data)@.len(),
    ensures
        final(data)@ == keyed(old(data)@, matte@, spill),
        final(data)@.len() == old(data)@.len(),
        forall|k: int|
            0 <= k < old(data)@.len() && (k >= matte@.len() * 4 || k % 4 == 0 || k % 4 == 2) ==> #[trigger] final(data)@[k]
                == old(data)@[k],
        forall|k: int| 0 <= k < matte@.len() * 4 && k % 4 == 3 ==> #[trigger] final(data)@[k] == matte@[k / 4].alpha,
        forall|k: int|
            0 <= k < matte@.len() * 4 && k % 4 == 1 ==> #[trigger] final(data)@[k] as int == (if spill
                && matte@[k / 4].visible {
                min(old(data)@[k] as int, min(255, max(old(data)@[k + 1] as int, old(data)@[k - 1] as int) * 6 / 5))
            } else {
                old(data)@[k] as int
            }),
{
    let ghost orig = data@;
    let dlen: usize = data.len();
    let n: usize = matte.len();
    let mut i: usize = 0;
    while i < n
        invariant
            n == matte@.len(),
            n * 4 <= orig.len(),
            orig.len() == dlen,
            i <= n,
            data@.len() == orig.len(),
            forall|k: int| 0 <= k < 4 * i ==> #[trigger] data@[k] == keyed_byte(orig, matte@, spill, k),
            forall|k: int| 4 * i <= k < data@.len() ==> #[trigger] data@[k] == orig[k],
        decreases n - i,
    {
        let o: usize = i * 4;
        let sample = matte[i];
        data[o + 3] = sample.alpha;
        if spill && sample.visible {
            let t: u8 = spill_threshold(data[o + 2], data[o]);
            if data[o + 1] > t {
                data[o + 1] = t;
            }
        }
        proof {
            assert forall|k: int| 0 <= k < 4 * (i + 1) implies #[trigger] data@[k] == keyed_byte(orig, matte@, spill, k) by {
                if k >= 4 * i {
                    assert(k % 4 == k - 4 * i);
                    assert(k / 4 == i);
                }
            }
        }
        i = i + 1;
    }
    assert(data@ =~= keyed(orig, matte@, spill));
    proof {
        lemma_keyed_arithmetic(orig, matte@, spill);
    }
}

/// What keying does to each byte, in plain arithmetic: inside the keyed
/// pixels the alpha byte becomes the sample's alpha; with spill suppression
/// on, the green byte of every visible pixel (whatever its alpha, 255
/// included) becomes `min(green, min(255, max(red, blue) * 6 / 5))`; blue,
/// red, the green of other pixels and every byte past the keyed pixels keep
/// their values.
pub proof fn lemma_keyed_arithmetic(data: Seq<u8>, matte: Seq<MatteSample>, spill: bool)
    requires
        matte.len() * 4 <= data.len(),
    ensures
        keyed(data, matte, spill).len() == data.len(),
        forall|k: int|
            0 <= k < data.len() && (k >= matte.len() * 4 || k % 4 == 0 || k % 4 == 2) ==> #[trigger] keyed(
                data,
                matte,
                spill,
            )[k] == data[k],
        forall|k: int|
            0 <= k < matte.len() * 4 && k % 4 == 3 ==> #[trigger] keyed(data, matte, spill)[k] == matte[k / 4].alpha,
        forall|k: int|
            0 <= k < matte.len() * 4 && k % 4 == 1 ==> #[trigger] keyed(data, matte, spill)[k] as int == (if spill
                && matte[k / 4].visible {
                min(data[k] as int, min(255, max(data[k + 1] as int, data[k - 1] as int) * 6 / 5))
            } else {
                data[k] as int
            }),
{
}

/// Keeps the alpha of each matte sample as the previous matte for the next
/// frame's smoothing.
pub fn store_matte_history(history: &mut [u8], matte: &[MatteSample])
    requires
        old(history)@.len() == matte@.len(),
    ensures
        final(history)@.len() == matte@.len(),
        forall|i: int| 0 <= i < matte@.len() ==> #[trigger] final(history)@[i] == matte@[i].alpha,
{
    let n: usize = matte.len();
    let mut i: usize = 0;
    while i < n
        invariant
            n == matte@.len(),
            history@.len() == n,
            i <= n,
            forall|j: int| 0 <= j < i ==> #[trigger] history@[j] == matte@[j].alpha,
        decreases n - i,
    {
        history[i] = matte[i].alpha;
        i = i + 1;
    }
}

/// Keying a frame a second time with the same matte changes nothing more.
pub proof fn lemma_keying_idempotent(data: Seq<u8>, matte: Seq<MatteSample>, spill: bool)
    requires
        matte.len() * 4 <= data.len(),
    ensures
        keyed(keyed(data, matte, spill), matte, spill) == keyed(data, matte, spill),
{
    let once = keyed(data, matte, spill);
    assert forall|k: int| 0 <= k < data.len() implies #[trigger] keyed_byte(once, matte, spill, k) == once[k] by {
        if k < matte.len() * 4 && k % 4 == 1 {
            assert((k + 1) % 4 == 2);
            assert((k - 1) % 4 == 0);
            assert(once[k + 1] == data[k + 1]);
            assert(once[k - 1] == data[k - 1]);
        }
    }
    assert(keyed(once, matte, spill) =~= once);
}

/// Spill suppression never raises a green value, and never touches blue or red.
pub proof fn lemma_spill_only_lowers_green(data: Seq<u8>, matte: Seq<MatteSample>, spill: bool, k: int)
    requires
        matte.len() * 4 <= data.len(),
        0 <= k < data.len(),
        k % 4 != 3,
    ensures
        keyed(data, matte, spill)[k] <= data[k],
        k % 4 != 1 ==> keyed(data, matte, spill)[k] == data[k],
{
}

} // verus!
