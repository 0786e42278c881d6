//! Decisions of the capture sources: the size a source is captured at,
//! whether a captured frame is rescaled, which camera mode is picked, and how
//! long a camera waits after a failed read.
use vstd::prelude::*;

verus! {

/// The size a frame of `src_w` x `src_h` is rescaled to, given the requested
/// input size `tw` x `th`: `None` (keep the frame) when no input size is set
/// (either side 0) or the frame already has it.
pub open spec fn spec_scale_target(src_w: u32, src_h: u32, tw: u32, th: u32) -> Option<(u32, u32)> {
    if tw > 0 && th > 0 && (tw != src_w || th != src_h) {
        Some((tw, th))
    } else {
        None
    }
}

/// A frame is rescaled to the requested input size exactly when both
/// requested sides are set and the frame differs from it in either side (the
/// width alone included); otherwise it is kept.
pub proof fn lemma_scale_target_conditions(src_w: u32, src_h: u32, tw: u32, th: u32)
    ensures
        tw > 0 && th > 0 && tw != src_w ==> spec_scale_target(src_w, src_h, tw, th) == Some((tw, th)),
        tw > 0 && th > 0 && th != src_h ==> spec_scale_target(src_w, src_h, tw, th) == Some((tw, th)),
        tw == 0 || th == 0 ==> spec_scale_target(src_w, src_h, tw, th) is None,
        tw == src_w && th == src_h ==> spec_scale_target(src_w, src_h, tw, th) is None,
        spec_scale_target(src_w, src_h, tw, th) matches Some(t) ==> t == (tw, th),
{
}

/// Decides whether a captured frame is rescaled to the requested input size.
pub fn scale_target(src_w: u32, src_h: u32, tw: u32, th: u32) -> (t: Option<(u32, u32)>)
    ensures
        t == spec_scale_target(src_w, src_h, tw, th),
        t is Some <==> (tw > 0 && th > 0 && (tw != src_w || th != src_h)),
        t matches Some(wh) ==> wh == (tw, th),
{
    if tw > 0 && th > 0 && (tw != src_w || th != src_h) {
        Some((tw, th))
    } else {
        None
    }
}

/// Whether rescaling a `src_w` x `src_h` frame to `dst_w` x `dst_h` does any
/// work: not when the target is empty or equals the source size (the frame is
/// then copied as it is).
pub fn resample_needed(src_w: u32, src_h: u32, dst_w: u32, dst_h: u32) -> (b: bool)
    ensures
        b == !(dst_w == 0 || dst_h == 0 || (src_w == dst_w && src_h == dst_h)),
{
    !(dst_w == 0 || dst_h == 0 || (src_w == dst_w && src_h == dst_h))
}

/// The requested input size when both sides are set, else the source's own size.
pub open spec fn spec_requested_or_native(tw: u32, th: u32, native_w: u32, native_h: u32) -> (u32, u32) {
    if tw > 0 && th > 0 {
        (tw, th)
    } else {
        (native_w, native_h)
    }
}

/// Size a display is captured at: the requested input size, or the display's
/// native size when no input size is set.
pub fn display_capture_size(tw: u32, th: u32, native_w: u32, native_h: u32) -> (wh: (u32, u32))
    ensures
        wh == spec_requested_or_native(tw, th, native_w, native_h),
        tw > 0 && th > 0 ==> wh == (tw, th),
        tw == 0 || th == 0 ==> wh == (native_w, native_h),
{
    if tw > 0 && th > 0 {
        (tw, th)
    } else {
        (native_w, native_h)
    }
}

/// `v` rounded up to an even number.
pub open spec fn round_up_even(v: u32) -> int {
    if v % 2 != 0 {
        v + 1
    } else {
        v as int
    }
}

/// Size a window is captured at: the requested input size, or the window's
/// own size, each side rounded up to an even number.
pub fn window_capture_size(tw: u32, th: u32, frame_w: u32, frame_h: u32) -> (wh: (u32, u32))
    requires
        spec_requested_or_native(tw, th, frame_w, frame_h).0 < u32::MAX,
        spec_requested_or_native(tw, th, frame_w, frame_h).1 < u32::MAX,
    ensures
        wh.0 == round_up_even(spec_requested_or_native(tw, th, frame_w, frame_h).0),
        wh.1 == round_up_even(spec_requested_or_native(tw, th, frame_w, frame_h).1),
        wh.0 % 2 == 0,
        wh.1 % 2 == 0,
        tw > 0 && th > 0 ==> (wh.0 == tw || wh.0 == tw + 1) && (wh.1 == th || wh.1 == th + 1),
        tw == 0 || th == 0 ==> (wh.0 == frame_w || wh.0 == frame_w + 1) && (wh.1 == frame_h || wh.1 == frame_h + 1),
        tw > 0 && th > 0 && tw % 2 == 0 && th % 2 == 0 ==> wh == (tw, th),
        (tw == 0 || th == 0) && frame_w % 2 == 0 && frame_h % 2 == 0 ==> wh == (frame_w, frame_h),
{
    let mut cap_w: u32 = if tw > 0 && th > 0 { tw } else { frame_w };
    let mut cap_h: u32 = if tw > 0 && th > 0 { th } else { frame_h };
    if cap_w % 2 != 0 {
        cap_w = cap_w + 1;
    }
    if cap_h % 2 != 0 {
        cap_h = cap_h + 1;
    }
    (cap_w, cap_h)
}

/// A capture mode offered by a camera.
#[derive(Clone, Copy, Debug)]
pub struct CameraMode {
    pub width: u32,
    pub height: u32,
    pub fps: u32,
}

/// Preference score of a camera mode: 0 below 15 fps, else width x height x
/// fps, times 10 for 1920 x 1080 and times 5 for 1280 x 720.
pub open spec fn mode_score(m: CameraMode) -> int {
    if m.fps < 15 {
        0
    } else if m.width == 1920 && m.height == 1080 {
        m.width * m.height * m.fps * 10
    } else if m.width == 1280 && m.height == 720 {
        m.width * m.height * m.fps * 5
    } else {
        m.width * m.height * m.fps
    }
}

/// The score in plain arithmetic: 0 below 15 fps; from 15 fps on, width x
/// height x fps times 10 for 1920 x 1080, 5 for 1280 x 720 and 1 otherwise,
/// which is above 0 for any non-empty frame.
pub proof fn lemma_mode_score_arithmetic(m: CameraMode)
    ensures
        m.fps < 15 ==> mode_score(m) == 0,
        m.fps >= 15 ==> mode_score(m) == m.width * m.height * m.fps * (if m.width == 1920 && m.height == 1080 {
            10int
        } else if m.width == 1280 && m.height == 720 {
            5int
        } else {
            1int
        }),
        m.fps >= 15 && m.width > 0 && m.height > 0 ==> mode_score(m) > 0,
        m.fps >= 15 && (m.width == 0 || m.height == 0) ==> mode_score(m) == 0,
{
    if m.fps >= 15 {
        let base: int = m.width * m.height * m.fps;
        if m.width > 0 && m.height > 0 {
            assert(base > 0) by (nonlinear_arith)
                requires base == m.width * m.height * m.fps, m.width > 0, m.height > 0, m.fps >= 15;
        } else {
            assert(base == 0) by (nonlinear_arith)
                requires base == m.width * m.height * m.fps, m.width == 0 || m.height == 0;
        }
    }
}

/// The score of a mode of at least 15 fps is computed in 32 bits.
pub open spec fn mode_score_fits(m: CameraMode) -> bool {
    m.fps < 15 || (m.width * m.height * m.fps <= u32::MAX && mode_score(m) <= u32::MAX)
}

/// `i` is the first mode with the highest score, and that score is above 0.
pub open spec fn is_best_mode(modes: Seq<CameraMode>, i: int) -> bool {
    &&& 0 <= i < modes.len()
    &&& mode_score(modes[i]) > 0
    &&& forall|j: int| 0 <= j < modes.len() ==> mode_score(#[trigger] modes[j]) <= mode_score(modes[i])
    &&& forall|j: int| 0 <= j < i ==> mode_score(#[trigger] modes[j]) < mode_score(modes[i])
}

/// Whether the score of `m` is computed without overflow, see [`mode_score_fits`].
pub fn camera_mode_score_fits(m: CameraMode) -> (b: bool)
    ensures
        b == mode_score_fits(m),
{
    if m.fps < 15 {
        return true;
    }
    match m.width.checked_mul(m.height) {
        None => {
            assert(m.width * m.height <= m.width * m.height * m.fps) by (nonlinear_arith)
                requires m.fps >= 15;
            false
        },
        Some(wh) => match wh.checked_mul(m.fps) {
            None => false,
            Some(base) => {
                if m.width == 1920 && m.height == 1080 {
                    base.checked_mul(10).is_some()
                } else if m.width == 1280 && m.height == 720 {
                    base.checked_mul(5).is_some()
                } else {
                    true
                }
            },
        },
    }
}

fn score_of(m: CameraMode) -> (s: u32)
    requires
        mode_score_fits(m),
    ensures
        s == mode_score(m),
{
    if m.fps < 15 {
        return 0;
    }
    assert(m.width * m.height <= m.width * m.height * m.fps) by (nonlinear_arith)
        requires m.fps >= 15;
    let score: u32 = m.width * m.height * m.fps;
    if m.width == 1920 && m.height == 1080 {
        score * 10
    } else if m.width == 1280 && m.height == 720 {
        score * 5
    } else {
        score
    }
}

/// Picks the camera mode to switch to: the first one with the highest score.
/// `None` when no mode scores above 0 (none reaches 15 fps with a non-empty
/// frame).
pub fn select_camera_mode(modes: &[CameraMode]) -> (best: Option<usize>)
    requires
        forall|j: int| 0 <= j < modes@.len() ==> mode_score_fits(#[trigger] modes@[j]),
    ensures
        best is None <==> forall|j: int| 0 <= j < modes@.len() ==> mode_score(#[trigger] modes@[j]) == 0,
        best matches Some(i) ==> is_best_mode(modes@, i as int),
        best is None <==> forall|j: int|
            0 <= j < modes@.len() ==> !(#[trigger] modes@[j].fps >= 15 && modes@[j].width > 0 && modes@[j].height > 0),
        best matches Some(i) ==> modes@[i as int].fps >= 15 && modes@[i as int].width > 0 && modes@[i as int].height > 0,
{
    proof {
        assert forall|j: int| 0 <= j < modes@.len() implies (mode_score(#[trigger] modes@[j]) == 0 <==> !(
        modes@[j].fps >= 15 && modes@[j].width > 0 && modes@[j].height > 0)) by {
            lemma_mode_score_arithmetic(modes@[j]);
        }
    }
    let mut best: Option<usize> = None;
    let mut max_score: u32 = 0;
    let mut i: usize = 0;
    while i < modes.len()
        invariant
            i <= modes@.len(),
            forall|j: int| 0 <= j < modes@.len() ==> mode_score_fits(#[trigger] modes@[j]),
            forall|j: int| 0 <= j < i ==> mode_score(#[trigger] modes@[j]) <= max_score,
            best is None ==> max_score == 0,
            best matches Some(b) ==> b < i && mode_score(modes@[b as int]) == max_score && max_score > 0
                && forall|j: int| 0 <= j < b ==> mode_score(#[trigger] modes@[j]) < max_score,
        decreases modes@.len() - i,
    {
        let score: u32 = score_of(modes[i]);
        if score > max_score {
            max_score = score;
            best = Some(i);
        }
        i = i + 1;
    }
    best
}

/// Decides whether an open camera switches mode: to the best mode when there
/// is one and its size differs from the current size.
pub fn camera_mode_upgrade(modes: &[CameraMode], current_w: u32, current_h: u32) -> (upgrade: Option<usize>)
    requires
        forall|j: int| 0 <= j < modes@.len() ==> mode_score_fits(#[trigger] modes@[j]),
    ensures
        upgrade matches Some(i) ==> is_best_mode(modes@, i as int) && (modes@[i as int].width != current_w
            || modes@[i as int].height != current_h),
        upgrade is None ==> (forall|j: int| 0 <= j < modes@.len() ==> mode_score(#[trigger] modes@[j]) == 0)
            || exists|i: int| is_best_mode(modes@, i) && modes@[i].width == current_w && modes@[i].height == current_h,
{
    match select_camera_mode(modes) {
        Some(i) => {
            if modes[i].width != current_w || modes[i].height != current_h {
                Some(i)
            } else {
                None
            }
        },
        None => None,
    }
}

/// Wait after a failed camera read, in milliseconds: 10 ms, doubled for each
/// earlier failure in a row (10, 20, 40, 80, 160, 320), and at most 500 ms.
pub open spec fn spec_retry_backoff_ms(consecutive_errors: u64) -> u64 {
    if consecutive_errors == 0 {
        10
    } else if consecutive_errors == 1 {
        20
    } else if consecutive_errors == 2 {
        40
    } else if consecutive_errors == 3 {
        80
    } else if consecutive_errors == 4 {
        160
    } else if consecutive_errors == 5 {
        320
    } else {
        500
    }
}

/// Computes the wait after a failed camera read: `min(10 << min(errors, 6), 500)`.
pub fn retry_backoff_ms(consecutive_errors: u64) -> (ms: u64)
    ensures
        ms == spec_retry_backoff_ms(consecutive_errors),
        ms <= 500,
{
    let shift: u64 = if consecutive_errors < 6 { consecutive_errors } else { 6 };
    assert(shift <= 6 ==> (10u64 << shift) == if shift == 0 { 10u64 } else if shift == 1 { 20u64 } else if shift == 2 {
        40u64
    } else if shift == 3 { 80u64 } else if shift == 4 { 160u64 } else if shift == 5 { 320u64 } else { 640u64 }) by (bit_vector);
    let raw: u64 = 10u64 << shift;
    if raw < 500 {
        raw
    } else {
        500
    }
}

/// The wait starts at 10 ms, doubles with each further failure up to the
/// sixth failure in a row, and is 500 ms from then on.
pub proof fn lemma_retry_backoff_doubling(e: u64)
    ensures
        spec_retry_backoff_ms(0) == 10,
        e < 5 ==> spec_retry_backoff_ms((e + 1) as u64) == 2 * spec_retry_backoff_ms(e),
        e >= 6 ==> spec_retry_backoff_ms(e) == 500,
{
}

/// The wait never shrinks as failures go on.
pub proof fn lemma_retry_backoff_monotonic(a: u64, b: u64)
    requires
        a <= b,
    ensures
        spec_retry_backoff_ms(a) <= spec_retry_backoff_ms(b),
{
}

} // verus!
