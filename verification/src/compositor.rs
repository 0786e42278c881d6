//! Decisions of the compositor loop over its five layers.
//!
//! Each tick the loop reads the output resolution, builds a black canvas,
//! and for every layer that holds a frame, bottom to top: keys it when the
//! layer's key is on (keeping a matte history for smoothing), rescales it to
//! the output size when needed, and puts it on the canvas (layer 0 replaces
//! the canvas, the others are alpha-blended onto it). The result goes to the
//! enabled outputs and, at half size, to the preview.
use vstd::prelude::*;
use crate::blender::{blend_frames, blended, frame_bytes};

verus! {

/// Number of compositing layers; layer 0 is the background.
pub const LAYER_COUNT: usize = 5;

/// A frame of 0 x 0 pixels tells the compositor to empty the layer.
pub fn is_clear_frame(width: u32, height: u32) -> (b: bool)
    ensures
        b == (width == 0 && height == 0),
{
    width == 0 && height == 0
}

/// What happens to a layer's matte history this tick.
#[derive(Clone, Copy, Debug)]
pub enum HistoryAction {
    /// Leave it as it is.
    Keep,
    /// Replace it by this many zero bytes (fully transparent).
    Reset(usize),
    /// Drop it.
    Discard,
}

/// How one layer that holds a frame is treated this tick.
#[derive(Clone, Copy, Debug)]
pub struct LayerPlan {
    /// Whether the hybrid key is applied to the frame.
    pub key: bool,
    /// What happens to the matte history, before keying.
    pub history: HistoryAction,
    /// The size the (keyed) frame is rescaled to, if it differs from it.
    pub scale_to: Option<(u32, u32)>,
    /// Whether the frame replaces the canvas (else it is blended onto it).
    pub replace_canvas: bool,
}

/// Plans layer `layer`, which holds a `frame_w` x `frame_h` frame, for an
/// output of `out_w` x `out_h`.
///
/// The frame is keyed when the hybrid key is switched on globally
/// (`key_enabled`) and for this layer (`layer_key_on`). When it is keyed, the history is reset to one zero byte per pixel
/// unless it already has exactly that length; otherwise an existing
/// history is dropped. The frame is rescaled when its size differs from the
/// output size. Layer 0 replaces the canvas.
pub fn plan_layer(
    layer: usize,
    key_enabled: bool,
    layer_key_on: bool,
    frame_w: u32,
    frame_h: u32,
    history_len: Option<usize>,
    out_w: u32,
    out_h: u32,
) -> (p: LayerPlan)
    requires
        key_enabled && layer_key_on ==> frame_w * frame_h <= u32::MAX,
    ensures
        p.key == (key_enabled && layer_key_on),
        p.key && history_len == Some((frame_w * frame_h) as usize) ==> p.history is Keep,
        p.key && history_len != Some((frame_w * frame_h) as usize) ==> p.history == HistoryAction::Reset(
            (frame_w * frame_h) as usize,
        ),
        !p.key && history_len is Some ==> p.history is Discard,
        !p.key && history_len is None ==> p.history is Keep,
        p.scale_to == (if frame_w != out_w || frame_h != out_h {
            Some((out_w, out_h))
        } else {
            None
        }),
        p.replace_canvas == (layer == 0),
{
    let key_on: bool = key_enabled && layer_key_on;
    let history = if key_on {
        let pixels: usize = (frame_w * frame_h) as usize;
        match history_len {
            Some(n) => {
                if n == pixels {
                    HistoryAction::Keep
                } else {
                    HistoryAction::Reset(pixels)
                }
            },
            None => HistoryAction::Reset(pixels),
        }
    } else {
        match history_len {
            Some(_) => HistoryAction::Discard,
            None => HistoryAction::Keep,
        }
    };
    let scale_to = if frame_w != out_w || frame_h != out_h {
        Some((out_w, out_h))
    } else {
        None
    };
    LayerPlan { key: key_on, history, scale_to, replace_canvas: layer == 0 }
}

/// What a tick produces.
#[derive(Clone, Copy, Debug)]
pub struct TickPlan {
    /// Size in bytes of the black canvas the layers are put on.
    pub canvas_len: usize,
    /// Whether the composited frame goes to the NDI output.
    pub send_ndi: bool,
    /// Whether the composited frame goes to the DeckLink output.
    pub send_decklink: bool,
    /// Size of the preview frame, half the output size, when both halves are
    /// above zero.
    pub preview: Option<(u32, u32)>,
}

/// Plans a tick for an output of `out_w` x `out_h`: `None` (nothing is
/// composited) when either side is 0.
pub fn plan_tick(out_w: u32, out_h: u32, ndi_on: bool, decklink_on: bool) -> (t: Option<TickPlan>)
    requires
        frame_bytes(out_w, out_h) <= u32::MAX,
    ensures
        t is None <==> (out_w == 0 || out_h == 0),
        t matches Some(p) ==> p.canvas_len == frame_bytes(out_w, out_h) && p.send_ndi == ndi_on
            && p.send_decklink == decklink_on && p.preview == (if out_w / 2 > 0 && out_h / 2 > 0 {
            Some(((out_w / 2) as u32, (out_h / 2) as u32))
        } else {
            None
        }),
{
    if out_w == 0 || out_h == 0 {
        return None;
    }
    assert(out_w * out_h <= out_w * out_h * 4) by (nonlinear_arith);
    let canvas_len: usize = (out_w * out_h * 4) as usize;
    let pw: u32 = out_w / 2;
    let ph: u32 = out_h / 2;
    let preview = if pw > 0 && ph > 0 {
        Some((pw, ph))
    } else {
        None
    };
    Some(TickPlan { canvas_len, send_ndi: ndi_on, send_decklink: decklink_on, preview })
}

/// The canvas after putting `frame` of layer `layer` on it for an output
/// frame of `len` bytes: layer 0 replaces the canvas; any other layer is
/// alpha-blended onto it when both hold the whole output frame, and changes
/// nothing otherwise.
pub open spec fn combined(canvas: Seq<u8>, layer: int, frame: Seq<u8>, len: int) -> Seq<u8> {
    if layer == 0 {
        frame
    } else if canvas.len() < len || frame.len() < len {
        canvas
    } else {
        blended(canvas, frame, len)
    }
}

/// Puts the (keyed, rescaled) frame of layer `layer` on the canvas: layer 0
/// replaces the canvas, any other layer is alpha-blended onto it for an
/// output of `out_w` x `out_h`.
pub fn combine_layer(canvas: &mut Vec<u8>, layer: usize, frame: Vec<u8>, out_w: u32, out_h: u32)
    requires
        frame_bytes(out_w, out_h) <= u32::MAX,
    ensures
        final(canvas)@ == combined(old(canvas)@, layer as int, frame@, frame_bytes(out_w, out_h)),
{
    if layer == 0 {
        *canvas = frame;
    } else {
        blend_frames(canvas.as_mut_slice(), frame.as_slice(), out_w, out_h);
    }
}

/// The pixel data of each layer, `None` for a layer without a frame.
pub open spec fn layer_views(frames: Seq<Option<Vec<u8>>>) -> Seq<Option<Seq<u8>>> {
    Seq::new(
        frames.len(),
        |i: int|
            match frames[i] {
                Some(v) => Some(v@),
                None => None,
            },
    )
}

/// The canvas after putting the frames of the first `k` layers on it, bottom
/// to top; layers without a frame are skipped.
pub open spec fn stacked(canvas: Seq<u8>, frames: Seq<Option<Seq<u8>>>, len: int, k: int) -> Seq<u8>
    decreases k,
{
    if k <= 0 {
        canvas
    } else {
        let below = stacked(canvas, frames, len, k - 1);
        match frames[k - 1] {
            Some(f) => combined(below, k - 1, f, len),
            None => below,
        }
    }
}

/// Composites the layers' (keyed, rescaled) frames onto a black canvas of
/// `canvas_len` bytes for an output of `out_w` x `out_h`: bottom to top, the
/// frame of layer 0 replaces the canvas and every higher frame is
/// alpha-blended onto it; layers without a frame are skipped.
pub fn composite_layers(canvas_len: usize, frames: Vec<Option<Vec<u8>>>, out_w: u32, out_h: u32) -> (out: Vec<u8>)
    requires
        frame_bytes(out_w, out_h) <= u32::MAX,
    ensures
        out@ == stacked(
            Seq::new(canvas_len as nat, |i: int| 0u8),
            layer_views(frames@),
            frame_bytes(out_w, out_h),
            frames@.len() as int,
        ),
{
    let mut canvas: Vec<u8> = vec![0u8; canvas_len];
    let ghost black = Seq::new(canvas_len as nat, |i: int| 0u8);
    assert(canvas@ =~= black);
    let ghost orig = frames@;
    let ghost views = layer_views(orig);
    let n: usize = frames.len();
    let mut rest = frames;
    let mut i: usize = 0;
    while i < n
        invariant
            n == orig.len(),
            i <= n,
            views == layer_views(orig),
            rest@ == orig.subrange(i as int, n as int),
            frame_bytes(out_w, out_h) <= u32::MAX,
            canvas@ == stacked(black, views, frame_bytes(out_w, out_h), i as int),
        decreases n - i,
    {
        let f = rest.remove(0);
        assert(f == orig[i as int]);
        match f {
            Some(frame) => {
                combine_layer(&mut canvas, i, frame, out_w, out_h);
            },
            None => {},
        }
        assert(rest@ =~= orig.subrange(i + 1, n as int));
        i = i + 1;
    }
    canvas
}

/// A layer whose frame is fully transparent (alpha 0 everywhere in the output
/// frame) above the bottom layer adds nothing: the result is the same as
/// without that frame.
pub proof fn lemma_transparent_layer_invisible(
    canvas: Seq<u8>,
    frames: Seq<Option<Seq<u8>>>,
    len: int,
    j: int,
    k: int,
)
    requires
        0 < j < frames.len(),
        j < k <= frames.len(),
        0 <= len,
        len % 4 == 0,
        frames[j] is Some,
        frames[j]->0.len() >= len,
        forall|p: int| 0 <= p < len && p % 4 == 3 ==> #[trigger] frames[j]->0[p] == 0,
    ensures
        stacked(canvas, frames, len, k) == stacked(canvas, frames.update(j, None), len, k),
    decreases k,
{
    let g = frames.update(j, None);
    if k == j + 1 {
        assert(stacked(canvas, frames, len, j) == stacked(canvas, g, len, j)) by {
            lemma_stacked_prefix(canvas, frames, g, len, j);
        }
        let below = stacked(canvas, frames, len, j);
        if below.len() >= len {
            crate::blender::lemma_blend_transparent(below, frames[j]->0, len);
        }
    } else {
        lemma_transparent_layer_invisible(canvas, frames, len, j, k - 1);
        assert(g[k - 1] == frames[k - 1]);
    }
}

/// The frame of layer 0 replaces whatever lies below it: stacking just that
/// layer gives its frame.
pub proof fn lemma_base_layer_replaces(canvas: Seq<u8>, frames: Seq<Option<Seq<u8>>>, len: int)
    requires
        frames.len() > 0,
        frames[0] is Some,
    ensures
        stacked(canvas, frames, len, 1) == frames[0]->0,
{
}

/// Stacking depends only on the frames of the layers stacked so far.
proof fn lemma_stacked_prefix(canvas: Seq<u8>, a: Seq<Option<Seq<u8>>>, b: Seq<Option<Seq<u8>>>, len: int, k: int)
    requires
        0 <= k <= a.len(),
        k <= b.len(),
        forall|i: int| 0 <= i < k ==> a[i] == b[i],
    ensures
        stacked(canvas, a, len, k) == stacked(canvas, b, len, k),
    decreases k,
{
    if k > 0 {
        lemma_stacked_prefix(canvas, a, b, len, k - 1);
    }
}

} // verus!
