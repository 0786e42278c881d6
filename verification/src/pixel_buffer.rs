//! Layout of BGRA frame buffers: removing row padding from captured frames and
//! swapping the blue and red channels.
use vstd::prelude::*;
use vstd::arithmetic::div_mod::{lemma_fundamental_div_mod, lemma_fundamental_div_mod_converse, lemma_mod_pos_bound};
use vstd::slice::slice_to_vec;

verus! {

/// How many bytes of each source row are kept: the shorter of the packed row
/// and the source row.
pub open spec fn row_copy_len(stride: int, bytes_per_row: int) -> int {
    if stride <= bytes_per_row {
        stride
    } else {
        bytes_per_row
    }
}

/// Byte `x` of packed row `y`, taken from a source whose rows are
/// `bytes_per_row` apart: the source byte when it lies in the kept part of a
/// row that is wholly inside the source, and 0 otherwise.
pub open spec fn repacked_byte(src: Seq<u8>, stride: int, bytes_per_row: int, y: int, x: int) -> u8 {
    let copy: int = row_copy_len(stride, bytes_per_row);
    if x < copy && y * bytes_per_row + copy <= src.len() {
        src[y * bytes_per_row + x]
    } else {
        0u8
    }
}

/// `out` is the packed frame of `height` rows of `stride` bytes taken from `src`.
pub open spec fn is_repacked(out: Seq<u8>, src: Seq<u8>, stride: int, height: int, bytes_per_row: int) -> bool {
    &&& out.len() == stride * height
    &&& forall|k: int|
        0 <= k < out.len() ==> #[trigger] out[k] == repacked_byte(src, stride, bytes_per_row, k / stride, k % stride)
}

proof fn lemma_row_index(y: int, x: int, stride: int)
    requires
        stride > 0,
        0 <= x < stride,
    ensures
        (y * stride + x) / stride == y,
        (y * stride + x) % stride == x,
{
    lemma_fundamental_div_mod_converse(y * stride + x, stride, y, x);
}

proof fn lemma_split_index(k: int, stride: int)
    requires
        stride > 0,
        k >= 0,
    ensures
        k == (k / stride) * stride + k % stride,
        0 <= k % stride < stride,
        k / stride >= 0,
{
    lemma_fundamental_div_mod(k, stride);
    lemma_mod_pos_bound(k, stride);
    assert(stride * (k / stride) == (k / stride) * stride) by (nonlinear_arith);
    assert(k / stride >= 0) by (nonlinear_arith)
        requires k >= 0, stride > 0, k == (k / stride) * stride + k % stride, 0 <= k % stride < stride;
}

/// Packs `height` rows of `stride` bytes out of `src`, whose rows start
/// `bytes_per_row` bytes apart. Rows (or their tails) that the source does not
/// hold are filled with zeros.
fn copy_rows(src: &[u8], stride: usize, height: usize, bytes_per_row: usize) -> (out: Vec<u8>)
    requires
        stride > 0,
        stride * height <= usize::MAX,
        height == 0 || (height - 1) * bytes_per_row + row_copy_len(stride as int, bytes_per_row as int) <= usize::MAX,
    ensures
        is_repacked(out@, src@, stride as int, height as int, bytes_per_row as int),
{
    let copy: usize = if stride <= bytes_per_row { stride } else { bytes_per_row };
    let mut out: Vec<u8> = Vec::new();
    let mut y: usize = 0;
    while y < height
        invariant
            stride > 0,
            stride * height <= usize::MAX,
            height == 0 || (height - 1) * bytes_per_row + copy <= usize::MAX,
            copy == row_copy_len(stride as int, bytes_per_row as int),
            y <= height,
            out@.len() == y * stride,
            forall|k: int|
                0 <= k < out@.len() ==> #[trigger] out@[k] == repacked_byte(
                    src@,
                    stride as int,
                    bytes_per_row as int,
                    k / stride as int,
                    k % stride as int,
                ),
        decreases height - y,
    {
        assert(y * bytes_per_row <= (height - 1) * bytes_per_row) by (nonlinear_arith)
            requires y < height, y >= 0;
        assert(y * stride + stride <= stride * height) by (nonlinear_arith)
            requires y < height;
        let start: usize = y * bytes_per_row;
        let fits: bool = start + copy <= src.len();
        let mut x: usize = 0;
        while x < stride
            invariant
                stride > 0,
                y < height,
                y * stride + stride <= stride * height,
                stride * height <= usize::MAX,
                start == y * bytes_per_row,
                start + copy <= usize::MAX,
                copy <= stride,
                copy == row_copy_len(stride as int, bytes_per_row as int),
                fits == (start + copy <= src@.len()),
                x <= stride,
                out@.len() == y * stride + x,
                forall|k: int|
                    0 <= k < out@.len() ==> #[trigger] out@[k] == repacked_byte(
                        src@,
                        stride as int,
                        bytes_per_row as int,
                        k / stride as int,
                        k % stride as int,
                    ),
            decreases stride - x,
        {
            proof {
                lemma_row_index(y as int, x as int, stride as int);
            }
            let byte: u8 = if x < copy && fits {
                src[start + x]
            } else {
                0u8
            };
            out.push(byte);
            x = x + 1;
        }
        assert(y * stride + stride == (y + 1) * stride) by (nonlinear_arith);
        y = y + 1;
    }
    assert(height * stride == stride * height) by (nonlinear_arith);
    out
}

/// Copies the pixels of a locked BGRA buffer of `width` x `height` pixels whose
/// rows are `bytes_per_row` bytes apart into a packed buffer of `width * 4`
/// bytes per row.
///
/// Gives `None` for an empty frame or an empty source. When the source rows
/// are already packed and the source holds the whole frame, the result is its
/// first `width * 4 * height` bytes; otherwise each row keeps the first
/// `min(width * 4, bytes_per_row)` bytes of its source row when that row lies
/// wholly inside the source, and everything else is zero.
pub fn repack_bgra_rows(src: &[u8], width: u32, height: u32, bytes_per_row: usize) -> (out: Option<Vec<u8>>)
    requires
        width * 4 <= u32::MAX,
        width * 4 * height <= usize::MAX,
        width > 0 && height > 0 && src@.len() > 0 && !(bytes_per_row == width * 4 && src@.len() >= width * 4
            * height) ==> (height - 1) * bytes_per_row + row_copy_len(width * 4, bytes_per_row as int)
            <= usize::MAX,
    ensures
        out is Some <==> (width > 0 && height > 0 && src@.len() > 0),
        out matches Some(v) ==> is_repacked(v@, src@, width * 4, height as int, bytes_per_row as int),
{
    if width == 0 || height == 0 {
        return None;
    }
    if src.len() == 0 {
        return None;
    }
    let stride: usize = (width * 4) as usize;
    let rows: usize = height as usize;
    if bytes_per_row == stride {
        let expected: usize = stride * rows;
        if src.len() >= expected {
            let out = slice_to_vec(&src[0..expected]);
            proof {
                assert forall|k: int| 0 <= k < out@.len() implies #[trigger] out@[k] == repacked_byte(
                    src@,
                    stride as int,
                    bytes_per_row as int,
                    k / stride as int,
                    k % stride as int,
                ) by {
                    let y: int = k / stride as int;
                    let x: int = k % stride as int;
                    lemma_split_index(k, stride as int);
                    assert(y < rows) by (nonlinear_arith)
                        requires k == y * stride + x, 0 <= x, k < stride * rows, stride > 0;
                    assert(y * stride + stride <= stride * rows) by (nonlinear_arith)
                        requires y < rows, y >= 0;
                }
            }
            return Some(out);
        }
    }
    let out = copy_rows(src, stride, rows, bytes_per_row);
    Some(out)
}

/// A source whose rows are already packed and that holds the whole frame is
/// copied as it is.
pub proof fn lemma_repack_packed_source(out: Seq<u8>, src: Seq<u8>, stride: int, height: int)
    requires
        stride > 0,
        height >= 0,
        src.len() >= stride * height,
        is_repacked(out, src, stride, height, stride),
    ensures
        out == src.subrange(0, stride * height),
{
    assert forall|k: int| 0 <= k < out.len() implies #[trigger] out[k] == src[k] by {
        lemma_split_index(k, stride);
        let y: int = k / stride;
        assert(y * stride + stride <= stride * height) by (nonlinear_arith)
            requires k == y * stride + k % stride, 0 <= k % stride, k < stride * height, y >= 0;
    }
    assert(out =~= src.subrange(0, stride * height));
}

/// Copies a received BGRA frame whose rows are `stride` bytes apart (and at
/// least `width * 4` long) into a packed buffer of `width * 4` bytes per row.
/// `src` holds exactly `stride * height` bytes.
pub fn pack_strided_rows(src: &[u8], width: u32, height: u32, stride: usize) -> (out: Vec<u8>)
    requires
        width * height * 4 <= u32::MAX,
        src@.len() == stride * height,
        height == 0 || stride >= width * 4,
    ensures
        out@.len() == width * height * 4,
        width > 0 ==> is_repacked(out@, src@, width * 4, height as int, stride as int),
        forall|y: int, x: int|
            0 <= y < height && 0 <= x < width * 4 ==> #[trigger] out@[y * (width * 4) + x] == src@[y * stride + x],
{
    assert(width * 4 <= width * height * 4 || height == 0) by (nonlinear_arith);
    assert(width * height * 4 == width * 4 * height) by (nonlinear_arith);
    if width == 0 || height == 0 {
        let out: Vec<u8> = Vec::new();
        assert(width * height * 4 == 0) by (nonlinear_arith)
            requires width == 0 || height == 0;
        return out;
    }
    let row: usize = (width * 4) as usize;
    if stride == row {
        let out = slice_to_vec(src);
        assert forall|y: int, x: int|
            0 <= y < height && 0 <= x < width * 4 implies #[trigger] out@[y * (width * 4) + x] == src@[y * stride + x] by {
        }
        proof {
            assert forall|k: int| 0 <= k < out@.len() implies #[trigger] out@[k] == repacked_byte(
                src@,
                row as int,
                stride as int,
                k / row as int,
                k % row as int,
            ) by {
                let y: int = k / row as int;
                let x: int = k % row as int;
                lemma_split_index(k, row as int);
                assert(y * row + row <= row * height) by (nonlinear_arith)
                    requires k == y * row + x, 0 <= x < row, k < row * height, y >= 0;
            }
        }
        return out;
    }
    let n: usize = src.len();
    assert(height * stride <= usize::MAX) by (nonlinear_arith)
        requires n == stride * height, n <= usize::MAX;
    assert((height - 1) * stride + row <= height * stride) by (nonlinear_arith)
        requires row <= stride, height >= 1;
    let out = copy_rows(src, row, height as usize, stride);
    proof {
        assert forall|y: int, x: int|
            0 <= y < height && 0 <= x < width * 4 implies #[trigger] out@[y * (width * 4) + x] == src@[y * stride + x] by {
            lemma_row_index(y, x, row as int);
            assert(y * (width * 4) + x < row * height) by (nonlinear_arith)
                requires y < height, x < row, row == width * 4;
            assert(y * stride + row <= stride * height) by (nonlinear_arith)
                requires y < height, y >= 0, row <= stride;
        }
    }
    out
}

/// The byte at index `k` after swapping the blue and red bytes of the first
/// `len` bytes (whole pixels) of `data`.
pub open spec fn channel_swapped(data: Seq<u8>, len: int, k: int) -> u8 {
    if k < len && k % 4 == 0 {
        data[k + 2]
    } else if k < len && k % 4 == 2 {
        data[k - 2]
    } else {
        data[k]
    }
}

/// Converts the first `width * height` BGRA pixels of `data` to RGBA in place
/// by swapping bytes 0 and 2 of each pixel. Green, alpha and the bytes past the
/// frame are not touched.
pub fn bgra_to_rgba(data: &mut Vec<u8>, width: u32, height: u32)
    requires
        width * 4 <= u32::MAX,
        width * height * 4 <= old(data)@.len(),
    ensures
        final(data)@.len() == old(data)@.len(),
        forall|k: int|
            0 <= k < final(data)@.len() ==> #[trigger] final(data)@[k] == channel_swapped(
                old(data)@,
                width * height * 4,
                k,
            ),
        forall|k: int|
            0 <= k < width * height * 4 && k % 4 == 0 ==> #[trigger] final(data)@[k] == old(data)@[k + 2],
        forall|k: int|
            0 <= k < width * height * 4 && k % 4 == 2 ==> #[trigger] final(data)@[k] == old(data)@[k - 2],
        forall|k: int|
            0 <= k < old(data)@.len() && (k >= width * height * 4 || k % 4 == 1 || k % 4 == 3) ==> #[trigger] final(
            data)@[k] == old(data)@[k],
{
    let ghost orig = data@;
    let ghost len: int = width * height * 4;
    let n: usize = data.len();
    assert(width * height <= width * height * 4) by (nonlinear_arith);
    let pixels: usize = (width as usize) * (height as usize);
    let mut p: usize = 0;
    while p < pixels
        invariant
            pixels == width * height,
            len == pixels * 4,
            len <= orig.len(),
            orig.len() == n,
            p <= pixels,
            data@.len() == orig.len(),
            forall|k: int| 0 <= k < 4 * p ==> #[trigger] data@[k] == channel_swapped(orig, len, k),
            forall|k: int| 4 * p <= k < data@.len() ==> #[trigger] data@[k] == orig[k],
        decreases pixels - p,
    {
        let i: usize = p * 4;
        let b: u8 = data[i];
        let r: u8 = data[i + 2];
        data.set(i, r);
        data.set(i + 2, b);
        proof {
            assert forall|k: int| 0 <= k < 4 * (p + 1) implies #[trigger] data@[k] == channel_swapped(orig, len, k) by {
                if k >= 4 * p {
                    assert(k % 4 == k - 4 * p);
                }
            }
        }
        p = p + 1;
    }
}

/// Swapping blue and red twice gives the starting bytes back.
pub proof fn lemma_channel_swap_twice(data: Seq<u8>, len: int, k: int)
    requires
        0 <= len <= data.len(),
        len % 4 == 0,
        0 <= k < data.len(),
    ensures
        channel_swapped(Seq::new(data.len(), |j: int| channel_swapped(data, len, j)), len, k) == data[k],
{
    if k < len && k % 4 == 0 {
        assert((k + 2) % 4 == 2);
        assert(k + 2 < len);
    } else if k < len && k % 4 == 2 {
        assert((k - 2) % 4 == 0);
    }
}

} // verus!
