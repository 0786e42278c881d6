use lumina_tv::blender::blend_frames;
use lumina_tv::hybrid_key::{apply_key_matte, plan_key_pass, spill_threshold, store_matte_history, MatteSample};
use lumina_tv::pixel_buffer::{bgra_to_rgba, pack_strided_rows, repack_bgra_rows};

#[test]
fn blend_transparent_overlay_keeps_background() {
    let mut bg = vec![10, 20, 30, 40, 50, 60, 70, 80];
    let ov = vec![1, 2, 3, 0, 4, 5, 6, 0];
    blend_frames(&mut bg, &ov, 2, 1);
    assert_eq!(bg, vec![10, 20, 30, 40, 50, 60, 70, 80]);
}

#[test]
fn blend_opaque_overlay_replaces_colour() {
    let mut bg = vec![10, 20, 30, 40];
    let ov = vec![200, 150, 100, 255];
    blend_frames(&mut bg, &ov, 1, 1);
    assert_eq!(bg, vec![200, 150, 100, 255]);
}

#[test]
fn blend_partial_alpha_formula() {
    let mut bg = vec![0, 255, 100, 7];
    let ov = vec![255, 0, 200, 128];
    blend_frames(&mut bg, &ov, 1, 1);
    // (255*128 + 0*127)/255 = 128; (0*128 + 255*127)/255 = 127; (200*128 + 100*127)/255 = 150
    assert_eq!(bg, vec![128, 127, 150, 255]);
}

#[test]
fn blend_short_buffer_is_noop() {
    let mut bg = vec![1, 2, 3, 4];
    let ov = vec![9, 9, 9, 255, 9, 9, 9, 255];
    blend_frames(&mut bg, &ov, 2, 1);
    assert_eq!(bg, vec![1, 2, 3, 4]);
    let mut bg2 = vec![1, 2, 3, 4, 5, 6, 7, 8];
    let ov2 = vec![9, 9, 9, 255];
    blend_frames(&mut bg2, &ov2, 2, 1);
    assert_eq!(bg2, vec![1, 2, 3, 4, 5, 6, 7, 8]);
}

#[test]
fn blend_leaves_bytes_past_frame() {
    let mut bg = vec![1, 2, 3, 4, 5, 6, 7, 8];
    let ov = vec![9, 9, 9, 255, 9, 9, 9, 255];
    blend_frames(&mut bg, &ov, 1, 1);
    assert_eq!(bg, vec![9, 9, 9, 255, 5, 6, 7, 8]);
}

#[test]
fn key_pass_plan() {
    assert!(plan_key_pass(15, 2, 2, None, 0).is_none());
    let p = plan_key_pass(16, 2, 2, None, 50).unwrap();
    assert_eq!(p.pixels, 4);
    assert!(!p.smoothing);
    assert!(plan_key_pass(16, 2, 2, Some(4), 50).unwrap().smoothing);
    assert!(!plan_key_pass(16, 2, 2, Some(4), 0).unwrap().smoothing);
    assert!(!plan_key_pass(16, 2, 2, Some(3), 50).unwrap().smoothing);
    assert_eq!(plan_key_pass(0, 0, 0, None, 0).unwrap().pixels, 0);
}

#[test]
fn spill_threshold_matches_float_formula() {
    for r in 0..=255u8 {
        for b in [0u8, 1, 50, 128, 200, 212, 213, 255] {
            let max_rb = r.max(b);
            let expected = ((max_rb as f32) * 1.2) as u8;
            assert_eq!(spill_threshold(r, b), expected, "r={} b={}", r, b);
            assert_eq!(spill_threshold(b, r), expected, "r={} b={}", b, r);
        }
    }
    assert_eq!(spill_threshold(100, 50), 120);
    assert_eq!(spill_threshold(213, 0), 255);
}

#[test]
fn key_matte_writes_alpha_and_suppresses_spill() {
    // pixel 0: green 200 above 1.2*max(100,50)=120 and visible -> green 120
    // pixel 1: same colour but invisible -> green kept
    // pixel 2: green below limit -> kept
    let mut data = vec![50, 200, 100, 255, 50, 200, 100, 255, 50, 60, 100, 255, 1, 2, 3, 4];
    let matte = [
        MatteSample { alpha: 10, visible: true },
        MatteSample { alpha: 0, visible: false },
        MatteSample { alpha: 255, visible: true },
    ];
    apply_key_matte(&mut data, &matte, true);
    assert_eq!(data, vec![50, 120, 100, 10, 50, 200, 100, 0, 50, 60, 100, 255, 1, 2, 3, 4]);
    // keying again changes nothing more
    let again = data.clone();
    apply_key_matte(&mut data, &matte, true);
    assert_eq!(data, again);
}

#[test]
fn key_matte_without_spill_only_sets_alpha() {
    let mut data = vec![50, 200, 100, 255];
    apply_key_matte(&mut data, &[MatteSample { alpha: 77, visible: true }], false);
    assert_eq!(data, vec![50, 200, 100, 77]);
}

#[test]
fn matte_history_is_stored() {
    let mut hist = vec![9u8, 9, 9];
    let matte = [
        MatteSample { alpha: 1, visible: true },
        MatteSample { alpha: 0, visible: true },
        MatteSample { alpha: 255, visible: false },
    ];
    store_matte_history(&mut hist, &matte);
    assert_eq!(hist, vec![1, 0, 255]);
}

#[test]
fn repack_packed_rows_copies_prefix() {
    let src: Vec<u8> = (0..20).collect();
    let out = repack_bgra_rows(&src, 2, 2, 8).unwrap();
    assert_eq!(out, (0..16).collect::<Vec<u8>>());
}

#[test]
fn repack_removes_row_padding() {
    // 1 pixel wide, rows 6 bytes apart
    let src = vec![1, 2, 3, 4, 0xAA, 0xBB, 5, 6, 7, 8, 0xCC, 0xDD];
    let out = repack_bgra_rows(&src, 1, 2, 6).unwrap();
    assert_eq!(out, vec![1, 2, 3, 4, 5, 6, 7, 8]);
}

#[test]
fn repack_zero_fills_missing_rows() {
    // second row does not fit in the source
    let src = vec![1, 2, 3, 4, 0, 0, 5, 6];
    let out = repack_bgra_rows(&src, 1, 2, 6).unwrap();
    assert_eq!(out, vec![1, 2, 3, 4, 0, 0, 0, 0]);
    // packed rows but short source: row copy path
    let short = vec![1, 2, 3, 4, 5, 6];
    let out = repack_bgra_rows(&short, 1, 2, 4).unwrap();
    assert_eq!(out, vec![1, 2, 3, 4, 0, 0, 0, 0]);
}

#[test]
fn repack_narrow_source_rows() {
    // rows shorter than a packed row: only bytes_per_row bytes are kept
    let src = vec![1, 2, 3, 4, 5, 6];
    let out = repack_bgra_rows(&src, 1, 2, 3).unwrap();
    assert_eq!(out, vec![1, 2, 3, 0, 4, 5, 6, 0]);
}

#[test]
fn repack_empty_cases() {
    assert!(repack_bgra_rows(&[], 1, 1, 4).is_none());
    assert!(repack_bgra_rows(&[1, 2, 3, 4], 0, 1, 4).is_none());
    assert!(repack_bgra_rows(&[1, 2, 3, 4], 1, 0, 4).is_none());
}

#[test]
fn strided_rows_are_packed() {
    let src = vec![1, 2, 3, 4, 9, 9, 5, 6, 7, 8, 9, 9];
    assert_eq!(pack_strided_rows(&src, 1, 2, 6), vec![1, 2, 3, 4, 5, 6, 7, 8]);
    let packed = vec![1, 2, 3, 4, 5, 6, 7, 8];
    assert_eq!(pack_strided_rows(&packed, 1, 2, 4), packed);
    assert!(pack_strided_rows(&[], 0, 0, 0).is_empty());
}

#[test]
fn bgra_to_rgba_swaps_blue_and_red() {
    let mut d = vec![1, 2, 3, 4, 5, 6, 7, 8, 100];
    bgra_to_rgba(&mut d, 2, 1);
    assert_eq!(d, vec![3, 2, 1, 4, 7, 6, 5, 8, 100]);
    bgra_to_rgba(&mut d, 2, 1);
    assert_eq!(d, vec![1, 2, 3, 4, 5, 6, 7, 8, 100]);
}
