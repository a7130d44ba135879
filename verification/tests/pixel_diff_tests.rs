use lib::pixel_diff_harness::{
    dilate_mask, score_pages_counts, score_pages_ink_iou_counts, score_pages_ink_only_counts,
    DiffError, DiffOptions, PageCounts, Rect,
};

fn make_rgba(width: u32, height: u32, color: [u8; 4]) -> Vec<u8> {
    let mut buf = Vec::with_capacity((width * height * 4) as usize);
    for _ in 0..(width * height) {
        buf.extend_from_slice(&color);
    }
    buf
}

/// The page score of a comparison: the share of matched pixels, in percent.
fn score_pct(c: &PageCounts) -> f32 {
    if c.total == 0 {
        100.0
    } else {
        100.0 * (c.matched as f32) / (c.total as f32)
    }
}

/// The mean difference of the unmatched pixels.
fn avg_delta(c: &PageCounts) -> f32 {
    if c.mismatched == 0 {
        0.0
    } else {
        (c.delta_sum as f64 / c.mismatched as f64) as f32
    }
}

#[test]
fn identical_buffers_score_100() {
    let a = make_rgba(10, 10, [128, 128, 128, 255]);
    let b = a.clone();
    let c = score_pages_counts(&a, &b, 10, 10, &DiffOptions::default()).unwrap();
    assert_eq!(score_pct(&c), 100.0);
    assert_eq!(c.mismatched, 0);
    assert_eq!(c.total, 100);
}

#[test]
fn completely_different_buffers_score_0() {
    let a = make_rgba(10, 10, [0, 0, 0, 255]);
    let b = make_rgba(10, 10, [255, 255, 255, 255]);
    let opts = DiffOptions { color_tolerance: 0, aa_threshold: None, ..DiffOptions::default() };
    let c = score_pages_counts(&a, &b, 10, 10, &opts).unwrap();
    assert_eq!(score_pct(&c), 0.0);
    assert_eq!(c.mismatched, 100);
    assert_eq!(c.delta_sum, 100 * 255);
}

#[test]
fn aa_threshold_treats_small_diff_as_match() {
    let a = make_rgba(10, 10, [128, 128, 128, 255]);
    let b = make_rgba(10, 10, [130, 130, 130, 255]);
    let opts = DiffOptions { color_tolerance: 0, aa_threshold: Some(2), ..DiffOptions::default() };
    let c = score_pages_counts(&a, &b, 10, 10, &opts).unwrap();
    assert_eq!(score_pct(&c), 100.0);
}

#[test]
fn aa_threshold_does_not_help_when_diff_exceeds() {
    let a = make_rgba(10, 10, [128, 128, 128, 255]);
    let b = make_rgba(10, 10, [140, 140, 140, 255]);
    let opts = DiffOptions { color_tolerance: 0, aa_threshold: Some(2), ..DiffOptions::default() };
    let c = score_pages_counts(&a, &b, 10, 10, &opts).unwrap();
    assert_eq!(score_pct(&c), 0.0);
    assert_eq!(avg_delta(&c), 12.0);
}

#[test]
fn color_tolerance_above_aa_threshold_wins() {
    let a = make_rgba(2, 2, [128, 128, 128, 255]);
    let b = make_rgba(2, 2, [133, 128, 128, 255]);
    let opts = DiffOptions { color_tolerance: 5, aa_threshold: Some(2), ..DiffOptions::default() };
    let c = score_pages_counts(&a, &b, 2, 2, &opts).unwrap();
    assert_eq!(c.matched, 4);
}

#[test]
fn roi_limits_comparison_to_subregion() {
    let mut a = make_rgba(10, 10, [0, 0, 0, 255]);
    let b = make_rgba(10, 10, [255, 255, 255, 255]);
    let opts = DiffOptions {
        roi: Some(Rect { x: 5, y: 5, w: 2, h: 2 }),
        color_tolerance: 0,
        aa_threshold: None,
        compare_alpha: false,
    };
    for y in 5..7 {
        for x in 5..7 {
            let idx = ((y * 10 + x) * 4) as usize;
            a[idx] = 255;
            a[idx + 1] = 255;
            a[idx + 2] = 255;
        }
    }
    let c = score_pages_counts(&a, &b, 10, 10, &opts).unwrap();
    assert_eq!(c.total, 4);
    assert_eq!(score_pct(&c), 100.0);
}

#[test]
fn roi_is_clipped_to_the_image() {
    let a = make_rgba(4, 4, [0, 0, 0, 255]);
    let b = make_rgba(4, 4, [9, 0, 0, 255]);
    let opts = DiffOptions {
        roi: Some(Rect { x: 2, y: 3, w: 100, h: 100 }),
        color_tolerance: 0,
        aa_threshold: None,
        compare_alpha: false,
    };
    let c = score_pages_counts(&a, &b, 4, 4, &opts).unwrap();
    assert_eq!(c.total, 2);
    assert_eq!(c.mismatched, 2);
    let outside = DiffOptions { roi: Some(Rect { x: 7, y: 0, w: 3, h: 3 }), ..opts };
    let c2 = score_pages_counts(&a, &b, 4, 4, &outside).unwrap();
    assert_eq!(c2.total, 0);
    assert_eq!(score_pct(&c2), 100.0);
}

#[test]
fn alpha_compare_off_ignores_alpha_difference() {
    let a = make_rgba(10, 10, [128, 128, 128, 0]);
    let b = make_rgba(10, 10, [128, 128, 128, 255]);
    let opts = DiffOptions { compare_alpha: false, ..DiffOptions::default() };
    let c = score_pages_counts(&a, &b, 10, 10, &opts).unwrap();
    assert_eq!(score_pct(&c), 100.0);
}

#[test]
fn alpha_compare_on_detects_alpha_difference() {
    let a = make_rgba(10, 10, [128, 128, 128, 0]);
    let b = make_rgba(10, 10, [128, 128, 128, 255]);
    let opts = DiffOptions {
        compare_alpha: true,
        aa_threshold: None,
        color_tolerance: 0,
        ..DiffOptions::default()
    };
    let c = score_pages_counts(&a, &b, 10, 10, &opts).unwrap();
    assert_eq!(score_pct(&c), 0.0);
}

#[test]
fn size_mismatch_returns_error() {
    let a = vec![0u8; 100];
    let b = vec![0u8; 100];
    let r = score_pages_counts(&a, &b, 10, 10, &DiffOptions::default());
    assert!(r.is_err());
    assert_eq!(r, Err(DiffError::OurSizeMismatch { actual: 100, expected: 400 }));
}

#[test]
fn reference_size_mismatch_is_reported_second() {
    let a = vec![0u8; 400];
    let b = vec![0u8; 12];
    let r = score_pages_counts(&a, &b, 10, 10, &DiffOptions::default());
    assert_eq!(r, Err(DiffError::GtSizeMismatch { actual: 12, expected: 400 }));
}

#[test]
fn ink_only_skips_white_background() {
    // Four pixels: two white in both images, one dark in ours, one dark in both.
    let a = vec![255, 255, 255, 255, 255, 255, 255, 255, 0, 0, 0, 255, 10, 10, 10, 255];
    let b = vec![255, 255, 255, 255, 255, 255, 255, 255, 255, 255, 255, 255, 10, 10, 10, 255];
    let our_lum = vec![255, 255, 0, 10];
    let gt_lum = vec![255, 255, 255, 10];
    let opts = DiffOptions { color_tolerance: 0, aa_threshold: None, ..DiffOptions::default() };
    let c = score_pages_ink_only_counts(&a, &b, &our_lum, &gt_lum, 4, 1, &opts, 200).unwrap();
    assert_eq!(c.total, 2);
    assert_eq!(c.matched, 1);
    assert_eq!(c.mismatched, 1);
    assert_eq!(c.delta_sum, 255);
}

#[test]
fn ink_only_rejects_wrong_sizes() {
    let a = vec![0u8; 4];
    let b = vec![0u8; 8];
    let r = score_pages_ink_only_counts(&a, &b, &[0], &[0, 0], 2, 1, &DiffOptions::default(), 200);
    assert_eq!(r, Err(DiffError::BufferSizeMismatch { expected: 8, our: 4, gt: 8 }));
}

#[test]
fn dilate_radius_zero_copies_mask() {
    let mask = vec![true, false, false, true];
    assert_eq!(dilate_mask(&mask, 2, 2, 0), mask);
}

#[test]
fn dilate_marks_manhattan_ball() {
    // A single ink pixel in the middle of a 5x5 mask, dilated by radius 1: a plus sign.
    let mut mask = vec![false; 25];
    mask[12] = true;
    let out = dilate_mask(&mask, 5, 5, 1);
    let expected: Vec<usize> = vec![7, 11, 12, 13, 17];
    for p in 0..25 {
        assert_eq!(out[p], expected.contains(&p), "pixel {}", p);
    }
    let out2 = dilate_mask(&mask, 5, 5, 2);
    assert_eq!(out2.iter().filter(|&&v| v).count(), 13);
    assert!(!out2[0] && !out2[4] && !out2[20] && !out2[24]);
}

#[test]
fn dilate_clips_at_edges() {
    let mut mask = vec![false; 9];
    mask[0] = true;
    let out = dilate_mask(&mask, 3, 3, 1);
    assert_eq!(out, vec![true, true, false, true, false, false, false, false, false]);
}

#[test]
fn ink_iou_tolerates_one_pixel_shift() {
    // 5x1 images: ink at x=1 in the reference, x=2 in ours.
    let a = vec![255u8; 20];
    let b = vec![255u8; 20];
    let gt_lum = vec![255, 0, 255, 255, 255];
    let our_lum = vec![255, 255, 0, 255, 255];
    let exact = score_pages_ink_iou_counts(&a, &b, &our_lum, &gt_lum, 5, 1, 200, 0).unwrap();
    assert_eq!((exact.gt_ink, exact.our_ink, exact.intersection, exact.union), (1, 1, 0, 2));
    let tolerant = score_pages_ink_iou_counts(&a, &b, &our_lum, &gt_lum, 5, 1, 200, 1).unwrap();
    assert_eq!((tolerant.intersection, tolerant.union), (2, 4));
}

#[test]
fn ink_iou_rejects_wrong_sizes() {
    let a = vec![0u8; 3];
    let b = vec![0u8; 4];
    let r = score_pages_ink_iou_counts(&a, &b, &[], &[], 1, 1, 200, 1);
    assert_eq!(r, Err(DiffError::BufferSizeMismatch { expected: 4, our: 3, gt: 4 }));
}

#[test]
fn dilation_keeps_mask_and_grows_with_radius() {
    let mut mask = vec![false; 6 * 4];
    mask[1] = true;
    mask[2 * 6 + 4] = true;
    let r1 = dilate_mask(&mask, 6, 4, 1);
    let r2 = dilate_mask(&mask, 6, 4, 2);
    for p in 0..mask.len() {
        if mask[p] {
            assert!(r1[p]);
        }
        if r1[p] {
            assert!(r2[p]);
        }
    }
    assert_eq!(r1.iter().filter(|b| **b).count(), 9);
}

#[test]
fn ink_only_self_comparison_matches_every_ink_pixel() {
    let a = vec![255, 255, 255, 255, 0, 0, 0, 255, 10, 10, 10, 255, 90, 20, 30, 255];
    let lum = vec![255, 0, 10, 40];
    let opts = DiffOptions { color_tolerance: 0, aa_threshold: None, ..DiffOptions::default() };
    let c = score_pages_ink_only_counts(&a, &a, &lum, &lum, 2, 2, &opts, 200).unwrap();
    assert_eq!(c.total, 3);
    assert_eq!(c.matched, 3);
    assert_eq!(c.mismatched, 0);
    assert_eq!(c.delta_sum, 0);
}

#[test]
fn ink_iou_is_symmetric_and_full_on_identical_images() {
    let a = vec![255u8; 20];
    let b = vec![255u8; 20];
    let gt_lum = vec![255, 0, 255, 255, 0];
    let our_lum = vec![255, 255, 0, 255, 255];
    let ab = score_pages_ink_iou_counts(&a, &b, &our_lum, &gt_lum, 5, 1, 200, 1).unwrap();
    let ba = score_pages_ink_iou_counts(&b, &a, &gt_lum, &our_lum, 5, 1, 200, 1).unwrap();
    assert_eq!((ab.intersection, ab.union), (ba.intersection, ba.union));
    assert_eq!((ab.gt_ink, ab.our_ink), (ba.our_ink, ba.gt_ink));
    let same = score_pages_ink_iou_counts(&a, &a, &gt_lum, &gt_lum, 5, 1, 200, 1).unwrap();
    assert_eq!(same.intersection, same.union);
    assert_eq!(same.union, 5);
}
