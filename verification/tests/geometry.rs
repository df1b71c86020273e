use batchimg::error::PipelineError;
use batchimg::geometry::{crop_rect_for, resize_dims, CropRect, Dims};
use batchimg::ratio::Ratio;

#[test]
fn crop_centering_square_to_half_width() {
    // A 100x100 image cropped to ratio 1:2 anchors on height:
    // width 50, x offset 25.
    let d = Dims { width: 100, height: 100 };
    let current = Ratio { num: 100, den: 100 };
    let target = Ratio { num: 1, den: 2 };
    let rect = crop_rect_for(d, current, target).unwrap();
    assert_eq!(rect, CropRect { x: 25, y: 0, width: 50, height: 100 });
}

#[test]
fn crop_wide_source_anchors_on_height() {
    // 300x100 to 2:1 -> new width 200, centered at x = 50.
    let d = Dims { width: 300, height: 100 };
    let current = Ratio { num: 300, den: 100 };
    let target = Ratio { num: 2, den: 1 };
    let rect = crop_rect_for(d, current, target).unwrap();
    assert_eq!(rect, CropRect { x: 50, y: 0, width: 200, height: 100 });
}

#[test]
fn crop_narrow_source_anchors_on_width() {
    // 100x300 to 1:2 -> new height 200, centered at y = 50.
    let d = Dims { width: 100, height: 300 };
    let current = Ratio { num: 100, den: 300 };
    let target = Ratio { num: 1, den: 2 };
    let rect = crop_rect_for(d, current, target).unwrap();
    assert_eq!(rect, CropRect { x: 0, y: 50, width: 100, height: 200 });
}

#[test]
fn crop_equal_ratio_is_noop() {
    // 100x100 at target 1:1: dimensions come back identical, no drift.
    let d = Dims { width: 100, height: 100 };
    let current = Ratio { num: 100, den: 100 };
    let target = Ratio { num: 1, den: 1 };
    let rect = crop_rect_for(d, current, target).unwrap();
    assert_eq!(rect, CropRect { x: 0, y: 0, width: 100, height: 100 });
}

#[test]
fn crop_rounding_keeps_floor() {
    // 100x30 to 1:1? current 100/30 wider than 1/1: new width floor(30) = 30.
    let d = Dims { width: 100, height: 30 };
    let current = Ratio { num: 100, den: 30 };
    let target = Ratio { num: 1, den: 1 };
    let rect = crop_rect_for(d, current, target).unwrap();
    assert_eq!(rect, CropRect { x: 35, y: 0, width: 30, height: 30 });

    // 7:5 on 100x60: new width floor(60 * 7 / 5) = 84, offset (100-84)/2 = 8.
    let d = Dims { width: 100, height: 60 };
    let current = Ratio { num: 100, den: 60 };
    let target = Ratio { num: 7, den: 5 };
    let rect = crop_rect_for(d, current, target).unwrap();
    assert_eq!(rect, CropRect { x: 8, y: 0, width: 84, height: 60 });
}

#[test]
fn crop_degenerate_width_is_invalid_geometry() {
    // floor(1000 * 1 / 2000) = 0: refused rather than cropped to nothing.
    let d = Dims { width: 1, height: 1000 };
    let current = Ratio { num: 1, den: 1000 };
    let target = Ratio { num: 1, den: 2000 };
    let r = crop_rect_for(d, current, target);
    assert_eq!(r, Err(PipelineError::InvalidGeometry));
}

#[test]
fn crop_degenerate_height_is_invalid_geometry() {
    // Narrow case: floor(1 * 1 / 2000) = 0 for a 1x? source at a huge ratio.
    let d = Dims { width: 1000, height: 1 };
    let current = Ratio { num: 1000, den: 1 };
    let target = Ratio { num: 2000, den: 1 };
    let r = crop_rect_for(d, current, target);
    assert_eq!(r, Err(PipelineError::InvalidGeometry));
}

#[test]
fn resize_exact_two_to_one() {
    // 2000x1000 with max width 1000 is exactly 1000x500.
    let r = resize_dims(Dims { width: 2000, height: 1000 }, 1000).unwrap();
    assert_eq!(r, Dims { width: 1000, height: 500 });
}

#[test]
fn resize_never_upscales() {
    // Width within the bound: identical dimensions out.
    let d = Dims { width: 800, height: 600 };
    assert_eq!(resize_dims(d, 1000).unwrap(), d);
    assert_eq!(resize_dims(d, 800).unwrap(), d);
    let tiny = Dims { width: 1, height: 1 };
    assert_eq!(resize_dims(tiny, 1).unwrap(), tiny);
}

#[test]
fn resize_rounds_to_nearest() {
    // 1500 -> 1000: height 333 * (1000/1500) = 222.0; height 500 -> 333.33 -> 333.
    let r = resize_dims(Dims { width: 1500, height: 500 }, 1000).unwrap();
    assert_eq!(r, Dims { width: 1000, height: 333 });
    // Rounds up at half: 3 * (2/3) = 2.0, 5 * (2/5)... use 2001x1000 -> 1000:
    // 1000*1000/2001 = 499.75 -> 500.
    let r = resize_dims(Dims { width: 2001, height: 1000 }, 1000).unwrap();
    assert_eq!(r, Dims { width: 1000, height: 500 });
}

#[test]
fn resize_degenerate_height_is_invalid_geometry() {
    // round(10 * 1 / 10000) = 0.
    let r = resize_dims(Dims { width: 10000, height: 1 }, 10);
    assert_eq!(r, Err(PipelineError::InvalidGeometry));
}
