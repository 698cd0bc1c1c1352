use brick_svg::{pixmap_plan, RasterError};

#[test]
fn zero_width_is_a_typed_failure() {
    assert_eq!(pixmap_plan(0, 16000, 700), Err(RasterError::ZeroSize));
}

#[test]
fn zero_height_is_a_typed_failure() {
    assert_eq!(pixmap_plan(350000, 0, 700), Err(RasterError::ZeroSize));
}

#[test]
fn target_height_keeps_the_aspect_ratio() {
    // An H0 document is 350 by 16 pixels: at 700 pixels wide the bitmap is
    // 32 pixels tall.
    assert_eq!(pixmap_plan(350000, 16000, 700), Ok((700, 32)));
    assert_eq!(pixmap_plan(1000, 1000, 512), Ok((512, 512)));
}

#[test]
fn target_height_rounds_down() {
    assert_eq!(pixmap_plan(3000, 1000, 100), Ok((100, 33)));
}

#[test]
fn extreme_ratios_saturate_the_height() {
    assert_eq!(
        pixmap_plan(1, u64::MAX, u32::MAX),
        Ok((u32::MAX, u32::MAX))
    );
}

#[test]
fn failures_describe_themselves() {
    assert_eq!(
        RasterError::ZeroSize.message(),
        "SVG has zero width or height"
    );
    assert_eq!(RasterError::InvalidSvg.message(), "failed to parse SVG");
    assert_eq!(
        RasterError::Allocation.message(),
        "failed to allocate pixmap"
    );
}
