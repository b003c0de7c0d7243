use og_image::layout::{
    centered_x, contributes_width, title_y, MISSING_GLYPH, TITLE_SCALE, WATERMARK_SCALE,
    WATERMARK_X, WATERMARK_Y,
};

#[test]
fn narrower_text_is_centered() {
    assert_eq!(centered_x(1200, 200), 500);
    assert_eq!(centered_x(1200, 400), 400);
    assert_eq!(centered_x(1200, 1199), 0);
    assert_eq!(centered_x(1200, 1198), 1);
}

#[test]
fn odd_free_width_rounds_down() {
    assert_eq!(centered_x(1200, 201), 499);
    assert_eq!(centered_x(7, 2), 2);
}

#[test]
fn text_as_wide_as_the_image_starts_at_zero() {
    assert_eq!(centered_x(1200, 1200), 0);
}

#[test]
fn wider_text_starts_left_of_the_image() {
    assert_eq!(centered_x(100, 102), -1);
    assert_eq!(centered_x(100, 103), -1);
    assert_eq!(centered_x(100, 104), -2);
    assert_eq!(centered_x(1200, 2000), -400);
    assert!(centered_x(1200, 5000) < 0);
}

#[test]
fn text_one_pixel_wider_truncates_to_zero() {
    assert_eq!(centered_x(100, 101), 0);
}

#[test]
fn empty_text_starts_at_the_middle() {
    assert_eq!(centered_x(1200, 0), 600);
    assert_eq!(centered_x(1201, 0), 600);
    assert_eq!(centered_x(0, 0), 0);
}

#[test]
fn negative_measure_moves_the_origin_right() {
    assert_eq!(centered_x(100, -100), 100);
    assert_eq!(centered_x(0, i32::MIN), 1_073_741_824);
}

#[test]
fn extreme_widths_do_not_overflow() {
    assert_eq!(centered_x(2_147_483_647, i32::MIN), 2_147_483_647);
    assert_eq!(centered_x(0, i32::MAX), -1_073_741_823);
    assert_eq!(centered_x(2_147_483_647, i32::MAX), 0);
}

#[test]
fn vertical_origin_depends_on_height_only() {
    assert_eq!(title_y(630), 275);
    assert_eq!(title_y(631), 275);
    assert_eq!(title_y(80), 0);
    assert_eq!(title_y(81), 0);
    assert_eq!(title_y(82), 1);
    assert_eq!(title_y(u32::MAX), 2_147_483_607);
}

#[test]
fn fixed_drawing_parameters() {
    assert_eq!(WATERMARK_X, 10);
    assert_eq!(WATERMARK_Y, 5);
    assert_eq!(WATERMARK_SCALE, 50);
    assert_eq!(TITLE_SCALE, 80);
}

#[test]
fn a_character_that_the_font_lacks_adds_no_width() {
    assert_eq!(MISSING_GLYPH, 0);
    assert!(!contributes_width(0));
    assert!(contributes_width(1));
    assert!(contributes_width(42));
    assert!(contributes_width(u16::MAX));
}
