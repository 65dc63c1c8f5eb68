use voctozoom::geometry::contains_point;
use voctozoom::geometry::delta_to_frame;
use voctozoom::geometry::point_to_frame;
use voctozoom::geometry::contains_rect;
use voctozoom::geometry::crop_indicator_rect;
use voctozoom::geometry::enclose_points;
use voctozoom::geometry::full_crop;
use voctozoom::geometry::scale_point_from_window;
use voctozoom::geometry::zoom_blit_source;
use voctozoom::geometry::Crop;
use voctozoom::geometry::DispRect;

#[test]
fn full_crop_covers_frame() {
    let c = full_crop();
    assert_eq!(c, Crop { x: 0, y: 0, w: 1280, h: 720 });
}

#[test]
fn scale_point_maps_pane_to_frame() {
    // The pane is half the frame size, so display distances double.
    let r = scale_point_from_window((0, 0), (320, 180), 1280, 720, 0, 0);
    assert_eq!(r, (640, 360));
}

#[test]
fn scale_point_applies_reference_origin() {
    // Zoom-pane mapping: reference window is the crop itself.
    let r = scale_point_from_window((0, 360), (100, 460), 1152, 648, 64, 36);
    assert_eq!(r, (244, 216));
}

#[test]
fn scale_point_truncates_toward_zero() {
    // Horizontally, (95 - 100) * 720 / 640 is -5.625: truncation toward
    // zero gives -5, not -6.  Vertically the division is exact: -10.
    let r = scale_point_from_window((100, 100), (95, 95), 720, 720, 0, 0);
    assert_eq!(r, (-5, -10));
}

#[test]
fn point_to_frame_uses_the_reference_window() {
    // Full pane: the reference window is the whole frame.
    assert_eq!(point_to_frame((0, 0), (320, 180), full_crop()), (640, 360));
    // Zoom pane: the reference window is the crop itself.
    let crop = Crop { x: 64, y: 36, w: 1152, h: 648 };
    assert_eq!(point_to_frame((0, 360), (320, 540), crop), (640, 360));
}

#[test]
fn delta_to_frame_scales_by_the_reference_window() {
    assert_eq!(delta_to_frame((10, 5), full_crop()), (20, 10));
    let crop = Crop { x: 64, y: 36, w: 1152, h: 648 };
    assert_eq!(delta_to_frame((-10, -5), crop), (-18, -9));
}

#[test]
fn contains_point_excludes_right_and_bottom_edges() {
    let r = DispRect { x: 1, y: 2, w: 3, h: 4 };
    assert!(contains_point(r, (1, 2)));
    assert!(!contains_point(r, (0, 1)));
    assert!(contains_point(r, (3, 5)));
    assert!(!contains_point(r, (4, 6)));
}

#[test]
fn contains_rect_is_inclusive_of_fitting_rects() {
    let outer = DispRect { x: 0, y: 0, w: 640, h: 360 };
    assert!(contains_rect(outer, outer));
    assert!(contains_rect(outer, DispRect { x: 10, y: 10, w: 630, h: 350 }));
    assert!(!contains_rect(outer, DispRect { x: 10, y: 10, w: 631, h: 350 }));
    assert!(!contains_rect(outer, DispRect { x: -1, y: 0, w: 10, h: 10 }));
}

#[test]
fn enclose_points_spans_both_pixels() {
    let r = enclose_points((300, 300), (100, 100));
    assert_eq!(r, DispRect { x: 100, y: 100, w: 201, h: 201 });
    let single = enclose_points((5, 7), (5, 7));
    assert_eq!(single, DispRect { x: 5, y: 7, w: 1, h: 1 });
}

#[test]
fn crop_indicator_halves_into_full_pane() {
    let crop = Crop { x: 64, y: 36, w: 1152, h: 648 };
    let pane = DispRect { x: 0, y: 0, w: 640, h: 360 };
    let r = crop_indicator_rect(crop, pane);
    assert_eq!(r, DispRect { x: 32, y: 18, w: 576, h: 324 });
    let offset_pane = DispRect { x: 640, y: 0, w: 640, h: 360 };
    let r2 = crop_indicator_rect(crop, offset_pane);
    assert_eq!(r2, DispRect { x: 672, y: 18, w: 576, h: 324 });
}

#[test]
fn zoom_blit_source_skips_full_crop() {
    assert_eq!(zoom_blit_source(full_crop()), None);
    let c = Crop { x: 64, y: 36, w: 1152, h: 648 };
    assert_eq!(zoom_blit_source(c), Some(c));
}
