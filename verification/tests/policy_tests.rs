use voctozoom::geometry::full_crop;
use voctozoom::geometry::Crop;
use voctozoom::geometry::DispRect;
use voctozoom::geometry::FrameRect;
use voctozoom::policy::clamp_to_bounds;
use voctozoom::policy::pan;
use voctozoom::policy::rubber_band;
use voctozoom::policy::zoom;

#[test]
fn clamp_leaves_valid_crop_alone() {
    let r = FrameRect { x: 10, y: 20, w: 100, h: 100 };
    assert_eq!(clamp_to_bounds(r), Crop { x: 10, y: 20, w: 100, h: 100 });
    let full = FrameRect { x: 0, y: 0, w: 1280, h: 720 };
    assert_eq!(clamp_to_bounds(full), full_crop());
}

#[test]
fn clamp_translates_without_resizing() {
    let r = clamp_to_bounds(FrameRect { x: -50, y: 700, w: 200, h: 100 });
    assert_eq!(r, Crop { x: 0, y: 620, w: 200, h: 100 });
    let r2 = clamp_to_bounds(FrameRect { x: 1300, y: -3, w: 200, h: 100 });
    assert_eq!(r2, Crop { x: 1080, y: 0, w: 200, h: 100 });
}

#[test]
fn pan_clamps_at_origin() {
    let c = Crop { x: 0, y: 0, w: 1152, h: 648 };
    let r = pan(c, -50, -50);
    assert_eq!(r, Crop { x: 0, y: 0, w: 1152, h: 648 });
}

#[test]
fn pan_translates_within_bounds() {
    let c = Crop { x: 64, y: 36, w: 1152, h: 648 };
    assert_eq!(pan(c, 10, 5), Crop { x: 74, y: 41, w: 1152, h: 648 });
    assert_eq!(pan(c, 1000, 1000), Crop { x: 128, y: 72, w: 1152, h: 648 });
}

#[test]
fn zoom_in_recenters_on_anchor() {
    let r = zoom(full_crop(), (640, 360), 9, 10);
    assert_eq!(r, Crop { x: 64, y: 36, w: 1152, h: 648 });
}

#[test]
fn zoom_out_snaps_exactly_to_full() {
    let c = Crop { x: 64, y: 36, w: 1152, h: 648 };
    let r = zoom(c, (640, 360), 10, 9);
    assert_eq!(r, full_crop());
}

#[test]
fn zoom_out_repeatedly_reaches_full() {
    let mut c = Crop { x: 600, y: 300, w: 90, h: 50 };
    let mut steps: u32 = 0;
    while c != full_crop() {
        c = zoom(c, (640, 360), 10, 9);
        steps += 1;
        assert!(steps < 100, "zooming out must reach the full crop");
    }
    assert_eq!(c, full_crop());
}

#[test]
fn zoom_in_keeps_at_least_one_pixel() {
    let c = Crop { x: 10, y: 10, w: 1, h: 1 };
    let r = zoom(c, (10, 10), 9, 10);
    assert_eq!(r, Crop { x: 10, y: 10, w: 1, h: 1 });
}

#[test]
fn rubber_band_in_full_pane_has_exact_frame_aspect() {
    // Drag between frame points (100,100) and (300,300): display points
    // (50,50) and (150,150) in the full pane.  The result must have the
    // frame's 16:9 ratio exactly, not the drag's 1:1.
    let pane = DispRect { x: 0, y: 0, w: 640, h: 360 };
    let preview = DispRect { x: 50, y: 50, w: 101, h: 101 };
    let r = rubber_band(full_crop(), preview, pane);
    assert_eq!(r, Crop { x: 9, y: 93, w: 384, h: 216 });
    assert_eq!(u32::from(r.w) * 9, u32::from(r.h) * 16);
}

#[test]
fn rubber_band_in_zoom_pane_uses_crop_as_reference() {
    let rw = Crop { x: 64, y: 36, w: 1152, h: 648 };
    let pane = DispRect { x: 0, y: 360, w: 640, h: 360 };
    let preview = DispRect { x: 100, y: 460, w: 65, h: 37 };
    let r = rubber_band(rw, preview, pane);
    assert_eq!(r, Crop { x: 238, y: 213, w: 128, h: 72 });
    assert_eq!(u32::from(r.w) * 9, u32::from(r.h) * 16);
}

#[test]
fn rubber_band_result_is_clamped() {
    // A drag in the pane's top-left corner pushes the doubled rectangle
    // past the frame's edges; the result is translated back inside.
    let pane = DispRect { x: 0, y: 0, w: 640, h: 360 };
    let preview = DispRect { x: 0, y: 0, w: 50, h: 50 };
    let r = rubber_band(full_crop(), preview, pane);
    assert_eq!(r.x, 0);
    assert_eq!(r.y, 0);
    assert_eq!(u32::from(r.w) * 9, u32::from(r.h) * 16);
}
