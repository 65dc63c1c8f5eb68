use voctozoom::channel::Channel;
use voctozoom::geometry::full_crop;
use voctozoom::geometry::Crop;
use voctozoom::geometry::DispRect;
use voctozoom::interact::complete;
use voctozoom::interact::dispatch;
use voctozoom::interact::CropRequest;
use voctozoom::interact::Event;
use voctozoom::interact::InteractionState;

fn one_channel() -> Vec<Channel> {
    vec![Channel::new(0)]
}

fn ok_line() -> Vec<u8> {
    b"OK\n".to_vec()
}

fn err_line() -> Vec<u8> {
    b"ERR\n".to_vec()
}

#[test]
fn new_channel_layout_and_state() {
    let ch = Channel::new(0);
    assert_eq!(ch.crop, full_crop());
    assert_eq!(ch.undo, None);
    assert_eq!(ch.preview, None);
    assert_eq!(ch.frame.len(), 1280 * 720 * 3);
    assert_eq!(ch.full_rect, DispRect { x: 0, y: 0, w: 640, h: 360 });
    assert_eq!(ch.zoom_rect, DispRect { x: 0, y: 360, w: 640, h: 360 });
    let second = Channel::new(1);
    assert_eq!(second.full_rect, DispRect { x: 640, y: 0, w: 640, h: 360 });
    assert_eq!(second.zoom_rect, DispRect { x: 640, y: 360, w: 640, h: 360 });
}

#[test]
fn set_frame_refuses_short_payload() {
    let mut ch = Channel::new(0);
    assert!(!ch.set_frame(vec![1u8; 100]));
    assert_eq!(ch.frame.len(), 1280 * 720 * 3);
    assert_eq!(ch.frame[0], 0);
    assert!(ch.set_frame(vec![7u8; 1280 * 720 * 3]));
    assert_eq!(ch.frame[0], 7);
}

/// Drives one wheel zoom-in at the zoom pane's center and confirms it.
fn zoom_in_confirmed(ist: &mut InteractionState, channels: &mut Vec<Channel>) -> Crop {
    let out = dispatch(ist, channels, Event::Motion { x: 320, y: 540 });
    assert!(out.request.is_none());
    let out = dispatch(ist, channels, Event::Wheel { y: 1 });
    let req = out.request.expect("wheel inside the zoom pane proposes a crop");
    assert_eq!(req.channel, 0);
    assert!(!req.is_undo);
    assert_eq!(req.proposed, Crop { x: 64, y: 36, w: 1152, h: 648 });
    assert_eq!(req.cmd, b"zoom_to 1152x648+64+36\n".to_vec());
    let proposed = req.proposed;
    assert!(complete(channels, &req, &ok_line()));
    proposed
}

#[test]
fn wheel_zoom_confirmed_fills_undo() {
    let mut ist = InteractionState::new();
    let mut channels = one_channel();
    let proposed = zoom_in_confirmed(&mut ist, &mut channels);
    assert_eq!(channels[0].crop, proposed);
    assert_eq!(channels[0].undo, Some(full_crop()));
}

#[test]
fn rejected_proposal_changes_nothing() {
    let mut ist = InteractionState::new();
    let mut channels = one_channel();
    dispatch(&mut ist, &mut channels, Event::Motion { x: 320, y: 540 });
    let out = dispatch(&mut ist, &mut channels, Event::Wheel { y: 1 });
    let req = out.request.expect("wheel inside the zoom pane proposes a crop");
    let redraw = complete(&mut channels, &req, &err_line());
    assert!(!redraw);
    assert_eq!(channels[0].crop, full_crop());
    assert_eq!(channels[0].undo, None);
}

#[test]
fn undo_restores_prior_crop_and_empties_slot() {
    let mut ist = InteractionState::new();
    let mut channels = one_channel();
    zoom_in_confirmed(&mut ist, &mut channels);
    let out = dispatch(&mut ist, &mut channels, Event::UndoKey);
    let req = out.request.expect("a filled undo slot proposes the stored crop");
    assert!(req.is_undo);
    assert_eq!(req.proposed, full_crop());
    assert!(complete(&mut channels, &req, &ok_line()));
    assert_eq!(channels[0].crop, full_crop());
    assert_eq!(channels[0].undo, None);
    // A second immediate undo finds the slot empty: no proposal at all.
    let out = dispatch(&mut ist, &mut channels, Event::UndoKey);
    assert!(out.request.is_none());
}

#[test]
fn failed_undo_keeps_the_slot() {
    let mut ist = InteractionState::new();
    let mut channels = one_channel();
    let zoomed = zoom_in_confirmed(&mut ist, &mut channels);
    let out = dispatch(&mut ist, &mut channels, Event::UndoKey);
    let req = out.request.expect("a filled undo slot proposes the stored crop");
    assert!(!complete(&mut channels, &req, &err_line()));
    assert_eq!(channels[0].crop, zoomed);
    assert_eq!(channels[0].undo, Some(full_crop()));
}

#[test]
fn proposing_the_current_crop_is_a_no_op() {
    let mut ist = InteractionState::new();
    let mut channels = one_channel();
    // A left drag with zero travel proposes the unchanged crop: the
    // equality gate drops it before any network call, and the undo slot
    // stays untouched.
    dispatch(&mut ist, &mut channels, Event::LeftDown { x: 10, y: 10 });
    let out = dispatch(&mut ist, &mut channels, Event::Motion { x: 10, y: 10 });
    assert!(out.request.is_none());
    assert_eq!(channels[0].undo, None);
    assert_eq!(channels[0].crop, full_crop());
}

#[test]
fn full_pane_drag_pans_with_the_pointer() {
    let mut ist = InteractionState::new();
    let mut channels = one_channel();
    zoom_in_confirmed(&mut ist, &mut channels);
    dispatch(&mut ist, &mut channels, Event::LeftDown { x: 100, y: 100 });
    let out = dispatch(&mut ist, &mut channels, Event::Motion { x: 110, y: 105 });
    let req = out.request.expect("a drag in the full pane proposes a pan");
    assert_eq!(req.proposed, Crop { x: 84, y: 46, w: 1152, h: 648 });
    // The drag start moves with the pointer: panning is incremental.
    assert_eq!(ist.left_start, Some((110, 105)));
}

#[test]
fn zoom_pane_drag_pans_against_the_pointer() {
    let mut ist = InteractionState::new();
    let mut channels = one_channel();
    zoom_in_confirmed(&mut ist, &mut channels);
    dispatch(&mut ist, &mut channels, Event::LeftDown { x: 320, y: 540 });
    let out = dispatch(&mut ist, &mut channels, Event::Motion { x: 330, y: 545 });
    let req = out.request.expect("a drag in the zoom pane proposes a pan");
    assert_eq!(req.proposed, Crop { x: 46, y: 27, w: 1152, h: 648 });
}

#[test]
fn drag_leaving_every_pane_is_ignored_but_stays_active() {
    let mut ist = InteractionState::new();
    let mut channels = one_channel();
    dispatch(&mut ist, &mut channels, Event::LeftDown { x: 10, y: 10 });
    let out = dispatch(&mut ist, &mut channels, Event::Motion { x: 5000, y: 5000 });
    assert!(out.request.is_none());
    assert_eq!(ist.left_start, Some((10, 10)));
    assert_eq!(ist.mouse_pos, (5000, 5000));
}

#[test]
fn rubber_band_previews_then_proposes_on_release() {
    let mut ist = InteractionState::new();
    let mut channels = one_channel();
    dispatch(&mut ist, &mut channels, Event::RightDown { x: 50, y: 50 });
    let out = dispatch(&mut ist, &mut channels, Event::Motion { x: 150, y: 150 });
    assert!(out.request.is_none());
    assert!(out.redraw);
    assert_eq!(channels[0].preview, Some(DispRect { x: 50, y: 50, w: 101, h: 101 }));
    let out = dispatch(&mut ist, &mut channels, Event::RightUp);
    let req = out.request.expect("a preview inside the full pane proposes a crop");
    assert_eq!(req.proposed, Crop { x: 9, y: 93, w: 384, h: 216 });
    assert!(!req.is_undo);
    assert_eq!(channels[0].preview, None);
    assert!(complete(&mut channels, &req, &ok_line()));
    assert_eq!(channels[0].crop, Crop { x: 9, y: 93, w: 384, h: 216 });
    assert_eq!(channels[0].undo, Some(full_crop()));
}

#[test]
fn preview_crossing_panes_is_discarded_on_release() {
    let mut ist = InteractionState::new();
    let mut channels = one_channel();
    // A preview straddling both panes resolves against neither; release
    // still clears it.
    channels[0].preview = Some(DispRect { x: 0, y: 300, w: 100, h: 100 });
    let out = dispatch(&mut ist, &mut channels, Event::RightUp);
    assert!(out.request.is_none());
    assert_eq!(channels[0].preview, None);
}

#[test]
fn buttons_up_and_down_track_gesture_state() {
    let mut ist = InteractionState::new();
    let mut channels = one_channel();
    dispatch(&mut ist, &mut channels, Event::LeftDown { x: 3, y: 4 });
    assert_eq!(ist.left_start, Some((3, 4)));
    dispatch(&mut ist, &mut channels, Event::RightDown { x: 5, y: 6 });
    assert_eq!(ist.right_start, Some((5, 6)));
    dispatch(&mut ist, &mut channels, Event::LeftUp);
    assert_eq!(ist.left_start, None);
    dispatch(&mut ist, &mut channels, Event::RightUp);
    assert_eq!(ist.right_start, None);
}

#[test]
fn completed_request_is_bit_identical_on_refusal() {
    let mut channels = one_channel();
    let before_crop = channels[0].crop;
    let before_undo = channels[0].undo;
    let req = CropRequest {
        channel: 0,
        proposed: Crop { x: 1, y: 2, w: 3, h: 4 },
        is_undo: false,
        cmd: b"zoom_to 3x4+1+2\n".to_vec(),
    };
    assert!(!complete(&mut channels, &req, &err_line()));
    assert_eq!(channels[0].crop.x, before_crop.x);
    assert_eq!(channels[0].crop.y, before_crop.y);
    assert_eq!(channels[0].crop.w, before_crop.w);
    assert_eq!(channels[0].crop.h, before_crop.h);
    assert_eq!(channels[0].undo, before_undo);
}
