//! The interaction state machine: pointer and key events in, crop proposals
//! out.
//!
//! One owned `InteractionState` is passed into each dispatch step; there is
//! no ambient state.  A dispatch step never performs I/O and never touches a
//! channel's confirmed crop or undo slot: it may update the gesture state and
//! a channel's transient preview, and it returns at most one `CropRequest`.
//! The caller performs the round-trip for that request and hands the
//! response line to `complete`, which applies it to the channel.
//!
//! Every request has already passed the equality gate: a candidate equal to
//! the channel's current crop is never proposed and leaves the undo slot
//! untouched.

use vstd::prelude::*;

use crate::channel::Channel;
use crate::channel::channels_inv;
use crate::geometry::Crop;
use crate::geometry::contains_point;
use crate::geometry::contains_rect;
use crate::geometry::enclose_points;
use crate::geometry::full_crop;
use crate::geometry::delta_to_frame;
use crate::geometry::point_to_frame;
use crate::geometry::spec_contains_point;
use crate::geometry::spec_contains_rect;
use crate::geometry::spec_enclose_points;
use crate::geometry::spec_full_crop;
use crate::geometry::tdiv;
use crate::geometry::HEIGHT;
use crate::geometry::WIDTH;
use crate::geometry::WIN_HEIGHT;
use crate::geometry::WIN_WIDTH;
use crate::policy::pan;
use crate::policy::rubber_band;
use crate::policy::spec_pan;
use crate::policy::spec_rubber_band;
use crate::policy::spec_zoom;
use crate::policy::zoom;
use crate::policy::ZOOM_DEN;
use crate::policy::ZOOM_NUM;
use crate::protocol::encode_zoom_to;
use crate::protocol::spec_ok_line;
use crate::protocol::spec_zoom_cmd;

verus! {

/// The gesture state: one pan gesture (left button), one rubber-band
/// gesture (right button), and the last known pointer position.
pub struct InteractionState {
    /// Where the left-button drag began, while the button is held.
    pub left_start: Option<(i32, i32)>,
    /// Where the right-button drag began, while the button is held.
    pub right_start: Option<(i32, i32)>,
    /// The pointer position as of the last motion event.
    pub mouse_pos: (i32, i32),
}

impl InteractionState {
    /// The idle state: no gesture active.
    pub fn new() -> (s: InteractionState)
        ensures
            s.left_start == Option::<(i32, i32)>::None,
            s.right_start == Option::<(i32, i32)>::None,
            s.mouse_pos == (0i32, 0i32),
    {
        InteractionState { left_start: None, right_start: None, mouse_pos: (0, 0) }
    }
}

/// One input event, as the window system reports it.
pub enum Event {
    /// The pointer moved to `(x, y)`.
    Motion { x: i32, y: i32 },
    /// The left button went down at `(x, y)`.
    LeftDown { x: i32, y: i32 },
    /// The right button went down at `(x, y)`.
    RightDown { x: i32, y: i32 },
    /// The left button was released.
    LeftUp,
    /// The right button was released.
    RightUp,
    /// The wheel turned; positive `y` turns toward the user.
    Wheel { y: i32 },
    /// The undo key combination was pressed.
    UndoKey,
}

/// A crop proposal to be sent to one channel's remote source.
pub struct CropRequest {
    /// Index of the channel the proposal is for.
    pub channel: usize,
    /// The candidate crop, already clamped and gated.
    pub proposed: Crop,
    /// Whether a confirmation consumes the undo slot instead of filling it.
    pub is_undo: bool,
    /// The encoded command line to send.
    pub cmd: Vec<u8>,
}

/// What one dispatch step decided.
pub struct DispatchOutcome {
    /// At most one crop proposal; the caller sends it and calls `complete`.
    pub request: Option<CropRequest>,
    /// Whether display state (a preview) changed and a redraw is due.
    pub redraw: bool,
}

/// First channel, from `i` on, whose zoom pane — else whose full pane —
/// contains both endpoints of a drag; with whether it was the zoom pane.
pub open spec fn spec_pan_target_from(
    chs: Seq<Channel>,
    s: (i32, i32),
    m: (i32, i32),
    i: int,
) -> Option<(int, bool)>
    decreases chs.len() - i,
{
    if i < 0 || i >= chs.len() {
        None
    } else if spec_contains_point(chs[i].zoom_rect, s) && spec_contains_point(
        chs[i].zoom_rect,
        m,
    ) {
        Some((i, true))
    } else if spec_contains_point(chs[i].full_rect, s) && spec_contains_point(
        chs[i].full_rect,
        m,
    ) {
        Some((i, false))
    } else {
        spec_pan_target_from(chs, s, m, i + 1)
    }
}

/// First channel one of whose panes contains both endpoints of a pan drag.
pub open spec fn spec_pan_target(chs: Seq<Channel>, s: (i32, i32), m: (i32, i32)) -> Option<
    (int, bool),
> {
    spec_pan_target_from(chs, s, m, 0)
}

/// First channel one of whose panes contains both endpoints of a pan drag,
/// and whether that pane is the zoom pane.
pub fn find_pan_target(chs: &Vec<Channel>, s: (i32, i32), m: (i32, i32)) -> (r: Option<
    (usize, bool),
>)
    ensures
        match r {
            Some(t) => {
                &&& t.0 < chs@.len()
                &&& spec_pan_target(chs@, s, m) == Some((t.0 as int, t.1))
                &&& {
                    let pane = if t.1 {
                        chs@[t.0 as int].zoom_rect
                    } else {
                        chs@[t.0 as int].full_rect
                    };
                    spec_contains_point(pane, s) && spec_contains_point(pane, m)
                }
            },
            None => spec_pan_target(chs@, s, m) is None,
        },
{
    let n = chs.len();
    let mut i: usize = 0;
    while i < n
        invariant
            0 <= i <= n,
            n == chs@.len(),
            spec_pan_target(chs@, s, m) == spec_pan_target_from(chs@, s, m, i as int),
        decreases n - i,
    {
        let ch = &chs[i];
        if contains_point(ch.zoom_rect, s) && contains_point(ch.zoom_rect, m) {
            return Some((i, true));
        }
        if contains_point(ch.full_rect, s) && contains_point(ch.full_rect, m) {
            return Some((i, false));
        }
        proof {
            assert(spec_pan_target_from(chs@, s, m, i as int) == spec_pan_target_from(
                chs@,
                s,
                m,
                i as int + 1,
            ));
        }
        i += 1;
    }
    None
}

/// First channel, from `i` on, one of whose panes contains both endpoints of
/// a rubber-band drag.
pub open spec fn spec_select_target_from(
    chs: Seq<Channel>,
    s: (i32, i32),
    m: (i32, i32),
    i: int,
) -> Option<int>
    decreases chs.len() - i,
{
    if i < 0 || i >= chs.len() {
        None
    } else if (spec_contains_point(chs[i].zoom_rect, s) && spec_contains_point(
        chs[i].zoom_rect,
        m,
    )) || (spec_contains_point(chs[i].full_rect, s) && spec_contains_point(chs[i].full_rect, m)) {
        Some(i)
    } else {
        spec_select_target_from(chs, s, m, i + 1)
    }
}

/// First channel one of whose panes contains both endpoints of a
/// rubber-band drag.
pub open spec fn spec_select_target(chs: Seq<Channel>, s: (i32, i32), m: (i32, i32)) -> Option<
    int,
> {
    spec_select_target_from(chs, s, m, 0)
}

/// First channel one of whose panes contains both endpoints of a
/// rubber-band drag.
pub fn find_select_target(chs: &Vec<Channel>, s: (i32, i32), m: (i32, i32)) -> (r: Option<usize>)
    ensures
        match r {
            Some(j) => j < chs@.len() && spec_select_target(chs@, s, m) == Some(j as int),
            None => spec_select_target(chs@, s, m) is None,
        },
{
    let n = chs.len();
    let mut i: usize = 0;
    while i < n
        invariant
            0 <= i <= n,
            n == chs@.len(),
            spec_select_target(chs@, s, m) == spec_select_target_from(chs@, s, m, i as int),
        decreases n - i,
    {
        let ch = &chs[i];
        if (contains_point(ch.zoom_rect, s) && contains_point(ch.zoom_rect, m)) || (
        contains_point(ch.full_rect, s) && contains_point(ch.full_rect, m)) {
            return Some(i);
        }
        proof {
            assert(spec_select_target_from(chs@, s, m, i as int) == spec_select_target_from(
                chs@,
                s,
                m,
                i as int + 1,
            ));
        }
        i += 1;
    }
    None
}

/// First channel, from `i` on, whose zoom pane contains the point.
pub open spec fn spec_wheel_target_from(chs: Seq<Channel>, p: (i32, i32), i: int) -> Option<int>
    decreases chs.len() - i,
{
    if i < 0 || i >= chs.len() {
        None
    } else if spec_contains_point(chs[i].zoom_rect, p) {
        Some(i)
    } else {
        spec_wheel_target_from(chs, p, i + 1)
    }
}

/// First channel whose zoom pane contains the point.
pub open spec fn spec_wheel_target(chs: Seq<Channel>, p: (i32, i32)) -> Option<int> {
    spec_wheel_target_from(chs, p, 0)
}

/// First channel whose zoom pane contains the point.
pub fn find_wheel_target(chs: &Vec<Channel>, p: (i32, i32)) -> (r: Option<usize>)
    ensures
        match r {
            Some(j) => {
                &&& j < chs@.len()
                &&& spec_wheel_target(chs@, p) == Some(j as int)
                &&& spec_contains_point(chs@[j as int].zoom_rect, p)
            },
            None => spec_wheel_target(chs@, p) is None,
        },
{
    let n = chs.len();
    let mut i: usize = 0;
    while i < n
        invariant
            0 <= i <= n,
            n == chs@.len(),
            spec_wheel_target(chs@, p) == spec_wheel_target_from(chs@, p, i as int),
        decreases n - i,
    {
        let ch = &chs[i];
        if contains_point(ch.zoom_rect, p) {
            return Some(i);
        }
        proof {
            assert(spec_wheel_target_from(chs@, p, i as int) == spec_wheel_target_from(
                chs@,
                p,
                i as int + 1,
            ));
        }
        i += 1;
    }
    None
}

/// First channel, from `i` on, either of whose panes contains the point.
pub open spec fn spec_point_target_from(chs: Seq<Channel>, p: (i32, i32), i: int) -> Option<int>
    decreases chs.len() - i,
{
    if i < 0 || i >= chs.len() {
        None
    } else if spec_contains_point(chs[i].zoom_rect, p) || spec_contains_point(
        chs[i].full_rect,
        p,
    ) {
        Some(i)
    } else {
        spec_point_target_from(chs, p, i + 1)
    }
}

/// First channel either of whose panes contains the point.
pub open spec fn spec_point_target(chs: Seq<Channel>, p: (i32, i32)) -> Option<int> {
    spec_point_target_from(chs, p, 0)
}

/// First channel either of whose panes contains the point.
pub fn find_point_target(chs: &Vec<Channel>, p: (i32, i32)) -> (r: Option<usize>)
    ensures
        match r {
            Some(j) => j < chs@.len() && spec_point_target(chs@, p) == Some(j as int),
            None => spec_point_target(chs@, p) is None,
        },
{
    let n = chs.len();
    let mut i: usize = 0;
    while i < n
        invariant
            0 <= i <= n,
            n == chs@.len(),
            spec_point_target(chs@, p) == spec_point_target_from(chs@, p, i as int),
        decreases n - i,
    {
        let ch = &chs[i];
        if contains_point(ch.zoom_rect, p) || contains_point(ch.full_rect, p) {
            return Some(i);
        }
        proof {
            assert(spec_point_target_from(chs@, p, i as int) == spec_point_target_from(
                chs@,
                p,
                i as int + 1,
            ));
        }
        i += 1;
    }
    None
}

/// First channel, from `i` on, with a preview rectangle set.
pub open spec fn spec_preview_owner_from(chs: Seq<Channel>, i: int) -> Option<int>
    decreases chs.len() - i,
{
    if i < 0 || i >= chs.len() {
        None
    } else if chs[i].preview is Some {
        Some(i)
    } else {
        spec_preview_owner_from(chs, i + 1)
    }
}

/// First channel with a preview rectangle set.
pub open spec fn spec_preview_owner(chs: Seq<Channel>) -> Option<int> {
    spec_preview_owner_from(chs, 0)
}

/// First channel with a preview rectangle set.
pub fn find_preview_owner(chs: &Vec<Channel>) -> (r: Option<usize>)
    ensures
        match r {
            Some(j) => {
                &&& j < chs@.len()
                &&& spec_preview_owner(chs@) == Some(j as int)
                &&& chs@[j as int].preview is Some
            },
            None => spec_preview_owner(chs@) is None,
        },
{
    let n = chs.len();
    let mut i: usize = 0;
    while i < n
        invariant
            0 <= i <= n,
            n == chs@.len(),
            spec_preview_owner(chs@) == spec_preview_owner_from(chs@, i as int),
        decreases n - i,
    {
        let has = match &chs[i].preview {
            Some(_) => true,
            None => false,
        };
        if has {
            return Some(i);
        }
        proof {
            assert(spec_preview_owner_from(chs@, i as int) == spec_preview_owner_from(
                chs@,
                i as int + 1,
            ));
        }
        i += 1;
    }
    None
}

/// The frame-space delta of a pan drag from `s` to `m`.  The two panes pan
/// in opposite directions: dragging the zoomed view moves its content with
/// the pointer, so the crop moves against it, scaled by the crop (the zoom
/// pane's reference window); dragging the full view moves the crop with the
/// pointer, scaled by the whole frame.
pub open spec fn spec_pan_delta(ch: Channel, s: (i32, i32), m: (i32, i32), in_zoom: bool) -> (
    int,
    int,
) {
    if in_zoom {
        (
            tdiv((s.0 - m.0) * ch.crop.w, WIN_WIDTH as int),
            tdiv((s.1 - m.1) * ch.crop.h, WIN_HEIGHT as int),
        )
    } else {
        (tdiv((m.0 - s.0) * WIDTH, WIN_WIDTH as int), tdiv((m.1 - s.1) * HEIGHT, WIN_HEIGHT as int))
    }
}

/// The channel and candidate crop a pan drag from `s` to `m` proposes, if
/// some pane contains both points.
pub open spec fn spec_pan_action(chs: Seq<Channel>, s: (i32, i32), m: (i32, i32)) -> Option<
    (int, Crop),
> {
    match spec_pan_target(chs, s, m) {
        Some((i, in_zoom)) => {
            let d = spec_pan_delta(chs[i], s, m, in_zoom);
            Some((i, spec_pan(chs[i].crop, d.0, d.1)))
        },
        None => None,
    }
}

/// The frame-space anchor of a wheel event in a channel's zoom pane: the
/// pointer position mapped through the current crop as reference window.
pub open spec fn spec_wheel_anchor(ch: Channel, pos: (i32, i32)) -> (int, int) {
    (
        tdiv((pos.0 - ch.zoom_rect.x) * ch.crop.w, WIN_WIDTH as int) + ch.crop.x,
        tdiv((pos.1 - ch.zoom_rect.y) * ch.crop.h, WIN_HEIGHT as int) + ch.crop.y,
    )
}

/// The channel and candidate crop a wheel step at `pos` proposes, if some
/// zoom pane contains the pointer.  Turning toward the user zooms in.
pub open spec fn spec_wheel_action(chs: Seq<Channel>, pos: (i32, i32), y: i32) -> Option<
    (int, Crop),
> {
    match spec_wheel_target(chs, pos) {
        Some(i) => {
            let anchor = spec_wheel_anchor(chs[i], pos);
            let c = if y > 0 {
                spec_zoom(chs[i].crop, anchor, ZOOM_NUM as int, ZOOM_DEN as int)
            } else {
                spec_zoom(chs[i].crop, anchor, ZOOM_DEN as int, ZOOM_NUM as int)
            };
            Some((i, c))
        },
        None => None,
    }
}

/// The candidate crop a released rubber band on channel `i` proposes: the
/// preview resolved against the single pane that fully contains it, with
/// that pane's reference window — or nothing, if neither pane contains it.
pub open spec fn spec_release_action(chs: Seq<Channel>, i: int) -> Option<Crop>
    recommends
        0 <= i < chs.len(),
{
    let ch = chs[i];
    match ch.preview {
        Some(r) => {
            if spec_contains_rect(ch.zoom_rect, r) {
                Some(spec_rubber_band(ch.crop, r, ch.zoom_rect))
            } else if spec_contains_rect(ch.full_rect, r) {
                Some(spec_rubber_band(spec_full_crop(), r, ch.full_rect))
            } else {
                None
            }
        },
        None => None,
    }
}

/// The channel and stored crop an undo key at `pos` proposes, if some pane
/// contains the pointer and that channel's undo slot is filled.
pub open spec fn spec_undo_action(chs: Seq<Channel>, pos: (i32, i32)) -> Option<(int, Crop)> {
    match spec_point_target(chs, pos) {
        Some(i) => match chs[i].undo {
            Some(c) => Some((i, c)),
            None => None,
        },
        None => None,
    }
}

/// The equality gate: a candidate equal to the channel's current crop is
/// dropped, so it is never sent and never touches the undo slot.
pub open spec fn spec_gate(chs: Seq<Channel>, act: Option<(int, Crop)>) -> Option<(int, Crop)> {
    match act {
        Some((i, c)) => if c == chs[i].crop {
            None
        } else {
            Some((i, c))
        },
        None => None,
    }
}

/// Whether `r` is exactly the request the gated action calls for: nothing
/// when the candidate equals the current crop, else the candidate together
/// with the encoded line to send.
pub open spec fn req_matches(
    r: Option<CropRequest>,
    chs: Seq<Channel>,
    act: Option<(int, Crop)>,
    is_undo: bool,
) -> bool {
    match spec_gate(chs, act) {
        Some((i, c)) => match r {
            Some(req) => {
                &&& req.channel == i
                &&& req.proposed == c
                &&& req.is_undo == is_undo
                &&& req.cmd@ == spec_zoom_cmd(c)
            },
            None => false,
        },
        None => r is None,
    }
}

/// Builds the request carrying a gated candidate and its command line.
fn make_request(i: usize, proposed: Crop, is_undo: bool) -> (req: CropRequest)
    ensures
        req.channel == i,
        req.proposed == proposed,
        req.is_undo == is_undo,
        req.cmd@ == spec_zoom_cmd(proposed),
{
    CropRequest { channel: i, proposed, is_undo, cmd: encode_zoom_to(proposed) }
}

/// Handles a wheel step at the remembered pointer position.
fn on_wheel(chs: &Vec<Channel>, pos: (i32, i32), y: i32) -> (request: Option<CropRequest>)
    requires
        channels_inv(chs@),
    ensures
        req_matches(request, chs@, spec_wheel_action(chs@, pos, y), false),
        request matches Some(req) ==> req.channel < chs@.len() && req.proposed.valid()
            && req.proposed != chs@[req.channel as int].crop,
{
    match find_wheel_target(chs, pos) {
        Some(i) => {
            let ch = &chs[i];
            let anchor = point_to_frame((ch.zoom_rect.x, ch.zoom_rect.y), pos, ch.crop);
            let cand = if y > 0 {
                zoom(ch.crop, anchor, ZOOM_NUM, ZOOM_DEN)
            } else {
                zoom(ch.crop, anchor, ZOOM_DEN, ZOOM_NUM)
            };
            if cand != ch.crop {
                Some(make_request(i, cand, false))
            } else {
                None
            }
        },
        None => None,
    }
}

/// Handles the undo key at the remembered pointer position: the stored
/// crop, if any, is proposed again; the slot itself is consumed only by a
/// confirmed response.
fn on_undo(chs: &Vec<Channel>, pos: (i32, i32)) -> (request: Option<CropRequest>)
    requires
        channels_inv(chs@),
    ensures
        req_matches(request, chs@, spec_undo_action(chs@, pos), true),
        request matches Some(req) ==> req.channel < chs@.len() && req.proposed.valid()
            && req.proposed != chs@[req.channel as int].crop,
{
    match find_point_target(chs, pos) {
        Some(i) => {
            let ch = &chs[i];
            match ch.undo {
                Some(c) => if c != ch.crop {
                    Some(make_request(i, c, true))
                } else {
                    None
                },
                None => None,
            }
        },
        None => None,
    }
}

/// Handles pointer motion: an active left drag proposes a pan; an active
/// right drag updates the target channel's preview rectangle; the new
/// position becomes the remembered pointer position and, when a pan matched
/// a pane, the new left-drag start (incremental panning).  A drag whose
/// endpoints lie in no single pane is ignored for this event but stays
/// active.
fn on_motion(ist: &mut InteractionState, channels: &mut Vec<Channel>, x: i32, y: i32) -> (out:
    DispatchOutcome)
    requires
        channels_inv(old(channels)@),
    ensures
        channels_inv(final(channels)@),
        final(channels)@.len() == old(channels)@.len(),
        forall|i: int|
            0 <= i < old(channels)@.len() ==> {
                &&& (#[trigger] final(channels)@[i]).crop == old(channels)@[i].crop
                &&& final(channels)@[i].undo == old(channels)@[i].undo
                &&& final(channels)@[i].frame == old(channels)@[i].frame
                &&& final(channels)@[i].full_rect == old(channels)@[i].full_rect
                &&& final(channels)@[i].zoom_rect == old(channels)@[i].zoom_rect
            },
        final(ist).mouse_pos == (x, y),
        final(ist).right_start == old(ist).right_start,
        match old(ist).left_start {
            Some(s) => {
                &&& req_matches(
                    out.request,
                    old(channels)@,
                    spec_pan_action(old(channels)@, s, (x, y)),
                    false,
                )
                &&& final(ist).left_start == (if spec_pan_target(old(channels)@, s, (x, y))
                    is Some {
                    Some((x, y))
                } else {
                    Some(s)
                })
            },
            None => out.request is None && final(ist).left_start is None,
        },
        match old(ist).right_start {
            Some(s) => match spec_select_target(old(channels)@, s, (x, y)) {
                Some(j) => final(channels)@ == old(channels)@.update(
                    j,
                    (Channel {
                        preview: Some(spec_enclose_points((x, y), s)),
                        ..old(channels)@[j]
                    }),
                ) && out.redraw,
                None => final(channels)@ == old(channels)@ && !out.redraw,
            },
            None => final(channels)@ == old(channels)@ && !out.redraw,
        },
        out.request matches Some(req) ==> req.channel < old(channels)@.len()
            && req.proposed.valid() && req.proposed != old(channels)@[req.channel as int].crop,
{
    let m = (x, y);
    let mut request: Option<CropRequest> = None;
    let mut redraw = false;
    match ist.left_start {
        Some(s) => {
            match find_pan_target(channels, s, m) {
                Some((i, in_zoom)) => {
                    let ch = &channels[i];
                    let d = if in_zoom {
                        delta_to_frame((s.0 - m.0, s.1 - m.1), ch.crop)
                    } else {
                        delta_to_frame((m.0 - s.0, m.1 - s.1), full_crop())
                    };
                    let cand = pan(ch.crop, d.0, d.1);
                    if cand != ch.crop {
                        request = Some(make_request(i, cand, false));
                    }
                    ist.left_start = Some(m);
                },
                None => {},
            }
        },
        None => {},
    }
    match ist.right_start {
        Some(s) => {
            match find_select_target(channels, s, m) {
                Some(j) => {
                    let pv = enclose_points(m, s);
                    let chj = &mut channels[j];
                    chj.preview = Some(pv);
                    redraw = true;
                },
                None => {},
            }
        },
        None => {},
    }
    ist.mouse_pos = m;
    DispatchOutcome { request, redraw }
}

/// Handles a right-button release: the first channel with a preview
/// resolves it against the single pane that fully contains it and proposes
/// the derived crop; the preview is cleared unconditionally, whatever the
/// outcome.
fn on_release(channels: &mut Vec<Channel>) -> (request: Option<CropRequest>)
    requires
        channels_inv(old(channels)@),
    ensures
        channels_inv(final(channels)@),
        final(channels)@.len() == old(channels)@.len(),
        forall|i: int|
            0 <= i < old(channels)@.len() ==> {
                &&& (#[trigger] final(channels)@[i]).crop == old(channels)@[i].crop
                &&& final(channels)@[i].undo == old(channels)@[i].undo
                &&& final(channels)@[i].frame == old(channels)@[i].frame
                &&& final(channels)@[i].full_rect == old(channels)@[i].full_rect
                &&& final(channels)@[i].zoom_rect == old(channels)@[i].zoom_rect
            },
        match spec_preview_owner(old(channels)@) {
            Some(j) => {
                &&& final(channels)@ == old(channels)@.update(
                    j,
                    (Channel { preview: None, ..old(channels)@[j] }),
                )
                &&& req_matches(
                    request,
                    old(channels)@,
                    match spec_release_action(old(channels)@, j) {
                        Some(c) => Some((j, c)),
                        None => None,
                    },
                    false,
                )
            },
            None => final(channels)@ == old(channels)@ && request is None,
        },
        request matches Some(req) ==> req.channel < old(channels)@.len() && req.proposed.valid()
            && req.proposed != old(channels)@[req.channel as int].crop,
{
    match find_preview_owner(channels) {
        Some(j) => {
            let mut request: Option<CropRequest> = None;
            let ch = &channels[j];
            match ch.preview {
                Some(r) => {
                    let cand_opt: Option<Crop> = if contains_rect(ch.zoom_rect, r) {
                        Some(rubber_band(ch.crop, r, ch.zoom_rect))
                    } else if contains_rect(ch.full_rect, r) {
                        Some(rubber_band(full_crop(), r, ch.full_rect))
                    } else {
                        None
                    };
                    match cand_opt {
                        Some(cand) => {
                            if cand != ch.crop {
                                request = Some(make_request(j, cand, false));
                            }
                        },
                        None => {},
                    }
                },
                None => {},
            }
            let chj = &mut channels[j];
            chj.preview = None;
            request
        },
        None => None,
    }
}

/// One dispatch step: consumes one event against the current gesture state
/// and channels.
///
/// The step never touches a channel's crop, undo slot, frame or panes — at
/// most a preview and the gesture state — and returns at most one crop
/// request, which has always passed the equality gate.  The caller performs
/// the round-trip for the request and applies the response with `complete`.
pub fn dispatch(ist: &mut InteractionState, channels: &mut Vec<Channel>, ev: Event) -> (out:
    DispatchOutcome)
    requires
        channels_inv(old(channels)@),
    ensures
        channels_inv(final(channels)@),
        final(channels)@.len() == old(channels)@.len(),
        forall|i: int|
            0 <= i < old(channels)@.len() ==> {
                &&& (#[trigger] final(channels)@[i]).crop == old(channels)@[i].crop
                &&& final(channels)@[i].undo == old(channels)@[i].undo
                &&& final(channels)@[i].frame == old(channels)@[i].frame
                &&& final(channels)@[i].full_rect == old(channels)@[i].full_rect
                &&& final(channels)@[i].zoom_rect == old(channels)@[i].zoom_rect
            },
        out.request matches Some(req) ==> req.channel < old(channels)@.len()
            && req.proposed.valid() && req.proposed != old(channels)@[req.channel as int].crop
            && req.cmd@ == spec_zoom_cmd(req.proposed),
        match ev {
            Event::Motion { x, y } => {
                &&& final(ist).mouse_pos == (x, y)
                &&& final(ist).right_start == old(ist).right_start
                &&& (match old(ist).left_start {
                    Some(s) => {
                        &&& req_matches(
                            out.request,
                            old(channels)@,
                            spec_pan_action(old(channels)@, s, (x, y)),
                            false,
                        )
                        &&& final(ist).left_start == (if spec_pan_target(
                            old(channels)@,
                            s,
                            (x, y),
                        ) is Some {
                            Some((x, y))
                        } else {
                            Some(s)
                        })
                    },
                    None => out.request is None && final(ist).left_start is None,
                })
                &&& (match old(ist).right_start {
                    Some(s) => match spec_select_target(old(channels)@, s, (x, y)) {
                        Some(j) => final(channels)@ == old(channels)@.update(
                            j,
                            (Channel {
                                preview: Some(spec_enclose_points((x, y), s)),
                                ..old(channels)@[j]
                            }),
                        ) && out.redraw,
                        None => final(channels)@ == old(channels)@ && !out.redraw,
                    },
                    None => final(channels)@ == old(channels)@ && !out.redraw,
                })
            },
            Event::LeftDown { x, y } => {
                &&& *final(ist) == (InteractionState {
                    left_start: Some((x, y)),
                    ..*old(ist)
                })
                &&& final(channels)@ == old(channels)@
                &&& out.request is None
                &&& !out.redraw
            },
            Event::RightDown { x, y } => {
                &&& *final(ist) == (InteractionState {
                    right_start: Some((x, y)),
                    ..*old(ist)
                })
                &&& final(channels)@ == old(channels)@
                &&& out.request is None
                &&& !out.redraw
            },
            Event::LeftUp => {
                &&& *final(ist) == (InteractionState { left_start: None, ..*old(ist) })
                &&& final(channels)@ == old(channels)@
                &&& out.request is None
                &&& !out.redraw
            },
            Event::RightUp => {
                &&& *final(ist) == (InteractionState { right_start: None, ..*old(ist) })
                &&& (match spec_preview_owner(old(channels)@) {
                    Some(j) => {
                        &&& final(channels)@ == old(channels)@.update(
                            j,
                            (Channel { preview: None, ..old(channels)@[j] }),
                        )
                        &&& req_matches(
                            out.request,
                            old(channels)@,
                            match spec_release_action(old(channels)@, j) {
                                Some(c) => Some((j, c)),
                                None => None,
                            },
                            false,
                        )
                    },
                    None => final(channels)@ == old(channels)@ && out.request is None,
                })
                &&& !out.redraw
            },
            Event::Wheel { y } => {
                &&& *final(ist) == *old(ist)
                &&& final(channels)@ == old(channels)@
                &&& req_matches(
                    out.request,
                    old(channels)@,
                    spec_wheel_action(old(channels)@, old(ist).mouse_pos, y),
                    false,
                )
                &&& !out.redraw
            },
            Event::UndoKey => {
                &&& *final(ist) == *old(ist)
                &&& final(channels)@ == old(channels)@
                &&& req_matches(
                    out.request,
                    old(channels)@,
                    spec_undo_action(old(channels)@, old(ist).mouse_pos),
                    true,
                )
                &&& !out.redraw
            },
        },
{
    match ev {
        Event::Motion { x, y } => on_motion(ist, channels, x, y),
        Event::LeftDown { x, y } => {
            ist.left_start = Some((x, y));
            DispatchOutcome { request: None, redraw: false }
        },
        Event::RightDown { x, y } => {
            ist.right_start = Some((x, y));
            DispatchOutcome { request: None, redraw: false }
        },
        Event::LeftUp => {
            ist.left_start = None;
            DispatchOutcome { request: None, redraw: false }
        },
        Event::RightUp => {
            ist.right_start = None;
            let request = on_release(channels);
            DispatchOutcome { request, redraw: false }
        },
        Event::Wheel { y } => {
            let request = on_wheel(channels, ist.mouse_pos, y);
            DispatchOutcome { request, redraw: false }
        },
        Event::UndoKey => {
            let request = on_undo(channels, ist.mouse_pos);
            DispatchOutcome { request, redraw: false }
        },
    }
}

/// Applies the remote source's answer to an outstanding request: exactly
/// the acknowledgement line makes the proposal the channel's confirmed crop
/// — filling the undo slot on a plain change, clearing it on a confirmed
/// undo — and any other answer leaves every channel untouched.
pub fn complete(channels: &mut Vec<Channel>, req: &CropRequest, line: &Vec<u8>) -> (redraw: bool)
    requires
        channels_inv(old(channels)@),
        req.channel < old(channels)@.len(),
        req.proposed.valid(),
    ensures
        channels_inv(final(channels)@),
        final(channels)@.len() == old(channels)@.len(),
        redraw == (line@ == spec_ok_line()),
        line@ == spec_ok_line() ==> final(channels)@ == old(channels)@.update(
            req.channel as int,
            old(channels)@[req.channel as int].spec_apply_ok(req.proposed, req.is_undo),
        ),
        line@ != spec_ok_line() ==> final(channels)@ == old(channels)@,
{
    let ch = &mut channels[req.channel];
    let ok = ch.apply_response(req.proposed, req.is_undo, line);
    proof {
        if line@ != spec_ok_line() {
            assert(final(channels)@ =~= old(channels)@);
        }
    }
    ok
}

} // verus!
