//! One video channel: its confirmed crop, one-slot undo, transient
//! rubber-band preview, latest frame, and the two panes it is shown in.
//!
//! The crop is server-acknowledged truth: it changes only when the remote
//! source answers a proposal with the acknowledgement line, never from local
//! geometry alone.  The undo slot remembers exactly the previous crop; it is
//! overwritten on every confirmed change and cleared once an undo is
//! confirmed.  The preview is local-only display state and is never sent.

use vstd::prelude::*;

use crate::geometry::Crop;
use crate::geometry::DispRect;
use crate::geometry::full_crop;
use crate::geometry::BYTES_PER_FRAME;
use crate::geometry::HEIGHT;
use crate::geometry::WIDTH;
use crate::geometry::WIN_HEIGHT;
use crate::geometry::WIN_WIDTH;
use crate::protocol::spec_ok_line;
use crate::protocol::is_ok_response;

verus! {

/// A display pane as the layout produces it: fixed size, position within the
/// window area.
pub open spec fn pane_wf(r: DispRect) -> bool {
    &&& r.w == WIN_WIDTH
    &&& r.h == WIN_HEIGHT
    &&& 0 <= r.x <= 1000000
    &&& 0 <= r.y <= 1000000
}

/// One video channel.  The stream connection itself is owned by the caller;
/// the channel holds everything the caller may not touch directly.
pub struct Channel {
    /// Current server-confirmed crop.
    pub crop: Crop,
    /// The crop before the last confirmed change, if not yet consumed.
    pub undo: Option<Crop>,
    /// Transient rubber-band rectangle in display coordinates.
    pub preview: Option<DispRect>,
    /// Latest raw frame, 8-bit RGB, row-major.
    pub frame: Vec<u8>,
    /// Pane showing the whole frame.
    pub full_rect: DispRect,
    /// Pane showing the crop scaled up.
    pub zoom_rect: DispRect,
}

impl Channel {
    /// The channel invariant: valid crops, panes of the fixed size, a frame
    /// buffer of exactly one frame's length.
    pub open spec fn inv(self) -> bool {
        &&& self.crop.valid()
        &&& match self.undo {
            Some(u) => u.valid(),
            None => true,
        }
        &&& self.frame.len() == BYTES_PER_FRAME
        &&& pane_wf(self.full_rect)
        &&& pane_wf(self.zoom_rect)
    }

    /// A fresh channel for the given position in the window: full pane above
    /// zoom pane, pair offset horizontally by the channel's index, crop at
    /// the whole frame, empty undo and preview, frame zeroed.
    pub fn new(index: usize) -> (ch: Channel)
        requires
            index <= 1000,
        ensures
            ch.inv(),
            ch.crop == crate::geometry::spec_full_crop(),
            ch.undo == Option::<Crop>::None,
            ch.preview == Option::<DispRect>::None,
            ch.full_rect == (DispRect {
                x: (index * WIN_WIDTH as usize) as i32,
                y: 0,
                w: WIN_WIDTH as u32,
                h: WIN_HEIGHT as u32,
            }),
            ch.zoom_rect == (DispRect {
                x: (index * WIN_WIDTH as usize) as i32,
                y: WIN_HEIGHT as i32,
                w: WIN_WIDTH as u32,
                h: WIN_HEIGHT as u32,
            }),
    {
        proof {
            assert(index * WIN_WIDTH as usize <= 1000 * 640) by (nonlinear_arith)
                requires
                    index <= 1000,
                    WIN_WIDTH == 640,
            ;
        }
        let x: i32 = (index * WIN_WIDTH as usize) as i32;
        let frame: Vec<u8> = vec![0u8; BYTES_PER_FRAME];
        Channel {
            crop: full_crop(),
            undo: None,
            preview: None,
            frame,
            full_rect: DispRect { x, y: 0, w: WIN_WIDTH as u32, h: WIN_HEIGHT as u32 },
            zoom_rect: DispRect {
                x,
                y: WIN_HEIGHT as i32,
                w: WIN_WIDTH as u32,
                h: WIN_HEIGHT as u32,
            },
        }
    }

    /// Replaces the frame buffer with a freshly fetched frame.  A payload of
    /// the wrong length is refused and nothing changes.
    pub fn set_frame(&mut self, data: Vec<u8>) -> (ok: bool)
        ensures
            ok == (data.len() == BYTES_PER_FRAME),
            ok ==> *final(self) == (Channel { frame: data, ..*old(self) }),
            !ok ==> *final(self) == *old(self),
    {
        if data.len() == BYTES_PER_FRAME {
            self.frame = data;
            true
        } else {
            false
        }
    }

    /// The channel after a proposed crop was acknowledged: the proposal
    /// becomes the confirmed crop; a plain change remembers the old crop in
    /// the undo slot, a confirmed undo clears the slot instead.
    pub open spec fn spec_apply_ok(self, proposed: Crop, is_undo: bool) -> Channel {
        Channel {
            crop: proposed,
            undo: if is_undo {
                None
            } else {
                Some(self.crop)
            },
            ..self
        }
    }

    /// Applies the remote source's one-line answer to a proposed crop.
    ///
    /// Only the exact acknowledgement line applies the proposal; on any
    /// other answer the channel — crop and undo slot included — is left
    /// untouched and the proposal is discarded.
    pub fn apply_response(&mut self, proposed: Crop, is_undo: bool, line: &Vec<u8>) -> (ok: bool)
        requires
            old(self).inv(),
            proposed.valid(),
        ensures
            final(self).inv(),
            ok == (line@ == spec_ok_line()),
            line@ == spec_ok_line() ==> *final(self) == old(self).spec_apply_ok(
                proposed,
                is_undo,
            ),
            line@ != spec_ok_line() ==> *final(self) == *old(self),
    {
        if is_ok_response(line) {
            if is_undo {
                self.undo = None;
            } else {
                self.undo = Some(self.crop);
            }
            self.crop = proposed;
            true
        } else {
            false
        }
    }
}

/// Every channel of a collection satisfies the channel invariant.
pub open spec fn channels_inv(chs: Seq<Channel>) -> bool {
    forall|i: int| 0 <= i < chs.len() ==> (#[trigger] chs[i]).inv()
}

/// One confirmed crop change followed by a confirmed undo restores the
/// prior crop exactly, field for field — and leaves the undo slot empty, so
/// that a second immediate undo finds nothing to restore.
pub proof fn lemma_undo_round_trip(ch0: Channel, c1: Crop)
    requires
        ch0.inv(),
        c1.valid(),
    ensures
        ({
            let ch1 = ch0.spec_apply_ok(c1, false);
            let ch2 = ch1.spec_apply_ok(ch0.crop, true);
            &&& ch1.crop == c1
            &&& ch1.undo == Some(ch0.crop)
            &&& ch2.crop == ch0.crop
            &&& ch2.undo == Option::<Crop>::None
        }),
{
}

} // verus!
