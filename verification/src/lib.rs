//! Crop-geometry engine and remote-synchronization protocol for an
//! interactive pan/zoom viewer of a fixed-resolution video feed.
//!
//! The library is pure: it turns pointer and key gestures into candidate
//! crop rectangles, clamped to frame bounds, and encodes and checks the
//! line-oriented protocol by which a remote source confirms each crop change.
//! All I/O — the stream connection, the window, event polling and blitting —
//! lives outside, and hands the library plain values.

pub mod geometry;
pub mod policy;
pub mod protocol;
pub mod channel;
pub mod interact;

pub use channel::Channel;
pub use geometry::Crop;
pub use geometry::DispRect;
pub use geometry::FrameRect;
pub use interact::CropRequest;
pub use interact::DispatchOutcome;
pub use interact::Event;
pub use interact::InteractionState;
