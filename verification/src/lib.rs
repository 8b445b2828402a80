//! Live-comment ("danmaku") overlay core: a collision-avoiding lane
//! allocator for scrolling comments, an estimator for their on-screen
//! width, a Matroska cluster encoder that wraps each comment as one
//! appendable subtitle chunk, the live dispatch state machine, and a
//! batch compiler that turns a pre-known comment set into a static
//! ASS subtitle document.

use vstd::prelude::*;

pub mod lanes;
pub mod batch;
pub mod session;
pub mod text;
pub mod ass;
pub mod emoji;
pub mod fmt;
pub mod mkv_header;

verus! {

/// Horizontal resolution of the virtual screen, in pixels.
pub const SCREEN_WIDTH: u64 = 1920;

/// Number of lanes a session keeps allocated, whether active or not.
pub const LANE_CAPACITY: usize = 30;

/// Number of comments dispatched before the live loop starts pacing
/// itself on the tick interval.
pub const WARMUP_THRESHOLD: u64 = 70;

/// Pacing interval of the live dispatch loop, in milliseconds.
pub const TICK_INTERVAL_MS: u64 = 200;

} // verus!
