//! The viewport core of an interactive 2D chart.
//!
//! The crate keeps the pan/zoom transform of a chart, derives axis ticks and
//! their labels from it, tracks which regions of the GPU-resident buffers have
//! to be uploaded again after each change, and lays out the draw calls of a
//! frame. It performs no GPU work itself: every operation returns plain values
//! (buffer regions, draw commands) that the embedding application replays
//! against the graphics API.
//!
//! All coordinates are fixed-point numbers with nine decimal places
//! (see [`fixed`]); arithmetic saturates instead of overflowing, so every
//! result is exact, defined for every input, and the same on every machine.
//!
//! # Limits
//!
//! - The scale of a data series stays between a thousandth and a thousand
//!   ([`transform::MIN_SCALE`], [`transform::MAX_SCALE`]). A zoom that
//!   would leave this range is refused as a whole; the scale is never
//!   clamped to the limit.
//! - A screen is at most [`chart::MAX_EXTENT`] pixels wide and high and
//!   must be larger than twice the margin. A resize to any other size is
//!   refused.
//! - The tick step is coarsened once, never repeatedly. Within the scale
//!   range this leaves the ticks between a hundredth and a tenth of the
//!   half screen apart, so that, while a series is panned by no more than
//!   a thousand, an axis never emits more than
//!   [`components::scale::MAX_EMITTED_TICKS`] ticks.
//! - Every tick lies inside the plot area, between the near and the far
//!   edge. An axis whose scale is not positive, whose ticks would be
//!   closer than the resolution of the coordinates, or whose first tick
//!   is not representable, has no ticks at all.
//! - A chart is created with every tick slot cleared. The ticks are
//!   computed with each zoom, pan and resize.

pub mod buffer;
pub mod chart;
pub mod components;
pub mod fixed;
pub mod frame;
pub mod label;
pub mod pipelines;
pub mod transform;
