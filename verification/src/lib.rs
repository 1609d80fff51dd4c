//! Request-to-model compiler for charts: it validates a wire-format chart
//! description (axes, sizes, margins, per-series views, colors, data) and
//! lowers it into a fully-resolved chart model ready for a rendering engine.
//!
//! Floating-point payload values are carried opaquely as IEEE-754 single
//! precision bit patterns (`u32`); the resolution pipeline never computes
//! with them, it only validates shape and presence and moves them through.

pub mod bar;
pub mod chart;
pub mod color;
pub mod error;
pub mod margin;
pub mod point;
pub mod scale;
pub mod size;
pub mod value;
pub mod view;
pub mod wire;
