//! A view-transform engine for pan/zoom/fit interaction over a rectangular
//! content plane displayed inside a rectangular viewport. The engine owns a
//! single uniform-scale-plus-translation transform from content to viewport
//! coordinates, keeps it inside domain constraints, and produces smooth
//! animated transitions between transform states, advanced by externally
//! supplied ticks. All quantities are fixed-point: signed counts of
//! millionths of a unit.

pub mod fixed;
pub mod geom;
pub mod constrain;
pub mod ease;
pub mod anim;
pub mod engine;
