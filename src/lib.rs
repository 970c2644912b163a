//! Layout geometry and curve-plot planning for a small monochrome status display.
//!
//! The geometry types are plain integer values; the margin helpers grow a
//! rectangle outward; the moisture plot decides, for a borrowed set of data
//! points, what a single-curve plot draws and where each point lands in pixels.
pub mod geometry;
pub mod graph;
pub mod margin;
