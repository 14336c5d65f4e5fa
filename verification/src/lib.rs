//! A small 2-D shapes workbench: boolean operations over shapes built from
//! circular arcs and straight line segments.
//!
//! The kernel's decision layer is verified here over a coordinate-generic
//! segment type: which numeric routine each pair of segments calls for,
//! which segments survive a union, subtraction or symmetric difference and
//! how the result is assembled and closed, which segment anchors a path,
//! the segment layouts a circle and a rectangle resolve to, and which
//! fields a scaling touches. The numeric work — distances, angles, areas,
//! the intersection formulas — happens on whatever scalar the caller
//! instantiates and reaches these decisions as plain values. The verified
//! part also renders the application icon, with every pixel's colour
//! pinned down exactly.

pub mod types;
pub mod geometry;
pub mod intersection;
pub mod boolean_ops;
pub mod resolver;
pub mod icon;
