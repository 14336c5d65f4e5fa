//! The path data model, generic over the coordinate scalar `T`.
//!
//! The kernel's decision layer — which segments survive a boolean
//! operation, how a path is assembled, which segment anchors a path —
//! never reads a coordinate, only moves it. Keeping the scalar generic
//! lets those decisions be verified here while the numeric work happens
//! on whatever scalar the caller instantiates.

use vstd::prelude::*;

verus! {

/// A point in the plane.
#[derive(Clone, Copy, Debug, PartialEq)]
pub struct Point<T> {
    pub x: T,
    pub y: T,
}

/// One atomic piece of a path boundary. Arc angles run from the start
/// angle towards the end angle; a `ConnectedArc` additionally carries its
/// two endpoints explicitly, so it can stand for degenerate connectors.
#[derive(Clone, Copy, Debug, PartialEq)]
pub enum PathSegment<T> {
    Line(Point<T>, Point<T>),
    Arc(Point<T>, T, T, T), // center, radius, start angle, end angle
    ConnectedArc(Point<T>, T, T, T, Point<T>, Point<T>), // center, radius, start angle, end angle, start point, end point
    ClosePath,        // closes the current path back to its starting point
    DrawPoint(Point<T>), // a marker with no geometric extent
}

/// A flattened shape: an ordered sequence of path segments.
pub struct ResolvedShape<T> {
    pub segments: Vec<PathSegment<T>>,
}

} // verus!
