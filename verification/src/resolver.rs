//! The structural rules of the shape resolver: the segment layout a circle
//! or a rectangle resolves to, and the shape of the scaling map — which
//! fields of a segment are transformed and which are left alone. The
//! numeric transform itself is the caller's, handed in as functions on the
//! scalar.

use vstd::prelude::*;
use crate::types::{PathSegment, Point, ResolvedShape};

verus! {

/// A circle resolves to a single arc around its centre, sweeping from the
/// caller's start angle to the caller's end angle (a full turn).
pub open spec fn circle_layout<T>(center: Point<T>, radius: T, start_angle: T, end_angle: T) -> Seq<
    PathSegment<T>,
> {
    seq![PathSegment::Arc(center, radius, start_angle, end_angle)]
}

/// The corner shared by the top edge and the right edge.
pub open spec fn top_right_corner<T>(top_left: Point<T>, bottom_right: Point<T>) -> Point<T> {
    Point { x: bottom_right.x, y: top_left.y }
}

/// The corner shared by the bottom edge and the left edge.
pub open spec fn bottom_left_corner<T>(top_left: Point<T>, bottom_right: Point<T>) -> Point<T> {
    Point { x: top_left.x, y: bottom_right.y }
}

/// A rectangle resolves to its four edges in order — top, right, bottom,
/// left — followed by a closing segment.
pub open spec fn rectangle_layout<T>(top_left: Point<T>, bottom_right: Point<T>) -> Seq<
    PathSegment<T>,
> {
    seq![
        PathSegment::Line(top_left, top_right_corner(top_left, bottom_right)),
        PathSegment::Line(top_right_corner(top_left, bottom_right), bottom_right),
        PathSegment::Line(bottom_right, bottom_left_corner(top_left, bottom_right)),
        PathSegment::Line(bottom_left_corner(top_left, bottom_right), top_left),
        PathSegment::ClosePath,
    ]
}

/// Resolve a circle: one arc over the caller's full-turn angles.
pub fn resolve_circle<T: Copy>(center: Point<T>, radius: T, start_angle: T, end_angle: T) -> (r:
    ResolvedShape<T>)
    ensures
        r.segments@ == circle_layout(center, radius, start_angle, end_angle),
{
    let mut segments: Vec<PathSegment<T>> = Vec::new();
    segments.push(PathSegment::Arc(center, radius, start_angle, end_angle));
    proof {
        assert(segments@ =~= circle_layout(center, radius, start_angle, end_angle));
    }
    ResolvedShape { segments }
}

/// Resolve a rectangle: four edges and a close.
pub fn resolve_rectangle<T: Copy>(top_left: Point<T>, bottom_right: Point<T>) -> (r: ResolvedShape<
    T,
>)
    ensures
        r.segments@ == rectangle_layout(top_left, bottom_right),
{
    let top_right = Point { x: bottom_right.x, y: top_left.y };
    let bottom_left = Point { x: top_left.x, y: bottom_right.y };
    let mut segments: Vec<PathSegment<T>> = Vec::new();
    segments.push(PathSegment::Line(top_left, top_right));
    segments.push(PathSegment::Line(top_right, bottom_right));
    segments.push(PathSegment::Line(bottom_right, bottom_left));
    segments.push(PathSegment::Line(bottom_left, top_left));
    segments.push(PathSegment::ClosePath);
    proof {
        assert(segments@ =~= rectangle_layout(top_left, bottom_right));
    }
    ResolvedShape { segments }
}

/// How one scaled segment relates to its original: the variant is kept,
/// every point runs through the point map, the radius through the radius
/// map, and the angles are untouched.
pub open spec fn scaled_segment<T, F: Fn(Point<T>) -> Point<T>, G: Fn(T) -> T>(
    point_map: F,
    radius_map: G,
    a: PathSegment<T>,
    b: PathSegment<T>,
) -> bool {
    match (a, b) {
        (PathSegment::Line(s, e), PathSegment::Line(s2, e2)) => call_ensures(point_map, (s,), s2)
            && call_ensures(point_map, (e,), e2),
        (PathSegment::Arc(c, r, sa, ea), PathSegment::Arc(c2, r2, sa2, ea2)) => call_ensures(
            point_map,
            (c,),
            c2,
        ) && call_ensures(radius_map, (r,), r2) && sa2 == sa && ea2 == ea,
        (
            PathSegment::ConnectedArc(c, r, sa, ea, sp, ep),
            PathSegment::ConnectedArc(c2, r2, sa2, ea2, sp2, ep2),
        ) => call_ensures(point_map, (c,), c2) && call_ensures(radius_map, (r,), r2) && sa2 == sa
            && ea2 == ea && call_ensures(point_map, (sp,), sp2) && call_ensures(
            point_map,
            (ep,),
            ep2,
        ),
        (PathSegment::ClosePath, PathSegment::ClosePath) => true,
        (PathSegment::DrawPoint(p), PathSegment::DrawPoint(p2)) => call_ensures(
            point_map,
            (p,),
            p2,
        ),
        _ => false,
    }
}

/// Scale a segment list: the caller supplies the point transform and the
/// radius transform (scaling about a fixed centre by a factor); this
/// routine decides which fields they touch. Lines map both endpoints, arcs
/// map the centre and the radius and keep their angles, connected arcs
/// additionally map their stored endpoints, drawn points map their point,
/// and `ClosePath` is unchanged.
pub fn scale_segments<T: Copy, F: Fn(Point<T>) -> Point<T>, G: Fn(T) -> T>(
    segs: &Vec<PathSegment<T>>,
    point_map: &F,
    radius_map: &G,
) -> (r: Vec<PathSegment<T>>)
    requires
        forall|p: Point<T>| #[trigger] call_requires(*point_map, (p,)),
        forall|t: T| #[trigger] call_requires(*radius_map, (t,)),
    ensures
        r@.len() == segs@.len(),
        forall|i: int|
            0 <= i < segs@.len() ==> scaled_segment(
                *point_map,
                *radius_map,
                segs@[i],
                #[trigger] r@[i],
            ),
{
    let mut out: Vec<PathSegment<T>> = Vec::new();
    let mut i: usize = 0;
    while i < segs.len()
        invariant
            i <= segs@.len(),
            out@.len() == i,
            forall|p: Point<T>| #[trigger] call_requires(*point_map, (p,)),
            forall|t: T| #[trigger] call_requires(*radius_map, (t,)),
            forall|j: int|
                0 <= j < i ==> scaled_segment(*point_map, *radius_map, segs@[j], #[trigger] out@[j]),
        decreases segs@.len() - i,
    {
        let mapped = match segs[i] {
            PathSegment::Line(s, e) => PathSegment::Line(point_map(s), point_map(e)),
            PathSegment::Arc(c, r, sa, ea) => PathSegment::Arc(point_map(c), radius_map(r), sa, ea),
            PathSegment::ConnectedArc(c, r, sa, ea, sp, ep) => PathSegment::ConnectedArc(
                point_map(c),
                radius_map(r),
                sa,
                ea,
                point_map(sp),
                point_map(ep),
            ),
            PathSegment::ClosePath => PathSegment::ClosePath,
            PathSegment::DrawPoint(p) => PathSegment::DrawPoint(point_map(p)),
        };
        out.push(mapped);
        i = i + 1;
    }
    out
}

} // verus!
