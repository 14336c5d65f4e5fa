//! The decision layer of the boolean operator: which segments survive a
//! union, subtraction or symmetric difference, how the survivors are
//! assembled and closed, the reversed winding of a subtracted hole, the
//! degenerate markers a union appends, and the parity decision of the
//! ray-casting containment test.
//!
//! The numeric side — midpoints, containment samples, intersection points —
//! arrives as plain values: one keep flag per segment, one crossing count
//! per segment. Everything decided from those values is verified here.

use vstd::prelude::*;
use crate::types::{PathSegment, Point, ResolvedShape};

verus! {

/// The segments that survive retention, in order: `ClosePath` entries are
/// always dropped, every other segment stays exactly when its flag is set.
pub open spec fn retained<T>(segs: Seq<PathSegment<T>>, keep: Seq<bool>) -> Seq<PathSegment<T>>
    decreases segs.len(),
{
    if segs.len() == 0 {
        Seq::empty()
    } else {
        let rest = retained(segs.drop_last(), keep.drop_last());
        if !(segs.last() is ClosePath) && keep[segs.len() - 1] {
            rest.push(segs.last())
        } else {
            rest
        }
    }
}

/// A segment traversed the other way: a line swaps its endpoints, an arc
/// swaps its start and end angles, everything else is unchanged.
pub open spec fn reversed_segment<T>(s: PathSegment<T>) -> PathSegment<T> {
    match s {
        PathSegment::Line(a, b) => PathSegment::Line(b, a),
        PathSegment::Arc(c, r, sa, ea) => PathSegment::Arc(c, r, ea, sa),
        other => other,
    }
}

/// The degenerate marker a union appends for one intersection point: a
/// connected arc with zero centre, radius and angles, carrying the point
/// as both its start and its end.
pub open spec fn marker_arc<T>(p: Point<T>, zero: T) -> PathSegment<T> {
    PathSegment::ConnectedArc(Point { x: zero, y: zero }, zero, zero, zero, p, p)
}

/// One marker per intersection point, in order.
pub open spec fn markers<T>(pts: Seq<Point<T>>, zero: T) -> Seq<PathSegment<T>> {
    pts.map_values(|p: Point<T>| marker_arc(p, zero))
}

/// A non-empty assembly gains a single closing segment; an empty one stays
/// empty.
pub open spec fn close_if_nonempty<T>(segs: Seq<PathSegment<T>>) -> Seq<PathSegment<T>> {
    if segs.len() == 0 {
        segs
    } else {
        segs.push(PathSegment::ClosePath)
    }
}

/// The union's segment list: the survivors of the first shape, then the
/// survivors of the second, then one marker per intersection point, closed
/// if anything is there.
pub open spec fn union_result<T>(
    segs1: Seq<PathSegment<T>>,
    keep1: Seq<bool>,
    segs2: Seq<PathSegment<T>>,
    keep2: Seq<bool>,
    pts: Seq<Point<T>>,
    zero: T,
) -> Seq<PathSegment<T>> {
    close_if_nonempty(retained(segs1, keep1) + retained(segs2, keep2) + markers(pts, zero))
}

/// The subtraction's segment list: the survivors of the first shape, then
/// the survivors of the second reversed — the hole winds the other way —
/// closed if anything is there.
pub open spec fn subtract_result<T>(
    segs1: Seq<PathSegment<T>>,
    keep1: Seq<bool>,
    segs2: Seq<PathSegment<T>>,
    keep2: Seq<bool>,
) -> Seq<PathSegment<T>> {
    close_if_nonempty(
        retained(segs1, keep1) + retained(segs2, keep2).map_values(
            |s: PathSegment<T>| reversed_segment(s),
        ),
    )
}

/// The symmetric difference's segment list: the survivors of both shapes,
/// closed if anything is there.
pub open spec fn xor_result<T>(
    segs1: Seq<PathSegment<T>>,
    keep1: Seq<bool>,
    segs2: Seq<PathSegment<T>>,
    keep2: Seq<bool>,
) -> Seq<PathSegment<T>> {
    close_if_nonempty(retained(segs1, keep1) + retained(segs2, keep2))
}

/// Append the surviving segments of `segs` to `out`, in order.
fn push_retained<T: Copy>(
    out: &mut Vec<PathSegment<T>>,
    segs: &Vec<PathSegment<T>>,
    keep: &Vec<bool>,
)
    requires
        keep@.len() == segs@.len(),
    ensures
        final(out)@ == old(out)@ + retained(segs@, keep@),
{
    let mut i: usize = 0;
    while i < segs.len()
        invariant
            i <= segs@.len(),
            keep@.len() == segs@.len(),
            out@ == old(out)@ + retained(segs@.take(i as int), keep@.take(i as int)),
        decreases segs@.len() - i,
    {
        proof {
            assert(segs@.take(i as int + 1).drop_last() =~= segs@.take(i as int));
            assert(keep@.take(i as int + 1).drop_last() =~= keep@.take(i as int));
        }
        match segs[i] {
            PathSegment::ClosePath => {},
            _ => {
                if keep[i] {
                    out.push(segs[i]);
                }
            },
        }
        i = i + 1;
    }
    proof {
        assert(segs@.take(segs@.len() as int) =~= segs@);
        assert(keep@.take(keep@.len() as int) =~= keep@);
    }
}

/// Append the surviving segments of `segs` to `out`, each reversed.
fn push_retained_reversed<T: Copy>(
    out: &mut Vec<PathSegment<T>>,
    segs: &Vec<PathSegment<T>>,
    keep: &Vec<bool>,
)
    requires
        keep@.len() == segs@.len(),
    ensures
        final(out)@ == old(out)@ + retained(segs@, keep@).map_values(
            |s: PathSegment<T>| reversed_segment(s),
        ),
{
    let mut i: usize = 0;
    proof {
        assert(retained(segs@.take(0), keep@.take(0)).map_values(
            |s: PathSegment<T>| reversed_segment(s),
        ) =~= Seq::<PathSegment<T>>::empty());
    }
    while i < segs.len()
        invariant
            i <= segs@.len(),
            keep@.len() == segs@.len(),
            out@ == old(out)@ + retained(segs@.take(i as int), keep@.take(i as int)).map_values(
                |s: PathSegment<T>| reversed_segment(s),
            ),
        decreases segs@.len() - i,
    {
        proof {
            assert(segs@.take(i as int + 1).drop_last() =~= segs@.take(i as int));
            assert(keep@.take(i as int + 1).drop_last() =~= keep@.take(i as int));
        }
        let keep_this = match segs[i] {
            PathSegment::ClosePath => false,
            _ => keep[i],
        };
        if keep_this {
            let reversed = match segs[i] {
                PathSegment::Line(a, b) => PathSegment::Line(b, a),
                PathSegment::Arc(c, r, sa, ea) => PathSegment::Arc(c, r, ea, sa),
                other => other,
            };
            out.push(reversed);
            proof {
                let rev = |s: PathSegment<T>| reversed_segment(s);
                assert(retained(segs@.take(i as int + 1), keep@.take(i as int + 1)).map_values(rev)
                    =~= retained(segs@.take(i as int), keep@.take(i as int)).map_values(rev).push(
                    reversed_segment(segs@[i as int]),
                ));
            }
        }
        i = i + 1;
    }
    proof {
        assert(segs@.take(segs@.len() as int) =~= segs@);
        assert(keep@.take(keep@.len() as int) =~= keep@);
    }
}

/// Close the assembly: a single `ClosePath` is appended exactly when the
/// list is non-empty.
fn close_path<T: Copy>(out: &mut Vec<PathSegment<T>>)
    ensures
        final(out)@ == close_if_nonempty(old(out)@),
{
    if out.len() > 0 {
        out.push(PathSegment::ClosePath);
    }
}

/// Union of two shapes, decided from one keep flag per segment — set by
/// the caller exactly when the segment's midpoint lies outside the other
/// shape — plus the shapes' intersection points. Survivors of both shapes
/// are kept in order, one degenerate marker arc (`marker_arc`, built from
/// the caller's zero scalar) is appended per intersection point, and a
/// non-empty result is closed.
pub fn compute_union<T: Copy>(
    shape1: &ResolvedShape<T>,
    keep1: &Vec<bool>,
    shape2: &ResolvedShape<T>,
    keep2: &Vec<bool>,
    intersections: &Vec<Point<T>>,
    zero: T,
) -> (r: ResolvedShape<T>)
    requires
        keep1@.len() == shape1.segments@.len(),
        keep2@.len() == shape2.segments@.len(),
    ensures
        r.segments@ == union_result(
            shape1.segments@,
            keep1@,
            shape2.segments@,
            keep2@,
            intersections@,
            zero,
        ),
{
    let mut result_segments: Vec<PathSegment<T>> = Vec::new();
    push_retained(&mut result_segments, &shape1.segments, keep1);
    push_retained(&mut result_segments, &shape2.segments, keep2);

    let ghost base = result_segments@;
    let mut i: usize = 0;
    proof {
        assert(markers(intersections@.take(0), zero) =~= Seq::<PathSegment<T>>::empty());
        assert(base + markers(intersections@.take(0), zero) =~= base);
    }
    while i < intersections.len()
        invariant
            i <= intersections@.len(),
            result_segments@ == base + markers(intersections@.take(i as int), zero),
        decreases intersections@.len() - i,
    {
        let p = intersections[i];
        result_segments.push(PathSegment::ConnectedArc(
            Point { x: zero, y: zero },
            zero,
            zero,
            zero,
            p,
            p,
        ));
        proof {
            assert(markers(intersections@.take(i as int + 1), zero) =~= markers(
                intersections@.take(i as int),
                zero,
            ).push(marker_arc(intersections@[i as int], zero)));
        }
        i = i + 1;
    }
    proof {
        assert(intersections@.take(intersections@.len() as int) =~= intersections@);
    }

    close_path(&mut result_segments);
    proof {
        assert(base =~= retained(shape1.segments@, keep1@) + retained(shape2.segments@, keep2@));
        assert(base + markers(intersections@, zero) =~= retained(shape1.segments@, keep1@)
            + retained(shape2.segments@, keep2@) + markers(intersections@, zero));
    }
    ResolvedShape { segments: result_segments }
}

/// Subtraction of two shapes, decided from one keep flag per segment: the
/// caller sets a first-shape flag when the segment's midpoint lies outside
/// the second shape, and a second-shape flag when the midpoint lies inside
/// the first. Survivors of the first shape are kept as they are, survivors
/// of the second are reversed so the hole winds the other way, and a
/// non-empty result is closed. The intersection points play no part.
pub fn compute_subtract<T: Copy>(
    shape1: &ResolvedShape<T>,
    keep1: &Vec<bool>,
    shape2: &ResolvedShape<T>,
    keep2: &Vec<bool>,
    _intersections: &Vec<Point<T>>,
) -> (r: ResolvedShape<T>)
    requires
        keep1@.len() == shape1.segments@.len(),
        keep2@.len() == shape2.segments@.len(),
    ensures
        r.segments@ == subtract_result(shape1.segments@, keep1@, shape2.segments@, keep2@),
{
    let mut result_segments: Vec<PathSegment<T>> = Vec::new();
    push_retained(&mut result_segments, &shape1.segments, keep1);
    push_retained_reversed(&mut result_segments, &shape2.segments, keep2);
    close_path(&mut result_segments);
    ResolvedShape { segments: result_segments }
}

/// Symmetric difference of two shapes, decided from one keep flag per
/// segment — set by the caller exactly when the segment's midpoint lies
/// outside the other shape. Survivors of both shapes are kept in order and
/// a non-empty result is closed. The intersection points play no part.
pub fn compute_xor<T: Copy>(
    shape1: &ResolvedShape<T>,
    keep1: &Vec<bool>,
    shape2: &ResolvedShape<T>,
    keep2: &Vec<bool>,
    _intersections: &Vec<Point<T>>,
) -> (r: ResolvedShape<T>)
    requires
        keep1@.len() == shape1.segments@.len(),
        keep2@.len() == shape2.segments@.len(),
    ensures
        r.segments@ == xor_result(shape1.segments@, keep1@, shape2.segments@, keep2@),
{
    let mut result_segments: Vec<PathSegment<T>> = Vec::new();
    push_retained(&mut result_segments, &shape1.segments, keep1);
    push_retained(&mut result_segments, &shape2.segments, keep2);
    close_path(&mut result_segments);
    ResolvedShape { segments: result_segments }
}

/// Total of a sequence of per-segment crossing counts.
pub open spec fn total_crossings(counts: Seq<usize>) -> int
    decreases counts.len(),
{
    if counts.len() == 0 {
        0
    } else {
        total_crossings(counts.drop_last()) + counts.last()
    }
}

/// The ray-casting verdict, decided from plain values the caller computed
/// for each segment: the count of ray crossings, and whether the segment
/// is a full circle that strictly contains the query point. The point is
/// inside when some full circle contains it, or else when the total
/// crossing count is odd.
pub fn inside_by_parity(full_circle_hits: &Vec<bool>, crossing_counts: &Vec<usize>) -> (inside:
    bool)
    ensures
        inside == (full_circle_hits@.contains(true) || total_crossings(crossing_counts@) % 2 == 1),
{
    let mut i: usize = 0;
    while i < full_circle_hits.len()
        invariant
            i <= full_circle_hits@.len(),
            forall|j: int| 0 <= j < i ==> !full_circle_hits@[j],
        decreases full_circle_hits@.len() - i,
    {
        if full_circle_hits[i] {
            return true;
        }
        i = i + 1;
    }
    proof {
        assert(!full_circle_hits@.contains(true));
    }

    let mut odd = false;
    let mut k: usize = 0;
    proof {
        assert(crossing_counts@.take(0) =~= Seq::<usize>::empty());
    }
    while k < crossing_counts.len()
        invariant
            k <= crossing_counts@.len(),
            odd == (total_crossings(crossing_counts@.take(k as int)) % 2 == 1),
        decreases crossing_counts@.len() - k,
    {
        proof {
            assert(crossing_counts@.take(k as int + 1).drop_last() =~= crossing_counts@.take(
                k as int,
            ));
        }
        if crossing_counts[k] % 2 == 1 {
            odd = !odd;
        }
        k = k + 1;
    }
    proof {
        assert(crossing_counts@.take(crossing_counts@.len() as int) =~= crossing_counts@);
    }
    odd
}

} // verus!
