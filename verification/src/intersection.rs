//! The structure of the intersection engine: which numeric routine each
//! pair of segments calls for and with which arguments, the row-major
//! order in which all pairs of two shapes are enumerated, and the
//! concatenation of the per-pair results. The routines themselves work on
//! the instantiated scalar; everything decided here reads no coordinate
//! and is verified.

use vstd::prelude::*;
use vstd::arithmetic::div_mod::lemma_fundamental_div_mod_converse_div;
use vstd::arithmetic::div_mod::lemma_fundamental_div_mod_converse_mod;
use crate::types::{PathSegment, Point};

verus! {

/// The numeric intersection query a pair of segments gives rise to.
/// A `ConnectedArc` takes part through its centre, radius and angles,
/// exactly as an `Arc` does; `ClosePath` and `DrawPoint` pair with nothing.
#[derive(Clone, Copy, Debug, PartialEq)]
pub enum PairQuery<T> {
    /// Line against line: first line's start and end, second line's start and end.
    LineLine(Point<T>, Point<T>, Point<T>, Point<T>),
    /// Line against circle: line start and end, then centre, radius, start
    /// angle, end angle — the line always first, whichever operand it was.
    LineArc(Point<T>, Point<T>, Point<T>, T, T, T),
    /// Circle against circle, each as centre, radius, start angle, end
    /// angle, in operand order.
    ArcArc(Point<T>, T, T, T, Point<T>, T, T, T),
    /// No numeric query: at least one operand has no extent to intersect.
    NoPair,
}

/// The query for one ordered pair of segments.
pub open spec fn pair_query<T>(a: PathSegment<T>, b: PathSegment<T>) -> PairQuery<T> {
    match (a, b) {
        (PathSegment::Line(s1, e1), PathSegment::Line(s2, e2)) => PairQuery::LineLine(
            s1,
            e1,
            s2,
            e2,
        ),
        (PathSegment::Line(s, e), PathSegment::Arc(c, r, sa, ea)) => PairQuery::LineArc(
            s,
            e,
            c,
            r,
            sa,
            ea,
        ),
        (PathSegment::Arc(c, r, sa, ea), PathSegment::Line(s, e)) => PairQuery::LineArc(
            s,
            e,
            c,
            r,
            sa,
            ea,
        ),
        (
            PathSegment::Arc(c1, r1, sa1, ea1),
            PathSegment::Arc(c2, r2, sa2, ea2),
        ) => PairQuery::ArcArc(c1, r1, sa1, ea1, c2, r2, sa2, ea2),
        (
            PathSegment::Line(s, e),
            PathSegment::ConnectedArc(c, r, sa, ea, _, _),
        ) => PairQuery::LineArc(s, e, c, r, sa, ea),
        (
            PathSegment::ConnectedArc(c, r, sa, ea, _, _),
            PathSegment::Line(s, e),
        ) => PairQuery::LineArc(s, e, c, r, sa, ea),
        (
            PathSegment::Arc(c1, r1, sa1, ea1),
            PathSegment::ConnectedArc(c2, r2, sa2, ea2, _, _),
        ) => PairQuery::ArcArc(c1, r1, sa1, ea1, c2, r2, sa2, ea2),
        (
            PathSegment::ConnectedArc(c1, r1, sa1, ea1, _, _),
            PathSegment::Arc(c2, r2, sa2, ea2),
        ) => PairQuery::ArcArc(c1, r1, sa1, ea1, c2, r2, sa2, ea2),
        (
            PathSegment::ConnectedArc(c1, r1, sa1, ea1, _, _),
            PathSegment::ConnectedArc(c2, r2, sa2, ea2, _, _),
        ) => PairQuery::ArcArc(c1, r1, sa1, ea1, c2, r2, sa2, ea2),
        _ => PairQuery::NoPair,
    }
}

/// Classify one ordered pair of segments into its numeric query.
pub fn classify_pair<T: Copy>(a: &PathSegment<T>, b: &PathSegment<T>) -> (q: PairQuery<T>)
    ensures
        q == pair_query(*a, *b),
{
    match (*a, *b) {
        (PathSegment::Line(s1, e1), PathSegment::Line(s2, e2)) => PairQuery::LineLine(
            s1,
            e1,
            s2,
            e2,
        ),
        (PathSegment::Line(s, e), PathSegment::Arc(c, r, sa, ea)) => PairQuery::LineArc(
            s,
            e,
            c,
            r,
            sa,
            ea,
        ),
        (PathSegment::Arc(c, r, sa, ea), PathSegment::Line(s, e)) => PairQuery::LineArc(
            s,
            e,
            c,
            r,
            sa,
            ea,
        ),
        (
            PathSegment::Arc(c1, r1, sa1, ea1),
            PathSegment::Arc(c2, r2, sa2, ea2),
        ) => PairQuery::ArcArc(c1, r1, sa1, ea1, c2, r2, sa2, ea2),
        (
            PathSegment::Line(s, e),
            PathSegment::ConnectedArc(c, r, sa, ea, _, _),
        ) => PairQuery::LineArc(s, e, c, r, sa, ea),
        (
            PathSegment::ConnectedArc(c, r, sa, ea, _, _),
            PathSegment::Line(s, e),
        ) => PairQuery::LineArc(s, e, c, r, sa, ea),
        (
            PathSegment::Arc(c1, r1, sa1, ea1),
            PathSegment::ConnectedArc(c2, r2, sa2, ea2, _, _),
        ) => PairQuery::ArcArc(c1, r1, sa1, ea1, c2, r2, sa2, ea2),
        (
            PathSegment::ConnectedArc(c1, r1, sa1, ea1, _, _),
            PathSegment::Arc(c2, r2, sa2, ea2),
        ) => PairQuery::ArcArc(c1, r1, sa1, ea1, c2, r2, sa2, ea2),
        (
            PathSegment::ConnectedArc(c1, r1, sa1, ea1, _, _),
            PathSegment::ConnectedArc(c2, r2, sa2, ea2, _, _),
        ) => PairQuery::ArcArc(c1, r1, sa1, ea1, c2, r2, sa2, ea2),
        _ => PairQuery::NoPair,
    }
}

/// Every ordered pair of segments of two shapes, row by row: entry
/// `i * |b| + j` is the query for the pair of `a[i]` and `b[j]`.
pub open spec fn pair_table<T>(a: Seq<PathSegment<T>>, b: Seq<PathSegment<T>>) -> Seq<
    PairQuery<T>,
> {
    Seq::new(
        a.len() * b.len(),
        |k: int| pair_query(a[k / (b.len() as int)], b[k % (b.len() as int)]),
    )
}

/// Classify every ordered pair of segments of two shapes, in row-major
/// order: the whole first shape is paired against each segment of the
/// second before moving on.
pub fn pair_queries<T: Copy>(a: &Vec<PathSegment<T>>, b: &Vec<PathSegment<T>>) -> (r: Vec<
    PairQuery<T>,
>)
    ensures
        r@ == pair_table(a@, b@),
{
    let ghost table = pair_table(a@, b@);
    let mut out: Vec<PairQuery<T>> = Vec::new();
    let mut i: usize = 0;
    proof {
        assert(out@ =~= table.take(0));
    }
    while i < a.len()
        invariant
            i <= a@.len(),
            out@.len() == i as int * b@.len(),
            out@ == pair_table(a@, b@).take(i as int * b@.len()),
        decreases a@.len() - i,
    {
        let mut j: usize = 0;
        while j < b.len()
            invariant
                i < a@.len(),
                j <= b@.len(),
                out@.len() == i as int * b@.len() + j,
                out@ == pair_table(a@, b@).take(i as int * b@.len() + j),
            decreases b@.len() - j,
        {
            proof {
                let blen = b@.len() as int;
                let n = i as int * blen + j;
                lemma_fundamental_div_mod_converse_div(n, blen, i as int, j as int);
                lemma_fundamental_div_mod_converse_mod(n, blen, i as int, j as int);
                assert(n + 1 <= a@.len() * blen) by (nonlinear_arith)
                    requires
                        0 <= (i as int) && (i as int) < a@.len(),
                        0 <= j < blen,
                        n == i as int * blen + j,
                ;
                assert(pair_table(a@, b@).take(n + 1) =~= pair_table(a@, b@).take(n).push(
                    pair_table(a@, b@)[n],
                ));
            }
            out.push(classify_pair(&a[i], &b[j]));
            j = j + 1;
        }
        proof {
            assert((i as int + 1) * b@.len() == i as int * b@.len() + b@.len())
                by (nonlinear_arith);
        }
        i = i + 1;
    }
    proof {
        assert(pair_table(a@, b@).take(a@.len() as int * b@.len()) =~= pair_table(a@, b@));
    }
    out
}

/// The per-pair point lists laid end to end, in order.
pub open spec fn concatenated<T>(lists: Seq<Seq<Point<T>>>) -> Seq<Point<T>>
    decreases lists.len(),
{
    if lists.len() == 0 {
        Seq::empty()
    } else {
        concatenated(lists.drop_last()) + lists.last()
    }
}

/// Concatenate the numeric results of every pair query, in table order.
pub fn concat_results<T: Copy>(lists: &Vec<Vec<Point<T>>>) -> (r: Vec<Point<T>>)
    ensures
        r@ == concatenated(lists@.map_values(|v: Vec<Point<T>>| v@)),
{
    let ghost m = lists@.map_values(|v: Vec<Point<T>>| v@);
    let mut out: Vec<Point<T>> = Vec::new();
    let mut i: usize = 0;
    proof {
        assert(concatenated(m.take(0)) =~= Seq::<Point<T>>::empty());
    }
    while i < lists.len()
        invariant
            i <= lists@.len(),
            m == lists@.map_values(|v: Vec<Point<T>>| v@),
            out@ == concatenated(m.take(i as int)),
        decreases lists@.len() - i,
    {
        let ghost before = out@;
        let mut j: usize = 0;
        while j < lists[i].len()
            invariant
                i < lists@.len(),
                j <= lists@[i as int]@.len(),
                m == lists@.map_values(|v: Vec<Point<T>>| v@),
                out@ == before + m[i as int].take(j as int),
            decreases lists@[i as int]@.len() - j,
        {
            proof {
                assert(m[i as int].take(j as int + 1) =~= m[i as int].take(j as int).push(
                    m[i as int][j as int],
                ));
            }
            out.push(lists[i][j]);
            j = j + 1;
        }
        proof {
            assert(m.take(i as int + 1).drop_last() =~= m.take(i as int));
            assert(m[i as int].take(m[i as int].len() as int) =~= m[i as int]);
        }
        i = i + 1;
    }
    proof {
        assert(m.take(m.len() as int) =~= m);
    }
    out
}

} // verus!
