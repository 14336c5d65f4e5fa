//! Path geometry decisions that read no coordinate: which segment of a
//! path provides its starting point.

use vstd::prelude::*;
use crate::types::PathSegment;

verus! {

/// The first segment of the sequence that can anchor the path: `ClosePath`
/// entries are skipped, any other segment is taken as found. `None` when
/// the sequence holds nothing but `ClosePath` entries.
pub open spec fn first_anchor<T>(segs: Seq<PathSegment<T>>) -> Option<PathSegment<T>>
    decreases segs.len(),
{
    if segs.len() == 0 {
        None
    } else if segs[0] is ClosePath {
        first_anchor(segs.drop_first())
    } else {
        Some(segs[0])
    }
}

/// The segment whose data determines the path's starting point: the first
/// segment that is not a `ClosePath`. The caller reads the start off it —
/// a line's start point, the point at an arc's start angle, a connected
/// arc's stored start point, a drawn point itself.
pub fn starting_anchor<T: Copy>(segs: &Vec<PathSegment<T>>) -> (r: Option<PathSegment<T>>)
    ensures
        r == first_anchor(segs@),
{
    let mut i: usize = 0;
    proof {
        assert(segs@.skip(0) =~= segs@);
    }
    while i < segs.len()
        invariant
            i <= segs@.len(),
            first_anchor(segs@) == first_anchor(segs@.skip(i as int)),
        decreases segs@.len() - i,
    {
        match segs[i] {
            PathSegment::ClosePath => {
                proof {
                    assert(segs@.skip(i as int).drop_first() =~= segs@.skip(i as int + 1));
                }
                i = i + 1;
            }
            _ => {
                return Some(segs[i]);
            }
        }
    }
    proof {
        assert(segs@.skip(i as int) =~= Seq::<PathSegment<T>>::empty());
    }
    None
}

} // verus!
