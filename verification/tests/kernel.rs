use shapeops::types::{Point, PathSegment, ResolvedShape};
use shapeops::intersection::{classify_pair, PairQuery};
use shapeops::boolean_ops::{compute_union, compute_subtract, compute_xor, inside_by_parity};
use shapeops::geometry::starting_anchor;
use shapeops::resolver::{resolve_circle, resolve_rectangle, scale_segments};

fn pt(x: f64, y: f64) -> Point<f64> {
    Point { x, y }
}

#[test]
fn circle_resolves_to_one_full_arc() {
    let r = resolve_circle(pt(10.0, 10.0), 5.0, 0.0, 360.0);
    assert_eq!(r.segments.len(), 1);
    assert_eq!(r.segments[0], PathSegment::Arc(pt(10.0, 10.0), 5.0, 0.0, 360.0));
}

#[test]
fn rectangle_resolves_to_four_lines_and_close() {
    let r = resolve_rectangle(pt(0.0, 0.0), pt(10.0, 5.0));
    assert_eq!(r.segments.len(), 5);
    assert_eq!(r.segments[0], PathSegment::Line(pt(0.0, 0.0), pt(10.0, 0.0)));
    assert_eq!(r.segments[1], PathSegment::Line(pt(10.0, 0.0), pt(10.0, 5.0)));
    assert_eq!(r.segments[2], PathSegment::Line(pt(10.0, 5.0), pt(0.0, 5.0)));
    assert_eq!(r.segments[3], PathSegment::Line(pt(0.0, 5.0), pt(0.0, 0.0)));
    assert_eq!(r.segments[4], PathSegment::ClosePath);
}

#[test]
fn xor_keeps_flagged_segments_and_closes() {
    let a = ResolvedShape {
        segments: vec![
            PathSegment::Line(pt(0.0, 0.0), pt(1.0, 0.0)),
            PathSegment::Line(pt(1.0, 0.0), pt(1.0, 1.0)),
            PathSegment::ClosePath,
        ],
    };
    let b = ResolvedShape {
        segments: vec![PathSegment::Line(pt(5.0, 5.0), pt(6.0, 5.0))],
    };
    let r = compute_xor(&a, &vec![true, false, true], &b, &vec![true], &Vec::new());
    assert_eq!(
        r.segments,
        vec![
            PathSegment::Line(pt(0.0, 0.0), pt(1.0, 0.0)),
            PathSegment::Line(pt(5.0, 5.0), pt(6.0, 5.0)),
            PathSegment::ClosePath,
        ]
    );
}

#[test]
fn xor_of_nothing_kept_stays_empty() {
    let a = ResolvedShape {
        segments: vec![
            PathSegment::Line(pt(0.0, 0.0), pt(1.0, 0.0)),
            PathSegment::ClosePath,
        ],
    };
    let b = ResolvedShape { segments: Vec::new() };
    let r = compute_xor(&a, &vec![false, true], &b, &Vec::new(), &Vec::new());
    assert!(r.segments.is_empty());
}

#[test]
fn union_appends_degenerate_markers() {
    let a = ResolvedShape {
        segments: vec![PathSegment::Line(pt(0.0, 0.0), pt(1.0, 0.0))],
    };
    let b = ResolvedShape { segments: Vec::new() };
    let crossings = vec![pt(3.0, 4.0), pt(5.0, 6.0)];
    let r = compute_union(&a, &vec![true], &b, &Vec::new(), &crossings, 0.0);
    assert_eq!(
        r.segments,
        vec![
            PathSegment::Line(pt(0.0, 0.0), pt(1.0, 0.0)),
            PathSegment::ConnectedArc(pt(0.0, 0.0), 0.0, 0.0, 0.0, pt(3.0, 4.0), pt(3.0, 4.0)),
            PathSegment::ConnectedArc(pt(0.0, 0.0), 0.0, 0.0, 0.0, pt(5.0, 6.0), pt(5.0, 6.0)),
            PathSegment::ClosePath,
        ]
    );
}

#[test]
fn subtract_reverses_the_second_shape() {
    let a = ResolvedShape {
        segments: vec![PathSegment::Line(pt(0.0, 0.0), pt(9.0, 0.0))],
    };
    let b = ResolvedShape {
        segments: vec![
            PathSegment::Line(pt(1.0, 2.0), pt(3.0, 4.0)),
            PathSegment::Arc(pt(5.0, 5.0), 2.0, 30.0, 90.0),
            PathSegment::DrawPoint(pt(7.0, 7.0)),
        ],
    };
    let r = compute_subtract(&a, &vec![true], &b, &vec![true, true, true], &Vec::new());
    assert_eq!(
        r.segments,
        vec![
            PathSegment::Line(pt(0.0, 0.0), pt(9.0, 0.0)),
            PathSegment::Line(pt(3.0, 4.0), pt(1.0, 2.0)),
            PathSegment::Arc(pt(5.0, 5.0), 2.0, 90.0, 30.0),
            PathSegment::DrawPoint(pt(7.0, 7.0)),
            PathSegment::ClosePath,
        ]
    );
}

#[test]
fn classify_pair_dispatch_table() {
    let line = PathSegment::Line(pt(0.0, 0.0), pt(1.0, 1.0));
    let arc = PathSegment::Arc(pt(2.0, 2.0), 3.0, 10.0, 80.0);
    let connected = PathSegment::ConnectedArc(pt(4.0, 4.0), 5.0, 20.0, 70.0, pt(8.0, 8.0), pt(9.0, 9.0));

    assert_eq!(
        classify_pair(&line, &line),
        PairQuery::LineLine(pt(0.0, 0.0), pt(1.0, 1.0), pt(0.0, 0.0), pt(1.0, 1.0))
    );
    // The line goes first whichever operand it was.
    assert_eq!(
        classify_pair(&line, &arc),
        PairQuery::LineArc(pt(0.0, 0.0), pt(1.0, 1.0), pt(2.0, 2.0), 3.0, 10.0, 80.0)
    );
    assert_eq!(
        classify_pair(&arc, &line),
        PairQuery::LineArc(pt(0.0, 0.0), pt(1.0, 1.0), pt(2.0, 2.0), 3.0, 10.0, 80.0)
    );
    // A connected arc takes part through its centre, radius and angles.
    assert_eq!(
        classify_pair(&connected, &line),
        PairQuery::LineArc(pt(0.0, 0.0), pt(1.0, 1.0), pt(4.0, 4.0), 5.0, 20.0, 70.0)
    );
    assert_eq!(
        classify_pair(&arc, &connected),
        PairQuery::ArcArc(pt(2.0, 2.0), 3.0, 10.0, 80.0, pt(4.0, 4.0), 5.0, 20.0, 70.0)
    );
    assert_eq!(
        classify_pair(&connected, &arc),
        PairQuery::ArcArc(pt(4.0, 4.0), 5.0, 20.0, 70.0, pt(2.0, 2.0), 3.0, 10.0, 80.0)
    );
    // Markers and close instructions pair with nothing.
    assert_eq!(classify_pair(&PathSegment::ClosePath, &line), PairQuery::NoPair);
    assert_eq!(classify_pair(&line, &PathSegment::DrawPoint(pt(1.0, 2.0))), PairQuery::NoPair);
}

#[test]
fn starting_anchor_skips_close_path() {
    let segs = vec![
        PathSegment::ClosePath,
        PathSegment::Arc(pt(1.0, 1.0), 2.0, 0.0, 90.0),
        PathSegment::Line(pt(5.0, 5.0), pt(6.0, 6.0)),
    ];
    assert_eq!(starting_anchor(&segs), Some(PathSegment::Arc(pt(1.0, 1.0), 2.0, 0.0, 90.0)));
}

#[test]
fn starting_anchor_of_nothing_is_none() {
    assert_eq!(starting_anchor::<f64>(&Vec::new()), None);
    assert_eq!(starting_anchor::<f64>(&vec![PathSegment::ClosePath, PathSegment::ClosePath]), None);
}

#[test]
fn parity_decision_counts_crossings() {
    // One crossing: inside.
    assert!(inside_by_parity(&vec![false], &vec![1]));
    // Two crossings: outside.
    assert!(!inside_by_parity(&vec![false, false], &vec![1, 1]));
    // No segments at all: outside.
    assert!(!inside_by_parity(&Vec::new(), &Vec::new()));
    // An even count is overridden by a containing full circle.
    assert!(inside_by_parity(&vec![true, false], &vec![2, 0]));
}

#[test]
fn scaling_maps_centre_and_radius_but_not_angles() {
    // A circle at (10, 10) with radius 5 starts at (15, 10); scaling by 2
    // about that starting point moves the centre to (5, 10) and doubles
    // the radius, leaving the sweep angles alone.
    let segs = vec![PathSegment::Arc(pt(10.0, 10.0), 5.0, 0.0, 360.0)];
    let center = pt(15.0, 10.0);
    let factor = 2.0;
    let point_map = |p: Point<f64>| Point {
        x: center.x + factor * (p.x - center.x),
        y: center.y + factor * (p.y - center.y),
    };
    let radius_map = |r: f64| r * factor;
    let scaled = scale_segments(&segs, &point_map, &radius_map);
    assert_eq!(scaled, vec![PathSegment::Arc(pt(5.0, 10.0), 10.0, 0.0, 360.0)]);
}

#[test]
fn scaling_maps_every_point_of_a_segment() {
    let segs = vec![
        PathSegment::Line(pt(1.0, 1.0), pt(2.0, 2.0)),
        PathSegment::ConnectedArc(pt(1.0, 0.0), 2.0, 10.0, 20.0, pt(3.0, 0.0), pt(0.0, 3.0)),
        PathSegment::ClosePath,
        PathSegment::DrawPoint(pt(4.0, 4.0)),
    ];
    let point_map = |p: Point<f64>| Point { x: 10.0 * p.x, y: 10.0 * p.y };
    let radius_map = |r: f64| 10.0 * r;
    let scaled = scale_segments(&segs, &point_map, &radius_map);
    assert_eq!(
        scaled,
        vec![
            PathSegment::Line(pt(10.0, 10.0), pt(20.0, 20.0)),
            PathSegment::ConnectedArc(pt(10.0, 0.0), 20.0, 10.0, 20.0, pt(30.0, 0.0), pt(0.0, 30.0)),
            PathSegment::ClosePath,
            PathSegment::DrawPoint(pt(40.0, 40.0)),
        ]
    );
}

#[test]
fn pair_queries_enumerates_row_major() {
    let line = PathSegment::Line(pt(0.0, 0.0), pt(1.0, 1.0));
    let arc = PathSegment::Arc(pt(2.0, 2.0), 3.0, 10.0, 80.0);
    let a = vec![line, PathSegment::ClosePath];
    let b = vec![arc, line];
    let table = shapeops::intersection::pair_queries(&a, &b);
    assert_eq!(
        table,
        vec![
            PairQuery::LineArc(pt(0.0, 0.0), pt(1.0, 1.0), pt(2.0, 2.0), 3.0, 10.0, 80.0),
            PairQuery::LineLine(pt(0.0, 0.0), pt(1.0, 1.0), pt(0.0, 0.0), pt(1.0, 1.0)),
            PairQuery::NoPair,
            PairQuery::NoPair,
        ]
    );
}

#[test]
fn concat_results_keeps_table_order() {
    let lists = vec![
        vec![pt(1.0, 1.0), pt(2.0, 2.0)],
        Vec::new(),
        vec![pt(3.0, 3.0)],
    ];
    let flat = shapeops::intersection::concat_results(&lists);
    assert_eq!(flat, vec![pt(1.0, 1.0), pt(2.0, 2.0), pt(3.0, 3.0)]);
}
