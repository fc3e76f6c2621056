use geotypes::cartesian::{CartesianPoint, CartesianPoint2, PointXY};
use geotypes::common::polyline::Polyline;
use geotypes::scalar::Scalar;
use geotypes::segment::Segments;

fn pt(x: f64, y: f64) -> PointXY {
    PointXY { x: Scalar::from_bits(x.to_bits()), y: Scalar::from_bits(y.to_bits()) }
}

fn val(s: Scalar) -> f64 {
    f64::from_bits(s.bits)
}

#[test]
fn zero_length() {
    let polyline: Vec<PointXY> = vec![];
    assert_eq!(0.0, val(polyline.length()));

    let polyline = vec![pt(1.0, 1.0)];
    assert_eq!(0.0, val(polyline.length()));

    let polyline = vec![pt(1.0, 1.0), pt(1.0, 1.0)];
    assert_eq!(0.0, val(polyline.length()));

    let polyline = vec![pt(1.0, 1.0); 10];
    assert_eq!(0.0, val(polyline.length()));
}

#[test]
fn polyline_zero_length() {
    let polyline: Vec<PointXY> = vec![];
    assert_eq!(0.0, val(polyline.length()));

    let polyline = vec![pt(1.0, 1.0)];
    assert_eq!(0.0, val(polyline.length()));

    let polyline = vec![pt(1.0, 1.0), pt(1.0, 1.0)];
    assert_eq!(0.0, val(polyline.length()));

    let polyline = vec![pt(1.0, 1.0); 10];
    assert_eq!(0.0, val(polyline.length()));
}

#[test]
fn length() {
    let polyline = vec![pt(0.0, 0.0), pt(1.0, 0.0)];
    assert_eq!(1.0, val(polyline.length()));

    let polyline = vec![pt(0.0, 0.0), pt(1.0, 0.0), pt(2.0, 1.0)];
    assert_eq!(1.0 + 2.0f64.sqrt(), val(polyline.length()));
}

#[test]
fn polyline_length() {
    let polyline = vec![pt(0.0, 0.0), pt(1.0, 0.0)];
    assert_eq!(1.0, val(polyline.length()));

    let polyline = vec![pt(0.0, 0.0), pt(1.0, 0.0), pt(2.0, 1.0)];
    assert_eq!(1.0 + 2.0f64.sqrt(), val(polyline.length()));
}

#[test]
fn iterating() {
    let polyline = vec![pt(0.0, 0.0), pt(1.0, 0.0), pt(2.0, 0.0)];
    for (i, p) in polyline.points().iter().enumerate() {
        assert_eq!(i as f64, val(p.x()));
    }
}

#[test]
fn polyline_iterating() {
    let polyline = vec![pt(0.0, 0.0), pt(1.0, 0.0), pt(2.0, 0.0)];
    for (i, p) in polyline.points().iter().enumerate() {
        assert_eq!(i as f64, val(p.x()));
    }
}

#[test]
fn points_count() {
    for count in [0usize, 1, 2, 10] {
        let polyline = vec![pt(0.0, 0.0); count];
        assert_eq!(count, polyline.points_count());
    }
}

#[test]
fn iter_segments() {
    for points_count in [2usize, 3, 10] {
        let mut points = vec![];
        for i in 0..points_count {
            points.push(pt(i as f64, i as f64));
        }

        let mut segs = Segments::new(&points);
        let mut seen = 0usize;
        while let Some(segment) = segs.next() {
            assert_eq!(1.0, val(segment.end().x()) - val(segment.start().x()));
            assert_eq!(1.0, val(segment.end().y()) - val(segment.start().y()));
            seen += 1;
        }
        assert_eq!(points_count - 1, seen);
    }
}

#[test]
fn iter_segments_zero_length() {
    for points_count in [0usize, 1] {
        let points = vec![pt(0.0, 0.0); points_count];
        let mut segs = Segments::new(&points);
        assert!(segs.next().is_none());
    }
}

#[test]
fn distance_square() {
    let cases: [((f64, f64), (f64, f64), f64); 5] = [
        ((0.0, 0.0), (0.0, 0.0), 0.0),
        ((0.0, 0.0), (1.0, 0.0), 1.0),
        ((0.0, 0.0), (1.0, 1.0), 2.0),
        ((0.0, 0.0), (0.0, -1.0), 1.0),
        ((-100.0, 0.0), (100.5, 0.0), 200.5 * 200.5),
    ];
    for (p1, p2, expected) in cases {
        let a = pt(p1.0, p1.1);
        let b = pt(p2.0, p2.1);
        assert_eq!(expected, val(a.distance_square(&b)));
    }
}

#[test]
fn euclidean_distance_values() {
    let cases: [((f64, f64), (f64, f64), f64); 5] = [
        ((0.0, 0.0), (0.0, 0.0), 0.0),
        ((0.0, 0.0), (1.0, 0.0), 1.0),
        ((0.0, 0.0), (1.0, 1.0), 2.0f64.sqrt()),
        ((0.0, 0.0), (0.0, -1.0), 1.0),
        ((-100.0, 0.0), (100.5, 0.0), 200.5),
    ];
    for (p1, p2, expected) in cases {
        let a = pt(p1.0, p1.1);
        let b = pt(p2.0, p2.1);
        assert_eq!(expected, val(a.distance(&b)));
    }
}

#[test]
fn taxicab_distance() {
    let cases: [((f64, f64), (f64, f64), f64); 5] = [
        ((0.0, 0.0), (0.0, 0.0), 0.0),
        ((0.0, 0.0), (1.0, 0.0), 1.0),
        ((0.0, 0.0), (1.0, 2.0), 3.0),
        ((0.0, 0.0), (1.0, -1.0), 2.0),
        ((-100.0, 0.0), (100.5, 10.0), 210.5),
    ];
    for (p1, p2, expected) in cases {
        let a = pt(p1.0, p1.1);
        let b = pt(p2.0, p2.1);
        assert_eq!(expected, val(a.taxicab_distance(&b)));
    }
}

#[test]
fn distance_to_self_is_zero() {
    for (x, y) in [(0.0, 0.0), (3.5, -2.25), (-1.0e7, 4.0e3)] {
        let p = pt(x, y);
        assert_eq!(0.0, val(p.distance_square(&p)));
        assert_eq!(0.0, val(p.distance(&p)));
    }
}

#[test]
fn distance_consistent_with_square() {
    let pairs = [((1.5, 2.5), (3.25, -0.75)), ((-7.0, 0.5), (2.0, 9.0)), ((0.1, 0.2), (0.3, 0.4))];
    for (p1, p2) in pairs {
        let a = pt(p1.0, p1.1);
        let b = pt(p2.0, p2.1);
        let d = val(a.distance(&b));
        let sq = val(a.distance_square(&b));
        assert!((d * d - sq).abs() <= 1e-12 * sq.max(1.0));
    }
}

#[test]
fn taxicab_at_least_euclidean() {
    let pairs = [
        ((0.0, 0.0), (1.0, 1.0)),
        ((-3.5, 2.0), (4.25, -6.5)),
        ((10.0, -0.5), (10.0, 2.5)),
        ((1.0e6, 2.0), (-1.0e6, 3.0)),
    ];
    for (p1, p2) in pairs {
        let a = pt(p1.0, p1.1);
        let b = pt(p2.0, p2.1);
        assert!(val(a.taxicab_distance(&b)) >= val(a.distance(&b)));
    }
}

#[test]
fn array_points_measure_alike() {
    let a = [Scalar::from_bits(0.0f64.to_bits()), Scalar::from_bits(0.0f64.to_bits())];
    let b = [Scalar::from_bits(1.0f64.to_bits()), Scalar::from_bits(1.0f64.to_bits())];
    assert_eq!(2.0, val(a.distance_square(&b)));
    assert_eq!(2.0f64.sqrt(), val(a.distance(&b)));
    assert_eq!(2.0, val(a.taxicab_distance(&b)));
}
