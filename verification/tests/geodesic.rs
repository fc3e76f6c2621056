use geotypes::datum::Datum;
use geotypes::geo::{GeoPoint, Wgs84Point};
use geotypes::scalar::Scalar;

fn s(v: f64) -> Scalar {
    Scalar::from_bits(v.to_bits())
}

fn val(x: Scalar) -> f64 {
    f64::from_bits(x.bits)
}

#[test]
fn distance() {
    let p1 = Wgs84Point::latlon(s(35.6544), s(139.74477));
    let p2 = Wgs84Point::latlon(s(21.4225), s(39.8261));

    let distance = val(p1.distance(&p2));
    let expected = 9496707.639;
    assert!(
        (distance - expected).abs() < 0.01,
        "Distance {} is not close to expected {}",
        distance,
        expected
    );
}

#[test]
fn simple_point_constructors() {
    let p1 = Wgs84Point::latlon(s(35.6544), s(139.74477));
    let p2 = Wgs84Point::lonlat(s(139.74477), s(35.6544));

    assert_eq!(p1, p2);
}

#[test]
fn simple_point_clone() {
    let p1 = Wgs84Point::latlon(s(35.6544), s(139.74477));
    let p2 = p1.clone();

    assert_eq!(p1, p2);
}

#[test]
fn wgs84_constants() {
    let datum = Datum::wgs84();
    assert_eq!(6378137.0, val(datum.a()));
    assert_eq!(1.0 / 298.257223563, val(datum.inv_f()));
}

#[test]
fn datum_distance_matches_point_distance() {
    let p1 = Wgs84Point::latlon(s(35.6544), s(139.74477));
    let p2 = Wgs84Point::latlon(s(21.4225), s(39.8261));
    let datum = Datum::wgs84();
    assert_eq!(val(datum.distance(&p1, &p2)), val(p1.distance(&p2)));
    assert_eq!(
        val(datum.distance_latlon(p1.lat(), p1.lon(), p2.lat(), p2.lon())),
        val(p1.distance(&p2)),
    );
}

#[test]
fn custom_datum_distance() {
    let sphere = Datum::new(s(6378137.0), s(0.0));
    let p1 = Wgs84Point::latlon(s(0.0), s(0.0));
    let p2 = Wgs84Point::latlon(s(0.0), s(90.0));
    let quarter = val(sphere.distance(&p1, &p2));
    let expected = 6378137.0 * std::f64::consts::FRAC_PI_2;
    assert!((quarter - expected).abs() < 1e-3);
}
