use xng::fixed::{parse_fixed, push_fixed, push_signed, whole_part};
use xng::wkt::{WKTPoint, WKTPolyline};

fn written(n: i64) -> String {
    let mut out: Vec<char> = Vec::new();
    push_fixed(&mut out, n);
    out.into_iter().collect()
}

fn read(text: &str) -> Option<i64> {
    parse_fixed(&text.chars().collect())
}

#[test]
fn millionths_are_written_without_trailing_zeros() {
    assert_eq!(written(12_500_000), "12.5");
    assert_eq!(written(-45_250_000), "-45.25");
    assert_eq!(written(0), "0");
    assert_eq!(written(7_000_000), "7");
    assert_eq!(written(1), "0.000001");
    assert_eq!(written(-500_000), "-0.5");
    assert_eq!(written(100_000_100), "100.0001");
}

#[test]
fn written_millionths_are_read_back() {
    for n in [0i64, 1, -1, 999_999, -999_999, 1_000_000, 12_500_000, -45_250_000, 179_999_999, -180_000_000] {
        assert_eq!(read(&written(n)), Some(n));
    }
}

#[test]
fn whole_numbers_are_written_with_their_sign() {
    let mut out: Vec<char> = Vec::new();
    push_signed(&mut out, -35000);
    out.push(' ');
    push_signed(&mut out, 0);
    out.push(' ');
    push_signed(&mut out, i64::MIN);
    assert_eq!(out.into_iter().collect::<String>(), "-35000 0 -9223372036854775808");
}

#[test]
fn the_whole_part_is_cut_towards_zero() {
    assert_eq!(whole_part(1_999_999), 1);
    assert_eq!(whole_part(-1_500_000), -1);
    assert_eq!(whole_part(-999_999), 0);
    assert_eq!(whole_part(-1_000_000), -1);
    assert_eq!(whole_part(35_000_000_000), 35000);
    assert_eq!(whole_part(i64::MIN), -9_223_372_036_854);
}

#[test]
fn a_position_is_written() {
    let p = WKTPoint { x: 12_500_000, y: -45_250_000, z: 35000 };
    assert_eq!(p.to_text(), "POINT (12.5 -45.25 35000)");
    let origin = WKTPoint { x: 0, y: 0, z: 0 };
    assert_eq!(origin.to_text(), "POINT (0 0 0)");
}

#[test]
fn a_position_is_read() {
    assert_eq!(
        WKTPoint::parse("POINT (12.5 -45.25 35000)"),
        Some(WKTPoint { x: 12_500_000, y: -45_250_000, z: 35000 })
    );
    assert_eq!(WKTPoint::parse("POINT(1 2. 3.9)"), Some(WKTPoint { x: 1_000_000, y: 2_000_000, z: 3 }));
    assert_eq!(
        WKTPoint::parse("at POINT  (  -0.5   0.25 -10 ) or so"),
        Some(WKTPoint { x: -500_000, y: 250_000, z: -10 })
    );
}

#[test]
fn a_text_that_is_no_position_is_refused() {
    assert_eq!(WKTPoint::parse(""), None);
    assert_eq!(WKTPoint::parse("POINT (1 2)"), None);
    assert_eq!(WKTPoint::parse("POINT (a b c)"), None);
    assert_eq!(WKTPoint::parse("LINESTRING (1 2 3)"), None);
    assert_eq!(WKTPoint::parse("POINT (.5 1 2)"), None);
    assert_eq!(WKTPoint::parse("POINT (99999999999 1 2)"), None);
}

#[test]
fn a_written_position_is_read_back() {
    for p in [
        WKTPoint { x: 12_500_000, y: -45_250_000, z: 35000 },
        WKTPoint { x: -179_999_999, y: 89_000_001, z: -3 },
        WKTPoint { x: 0, y: 0, z: 0 },
    ] {
        assert_eq!(WKTPoint::parse(&p.to_text()), Some(p));
    }
}

#[test]
fn a_path_is_written() {
    let from = WKTPoint { x: 12_500_000, y: -45_250_000, z: 35000 };
    let to = WKTPoint { x: -1_000_000, y: 2_000_000, z: 0 };
    let path = WKTPolyline::between(&from, &to);
    assert_eq!(path.to_text(), "LINESTRING (12.5 -45.25 35000, -1 2 0)");
    assert_eq!(WKTPolyline { points: vec![] }.to_text(), "LINESTRING ()");
    assert_eq!(WKTPolyline { points: vec![(1, 2, 3)] }.to_text(), "LINESTRING (0.000001 0.000002 3)");
}

#[test]
fn a_path_is_read() {
    assert_eq!(
        WKTPolyline::parse("LINESTRING (12.5 -45.25 35000, -1 2 0)"),
        Some(WKTPolyline { points: vec![(12_500_000, -45_250_000, 35000), (-1_000_000, 2_000_000, 0)] })
    );
    assert_eq!(
        WKTPolyline::parse("LINESTRING(1 1 1,2 2 2,3 3 3)"),
        Some(WKTPolyline { points: vec![(1_000_000, 1_000_000, 1), (2_000_000, 2_000_000, 2), (3_000_000, 3_000_000, 3)] })
    );
}

#[test]
fn a_path_with_a_bad_point_is_refused() {
    assert_eq!(WKTPolyline::parse("LINESTRING (1 2 3, x y z)"), None);
    assert_eq!(WKTPolyline::parse("LINESTRING (1 2 3,)"), None);
    assert_eq!(WKTPolyline::parse("LINESTRING ()"), None);
    assert_eq!(WKTPolyline::parse("POINT (1 2 3)"), None);
}

#[test]
fn a_written_path_is_read_back() {
    let path = WKTPolyline { points: vec![(12_500_000, -45_250_000, 35000), (-1, 2, -7), (0, 0, 0)] };
    assert_eq!(WKTPolyline::parse(&path.to_text()), Some(path));
}
