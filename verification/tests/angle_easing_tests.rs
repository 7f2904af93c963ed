use tacky_borders::angle::{angle_to_coordinates, parse_angle, UnitPoint};
use tacky_borders::easing::{bezier, AnimationCurve, BezierError};
use tacky_borders::{HALF_UNIT, UNIT};

#[test]
fn angle_tokens_parse_to_millidegrees() {
    assert_eq!(parse_angle("90deg"), Some(90_000));
    assert_eq!(parse_angle("-90deg"), Some(-90_000));
    assert_eq!(parse_angle("-540deg"), Some(-540_000));
    assert_eq!(parse_angle("1.25deg"), Some(1_250));
    assert_eq!(parse_angle("+7.5deg"), Some(7_500));
    assert_eq!(parse_angle(" 180 deg"), Some(180_000));
    assert_eq!(parse_angle("0.001deg"), Some(1));
}

#[test]
fn bad_angle_tokens_are_rejected() {
    assert_eq!(parse_angle(""), None);
    assert_eq!(parse_angle("deg"), None);
    assert_eq!(parse_angle("90"), None);
    assert_eq!(parse_angle("9e1deg"), None);
    assert_eq!(parse_angle("--1deg"), None);
    assert_eq!(parse_angle(".deg"), None);
    assert_eq!(parse_angle("1.2345deg"), None);
    assert_eq!(parse_angle("9999999999deg"), None);
}

#[test]
fn horizontal_angles_are_exact() {
    let c = angle_to_coordinates(0);
    assert_eq!(c.start, UnitPoint { x: 0, y: HALF_UNIT });
    assert_eq!(c.end, UnitPoint { x: UNIT, y: HALF_UNIT });
    let c = angle_to_coordinates(180_000);
    assert_eq!(c.start, UnitPoint { x: UNIT, y: HALF_UNIT });
    assert_eq!(c.end, UnitPoint { x: 0, y: HALF_UNIT });
}

#[test]
fn diagonal_angle_is_exact() {
    // 45 degrees runs from the bottom-left corner to the top-right one
    let c = angle_to_coordinates(45_000);
    assert_eq!(c.start, UnitPoint { x: 0, y: UNIT });
    assert_eq!(c.end, UnitPoint { x: UNIT, y: 0 });
}

#[test]
fn all_angles_stay_inside_the_unit_square() {
    let mut millideg: i64 = -720_000;
    while millideg <= 720_000 {
        let c = angle_to_coordinates(millideg);
        assert!(0 <= c.start.x && c.start.x <= UNIT, "start.x out of range at {millideg}");
        assert!(0 <= c.start.y && c.start.y <= UNIT, "start.y out of range at {millideg}");
        assert!(0 <= c.end.x && c.end.x <= UNIT, "end.x out of range at {millideg}");
        assert!(0 <= c.end.y && c.end.y <= UNIT, "end.y out of range at {millideg}");
        millideg += 7_001;
    }
}

#[test]
fn linear_curve_is_the_identity() {
    let curve = bezier(0, 0, UNIT, UNIT).unwrap();
    let mut x: i64 = 0;
    while x <= UNIT {
        assert_eq!(curve.evaluate(x), x);
        x += 12_345;
    }
    assert_eq!(curve.evaluate(UNIT), UNIT);
}

#[test]
fn curve_endpoints_are_fixed() {
    let curve = bezier(250_000, 100_000, 250_000, UNIT).unwrap();
    assert_eq!(curve.evaluate(0), 0);
    assert_eq!(curve.evaluate(UNIT), UNIT);
}

#[test]
fn out_of_range_control_points_are_rejected() {
    assert_eq!(bezier(-1, 0, UNIT, UNIT), Err(BezierError::InvalidControlPoint));
    assert_eq!(bezier(0, 0, UNIT + 1, UNIT), Err(BezierError::InvalidControlPoint));
    assert_eq!(
        BezierError::InvalidControlPoint.message(),
        "Control points must be in the range [0, 1]"
    );
}

#[test]
fn symmetric_curve_meets_the_center() {
    let curve: AnimationCurve = bezier(0, UNIT, UNIT, 0).unwrap();
    assert_eq!(curve.evaluate(HALF_UNIT), HALF_UNIT);
}
