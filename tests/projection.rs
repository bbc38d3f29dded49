use ctrs::decimal::{Decimal, Ratio};
use ctrs::projection::{angle_of, detector_extent_of, projections_of, Projection};
use ctrs::scan::{CtScan, RotationDirection};

fn scan(direction: &str, sod: &str, sdd: &str, sweep: &str, pixel: &str, n: usize) -> CtScan {
    let files = (0..n).map(|i| format!("{i}.png")).collect();
    CtScan::from_descriptor(String::from("s"), direction, sod, sdd, sweep, pixel, files).unwrap()
}

fn value(r: Ratio) -> f64 {
    r.num as f64 / r.den as f64
}

#[test]
fn scenario_cw_full_turn_of_four() {
    let s = scan("CW", "100", "150", "360", "1", 4);
    let p = projections_of(&s);
    assert_eq!(p.len(), 4);
    let expected = [0, -90, -180, -270];
    for (proj, degrees) in p.iter().zip(expected) {
        assert_eq!(proj.world_angle.num % proj.world_angle.den, 0);
        assert_eq!(proj.world_angle.num / proj.world_angle.den, degrees);
        assert_eq!(proj.translate_radius.num % proj.translate_radius.den, 0);
        assert_eq!(proj.translate_radius.num / proj.translate_radius.den, 50);
    }
}

#[test]
fn angles_are_evenly_spaced() {
    let sweep = Decimal { mantissa: 1805, scale: 1 };
    let n = 5;
    let angles: Vec<Ratio> = (0..n).map(|i| angle_of(RotationDirection::CCW, sweep, n, i)).collect();
    assert_eq!(angles[0].num, 0);
    for i in 0..n {
        assert_eq!(angles[i].den, 50);
        assert_eq!(angles[i].num, 1805 * i as i128);
        assert!((value(angles[i]) - 36.1 * i as f64).abs() < 1e-9);
    }
    let back = angle_of(RotationDirection::CW, sweep, n, 3);
    assert_eq!(back, Ratio { num: -3 * 1805, den: 50 });
}

#[test]
fn detector_angle_is_three_quarter_turn_less_angle() {
    let s = scan("CCW", "10", "30", "90", "1", 3);
    for p in projections_of(&s) {
        assert!((value(p.detector_angle) - (270.0 - value(p.world_angle))).abs() < 1e-9);
    }
    assert_eq!(value(projections_of(&s)[1].detector_angle), 240.0);
}

#[test]
fn corners_land_in_unit_square() {
    for pixel in ["1", "0.5", "0.127", "12"] {
        let s = scan("CW", "100", "150", "360", pixel, 2);
        let p = value(s.pixel_size.to_ratio());
        let t = projections_of(&s)[0].texture_transform;
        let mut vs = Vec::new();
        for sign in [-1.0, 1.0] {
            let corner = sign * 250.0 * p;
            let u = value(t.scale_x) * corner + value(t.offset_x);
            let v = value(t.scale_y) * corner + value(t.offset_y);
            assert!((0.0..=1.0).contains(&u), "{pixel}: {u}");
            assert!((0.0..=1.0).contains(&v), "{pixel}: {v}");
            vs.push(v);
        }
        assert!(vs[1] < vs[0]);
        assert!((value(t.scale_x) * 250.0 * p - 0.25).abs() < 1e-12);
    }
}

#[test]
fn texture_transform_exact() {
    let extent = detector_extent_of(Decimal { mantissa: 5, scale: 1 });
    assert_eq!(extent, Ratio { num: 2500, den: 10 });
    let p = Projection::new(
        Ratio { num: 90, den: 1 },
        Decimal { mantissa: 100, scale: 0 },
        Decimal { mantissa: 1505, scale: 1 },
        (extent, extent),
    );
    assert_eq!(p.texture_transform.scale_x, Ratio { num: 10, den: 5000 });
    assert_eq!(p.texture_transform.scale_y, Ratio { num: -10, den: 5000 });
    assert_eq!(p.texture_transform.offset_x, Ratio { num: 1, den: 2 });
    assert_eq!(p.detector_angle, Ratio { num: 180, den: 1 });
    assert_eq!(p.sdd, Ratio { num: 1505, den: 10 });
    assert!((value(p.translate_radius) - 50.5).abs() < 1e-12);
}

#[test]
fn loading_twice_gives_identical_transforms() {
    let a = scan("CCW", "97.5", "140.25", "200", "0.139", 7);
    let b = scan("CCW", "97.5", "140.25", "200", "0.139", 7);
    assert_eq!(projections_of(&a), projections_of(&b));
}
