use ctrs::decimal::{Decimal, Ratio};
use ctrs::projection::projections_of;
use ctrs::scan::CtScan;
use ctrs::scene::{Camera, Primitive, Scene};

fn scan() -> CtScan {
    let files = vec![String::from("a.png"), String::from("b.png")];
    CtScan::from_descriptor(String::from("s"), "CW", "100", "150", "360", "1", files).unwrap()
}

const T: Decimal = Decimal { mantissa: 5, scale: 1 };

#[test]
fn new_scene_starts_fresh() {
    let s = scan();
    let scene = Scene::new(&s, T);
    assert_eq!(scene.projections, projections_of(&s));
    assert_eq!(scene.orbit_step, 0);
    assert_eq!(scene.threshold, T);
    assert!(scene.new_scene);
}

#[test]
fn draw_asks_for_one_rebuild() {
    let mut scene = Scene::new(&scan(), T);
    let first = scene.draw();
    let second = scene.draw();
    assert!(first.new_scene);
    assert!(!second.new_scene);
    assert!(first.needs_rebuild(true));
    assert!(!second.needs_rebuild(true));
    assert!(second.needs_rebuild(false));
}

#[test]
fn rotate_wraps_after_full_orbit() {
    let mut scene = Scene::new(&scan(), T);
    scene.rotate(1);
    assert_eq!(scene.orbit_step, 1);
    scene.rotate(33);
    assert_eq!(scene.orbit_step, 2);
    scene.rotate(u32::MAX);
    assert_eq!(scene.orbit_step, 1);
}

#[test]
fn set_threshold_reaches_camera() {
    let mut scene = Scene::new(&scan(), T);
    scene.rotate(3);
    let t = Decimal { mantissa: 9, scale: 1 };
    scene.set_threshold(t);
    let p = scene.draw();
    assert_eq!(
        p.camera,
        Camera::new(40, 3, (70, 70), Ratio { num: 1, den: 2 }, t)
    );
}

#[test]
fn primitive_camera_constants() {
    let p = Primitive::new(7, T, false);
    assert_eq!(p.camera.radius, 40);
    assert_eq!(p.camera.orbit_step, 7);
    assert_eq!((p.camera.width, p.camera.height), (70, 70));
    assert_eq!(p.camera.sampling_interval, Ratio { num: 1, den: 2 });
    assert_eq!(p.camera.threshold, T);
    assert!(!p.new_scene);
}
