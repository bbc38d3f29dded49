use ctrs::decimal::Decimal;
use ctrs::scan::{CtScan, GeometryError};
use ctrs::viewer::{Command, Message, ScanLoadError, CTRS};

fn scan(name: &str) -> CtScan {
    let files = vec![String::from("a.png"), String::from("b.png"), String::from("c.png")];
    CtScan::from_descriptor(String::from(name), "CCW", "100", "150", "360", "1", files).unwrap()
}

fn loaded(name: &str) -> CTRS {
    let mut app = CTRS::default();
    app.update(Message::ScanLoaded(Ok(scan(name))));
    app
}

#[test]
fn initial_state() {
    let app = CTRS::default();
    assert!(app.scan.is_none());
    assert!(app.scene.is_none());
    assert_eq!(app.status_message, "Please open a scan");
    assert_eq!(app.threshold, Decimal { mantissa: 71, scale: 2 });
}

#[test]
fn open_asks_for_a_scan() {
    let mut app = CTRS::default();
    assert_eq!(app.update(Message::OpenPressed), Command::LoadScan);
    assert_eq!(app.status_message, "Loading scan...");
}

#[test]
fn loaded_scan_gets_a_scene() {
    let mut app = loaded("phantom");
    assert_eq!(app.status_message, "Scan phantom loaded");
    assert_eq!(app.scan.as_ref().unwrap().name, "phantom");
    let scene = app.scene.as_mut().unwrap();
    assert_eq!(scene.projections.len(), 3);
    assert_eq!(scene.threshold, Decimal { mantissa: 71, scale: 2 });
    assert!(scene.draw().new_scene);
}

#[test]
fn threshold_text_that_is_no_number_changes_nothing() {
    let mut app = loaded("phantom");
    let before = app.scene.as_ref().unwrap().threshold;
    assert_eq!(app.update(Message::ThresholdEdited(String::from("abc"))), Command::Nothing);
    assert_eq!(app.threshold, Decimal { mantissa: 71, scale: 2 });
    assert_eq!(app.scene.as_ref().unwrap().threshold, before);
    assert_eq!(app.status_message, "Scan phantom loaded");
}

#[test]
fn threshold_text_sets_threshold() {
    let mut app = loaded("phantom");
    app.update(Message::ThresholdEdited(String::from("0.5")));
    assert_eq!(app.threshold, Decimal { mantissa: 5, scale: 1 });
    assert_eq!(app.scene.as_ref().unwrap().threshold, Decimal { mantissa: 5, scale: 1 });
    let mut empty = CTRS::default();
    empty.update(Message::ThresholdEdited(String::from("0.9")));
    assert_eq!(empty.threshold, Decimal { mantissa: 9, scale: 1 });
    assert!(empty.scene.is_none());
}

#[test]
fn cancelled_dialog_keeps_scan_and_io_error_clears_it() {
    let mut app = loaded("phantom");
    app.update(Message::Tick);
    app.update(Message::ScanLoaded(Err(ScanLoadError::NonePicked)));
    assert_eq!(app.status_message, "Please pick a file");
    assert_eq!(app.scan.as_ref().unwrap().name, "phantom");
    let scene = app.scene.as_ref().unwrap();
    assert_eq!(scene.orbit_step, 1);
    assert!(scene.new_scene);

    app.update(Message::ScanLoaded(Err(ScanLoadError::FileLoadError(String::from(
        "file not found",
    )))));
    assert_eq!(app.status_message, "file not found");
    assert!(app.scan.is_none());
    assert!(app.scene.is_none());
}

#[test]
fn geometry_error_clears_scan() {
    let mut app = loaded("phantom");
    app.update(Message::ScanLoaded(Err(ScanLoadError::Geometry(
        GeometryError::ImageCountMismatch,
    ))));
    assert_eq!(app.status_message, GeometryError::ImageCountMismatch.message());
    assert!(app.scan.is_none());
    assert!(app.scene.is_none());
}

#[test]
fn out_of_range_scan_is_refused() {
    let mut bad = scan("bad");
    bad.pixel_size = Decimal { mantissa: 0, scale: 0 };
    let mut app = loaded("phantom");
    app.update(Message::ScanLoaded(Ok(bad)));
    assert_eq!(app.status_message, "the scan's parameters are out of range");
    assert!(app.scan.is_none());
    assert!(app.scene.is_none());
}

#[test]
fn ticks_turn_the_camera() {
    let mut app = loaded("phantom");
    for _ in 0..33 {
        assert_eq!(app.update(Message::Tick), Command::Nothing);
    }
    assert_eq!(app.scene.as_ref().unwrap().orbit_step, 1);
    app.update(Message::HelpPressed);
    app.update(Message::ScreenshotPressed);
    assert_eq!(app.scene.as_ref().unwrap().orbit_step, 1);
    assert_eq!(app.status_message, "Scan phantom loaded");
}
