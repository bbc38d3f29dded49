use vstd::prelude::*;

use crate::decimal::{Decimal, is_bounded_decimal_text};
use crate::scan::{CtScan, GeometryError, decimal_of};
use crate::scene::Scene;

verus! {

/// Why a scan could not be loaded.
#[derive(Clone, Debug)]
pub enum ScanLoadError {
    /// No file was chosen.
    NonePicked,
    /// The descriptor or one of its images could not be read; the text says why.
    FileLoadError(String),
    /// The description or the images of the scan do not fit together.
    Geometry(GeometryError),
}

/// An event for the viewer.
pub enum Message {
    OpenPressed,
    HelpPressed,
    ScreenshotPressed,
    ScanLoaded(Result<CtScan, ScanLoadError>),
    ThresholdEdited(String),
    Tick,
}

/// What the host does after an update.
#[derive(Clone, Copy, Debug, PartialEq, Eq, Structural)]
pub enum Command {
    Nothing,
    /// Ask for a scan, load it, and hand back `Message::ScanLoaded`.
    LoadScan,
}

/// The state of the viewer: the loaded scan and its scene, the status line,
/// and the threshold that new scenes start with.
pub struct CTRS {
    pub scan: Option<CtScan>,
    pub scene: Option<Scene>,
    pub status_message: String,
    pub threshold: Decimal,
}

/// The threshold before the user sets one, 0.71.
pub open spec fn initial_threshold() -> Decimal {
    Decimal { mantissa: 71, scale: 2 }
}

impl Default for CTRS {
    fn default() -> (r: CTRS)
        ensures
            r.scan is None,
            r.scene is None,
            r.status_message@ == "Please open a scan"@,
            r.threshold == initial_threshold(),
    {
        CTRS {
            scan: None,
            scene: None,
            status_message: String::from_str("Please open a scan"),
            threshold: Decimal { mantissa: 71, scale: 2 },
        }
    }
}

impl CTRS {
    pub open spec fn wf(&self) -> bool {
        self.scene matches Some(sc) ==> sc.wf()
    }

    /// Handles one event and says what the host must do next.
    pub fn update(&mut self, message: Message) -> (r: Command)
        requires
            old(self).wf(),
        ensures
            final(self).wf(),
            match message {
                Message::OpenPressed => {
                    &&& r == Command::LoadScan
                    &&& final(self).status_message@ == "Loading scan..."@
                    &&& final(self).scan == old(self).scan
                    &&& final(self).scene == old(self).scene
                    &&& final(self).threshold == old(self).threshold
                },
                Message::HelpPressed | Message::ScreenshotPressed | Message::Tick => {
                    &&& r == Command::Nothing
                    &&& final(self).status_message == old(self).status_message
                    &&& final(self).scan == old(self).scan
                    &&& final(self).threshold == old(self).threshold
                    &&& (message is Tick) ==> match (old(self).scene, final(self).scene) {
                        (Some(a), Some(b)) => {
                            &&& b.orbit_step == (a.orbit_step + 1) % 32
                            &&& b.projections == a.projections
                            &&& b.threshold == a.threshold
                            &&& b.new_scene == a.new_scene
                        },
                        (None, None) => true,
                        _ => false,
                    }
                    &&& !(message is Tick) ==> final(self).scene == old(self).scene
                },
                Message::ScanLoaded(Ok(scan)) => {
                    &&& r == Command::Nothing
                    &&& final(self).threshold == old(self).threshold
                    &&& scan.wf() ==> {
                        &&& final(self).status_message@ == "Scan "@ + scan.name@ + " loaded"@
                        &&& final(self).scan == Some(scan)
                        &&& final(self).scene matches Some(sc) && sc.starts(
                            scan,
                            old(self).threshold,
                        )
                    }
                    &&& !scan.wf() ==> {
                        &&& final(self).status_message@ == "the scan's parameters are out of range"@
                        &&& final(self).scan is None
                        &&& final(self).scene is None
                    }
                },
                Message::ScanLoaded(Err(ScanLoadError::NonePicked)) => {
                    &&& r == Command::Nothing
                    &&& final(self).status_message@ == "Please pick a file"@
                    &&& final(self).scan == old(self).scan
                    &&& final(self).scene == old(self).scene
                    &&& final(self).threshold == old(self).threshold
                },
                Message::ScanLoaded(Err(ScanLoadError::FileLoadError(cause))) => {
                    &&& r == Command::Nothing
                    &&& final(self).status_message@ == cause@
                    &&& final(self).scan is None
                    &&& final(self).scene is None
                    &&& final(self).threshold == old(self).threshold
                },
                Message::ScanLoaded(Err(ScanLoadError::Geometry(e))) => {
                    &&& r == Command::Nothing
                    &&& final(self).status_message@ == e.text()
                    &&& final(self).scan is None
                    &&& final(self).scene is None
                    &&& final(self).threshold == old(self).threshold
                },
                Message::ThresholdEdited(text) => {
                    &&& r == Command::Nothing
                    &&& final(self).status_message == old(self).status_message
                    &&& final(self).scan == old(self).scan
                    &&& is_bounded_decimal_text(text@) ==> {
                        &&& final(self).threshold == decimal_of(text@)
                        &&& match (old(self).scene, final(self).scene) {
                            (Some(a), Some(b)) => {
                                &&& b.threshold == decimal_of(text@)
                                &&& b.projections == a.projections
                                &&& b.orbit_step == a.orbit_step
                                &&& b.new_scene == a.new_scene
                            },
                            (None, None) => true,
                            _ => false,
                        }
                    }
                    &&& !is_bounded_decimal_text(text@) ==> {
                        &&& final(self).threshold == old(self).threshold
                        &&& final(self).scene == old(self).scene
                    }
                },
            },
    {
        match message {
            Message::OpenPressed => {
                self.status_message = String::from_str("Loading scan...");
                Command::LoadScan
            },
            Message::HelpPressed => Command::Nothing,
            Message::ScreenshotPressed => Command::Nothing,
            Message::ScanLoaded(Ok(scan)) => {
                if scan.is_valid() {
                    let mut status = String::from_str("Scan ");
                    status.append(scan.name.as_str());
                    status.append(" loaded");
                    self.status_message = status;
                    self.scene = Some(Scene::new(&scan, self.threshold));
                    self.scan = Some(scan);
                } else {
                    self.status_message = String::from_str("the scan's parameters are out of range");
                    self.scan = None;
                    self.scene = None;
                }
                Command::Nothing
            },
            Message::ScanLoaded(Err(err)) => {
                match err {
                    ScanLoadError::NonePicked => {
                        self.status_message = String::from_str("Please pick a file");
                    },
                    ScanLoadError::FileLoadError(cause) => {
                        self.status_message = cause;
                        self.scan = None;
                        self.scene = None;
                    },
                    ScanLoadError::Geometry(e) => {
                        self.status_message = e.message();
                        self.scan = None;
                        self.scene = None;
                    },
                }
                Command::Nothing
            },
            Message::ThresholdEdited(text) => {
                if let Some(new) = Decimal::parse(text.as_str()) {
                    self.threshold = new;
                    if let Some(scene) = &mut self.scene {
                        scene.set_threshold(new);
                    }
                }
                Command::Nothing
            },
            Message::Tick => {
                if let Some(scene) = &mut self.scene {
                    scene.rotate(1);
                }
                Command::Nothing
            },
        }
    }
}

} // verus!
