use vstd::prelude::*;

use crate::decimal::{Decimal, Ratio};
use crate::projection::{Projection, projections_of, scan_projection};
use crate::scan::CtScan;

verus! {

/// Steps in one full orbit of the camera; one step turns it by pi/16.
pub const ORBIT_STEPS: u32 = 32;

/// Distance of the camera from the axis of the scan.
pub const CAMERA_RADIUS: u32 = 40;

/// Width and height of the camera's view plane, in physical units.
pub const VIEWPORT_SIZE: u32 = 70;

/// The camera of one frame. It orbits at `radius` in the plane of the turn,
/// at the angle `orbit_step * 2 * pi / ORBIT_STEPS`, and looks at the axis.
#[derive(Clone, Copy, Debug, PartialEq, Eq, Structural)]
pub struct Camera {
    pub radius: u32,
    pub orbit_step: u32,
    pub width: u32,
    pub height: u32,
    pub sampling_interval: Ratio,
    pub threshold: Decimal,
}

impl Camera {
    pub fn new(
        radius: u32,
        orbit_step: u32,
        dimensions: (u32, u32),
        sampling_interval: Ratio,
        threshold: Decimal,
    ) -> (r: Camera)
        ensures
            r == (Camera {
                radius,
                orbit_step,
                width: dimensions.0,
                height: dimensions.1,
                sampling_interval,
                threshold,
            }),
    {
        Camera {
            radius,
            orbit_step,
            width: dimensions.0,
            height: dimensions.1,
            sampling_interval,
            threshold,
        }
    }
}

/// The camera that a scene at the given orbit step and threshold renders with.
pub open spec fn scene_camera(orbit_step: u32, threshold: Decimal) -> Camera {
    Camera {
        radius: CAMERA_RADIUS,
        orbit_step,
        width: VIEWPORT_SIZE,
        height: VIEWPORT_SIZE,
        sampling_interval: Ratio { num: 1, den: 2 },
        threshold,
    }
}

/// What one frame hands to the renderer: its camera, and whether the GPU
/// resources must be built anew for a new scene.
#[derive(Clone, Copy, Debug, PartialEq, Eq, Structural)]
pub struct Primitive {
    pub camera: Camera,
    pub new_scene: bool,
}

impl Primitive {
    pub fn new(orbit_step: u32, threshold: Decimal, new_scene: bool) -> (r: Primitive)
        ensures
            r == (Primitive { camera: scene_camera(orbit_step, threshold), new_scene }),
    {
        Primitive {
            camera: Camera::new(
                CAMERA_RADIUS,
                orbit_step,
                (VIEWPORT_SIZE, VIEWPORT_SIZE),
                Ratio { num: 1, den: 2 },
                threshold,
            ),
            new_scene,
        }
    }

    /// Whether the frame must build the GPU resources before it draws: when
    /// none are ready yet, or when the scene is new.
    pub fn needs_rebuild(&self, resources_ready: bool) -> (r: bool)
        ensures
            r == (!resources_ready || self.new_scene),
    {
        !resources_ready || self.new_scene
    }
}

/// A loaded scan ready to render: the transforms of its projections, the
/// orbit of the camera, the threshold, and whether the GPU resources still
/// have to be built for it.
pub struct Scene {
    pub projections: Vec<Projection>,
    pub orbit_step: u32,
    pub threshold: Decimal,
    pub new_scene: bool,
}

impl Scene {
    pub open spec fn wf(&self) -> bool {
        self.orbit_step < ORBIT_STEPS
    }

    /// The scene is the one that a scan starts with: the transforms of all its
    /// projections, the camera at the start of its orbit, the given threshold,
    /// and resources still to be built.
    pub open spec fn starts(&self, scan: CtScan, threshold: Decimal) -> bool {
        &&& self.projections@.len() == scan.projection_files@.len()
        &&& forall|i: int|
            0 <= i < self.projections@.len() ==> #[trigger] self.projections@[i]
                == scan_projection(scan, i as nat)
        &&& self.orbit_step == 0
        &&& self.threshold == threshold
        &&& self.new_scene
    }

    /// The scene of a scan: the transforms of all its projections, the camera
    /// at the start of its orbit, and resources still to be built.
    pub fn new(scan: &CtScan, threshold: Decimal) -> (r: Scene)
        requires
            scan.wf(),
        ensures
            r.wf(),
            r.starts(*scan, threshold),
    {
        Scene { projections: projections_of(scan), orbit_step: 0, threshold, new_scene: true }
    }

    /// Advances the camera's orbit by `steps` steps.
    pub fn rotate(&mut self, steps: u32)
        requires
            old(self).wf(),
        ensures
            final(self).wf(),
            final(self).orbit_step == (old(self).orbit_step + steps) % (ORBIT_STEPS as int),
            final(self).projections == old(self).projections,
            final(self).threshold == old(self).threshold,
            final(self).new_scene == old(self).new_scene,
    {
        self.orbit_step = (self.orbit_step + steps % ORBIT_STEPS) % ORBIT_STEPS;
    }

    pub fn set_threshold(&mut self, threshold: Decimal)
        ensures
            final(self).threshold == threshold,
            final(self).projections == old(self).projections,
            final(self).orbit_step == old(self).orbit_step,
            final(self).new_scene == old(self).new_scene,
    {
        self.threshold = threshold;
    }

    /// The primitive of the next frame. It asks for a rebuild when the scene
    /// is new, and the scene is then no longer new: the flag is read and
    /// cleared in one step, so one scene is built once.
    pub fn draw(&mut self) -> (r: Primitive)
        ensures
            r == (Primitive {
                camera: scene_camera(old(self).orbit_step, old(self).threshold),
                new_scene: old(self).new_scene,
            }),
            !final(self).new_scene,
            final(self).projections == old(self).projections,
            final(self).orbit_step == old(self).orbit_step,
            final(self).threshold == old(self).threshold,
    {
        let r = Primitive::new(self.orbit_step, self.threshold, self.new_scene);
        self.new_scene = false;
        r
    }
}

} // verus!
