//! Engine core: the viewport, input routing in priority order (overlay,
//! camera, shortcuts, file drop), and what to do when a frame cannot be
//! acquired.
use vstd::prelude::*;

use crate::camera::{after_event, event_outcome, Camera, CameraAction, InputEvent, Key, Vec3};
use crate::pointcloud::{PointCloud, DEFAULT_POINT_SIZE};

verus! {

/// Bit pattern of `0.5`, each coordinate of the initial eye.
pub const HALF: u32 = 0x3f00_0000;

/// Bit pattern of `1.0`.
pub const ONE: u32 = 0x3f80_0000;

/// Bit pattern of `45.0`, the vertical field of view in degrees.
pub const FOVY_DEGREES: u32 = 0x4234_0000;

/// Who handled an input event, and what is left to do.
#[derive(Clone, Copy, Debug, PartialEq, Eq, Structural)]
pub enum Response {
    /// Nobody handled it.
    Ignored,
    /// The overlay claimed it.
    Ui,
    /// The camera handled it; the action is the step to perform.
    Camera(CameraAction),
    /// A point-size key was pressed: grow or shrink the billboards by one step.
    PointSize { grow: bool },
    /// A file was dropped: load it.
    Load,
}

/// Why the next surface image could not be acquired.
#[derive(Clone, Copy, Debug, PartialEq, Eq, Structural)]
pub enum SurfaceFailure {
    Lost,
    Outdated,
    OutOfMemory,
    Timeout,
}

/// How the frame loop reacts to a `SurfaceFailure`.
#[derive(Clone, Copy, Debug, PartialEq, Eq, Structural)]
pub enum Recovery {
    /// Configure the surface again at the current size; retry next frame.
    Reconfigure,
    /// Terminate the application.
    Exit,
}

pub struct Engine {
    pub width: u32,
    pub height: u32,
    pub camera: Camera,
    pub pointcloud: PointCloud,
}

/// The response to `ev` when the overlay reported `ui_consumed`.
pub open spec fn route(ui_consumed: bool, camera: Camera, ev: InputEvent) -> Response {
    if ui_consumed {
        Response::Ui
    } else if event_outcome(camera, ev).0 {
        Response::Camera(event_outcome(camera, ev).1)
    } else {
        match ev {
            InputEvent::Key { key: Key::J, pressed: true } => Response::PointSize { grow: false },
            InputEvent::Key { key: Key::K, pressed: true } => Response::PointSize { grow: true },
            InputEvent::FileDropped => Response::Load,
            _ => Response::Ignored,
        }
    }
}

pub open spec fn recovery_for(f: SurfaceFailure) -> Recovery {
    match f {
        SurfaceFailure::Lost | SurfaceFailure::Outdated => Recovery::Reconfigure,
        _ => Recovery::Exit,
    }
}

impl Engine {
    /// An engine for a surface of `width` by `height` pixels whose aspect
    /// ratio is `aspect`: the eye at (0.5, 0.5, 0.5) looks at the origin with
    /// +z up and a 45 degree field of view, and no point is loaded.
    pub fn new(width: u32, height: u32, aspect: u32) -> (r: Self)
        ensures
            r.width == width,
            r.height == height,
            r.camera.eye == (Vec3 { x: HALF, y: HALF, z: HALF }),
            r.camera.target == (Vec3 { x: 0, y: 0, z: 0 }),
            r.camera.up == (Vec3 { x: 0, y: 0, z: ONE }),
            r.camera.aspect == aspect,
            r.camera.fovy == FOVY_DEGREES,
            r.camera.mouse_right_position.is_none(),
            r.pointcloud.loaded(Seq::empty()),
            r.pointcloud@.point_size == DEFAULT_POINT_SIZE,
    {
        let camera = Camera::new(
            Vec3 { x: HALF, y: HALF, z: HALF },
            Vec3 { x: 0, y: 0, z: 0 },
            Vec3 { x: 0, y: 0, z: ONE },
            aspect,
            FOVY_DEGREES,
        );
        Engine { width, height, camera, pointcloud: PointCloud::new() }
    }

    pub fn size(&self) -> (r: (u32, u32))
        ensures
            r == (self.width, self.height),
    {
        (self.width, self.height)
    }

    /// The surface can be rendered to: both dimensions are non-zero.
    pub fn is_configured(&self) -> (r: bool)
        ensures
            r == (self.width > 0 && self.height > 0),
    {
        self.width > 0 && self.height > 0
    }

    /// Adopts a new surface size and camera aspect ratio, unless a dimension
    /// is zero: then nothing changes. Tells whether the size was adopted, in
    /// which case the caller reconfigures the surface and the depth buffer.
    pub fn resize(&mut self, width: u32, height: u32, aspect: u32) -> (applied: bool)
        ensures
            applied == (width > 0 && height > 0),
            applied ==> final(self).width == width && final(self).height == height
                && final(self).camera == (Camera { aspect, ..old(self).camera }),
            !applied ==> final(self).width == old(self).width && final(self).height == old(
                self,
            ).height && final(self).camera == old(self).camera,
            final(self).pointcloud@ == old(self).pointcloud@,
    {
        if width > 0 && height > 0 {
            self.width = width;
            self.height = height;
            self.camera.set_aspect(aspect);
            true
        } else {
            false
        }
    }

    /// Offers `ev` to the handlers in priority order; the first that takes
    /// it wins. `ui_consumed` is the overlay's verdict, which comes first.
    pub fn input(&mut self, ui_consumed: bool, ev: &InputEvent) -> (r: Response)
        ensures
            r == route(ui_consumed, old(self).camera, *ev),
            final(self).camera == (if ui_consumed {
                old(self).camera
            } else {
                after_event(old(self).camera, *ev)
            }),
            final(self).width == old(self).width,
            final(self).height == old(self).height,
            final(self).pointcloud@ == old(self).pointcloud@,
    {
        if ui_consumed {
            return Response::Ui;
        }
        let (consumed, action) = self.camera.process_event(ev);
        if consumed {
            return Response::Camera(action);
        }
        match *ev {
            InputEvent::Key { key: Key::J, pressed: true } => Response::PointSize { grow: false },
            InputEvent::Key { key: Key::K, pressed: true } => Response::PointSize { grow: true },
            InputEvent::FileDropped => Response::Load,
            _ => Response::Ignored,
        }
    }
}

/// `Lost` and `Outdated` are recovered by reconfiguring the surface;
/// `OutOfMemory` and `Timeout` end the application.
pub fn recover(failure: SurfaceFailure) -> (r: Recovery)
    ensures
        r == recovery_for(failure),
{
    match failure {
        SurfaceFailure::Lost | SurfaceFailure::Outdated => Recovery::Reconfigure,
        _ => Recovery::Exit,
    }
}

} // verus!
