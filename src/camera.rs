//! Orbit camera: pose, projection parameters and the interaction state that
//! turns raw input into orbit, zoom and bird's-eye requests.
//!
//! Every real-valued quantity is a single-precision bit pattern (see
//! `scalar`). The vector arithmetic of an orbit or zoom step is carried out by
//! the caller from the action returned here; the camera decides which step is
//! taken and whether its outcome is accepted.
use vstd::prelude::*;

use crate::scalar::{is_positive, is_zero, positive, zero};

verus! {

/// Bit pattern of `0.01`, the near clip plane.
pub const ZNEAR: u32 = 0x3c23_d70a;

/// Bit pattern of `100.0`, the far clip plane.
pub const ZFAR: u32 = 0x42c8_0000;

/// A point or direction in space, each coordinate a bit pattern.
#[derive(Clone, Copy, Debug, PartialEq, Eq, Structural)]
pub struct Vec3 {
    pub x: u32,
    pub y: u32,
    pub z: u32,
}

/// Keys the viewer reacts to.
#[derive(Clone, Copy, Debug, PartialEq, Eq, Structural)]
pub enum Key {
    W,
    A,
    S,
    D,
    ArrowUp,
    ArrowDown,
    ArrowLeft,
    ArrowRight,
    B,
    J,
    K,
    Other,
}

/// A window input event, reduced to what the viewer reads.
#[derive(Clone, Copy, Debug, PartialEq, Eq, Structural)]
pub enum InputEvent {
    /// A mouse button changed state; `right` tells the right button apart.
    MouseButton { right: bool, pressed: bool },
    /// Wheel scroll measured in lines; `dy` is the vertical line count.
    LineScroll { dy: u32 },
    /// Wheel scroll measured in pixels.
    PixelScroll,
    /// The pointer moved to logical position (`x`, `y`).
    CursorMoved { x: u32, y: u32 },
    /// A key with a physical code changed state.
    Key { key: Key, pressed: bool },
    /// A file was dropped onto the window.
    FileDropped,
    /// Anything else.
    Other,
}

/// The geometric step that the caller performs after an event.
#[derive(Clone, Copy, Debug, PartialEq, Eq, Structural)]
pub enum CameraAction {
    Nothing,
    /// Move the eye along the view direction by `dy` scroll lines.
    Zoom { dy: u32 },
    /// Orbit by the pointer travel from (`from_x`, `from_y`) to (`to_x`, `to_y`).
    Rotate { from_x: u32, from_y: u32, to_x: u32, to_y: u32 },
    /// Orbit with the extreme vertical delta that snaps to a top-down view.
    Birdeye,
}

pub struct Camera {
    pub eye: Vec3,
    pub target: Vec3,
    pub up: Vec3,
    pub aspect: u32,
    pub fovy: u32,
    pub znear: u32,
    pub zfar: u32,
    /// Drag anchor while the right button is held; (0, 0) means not yet set.
    pub mouse_right_position: Option<(u32, u32)>,
    pub is_left_pressed: bool,
    pub is_right_pressed: bool,
    pub is_up_pressed: bool,
    pub is_down_pressed: bool,
}

/// Everything but the eye and the interaction state: what no event changes.
pub open spec fn same_frame(a: Camera, b: Camera) -> bool {
    &&& a.target == b.target
    &&& a.up == b.up
    &&& a.aspect == b.aspect
    &&& a.fovy == b.fovy
    &&& a.znear == b.znear
    &&& a.zfar == b.zfar
}

pub open spec fn same_keys(a: Camera, b: Camera) -> bool {
    &&& a.is_left_pressed == b.is_left_pressed
    &&& a.is_right_pressed == b.is_right_pressed
    &&& a.is_up_pressed == b.is_up_pressed
    &&& a.is_down_pressed == b.is_down_pressed
}

/// The outcome of `process_event` on camera `c`: whether the event is
/// consumed, the action to perform, and the new drag anchor.
pub open spec fn event_outcome(c: Camera, ev: InputEvent) -> (bool, CameraAction, Option<(u32, u32)>) {
    let anchor = c.mouse_right_position;
    match ev {
        InputEvent::MouseButton { right, pressed } => {
            if !right {
                (false, CameraAction::Nothing, anchor)
            } else if pressed {
                (true, CameraAction::Nothing, Some((0u32, 0u32)))
            } else {
                (true, CameraAction::Nothing, None)
            }
        },
        InputEvent::LineScroll { dy } => (true, CameraAction::Zoom { dy }, anchor),
        InputEvent::CursorMoved { x, y } => {
            match anchor {
                None => (false, CameraAction::Nothing, anchor),
                Some((ax, ay)) => {
                    if zero(ax) && zero(ay) {
                        (true, CameraAction::Nothing, Some((x, y)))
                    } else {
                        (
                            true,
                            CameraAction::Rotate { from_x: ax, from_y: ay, to_x: x, to_y: y },
                            Some((x, y)),
                        )
                    }
                },
            }
        },
        InputEvent::Key { key, pressed: _ } => {
            match key {
                Key::W | Key::ArrowUp | Key::S | Key::ArrowDown | Key::A | Key::ArrowLeft
                | Key::D | Key::ArrowRight => (true, CameraAction::Nothing, anchor),
                Key::B => (true, CameraAction::Birdeye, anchor),
                _ => (false, CameraAction::Nothing, anchor),
            }
        },
        _ => (false, CameraAction::Nothing, anchor),
    }
}

/// The movement flags after a key event: each key sets the flag of its
/// direction to its pressed state.
pub open spec fn keys_after(c: Camera, ev: InputEvent) -> (bool, bool, bool, bool) {
    let flags = (c.is_up_pressed, c.is_down_pressed, c.is_left_pressed, c.is_right_pressed);
    match ev {
        InputEvent::Key { key, pressed } => {
            match key {
                Key::W | Key::ArrowUp => (pressed, flags.1, flags.2, flags.3),
                Key::S | Key::ArrowDown => (flags.0, pressed, flags.2, flags.3),
                Key::A | Key::ArrowLeft => (flags.0, flags.1, pressed, flags.3),
                Key::D | Key::ArrowRight => (flags.0, flags.1, flags.2, pressed),
                _ => flags,
            }
        },
        _ => flags,
    }
}

/// The camera after `process_event(ev)`: the drag anchor and the movement
/// flags change; the pose and projection do not.
pub open spec fn after_event(c: Camera, ev: InputEvent) -> Camera {
    let keys = keys_after(c, ev);
    Camera {
        mouse_right_position: event_outcome(c, ev).2,
        is_up_pressed: keys.0,
        is_down_pressed: keys.1,
        is_left_pressed: keys.2,
        is_right_pressed: keys.3,
        ..c
    }
}

/// The camera after an orbit or zoom step proposed `candidate` as the eye:
/// adopted when strictly above the z = 0 plane, otherwise rejected.
pub open spec fn after_offer(c: Camera, candidate: Vec3) -> Camera {
    if positive(candidate.z) {
        Camera { eye: candidate, ..c }
    } else {
        c
    }
}

/// The camera after the outcomes of a sequence of orbit and zoom steps.
pub open spec fn after_offers(c: Camera, candidates: Seq<Vec3>) -> Camera
    decreases candidates.len(),
{
    if candidates.len() == 0 {
        c
    } else {
        after_offer(after_offers(c, candidates.drop_last()), candidates.last())
    }
}

/// However many orbit and zoom steps are taken, the target, the up vector and
/// the projection stay as they were, and an eye that starts above the z = 0
/// plane stays above it; every step that would put it on or below the plane
/// leaves the camera unchanged.
pub proof fn lemma_steps_keep_target_and_ground(c: Camera, candidates: Seq<Vec3>)
    ensures
        same_frame(c, after_offers(c, candidates)),
        same_keys(c, after_offers(c, candidates)),
        positive(c.eye.z) ==> positive(after_offers(c, candidates).eye.z),
        forall|i: int|
            0 <= i < candidates.len() && !positive(#[trigger] candidates[i].z) ==> after_offers(
                c,
                candidates.subrange(0, i + 1),
            ) == after_offers(c, candidates.subrange(0, i)),
    decreases candidates.len(),
{
    if candidates.len() > 0 {
        let rest = candidates.drop_last();
        lemma_steps_keep_target_and_ground(c, rest);
        assert forall|i: int|
            0 <= i < candidates.len() && !positive(#[trigger] candidates[i].z) implies after_offers(
                c,
                candidates.subrange(0, i + 1),
            ) == after_offers(c, candidates.subrange(0, i)) by {
            assert(candidates.subrange(0, i + 1).drop_last() =~= candidates.subrange(0, i));
            if i < candidates.len() - 1 {
                assert(candidates.subrange(0, i + 1) =~= rest.subrange(0, i + 1));
                assert(candidates.subrange(0, i) =~= rest.subrange(0, i));
            }
        }
    }
}

impl Camera {
    pub fn new(eye: Vec3, target: Vec3, up: Vec3, aspect: u32, fovy: u32) -> (r: Self)
        ensures
            r.eye == eye,
            r.target == target,
            r.up == up,
            r.aspect == aspect,
            r.fovy == fovy,
            r.znear == ZNEAR,
            r.zfar == ZFAR,
            r.mouse_right_position.is_none(),
            !r.is_left_pressed,
            !r.is_right_pressed,
            !r.is_up_pressed,
            !r.is_down_pressed,
    {
        Camera {
            eye,
            target,
            up,
            aspect,
            fovy,
            znear: ZNEAR,
            zfar: ZFAR,
            mouse_right_position: None,
            is_left_pressed: false,
            is_right_pressed: false,
            is_up_pressed: false,
            is_down_pressed: false,
        }
    }

    /// Updates the interaction state for `ev` and tells whether the camera
    /// handled it and which step the caller must perform. The pose is left
    /// as it is: the step's outcome comes back through `offer_eye`.
    pub fn process_event(&mut self, ev: &InputEvent) -> (r: (bool, CameraAction))
        ensures
            r.0 == event_outcome(*old(self), *ev).0,
            r.1 == event_outcome(*old(self), *ev).1,
            *final(self) == after_event(*old(self), *ev),
            final(self).eye == old(self).eye,
            same_frame(*old(self), *final(self)),
    {
        match *ev {
            InputEvent::MouseButton { right, pressed } => {
                if !right {
                    return (false, CameraAction::Nothing);
                }
                if pressed {
                    self.mouse_right_position = Some((0, 0));
                } else {
                    self.mouse_right_position = None;
                }
                (true, CameraAction::Nothing)
            },
            InputEvent::LineScroll { dy } => (true, CameraAction::Zoom { dy }),
            InputEvent::CursorMoved { x, y } => {
                match self.mouse_right_position {
                    None => (false, CameraAction::Nothing),
                    Some((ax, ay)) => {
                        self.mouse_right_position = Some((x, y));
                        if is_zero(ax) && is_zero(ay) {
                            (true, CameraAction::Nothing)
                        } else {
                            (true, CameraAction::Rotate { from_x: ax, from_y: ay, to_x: x, to_y: y })
                        }
                    },
                }
            },
            InputEvent::Key { key, pressed } => {
                match key {
                    Key::W | Key::ArrowUp => self.is_up_pressed = pressed,
                    Key::S | Key::ArrowDown => self.is_down_pressed = pressed,
                    Key::A | Key::ArrowLeft => self.is_left_pressed = pressed,
                    Key::D | Key::ArrowRight => self.is_right_pressed = pressed,
                    Key::B => return (true, CameraAction::Birdeye),
                    _ => return (false, CameraAction::Nothing),
                }
                (true, CameraAction::Nothing)
            },
            _ => (false, CameraAction::Nothing),
        }
    }

    /// Accepts `candidate` as the new eye when it lies strictly above the
    /// z = 0 plane; otherwise the camera is left unchanged.
    pub fn offer_eye(&mut self, candidate: Vec3) -> (accepted: bool)
        ensures
            accepted == positive(candidate.z),
            *final(self) == after_offer(*old(self), candidate),
            positive(old(self).eye.z) ==> positive(final(self).eye.z),
            same_frame(*old(self), *final(self)),
    {
        if is_positive(candidate.z) {
            self.eye = candidate;
            true
        } else {
            false
        }
    }

    pub fn set_aspect(&mut self, aspect: u32)
        ensures
            *final(self) == (Camera { aspect, ..*old(self) }),
    {
        self.aspect = aspect;
    }
}

} // verus!
