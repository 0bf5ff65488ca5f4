use pcvisualizer::camera::{CameraAction, InputEvent, Key, Vec3};
use pcvisualizer::engine::{recover, Engine, Recovery, Response, SurfaceFailure};
use pcvisualizer::geometry::Cylinder;

fn engine() -> Engine {
    Engine::new(1280, 720, (1280.0f32 / 720.0).to_bits())
}

#[test]
fn initial_pose() {
    let e = engine();
    assert_eq!(e.camera.eye, Vec3 { x: 0.5f32.to_bits(), y: 0.5f32.to_bits(), z: 0.5f32.to_bits() });
    assert_eq!(e.camera.up, Vec3 { x: 0, y: 0, z: 1.0f32.to_bits() });
    assert_eq!(e.camera.fovy, 45.0f32.to_bits());
    assert_eq!(e.size(), (1280, 720));
    assert!(e.is_configured());
}

#[test]
fn resize_with_zero_dimension_is_ignored() {
    let mut e = engine();
    let aspect = e.camera.aspect;
    assert!(!e.resize(0, 600, 0));
    assert!(!e.resize(800, 0, 0));
    assert_eq!(e.size(), (1280, 720));
    assert_eq!(e.camera.aspect, aspect);
    assert!(e.resize(800, 600, (800.0f32 / 600.0).to_bits()));
    assert_eq!(e.size(), (800, 600));
    assert_eq!(e.camera.aspect, (800.0f32 / 600.0).to_bits());
}

#[test]
fn unconfigured_until_sized() {
    let mut e = Engine::new(0, 0, 0);
    assert!(!e.is_configured());
    assert!(e.resize(10, 10, 1.0f32.to_bits()));
    assert!(e.is_configured());
}

#[test]
fn overlay_wins_over_camera() {
    let mut e = engine();
    let ev = InputEvent::MouseButton { right: true, pressed: true };
    assert_eq!(e.input(true, &ev), Response::Ui);
    assert!(e.camera.mouse_right_position.is_none());
    assert_eq!(e.input(false, &ev), Response::Camera(CameraAction::Nothing));
    assert_eq!(e.camera.mouse_right_position, Some((0, 0)));
}

#[test]
fn point_size_keys_on_press_only() {
    let mut e = engine();
    assert_eq!(e.input(false, &InputEvent::Key { key: Key::J, pressed: true }), Response::PointSize { grow: false });
    assert_eq!(e.input(false, &InputEvent::Key { key: Key::K, pressed: true }), Response::PointSize { grow: true });
    assert_eq!(e.input(false, &InputEvent::Key { key: Key::K, pressed: false }), Response::Ignored);
    assert_eq!(e.input(false, &InputEvent::Key { key: Key::Other, pressed: true }), Response::Ignored);
}

#[test]
fn camera_keys_before_shortcuts() {
    let mut e = engine();
    assert_eq!(e.input(false, &InputEvent::Key { key: Key::B, pressed: true }), Response::Camera(CameraAction::Birdeye));
    assert_eq!(e.input(false, &InputEvent::Key { key: Key::S, pressed: true }), Response::Camera(CameraAction::Nothing));
    assert!(e.camera.is_down_pressed);
}

#[test]
fn dropped_file_requests_load() {
    let mut e = engine();
    assert_eq!(e.input(false, &InputEvent::FileDropped), Response::Load);
    assert_eq!(e.input(false, &InputEvent::Other), Response::Ignored);
    assert_eq!(e.input(false, &InputEvent::PixelScroll), Response::Ignored);
}

#[test]
fn surface_failures() {
    assert_eq!(recover(SurfaceFailure::Lost), Recovery::Reconfigure);
    assert_eq!(recover(SurfaceFailure::Outdated), Recovery::Reconfigure);
    assert_eq!(recover(SurfaceFailure::OutOfMemory), Recovery::Exit);
    assert_eq!(recover(SurfaceFailure::Timeout), Recovery::Exit);
}

#[test]
fn cylinders_are_handed_out_by_index() {
    let mut arena = Cylinder::new();
    assert_eq!(arena.add_cylinder(), 0);
    assert_eq!(arena.add_cylinder(), 1);
    assert_eq!(arena.objects.len(), 2);
    assert!(arena.object(1).vertices.is_empty());
    assert!(arena.object(0).indices.is_empty());
}
