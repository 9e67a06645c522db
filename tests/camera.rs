use editor::camera::{
    classify_mode, zoom_radius, CameraInput, CameraMode, PanOrbitCamera, DEFAULT_RADIUS,
    MAX_RADIUS, MIN_RADIUS, RADIUS_SCALE,
};
use editor::ui::unpack_name;

fn input(orbit: bool, pan: bool, toggled: bool, moved: bool, scroll: i64, flipped: bool) -> CameraInput {
    CameraInput {
        orbit_pressed: orbit,
        pan_pressed: pan,
        orbit_toggled: toggled,
        motion_nonzero: moved,
        scroll,
        camera_flipped: flipped,
    }
}

#[test]
fn scroll_one_line_from_radius_ten() {
    let mut cam = PanOrbitCamera::new((0.0f32, 0.0f32, 0.0f32), 10 * RADIUS_SCALE);
    let mode = cam.pan_orbit_camera(&input(false, false, false, false, RADIUS_SCALE as i64, false));
    assert_eq!(mode, CameraMode::Zoom);
    assert_eq!(cam.radius(), 8 * RADIUS_SCALE);
    assert_eq!(zoom_radius(100_000, 10_000), 80_000);
}

#[test]
fn zoom_out_grows_radius() {
    assert_eq!(zoom_radius(100_000, -10_000), 120_000);
}

#[test]
fn huge_scroll_clamps_to_floor() {
    assert_eq!(zoom_radius(100_000, 50_000), MIN_RADIUS);
    assert_eq!(zoom_radius(100_000, 1_000_000), MIN_RADIUS);
    assert_eq!(zoom_radius(100_000, i64::MAX), MIN_RADIUS);
    assert_eq!(zoom_radius(MIN_RADIUS, 10_000), MIN_RADIUS);
}

#[test]
fn huge_negative_scroll_clamps_to_ceiling() {
    assert_eq!(zoom_radius(MAX_RADIUS, i64::MIN), MAX_RADIUS);
    assert_eq!(zoom_radius(100_000, i64::MIN), MAX_RADIUS);
}

#[test]
fn repeated_zoom_never_reaches_floor_from_above_zero() {
    let mut cam = PanOrbitCamera::new(0u8, DEFAULT_RADIUS);
    for _ in 0..200 {
        cam.pan_orbit_camera(&input(false, false, false, false, 3 * RADIUS_SCALE as i64, false));
        assert!(cam.radius() >= MIN_RADIUS);
        assert!(cam.radius() > 0);
    }
    assert_eq!(cam.radius(), MIN_RADIUS);
}

#[test]
fn new_clamps_radius() {
    assert_eq!(PanOrbitCamera::new(0u8, 0).radius(), MIN_RADIUS);
    assert_eq!(PanOrbitCamera::new(0u8, u64::MAX).radius(), MAX_RADIUS);
    assert_eq!(PanOrbitCamera::new(0u8, 12_345).radius(), 12_345);
    let cam = PanOrbitCamera::with_focus(7u8);
    assert_eq!(cam.radius(), DEFAULT_RADIUS);
    assert_eq!(*cam.focus(), 7);
    assert!(!cam.upside_down());
}

#[test]
fn mode_priority() {
    assert_eq!(classify_mode(&input(true, true, false, true, 5, false)), CameraMode::Orbit);
    assert_eq!(classify_mode(&input(false, true, false, true, 5, false)), CameraMode::Pan);
    assert_eq!(classify_mode(&input(false, false, false, true, 5, false)), CameraMode::Zoom);
    assert_eq!(classify_mode(&input(false, false, false, true, 0, false)), CameraMode::Idle);
    // orbit held without motion: the pan button is ignored, scrolling zooms
    assert_eq!(classify_mode(&input(true, true, false, false, 5, false)), CameraMode::Zoom);
    assert_eq!(classify_mode(&input(true, true, false, false, 0, false)), CameraMode::Idle);
}

#[test]
fn still_mouse_neither_orbits_nor_pans() {
    let mut cam = PanOrbitCamera::new((1.0f32, 2.0f32, 3.0f32), DEFAULT_RADIUS);
    let mode = cam.pan_orbit_camera(&input(true, false, false, false, 0, false));
    assert_eq!(mode, CameraMode::Idle);
    let mode = cam.pan_orbit_camera(&input(false, true, false, false, 0, false));
    assert_eq!(mode, CameraMode::Idle);
    assert_eq!(*cam.focus(), (1.0, 2.0, 3.0));
    assert_eq!(cam.radius(), DEFAULT_RADIUS);
}

#[test]
fn flip_only_on_orbit_edges() {
    let mut cam = PanOrbitCamera::new(0u8, DEFAULT_RADIUS);
    // press: camera is flipped at that moment
    cam.pan_orbit_camera(&input(true, false, true, true, 0, true));
    assert!(cam.upside_down());
    // held drag: the camera crosses the horizon, the flag stays
    cam.pan_orbit_camera(&input(true, false, false, true, 0, false));
    assert!(cam.upside_down());
    // release: recomputed
    cam.pan_orbit_camera(&input(false, false, true, false, 0, false));
    assert!(!cam.upside_down());
}

#[test]
fn set_focus_keeps_radius_and_flag() {
    let mut cam = PanOrbitCamera::new(1i32, 20_000);
    cam.set_focus(5);
    assert_eq!(*cam.focus(), 5);
    assert_eq!(cam.radius(), 20_000);
    assert!(!cam.upside_down());
}

#[test]
fn unnamed_objects_get_a_label() {
    assert_eq!(unpack_name(None), "Unnamed");
    assert_eq!(unpack_name(Some("Cuboid")), "Cuboid");
}
