use nbody::rendering::camera::{Camera, CameraModel, DragAction, FULL_TURN, ZOOM_MAX, ZOOM_MIN};

fn at(x: f32, y: f32) -> [u32; 2] {
    [x.to_bits(), y.to_bits()]
}

fn zoom_of(camera: &Camera) -> f32 {
    f32::from_bits(camera.state().zoom)
}

/// The product of a zoom step, as the caller computes it.
fn step(camera: &Camera, delta: f32) -> u32 {
    let zoom_speed = 0.1;
    (zoom_of(camera) * (1.0 + delta * zoom_speed)).to_bits()
}

#[test]
fn camera_constants_are_the_numbers_they_name() {
    assert_eq!(ZOOM_MIN, 0.1f32.to_bits());
    assert_eq!(ZOOM_MAX, 10.0f32.to_bits());
    assert_eq!(FULL_TURN, std::f32::consts::TAU.to_bits());
}

#[test]
fn a_new_camera_is_at_rest() {
    let camera = Camera::new(20.0f32.to_bits());
    assert_eq!(
        camera.state(),
        CameraModel {
            offset: at(0.0, 0.0),
            zoom: 1.0f32.to_bits(),
            rotation: 0.0f32.to_bits(),
            base_height: 20.0f32.to_bits(),
            mouse_pressed: false,
            last_mouse_position: at(0.0, 0.0),
            ctrl_pressed: false,
            shift_pressed: false,
        }
    );
}

#[test]
fn pan_takes_the_offset() {
    let mut camera = Camera::new(20.0f32.to_bits());
    let before = camera.state();
    camera.pan(at(3.5, -7.25));
    assert_eq!(camera.state(), CameraModel { offset: at(3.5, -7.25), ..before });
}

#[test]
fn zoom_by_nothing_changes_nothing() {
    let mut camera = Camera::new(20.0f32.to_bits());
    for delta in [3.0f32, -2.0, 50.0, -50.0, 0.7] {
        let scaled = step(&camera, delta);
        camera.zoom(scaled);
        let before = camera.state();
        let unchanged = step(&camera, 0.0);
        camera.zoom(unchanged);
        assert_eq!(camera.state(), before);
    }
}

#[test]
fn zoom_multiplies_and_clamps() {
    let mut camera = Camera::new(20.0f32.to_bits());
    let scaled = step(&camera, 5.0);
    camera.zoom(scaled);
    assert_eq!(zoom_of(&camera), 1.5);
    let scaled = step(&camera, -5.0);
    camera.zoom(scaled);
    assert_eq!(zoom_of(&camera), 0.75);
    let scaled = step(&camera, 200.0);
    camera.zoom(scaled);
    assert_eq!(zoom_of(&camera), 10.0);
}

#[test]
fn zoom_saturates_at_ten() {
    let mut camera = Camera::new(20.0f32.to_bits());
    for _ in 0..200 {
        let scaled = step(&camera, 1.0e6);
        camera.zoom(scaled);
        assert!(zoom_of(&camera) <= 10.0);
    }
    assert_eq!(zoom_of(&camera), 10.0);
    camera.zoom(f32::INFINITY.to_bits());
    assert_eq!(camera.state().zoom, ZOOM_MAX);
    camera.zoom(f32::MAX.to_bits());
    assert_eq!(camera.state().zoom, ZOOM_MAX);
}

#[test]
fn zoom_saturates_at_a_tenth() {
    let mut camera = Camera::new(20.0f32.to_bits());
    for _ in 0..200 {
        let scaled = step(&camera, -9.0);
        camera.zoom(scaled);
        assert!(zoom_of(&camera) >= 0.1);
    }
    assert_eq!(zoom_of(&camera), 0.1);
    let scaled = step(&camera, -1.0e6);
    camera.zoom(scaled);
    assert_eq!(camera.state().zoom, ZOOM_MIN);
    camera.zoom((-0.0f32).to_bits());
    assert_eq!(camera.state().zoom, ZOOM_MIN);
    camera.zoom(f32::NEG_INFINITY.to_bits());
    assert_eq!(camera.state().zoom, ZOOM_MIN);
}

#[test]
fn zoom_drops_a_product_that_is_not_a_number() {
    let mut camera = Camera::new(20.0f32.to_bits());
    camera.zoom(2.0f32.to_bits());
    let before = camera.state();
    camera.zoom(f32::NAN.to_bits());
    assert_eq!(camera.state(), before);
    camera.zoom((-f32::NAN).to_bits());
    assert_eq!(camera.state(), before);
}

#[test]
fn zoom_agrees_with_clamp_on_the_numbers() {
    let mut camera = Camera::new(20.0f32.to_bits());
    for x in [0.0f32, 0.05, 0.1, 0.100001, 0.5, 1.0, 9.99, 10.0, 10.01, 1e30, -3.0, 1e-30] {
        camera.zoom(x.to_bits());
        assert_eq!(zoom_of(&camera), x.clamp(0.1, 10.0));
    }
}

#[test]
fn rotate_takes_a_wrapped_rotation_and_drops_any_other() {
    let mut camera = Camera::new(20.0f32.to_bits());
    assert!(camera.rotate(1.25f32.to_bits()));
    assert_eq!(f32::from_bits(camera.state().rotation), 1.25);
    assert!(camera.rotate(0.0f32.to_bits()));
    assert_eq!(f32::from_bits(camera.state().rotation), 0.0);
    assert!(camera.rotate(6.28f32.to_bits()));
    let before = camera.state();
    for bad in [std::f32::consts::TAU, 7.0, -0.5, -0.0, f32::NAN, f32::INFINITY] {
        assert!(!camera.rotate(bad.to_bits()));
        assert_eq!(camera.state(), before);
    }
}

#[test]
fn rotating_in_steps_past_a_full_turn_stays_wrapped() {
    let mut camera = Camera::new(20.0f32.to_bits());
    let mut total = 0.0f32;
    let mut previous = 0.0f32;
    while total < 2.5 * std::f32::consts::TAU {
        let delta = 37.0f32;
        let mut rotation = f32::from_bits(camera.state().rotation) + delta * 0.01;
        while rotation >= std::f32::consts::TAU {
            rotation -= std::f32::consts::TAU;
        }
        while rotation < 0.0 {
            rotation += std::f32::consts::TAU;
        }
        assert!(camera.rotate(rotation.to_bits()));
        let now = f32::from_bits(camera.state().rotation);
        assert!(now >= 0.0 && now < std::f32::consts::TAU);
        let jump = (now - previous).abs();
        assert!(jump <= std::f32::consts::TAU);
        assert!((jump - 0.37).abs() < 1e-4 || (jump - (std::f32::consts::TAU - 0.37)).abs() < 1e-4);
        previous = now;
        total += delta * 0.01;
    }
}

#[test]
fn a_press_remembers_position_and_modifiers() {
    let mut camera = Camera::new(20.0f32.to_bits());
    let before = camera.state();
    camera.handle_mouse_press(at(10.0, 20.0), true, false);
    assert_eq!(
        camera.state(),
        CameraModel {
            mouse_pressed: true,
            last_mouse_position: at(10.0, 20.0),
            ctrl_pressed: true,
            shift_pressed: false,
            ..before
        }
    );
}

#[test]
fn a_move_without_a_press_does_nothing() {
    let mut camera = Camera::new(20.0f32.to_bits());
    camera.handle_key_state(true, true);
    let before = camera.state();
    assert_eq!(camera.handle_mouse_move(at(5.0, 5.0)), DragAction::Idle);
    assert_eq!(camera.state(), before);
}

#[test]
fn a_press_without_a_modifier_does_not_drag() {
    let mut camera = Camera::new(20.0f32.to_bits());
    camera.handle_mouse_press(at(10.0, 20.0), false, false);
    let before = camera.state();
    assert_eq!(camera.handle_mouse_move(at(15.0, 25.0)), DragAction::Idle);
    assert_eq!(camera.state(), before);
    assert_eq!(camera.state().last_mouse_position, at(10.0, 20.0));
}

#[test]
fn ctrl_drag_pans_and_follows_the_mouse() {
    let mut camera = Camera::new(20.0f32.to_bits());
    camera.handle_mouse_press(at(10.0, 20.0), true, false);
    assert_eq!(
        camera.handle_mouse_move(at(15.0, 26.0)),
        DragAction::Pan { from: at(10.0, 20.0), to: at(15.0, 26.0) }
    );
    assert_eq!(camera.state().last_mouse_position, at(15.0, 26.0));
    assert_eq!(
        camera.handle_mouse_move(at(16.0, 26.0)),
        DragAction::Pan { from: at(15.0, 26.0), to: at(16.0, 26.0) }
    );
    assert!(camera.state().mouse_pressed);
}

#[test]
fn shift_drag_rotates() {
    let mut camera = Camera::new(20.0f32.to_bits());
    camera.handle_mouse_press(at(1.0, 2.0), false, true);
    assert_eq!(
        camera.handle_mouse_move(at(4.0, 2.0)),
        DragAction::Rotate { from: at(1.0, 2.0), to: at(4.0, 2.0) }
    );
    assert_eq!(camera.state().last_mouse_position, at(4.0, 2.0));
}

#[test]
fn ctrl_wins_over_shift() {
    let mut camera = Camera::new(20.0f32.to_bits());
    camera.handle_mouse_press(at(1.0, 2.0), true, true);
    assert_eq!(
        camera.handle_mouse_move(at(4.0, 2.0)),
        DragAction::Pan { from: at(1.0, 2.0), to: at(4.0, 2.0) }
    );
}

#[test]
fn a_modifier_taken_up_during_a_press_starts_the_drag() {
    let mut camera = Camera::new(20.0f32.to_bits());
    camera.handle_mouse_press(at(1.0, 2.0), false, false);
    assert_eq!(camera.handle_mouse_move(at(2.0, 2.0)), DragAction::Idle);
    camera.handle_key_state(false, true);
    assert_eq!(
        camera.handle_mouse_move(at(3.0, 2.0)),
        DragAction::Rotate { from: at(1.0, 2.0), to: at(3.0, 2.0) }
    );
}

#[test]
fn release_ends_the_drag() {
    let mut camera = Camera::new(20.0f32.to_bits());
    camera.handle_mouse_press(at(1.0, 2.0), true, false);
    camera.handle_mouse_release();
    assert!(!camera.state().mouse_pressed);
    assert!(camera.state().ctrl_pressed);
    let before = camera.state();
    assert_eq!(camera.handle_mouse_move(at(9.0, 9.0)), DragAction::Idle);
    assert_eq!(camera.state(), before);
}

#[test]
fn the_wheel_zooms() {
    let mut camera = Camera::new(20.0f32.to_bits());
    let scaled = step(&camera, 2.0);
    camera.handle_mouse_wheel(scaled);
    assert_eq!(zoom_of(&camera), 1.2);
    camera.handle_mouse_wheel(1.0e9f32.to_bits());
    assert_eq!(zoom_of(&camera), 10.0);
}

#[test]
fn key_state_sets_the_modifiers_only() {
    let mut camera = Camera::new(20.0f32.to_bits());
    let before = camera.state();
    camera.handle_key_state(true, true);
    assert_eq!(camera.state(), CameraModel { ctrl_pressed: true, shift_pressed: true, ..before });
    camera.handle_key_state(false, false);
    assert_eq!(camera.state(), before);
}
