use voxel_render::camera::{CameraController, Movement};
use voxel_render::event::{Frame, KeyCode, WindowEvent};
use voxel_render::state::{State, INIT_HEIGHT, INIT_WIDTH};

const STILL: Movement = Movement { forward: 0, right: 0, up: 0 };

#[test]
fn new_state_has_the_initial_size_and_no_key_held() {
    let state = State::new(42);
    assert_eq!((INIT_WIDTH, INIT_HEIGHT), (800, 600));
    assert_eq!(state.width(), 800);
    assert_eq!(state.height(), 600);
    assert_eq!(state.camera_controller(), CameraController::new());
}

#[test]
fn resize_to_zero_width_changes_nothing() {
    let mut state = State::new(0);
    state.resize(1024, 768);
    assert!(!state.resize(0, 600));
    assert_eq!((state.width(), state.height()), (1024, 768));
}

#[test]
fn resize_to_zero_height_or_both_zero_changes_nothing() {
    let mut state = State::new(0);
    assert!(!state.resize(800, 0));
    assert!(!state.resize(0, 0));
    assert_eq!((state.width(), state.height()), (800, 600));
}

#[test]
fn resize_to_a_real_size_takes_effect() {
    let mut state = State::new(0);
    assert!(state.resize(1, 1));
    assert_eq!((state.width(), state.height()), (1, 1));
    assert!(state.resize(u32::MAX, 3));
    assert_eq!((state.width(), state.height()), (u32::MAX, 3));
}

#[test]
fn resize_leaves_keys_and_clock_alone() {
    let mut state = State::new(1_000_000_000);
    state.device_input(KeyCode::KeyS, true);
    state.resize(640, 480);
    let frame = state.render(1_500_000_000);
    assert_eq!(
        frame,
        Frame {
            width: 640,
            height: 480,
            millis_elapsed: 500,
            elapsed: 500_000_000,
            movement: Movement { forward: -1, right: 0, up: 0 },
        }
    );
}

#[test]
fn first_frame_at_the_start_has_no_time_elapsed() {
    let mut state = State::new(7_000);
    assert_eq!(
        state.render(7_000),
        Frame { width: 800, height: 600, millis_elapsed: 0, elapsed: 0, movement: STILL }
    );
}

#[test]
fn frames_measure_time_since_start_and_since_the_frame_before() {
    let mut state = State::new(10_000_000);
    let first = state.render(26_000_000);
    assert_eq!(first.millis_elapsed, 16);
    assert_eq!(first.elapsed, 16_000_000);
    let second = state.render(43_999_999);
    assert_eq!(second.millis_elapsed, 33);
    assert_eq!(second.elapsed, 17_999_999);
    let third = state.render(43_999_999);
    assert_eq!(third.millis_elapsed, 33);
    assert_eq!(third.elapsed, 0);
}

#[test]
fn half_a_second_with_forward_held() {
    let mut state = State::new(0);
    state.device_input(KeyCode::KeyW, true);
    let frame = state.render(500_000_000);
    assert_eq!(frame.elapsed, 500_000_000);
    assert_eq!(frame.movement, Movement { forward: 1, right: 0, up: 0 });
}

#[test]
fn clock_reading_before_the_last_frame_counts_as_no_time() {
    let mut state = State::new(5_000_000_000);
    state.render(6_000_000_000);
    let frame = state.render(5_500_000_000);
    assert_eq!(frame.elapsed, 0);
    assert_eq!(frame.millis_elapsed, 500);
    let frame = state.render(4_000_000_000);
    assert_eq!(frame.elapsed, 0);
    assert_eq!(frame.millis_elapsed, 0);
    let frame = state.render(5_000_000_000);
    assert_eq!(frame.elapsed, 1_000_000_000);
}

#[test]
fn milliseconds_wrap_at_32_bits() {
    let mut state = State::new(0);
    let wrap: u128 = (1u128 << 32) * 1_000_000;
    assert_eq!(state.render(wrap - 1).millis_elapsed, u32::MAX);
    assert_eq!(state.render(wrap).millis_elapsed, 0);
    assert_eq!(state.render(wrap + 5_000_000).millis_elapsed, 5);
    assert_eq!(state.render(u128::MAX).millis_elapsed, ((u128::MAX / 1_000_000) % (1 << 32)) as u32);
}

#[test]
fn device_input_reaches_the_controller() {
    let mut state = State::new(0);
    state.device_input(KeyCode::Space, true);
    state.device_input(KeyCode::KeyA, true);
    state.device_input(KeyCode::Other, true);
    assert_eq!(
        state.camera_controller(),
        CameraController {
            forward: false,
            backward: false,
            left: true,
            right: false,
            up: true,
            down: false,
        }
    );
    assert_eq!((state.width(), state.height()), (800, 600));
}

#[test]
fn update_and_window_input_change_nothing() {
    let mut state = State::new(100);
    state.device_input(KeyCode::KeyD, true);
    state.resize(320, 200);
    state.update();
    state.window_input(WindowEvent::Other);
    state.window_input(WindowEvent::Resized { width: 1, height: 1 });
    state.window_input(WindowEvent::KeyboardInput { key: KeyCode::KeyW, pressed: true });
    assert_eq!(
        state.render(100),
        Frame {
            width: 320,
            height: 200,
            millis_elapsed: 0,
            elapsed: 0,
            movement: Movement { forward: 0, right: 1, up: 0 },
        }
    );
}
