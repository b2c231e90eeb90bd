use roki::joystick::{joystick_motion, left_half_calibration, right_half_calibration, Rotation};
use roki::motion::Motion;
use roki::trackball::{
    combine_delta, poll_begin, poll_step, read_frame, read_reply, startup_begin, startup_step,
    write_frame, PollState, SensorAction, StartupEvent, StartupState, CPI_1600, REG_CONFIG1,
    REG_DELTA_X_H, REG_DELTA_X_L, REG_DELTA_Y_H, REG_DELTA_Y_L, REG_MOTION, REG_PRODUCT_ID,
};

fn m(x: i16, y: i16) -> Motion {
    Motion { x, y, z: 0 }
}

#[test]
fn right_calibration_values() {
    let cal = right_half_calibration();
    assert_eq!(cal.center_x, 1900);
    assert_eq!(cal.center_y, 1900);
    assert_eq!(cal.scale, 128);
    assert_eq!(cal.dead_zone, 1);
    assert_eq!(cal.rotation, Rotation::Clockwise);
}

#[test]
fn left_calibration_values() {
    let cal = left_half_calibration();
    assert_eq!(cal.center_x, 7500);
    assert_eq!(cal.center_y, 7500);
    assert_eq!(cal.scale, 64);
    assert_eq!(cal.dead_zone, 4);
    assert_eq!(cal.rotation, Rotation::CounterClockwise);
}

#[test]
fn joystick_at_rest_is_still() {
    assert_eq!(joystick_motion(&right_half_calibration(), 1900, 1900), m(0, 0));
    assert_eq!(joystick_motion(&left_half_calibration(), 7500, 7500), m(0, 0));
}

#[test]
fn joystick_clockwise_push_along_x_is_diagonal() {
    // x = 1280: rotated (905, -905), scaled by 128 to (7, -7).
    assert_eq!(joystick_motion(&right_half_calibration(), 3180, 1900), m(7, -7));
}

#[test]
fn joystick_clockwise_push_along_y_is_diagonal() {
    assert_eq!(joystick_motion(&right_half_calibration(), 1900, 3180), m(7, 7));
}

#[test]
fn joystick_is_point_symmetric() {
    assert_eq!(joystick_motion(&right_half_calibration(), 620, 1900), m(-7, 7));
}

#[test]
fn joystick_counter_clockwise_rotation() {
    let cal = left_half_calibration();
    assert_eq!(joystick_motion(&cal, 8140, 7500), m(7, 7));
    assert_eq!(joystick_motion(&cal, 7500, 8140), m(-7, 7));
}

#[test]
fn joystick_clamps_to_hid_range() {
    let right = right_half_calibration();
    assert_eq!(joystick_motion(&right, 32767, 32767), m(127, 0));
    assert_eq!(joystick_motion(&right, -32768, -32768), m(-127, 0));
    assert_eq!(joystick_motion(&left_half_calibration(), 32767, -32768), m(127, -127));
}

#[test]
fn joystick_rounds_toward_zero() {
    let right = right_half_calibration();
    // x = 181 rotates to 127, which is below one mouse unit.
    assert_eq!(joystick_motion(&right, 2081, 1900), m(0, 0));
    // x = 182 rotates to 128: one unit each way.
    assert_eq!(joystick_motion(&right, 2082, 1900), m(1, -1));
}

#[test]
fn joystick_dead_zone_is_circular() {
    let left = left_half_calibration();
    // (2, 2) lies inside the radius-4 circle, (3, 3) outside.
    assert_eq!(joystick_motion(&left, 7700, 7500), m(0, 0));
    assert_eq!(joystick_motion(&left, 7800, 7500), m(3, 3));
}

#[test]
fn trackball_frames() {
    assert_eq!(read_frame(REG_MOTION), [0x82, 0x00]);
    assert_eq!(read_frame(REG_PRODUCT_ID), [0x80, 0x00]);
    assert_eq!(write_frame(REG_CONFIG1, CPI_1600), [0x0F, 0x10]);
    assert_eq!(read_reply([0xAA, 0x42]), 0x42);
}

#[test]
fn trackball_delta_bytes() {
    assert_eq!(combine_delta(0x34, 0x12), 0x1234);
    assert_eq!(combine_delta(0xFF, 0xFF), -1);
    assert_eq!(combine_delta(0x00, 0x80), i16::MIN);
    assert_eq!(combine_delta(0xFF, 0x7F), i16::MAX);
    assert_eq!(combine_delta(0x05, 0x00), 5);
    for d in [-300i16, -1, 0, 1, 255, 256, 12345, i16::MIN, i16::MAX] {
        assert_eq!(combine_delta(d as u8, (d >> 8) as u8), d);
    }
}

fn run_poll(values: &[u8]) -> Vec<SensorAction> {
    let (mut state, first) = poll_begin();
    let mut actions = vec![first];
    for v in values {
        let (next, action) = poll_step(state, *v);
        state = next;
        actions.push(action);
    }
    assert_eq!(state, PollState::Done);
    actions
}

#[test]
fn trackball_poll_without_motion() {
    assert_eq!(
        run_poll(&[0x00]),
        vec![SensorAction::ReadRegister(REG_MOTION), SensorAction::Finish]
    );
    assert_eq!(
        run_poll(&[0x7F]),
        vec![SensorAction::ReadRegister(REG_MOTION), SensorAction::Finish]
    );
}

#[test]
fn trackball_poll_with_motion() {
    assert_eq!(
        run_poll(&[0x80, 0x05, 0x00, 0xFE, 0xFF]),
        vec![
            SensorAction::ReadRegister(REG_MOTION),
            SensorAction::ReadRegister(REG_DELTA_X_L),
            SensorAction::ReadRegister(REG_DELTA_X_H),
            SensorAction::ReadRegister(REG_DELTA_Y_L),
            SensorAction::ReadRegister(REG_DELTA_Y_H),
            SensorAction::Report(m(5, -2)),
        ]
    );
}

#[test]
fn trackball_poll_zero_motion_is_not_reported() {
    let actions = run_poll(&[0xA0, 0, 0, 0, 0]);
    assert_eq!(actions.last(), Some(&SensorAction::Finish));
    assert_eq!(actions.len(), 6);
}

#[test]
fn trackball_done_poll_stays_done() {
    assert_eq!(poll_step(PollState::Done, 0x80), (PollState::Done, SensorAction::Finish));
}

#[test]
fn trackball_startup_retries_until_identified() {
    let (s, a) = startup_begin();
    assert_eq!((s, a), (StartupState::Probing, SensorAction::ReadRegister(REG_PRODUCT_ID)));
    let (s, a) = startup_step(s, StartupEvent::RegisterValue(0x00));
    assert_eq!((s, a), (StartupState::Backoff, SensorAction::WaitMillis(50)));
    let (s, a) = startup_step(s, StartupEvent::Completed);
    assert_eq!((s, a), (StartupState::Probing, SensorAction::ReadRegister(REG_PRODUCT_ID)));
    let (s, a) = startup_step(s, StartupEvent::RegisterValue(0x42));
    assert_eq!((s, a), (StartupState::Configuring, SensorAction::WriteRegister(0x0F, 0x10)));
    let (s, a) = startup_step(s, StartupEvent::Completed);
    assert_eq!((s, a), (StartupState::Ready, SensorAction::Finish));
    let (s, a) = startup_step(s, StartupEvent::RegisterValue(0x42));
    assert_eq!((s, a), (StartupState::Ready, SensorAction::Finish));
}

#[test]
fn trackball_startup_repeats_unanswered_action() {
    assert_eq!(
        startup_step(StartupState::Probing, StartupEvent::Completed),
        (StartupState::Probing, SensorAction::ReadRegister(REG_PRODUCT_ID))
    );
    assert_eq!(
        startup_step(StartupState::Configuring, StartupEvent::RegisterValue(1)),
        (StartupState::Configuring, SensorAction::WriteRegister(REG_CONFIG1, CPI_1600))
    );
}
