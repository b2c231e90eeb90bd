use roki::ble_addr::ble_address;
use roki::buzzer::{beep_step, connection_tones, plan_beep, BeepAction, BeepPlan, Tone, ToneSet};
use roki::forwarding::{first_stage, forward_plan, next_stage, ForwardPlan, Stage, StageOutcome};
use roki::hid;
use roki::keymap::{
    get_default_encoder_map, get_default_keymap, Action, EncoderAction, KeyAction, COL,
    HALF_COLS, NUM_ENCODER, NUM_LAYER, RIGHT_COL_OFFSET, ROW,
};

fn beep(frequency_hz: u32, duration_ms: u64) -> Tone {
    Tone::Beep { frequency_hz, duration_ms }
}

fn pause(duration_ms: u64) -> Tone {
    Tone::Pause { duration_ms }
}

#[test]
fn r2d2_tones() {
    assert_eq!(
        connection_tones(ToneSet::R2d2, Some(true)),
        vec![beep(3000, 50), pause(15), beep(2200, 70), pause(15), beep(1600, 90), pause(20), beep(1000, 120)]
    );
    assert_eq!(
        connection_tones(ToneSet::R2d2, Some(false)),
        vec![beep(2000, 30), pause(10), beep(2600, 40), pause(10), beep(3200, 50), pause(15), beep(2400, 60)]
    );
}

#[test]
fn chime_tones() {
    assert_eq!(
        connection_tones(ToneSet::Chime, Some(true)),
        vec![beep(1500, 80), pause(40), beep(2000, 120)]
    );
    assert_eq!(
        connection_tones(ToneSet::Chime, Some(false)),
        vec![beep(2000, 80), pause(40), beep(1200, 200)]
    );
}

#[test]
fn other_events_play_nothing() {
    assert!(connection_tones(ToneSet::R2d2, None).is_empty());
    assert!(connection_tones(ToneSet::Chime, None).is_empty());
}

#[test]
fn silent_beep_waits() {
    let plan = plan_beep(0, 30, 500);
    assert_eq!(plan, BeepPlan::Silence { duration_ms: 30 });
    assert_eq!(beep_step(plan, 500), (BeepPlan::Finished, BeepAction::WaitMillis(30)));
    assert_eq!(beep_step(BeepPlan::Finished, 600), (BeepPlan::Finished, BeepAction::Idle));
}

#[test]
fn square_wave_beep() {
    // 1_000_000 / 3000 = 333 us, half of it 166 us.
    let plan = plan_beep(3000, 50, 1000);
    assert_eq!(plan, BeepPlan::SquareWave { half_period_us: 166, end_us: 51000 });
    assert_eq!(beep_step(plan, 1000), (plan, BeepAction::Pulse { half_period_us: 166 }));
    assert_eq!(beep_step(plan, 50999), (plan, BeepAction::Pulse { half_period_us: 166 }));
    assert_eq!(beep_step(plan, 51000), (BeepPlan::Finished, BeepAction::Release));
    assert_eq!(
        plan_beep(1000, 120, 0),
        BeepPlan::SquareWave { half_period_us: 500, end_us: 120_000 }
    );
    assert_eq!(
        plan_beep(2200, 70, 7),
        BeepPlan::SquareWave { half_period_us: 227, end_us: 70_007 }
    );
}

#[test]
fn ble_address_from_device_id() {
    assert_eq!(ble_address(0x1122_3344, 0x5566_7788), [0x44, 0x33, 0x22, 0x11, 0x88, 0xF7]);
    assert_eq!(ble_address(0, 0), [0, 0, 0, 0, 0, 0xC0]);
    assert_eq!(ble_address(u32::MAX, u32::MAX), [0xFF; 6]);
    for (a, b) in [(1u32, 2u32), (0xDEAD_BEEF, 0x0000_3F00), (7, 0xFFFF_0000)] {
        assert_eq!(ble_address(a, b)[5] & 0xC0, 0xC0);
    }
}

#[test]
fn forwarding_drops_oldest_only_when_full() {
    assert_eq!(forward_plan(false), ForwardPlan::Send);
    assert_eq!(forward_plan(true), ForwardPlan::DropOldestThenSend);
}

#[test]
fn central_processor_chain() {
    assert_eq!(first_stage(), Stage::Battery);
    assert_eq!(next_stage(Stage::Battery, StageOutcome::Continue), Some(Stage::Joystick));
    assert_eq!(next_stage(Stage::Battery, StageOutcome::Stop), None);
    assert_eq!(next_stage(Stage::Joystick, StageOutcome::Continue), None);
    assert_eq!(next_stage(Stage::Joystick, StageOutcome::Stop), None);
}

fn key(code: u8) -> KeyAction {
    KeyAction::Single(Action::Key(code))
}

#[test]
fn keymap_entries() {
    let km = get_default_keymap();
    assert_eq!(km.len(), NUM_LAYER);
    assert_eq!(km[0][0][0], key(hid::ESCAPE));
    assert_eq!(km[0][0][11], key(hid::ESCAPE));
    assert_eq!(km[0][1][11], key(hid::GRAVE));
    assert_eq!(km[0][3][0], KeyAction::Single(Action::LayerOn(1)));
    assert_eq!(km[0][3][11], KeyAction::Single(Action::LayerOn(1)));
    assert_eq!(km[0][4][5], KeyAction::No);
    assert_eq!(km[0][4][6], KeyAction::No);
    assert_eq!(km[0][4][7], key(hid::BACKSPACE));
    assert_eq!(km[1][0][11], key(hid::F12));
    assert_eq!(km[1][1][0], KeyAction::Transparent);
    assert_eq!(km[1][1][6], key(hid::MOUSE_LEFT));
    assert_eq!(km[1][2][11], key(hid::AUDIO_VOL_DOWN));
    assert_eq!(km[1][3][8], key(hid::LEFT_BRACKET));
    assert_eq!(km[1][4][7], key(hid::DELETE));
}

#[test]
fn keymap_base_layer_has_no_transparent_keys() {
    let km = get_default_keymap();
    for row in 0..ROW {
        for col in 0..COL {
            assert_ne!(km[0][row][col], KeyAction::Transparent);
        }
    }
}

#[test]
fn keymap_layer_keys_stay_on_their_layer() {
    let km = get_default_keymap();
    for layer in 0..NUM_LAYER {
        for row in 0..ROW {
            for col in 0..COL {
                if let KeyAction::Single(Action::LayerOn(target)) = km[layer][row][col] {
                    assert!((target as usize) < NUM_LAYER && target > 0);
                    assert_eq!(km[target as usize][row][col], KeyAction::Single(Action::LayerOn(target)));
                }
            }
        }
    }
}

#[test]
fn encoder_map_entries() {
    let map = get_default_encoder_map();
    for enc in 0..NUM_ENCODER {
        assert_eq!(
            map[0][enc],
            EncoderAction { clockwise: key(hid::AUDIO_VOL_DOWN), counter_clockwise: key(hid::AUDIO_VOL_UP) }
        );
        assert_eq!(map[1][enc], EncoderAction { clockwise: key(hid::DOWN), counter_clockwise: key(hid::UP) });
    }
}

#[test]
fn halves_tile_the_keymap() {
    assert_eq!(RIGHT_COL_OFFSET + HALF_COLS, COL);
    assert_eq!(hid::ESCAPE, 0x29);
    assert_eq!(hid::MOUSE_LEFT, 0xCF);
}
