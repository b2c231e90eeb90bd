//! The default keymap (two layers of 5 x 12 keys) and encoder map.

use vstd::prelude::*;
use crate::hid;

verus! {

/// Columns of the keymap (both halves together).
pub const COL: usize = 12;
/// Rows of the keymap.
pub const ROW: usize = 5;
/// Layers of the keymap.
pub const NUM_LAYER: usize = 2;
/// Rotary encoders (one per half).
pub const NUM_ENCODER: usize = 2;

/// Rows of the matrix of one half.
pub const HALF_ROWS: usize = 5;
/// Columns of the matrix of one half.
pub const HALF_COLS: usize = 6;
/// First keymap column of the left half (peripheral 0).
pub const LEFT_COL_OFFSET: usize = 0;
/// First keymap column of the right half (peripheral 1).
pub const RIGHT_COL_OFFSET: usize = 6;

/// The two halves' matrices tile the keymap: both span all its rows, the
/// left half covers columns `0..6`, the right half `6..12`, without overlap.
pub proof fn lemma_halves_tile_keymap()
    ensures
        HALF_ROWS == ROW,
        LEFT_COL_OFFSET + HALF_COLS == RIGHT_COL_OFFSET,
        RIGHT_COL_OFFSET + HALF_COLS == COL,
        LEFT_COL_OFFSET == 0,
{
}

/// A basic action.
#[derive(Clone, Copy, Debug, PartialEq, Eq)]
pub enum Action {
    /// Press the key with this HID usage ID.
    Key(u8),
    /// Activate this layer while the key is held.
    LayerOn(u8),
}

/// What a key position does.
#[derive(Clone, Copy, Debug, PartialEq, Eq)]
pub enum KeyAction {
    /// Nothing.
    No,
    /// Whatever the layer below maps at this position.
    Transparent,
    /// One action while the key is held.
    Single(Action),
}

/// What turning an encoder does.
#[derive(Clone, Copy, Debug, PartialEq, Eq)]
pub struct EncoderAction {
    pub clockwise: KeyAction,
    pub counter_clockwise: KeyAction,
}

pub open spec fn key(code: u8) -> KeyAction {
    KeyAction::Single(Action::Key(code))
}

pub open spec fn layer_on(layer: u8) -> KeyAction {
    KeyAction::Single(Action::LayerOn(layer))
}

/// Row `row` of layer `layer` of the default keymap.
pub open spec fn default_row(layer: int, row: int) -> Seq<KeyAction> {
    let t = KeyAction::Transparent;
    if layer == 0 {
        if row == 0 {
            seq![key(hid::ESCAPE), key(hid::KC1), key(hid::KC2), key(hid::KC3), key(hid::KC4), key(hid::KC5),
                key(hid::KC6), key(hid::KC7), key(hid::KC8), key(hid::KC9), key(hid::KC0), key(hid::ESCAPE)]
        } else if row == 1 {
            seq![key(hid::TAB), key(hid::Q), key(hid::W), key(hid::E), key(hid::R), key(hid::T),
                key(hid::Y), key(hid::U), key(hid::I), key(hid::O), key(hid::P), key(hid::GRAVE)]
        } else if row == 2 {
            seq![key(hid::L_SHIFT), key(hid::A), key(hid::S), key(hid::D), key(hid::F), key(hid::G),
                key(hid::H), key(hid::J), key(hid::K), key(hid::L), key(hid::SLASH), key(hid::R_SHIFT)]
        } else if row == 3 {
            seq![layer_on(1), key(hid::Z), key(hid::X), key(hid::C), key(hid::V), key(hid::B),
                key(hid::N), key(hid::M), key(hid::COMMA), key(hid::DOT), key(hid::BACKSLASH), layer_on(1)]
        } else {
            seq![key(hid::L_CTRL), key(hid::L_GUI), key(hid::L_ALT), key(hid::SPACE), key(hid::ENTER), KeyAction::No,
                KeyAction::No, key(hid::BACKSPACE), key(hid::SPACE), key(hid::R_ALT), key(hid::R_GUI), key(hid::R_CTRL)]
        }
    } else {
        if row == 0 {
            seq![key(hid::F1), key(hid::F2), key(hid::F3), key(hid::F4), key(hid::F5), key(hid::F6),
                key(hid::F7), key(hid::F8), key(hid::F9), key(hid::F10), key(hid::F11), key(hid::F12)]
        } else if row == 1 {
            seq![t, t, t, t, t, t,
                key(hid::MOUSE_LEFT), key(hid::MOUSE_DOWN), key(hid::MOUSE_UP), key(hid::MOUSE_RIGHT),
                key(hid::MEDIA_PLAY_PAUSE), key(hid::AUDIO_VOL_UP)]
        } else if row == 2 {
            seq![key(hid::L_SHIFT), key(hid::QUOTE), t, t, t, t,
                key(hid::LEFT), key(hid::DOWN), key(hid::UP), key(hid::RIGHT), t, key(hid::AUDIO_VOL_DOWN)]
        } else if row == 3 {
            seq![layer_on(1), t, t, key(hid::SEMICOLON), t, t,
                key(hid::MINUS), key(hid::EQUAL), key(hid::LEFT_BRACKET), t, t, layer_on(1)]
        } else {
            seq![key(hid::L_CTRL), key(hid::L_GUI), key(hid::L_ALT), t, t, t,
                t, key(hid::DELETE), t, key(hid::R_ALT), key(hid::R_GUI), key(hid::R_CTRL)]
        }
    }
}

fn k(code: u8) -> (a: KeyAction)
    ensures
        a == key(code),
{
    KeyAction::Single(Action::Key(code))
}

fn lo(layer: u8) -> (a: KeyAction)
    ensures
        a == layer_on(layer),
{
    KeyAction::Single(Action::LayerOn(layer))
}

/// The default keymap, indexed by layer, row and column.
pub fn get_default_keymap() -> (keymap: [[[KeyAction; COL]; ROW]; NUM_LAYER])
    ensures
        forall|layer: int, row: int|
            0 <= layer < NUM_LAYER && 0 <= row < ROW ==> (#[trigger] keymap@[layer]@[row])@ == default_row(layer, row),
{
    let t = KeyAction::Transparent;
    let no = KeyAction::No;
    let keymap: [[[KeyAction; COL]; ROW]; NUM_LAYER] = [
        [
            [k(hid::ESCAPE), k(hid::KC1), k(hid::KC2), k(hid::KC3), k(hid::KC4), k(hid::KC5),
                k(hid::KC6), k(hid::KC7), k(hid::KC8), k(hid::KC9), k(hid::KC0), k(hid::ESCAPE)],
            [k(hid::TAB), k(hid::Q), k(hid::W), k(hid::E), k(hid::R), k(hid::T),
                k(hid::Y), k(hid::U), k(hid::I), k(hid::O), k(hid::P), k(hid::GRAVE)],
            [k(hid::L_SHIFT), k(hid::A), k(hid::S), k(hid::D), k(hid::F), k(hid::G),
                k(hid::H), k(hid::J), k(hid::K), k(hid::L), k(hid::SLASH), k(hid::R_SHIFT)],
            [lo(1), k(hid::Z), k(hid::X), k(hid::C), k(hid::V), k(hid::B),
                k(hid::N), k(hid::M), k(hid::COMMA), k(hid::DOT), k(hid::BACKSLASH), lo(1)],
            [k(hid::L_CTRL), k(hid::L_GUI), k(hid::L_ALT), k(hid::SPACE), k(hid::ENTER), no,
                no, k(hid::BACKSPACE), k(hid::SPACE), k(hid::R_ALT), k(hid::R_GUI), k(hid::R_CTRL)],
        ],
        [
            [k(hid::F1), k(hid::F2), k(hid::F3), k(hid::F4), k(hid::F5), k(hid::F6),
                k(hid::F7), k(hid::F8), k(hid::F9), k(hid::F10), k(hid::F11), k(hid::F12)],
            [t, t, t, t, t, t,
                k(hid::MOUSE_LEFT), k(hid::MOUSE_DOWN), k(hid::MOUSE_UP), k(hid::MOUSE_RIGHT),
                k(hid::MEDIA_PLAY_PAUSE), k(hid::AUDIO_VOL_UP)],
            [k(hid::L_SHIFT), k(hid::QUOTE), t, t, t, t,
                k(hid::LEFT), k(hid::DOWN), k(hid::UP), k(hid::RIGHT), t, k(hid::AUDIO_VOL_DOWN)],
            [lo(1), t, t, k(hid::SEMICOLON), t, t,
                k(hid::MINUS), k(hid::EQUAL), k(hid::LEFT_BRACKET), t, t, lo(1)],
            [k(hid::L_CTRL), k(hid::L_GUI), k(hid::L_ALT), t, t, t,
                t, k(hid::DELETE), t, k(hid::R_ALT), k(hid::R_GUI), k(hid::R_CTRL)],
        ],
    ];
    proof {
        assert(keymap@[0]@[0]@ =~= default_row(0, 0));
        assert(keymap@[0]@[1]@ =~= default_row(0, 1));
        assert(keymap@[0]@[2]@ =~= default_row(0, 2));
        assert(keymap@[0]@[3]@ =~= default_row(0, 3));
        assert(keymap@[0]@[4]@ =~= default_row(0, 4));
        assert(keymap@[1]@[0]@ =~= default_row(1, 0));
        assert(keymap@[1]@[1]@ =~= default_row(1, 1));
        assert(keymap@[1]@[2]@ =~= default_row(1, 2));
        assert(keymap@[1]@[3]@ =~= default_row(1, 3));
        assert(keymap@[1]@[4]@ =~= default_row(1, 4));
    }
    keymap
}

/// The action of every encoder on layer `layer`: on the base layer the
/// encoders step the volume, above it they send the arrow keys down and up.
pub open spec fn default_encoder(layer: int) -> EncoderAction {
    if layer == 0 {
        EncoderAction { clockwise: key(hid::AUDIO_VOL_DOWN), counter_clockwise: key(hid::AUDIO_VOL_UP) }
    } else {
        EncoderAction { clockwise: key(hid::DOWN), counter_clockwise: key(hid::UP) }
    }
}

fn encoder(clockwise: KeyAction, counter_clockwise: KeyAction) -> (e: EncoderAction)
    ensures
        e == (EncoderAction { clockwise, counter_clockwise }),
{
    EncoderAction { clockwise, counter_clockwise }
}

/// The default encoder map, indexed by layer and encoder.
pub fn get_default_encoder_map() -> (map: [[EncoderAction; NUM_ENCODER]; NUM_LAYER])
    ensures
        forall|layer: int, enc: int|
            0 <= layer < NUM_LAYER && 0 <= enc < NUM_ENCODER ==> #[trigger] map@[layer]@[enc] == default_encoder(layer),
{
    let map: [[EncoderAction; NUM_ENCODER]; NUM_LAYER] = [
        [
            encoder(k(hid::AUDIO_VOL_DOWN), k(hid::AUDIO_VOL_UP)),
            encoder(k(hid::AUDIO_VOL_DOWN), k(hid::AUDIO_VOL_UP)),
        ],
        [
            encoder(k(hid::DOWN), k(hid::UP)),
            encoder(k(hid::DOWN), k(hid::UP)),
        ],
    ];
    map
}

/// The key at `col` of row `row` on layer `layer` of the default keymap.
pub open spec fn default_key(layer: int, row: int, col: int) -> KeyAction {
    default_row(layer, row)[col]
}

/// The default keymap is consistent: every row has `COL` keys; the base layer
/// has no transparent key (nothing lies beneath it); and every layer key
/// targets an existing layer above the base and holds the same layer key on
/// that layer, so the key that activated a layer keeps it up.
pub proof fn lemma_keymap_consistent()
    ensures
        forall|layer: int, row: int|
            0 <= layer < NUM_LAYER && 0 <= row < ROW ==> (#[trigger] default_row(layer, row)).len() == COL,
        forall|row: int, col: int|
            0 <= row < ROW && 0 <= col < COL ==> #[trigger] default_key(0, row, col) != KeyAction::Transparent,
        forall|layer: int, row: int, col: int|
            0 <= layer < NUM_LAYER && 0 <= row < ROW && 0 <= col < COL
                ==> (#[trigger] default_key(layer, row, col) matches KeyAction::Single(Action::LayerOn(target))
                ==> 0 < target < NUM_LAYER && default_key(target as int, row, col) == layer_on(target)),
{
    assert forall|layer: int, row: int, col: int|
        0 <= layer < NUM_LAYER && 0 <= row < ROW && 0 <= col < COL
        implies (#[trigger] default_key(layer, row, col) matches KeyAction::Single(Action::LayerOn(target))
            ==> 0 < target < NUM_LAYER && default_key(target as int, row, col) == layer_on(target)) by {
        assert(row == 0 || row == 1 || row == 2 || row == 3 || row == 4);
        assert(layer == 0 || layer == 1);
    }
}

/// The number a key action stands for in a table of codes: the HID usage ID
/// of a key, `0x100 + n` for activating layer `n`, -1 for no action and -2
/// for a transparent key.
pub open spec fn action_code(action: KeyAction) -> int {
    match action {
        KeyAction::Single(Action::Key(code)) => code as int,
        KeyAction::Single(Action::LayerOn(layer)) => 0x100 + layer,
        KeyAction::No => -1,
        KeyAction::Transparent => -2,
    }
}

/// The default keymap, row by row as HID usage IDs (layer keys as
/// `0x100 + layer`, no action as -1, transparent as -2): the QWERTY base layer
/// with numbers, Escape, Grave, shifts and modifiers, and the function layer
/// with F1-F12, mouse keys, media keys, arrows (Left, Down, Up, Right at
/// columns 6 to 9 of the home row), Quote, Semicolon, Minus, Equal,
/// Left Bracket and Delete.
pub proof fn lemma_default_keymap_codes()
    ensures
        default_row(0, 0).map_values(|a: KeyAction| action_code(a)) == seq![0x29int, 0x1E, 0x1F, 0x20, 0x21, 0x22, 0x23, 0x24, 0x25, 0x26, 0x27, 0x29],
        default_row(0, 1).map_values(|a: KeyAction| action_code(a)) == seq![0x2Bint, 0x14, 0x1A, 0x08, 0x15, 0x17, 0x1C, 0x18, 0x0C, 0x12, 0x13, 0x35],
        default_row(0, 2).map_values(|a: KeyAction| action_code(a)) == seq![0xE1int, 0x04, 0x16, 0x07, 0x09, 0x0A, 0x0B, 0x0D, 0x0E, 0x0F, 0x38, 0xE5],
        default_row(0, 3).map_values(|a: KeyAction| action_code(a)) == seq![0x101int, 0x1D, 0x1B, 0x06, 0x19, 0x05, 0x11, 0x10, 0x36, 0x37, 0x31, 0x101],
        default_row(0, 4).map_values(|a: KeyAction| action_code(a)) == seq![0xE0int, 0xE3, 0xE2, 0x2C, 0x28, -1, -1, 0x2A, 0x2C, 0xE6, 0xE7, 0xE4],
        default_row(1, 0).map_values(|a: KeyAction| action_code(a)) == seq![0x3Aint, 0x3B, 0x3C, 0x3D, 0x3E, 0x3F, 0x40, 0x41, 0x42, 0x43, 0x44, 0x45],
        default_row(1, 1).map_values(|a: KeyAction| action_code(a)) == seq![-2int, -2, -2, -2, -2, -2, 0xCF, 0xCE, 0xCD, 0xD0, 0xAE, 0xA9],
        default_row(1, 2).map_values(|a: KeyAction| action_code(a)) == seq![0xE1int, 0x34, -2, -2, -2, -2, 0x50, 0x51, 0x52, 0x4F, -2, 0xAA],
        default_row(1, 3).map_values(|a: KeyAction| action_code(a)) == seq![0x101int, -2, -2, 0x33, -2, -2, 0x2D, 0x2E, 0x2F, -2, -2, 0x101],
        default_row(1, 4).map_values(|a: KeyAction| action_code(a)) == seq![0xE0int, 0xE3, 0xE2, -2, -2, -2, -2, 0x4C, -2, 0xE6, 0xE7, 0xE4],
{
    assert(default_row(0, 0).map_values(|a: KeyAction| action_code(a)) =~= seq![0x29int, 0x1E, 0x1F, 0x20, 0x21, 0x22, 0x23, 0x24, 0x25, 0x26, 0x27, 0x29]);
    assert(default_row(0, 1).map_values(|a: KeyAction| action_code(a)) =~= seq![0x2Bint, 0x14, 0x1A, 0x08, 0x15, 0x17, 0x1C, 0x18, 0x0C, 0x12, 0x13, 0x35]);
    assert(default_row(0, 2).map_values(|a: KeyAction| action_code(a)) =~= seq![0xE1int, 0x04, 0x16, 0x07, 0x09, 0x0A, 0x0B, 0x0D, 0x0E, 0x0F, 0x38, 0xE5]);
    assert(default_row(0, 3).map_values(|a: KeyAction| action_code(a)) =~= seq![0x101int, 0x1D, 0x1B, 0x06, 0x19, 0x05, 0x11, 0x10, 0x36, 0x37, 0x31, 0x101]);
    assert(default_row(0, 4).map_values(|a: KeyAction| action_code(a)) =~= seq![0xE0int, 0xE3, 0xE2, 0x2C, 0x28, -1, -1, 0x2A, 0x2C, 0xE6, 0xE7, 0xE4]);
    assert(default_row(1, 0).map_values(|a: KeyAction| action_code(a)) =~= seq![0x3Aint, 0x3B, 0x3C, 0x3D, 0x3E, 0x3F, 0x40, 0x41, 0x42, 0x43, 0x44, 0x45]);
    assert(default_row(1, 1).map_values(|a: KeyAction| action_code(a)) =~= seq![-2int, -2, -2, -2, -2, -2, 0xCF, 0xCE, 0xCD, 0xD0, 0xAE, 0xA9]);
    assert(default_row(1, 2).map_values(|a: KeyAction| action_code(a)) =~= seq![0xE1int, 0x34, -2, -2, -2, -2, 0x50, 0x51, 0x52, 0x4F, -2, 0xAA]);
    assert(default_row(1, 3).map_values(|a: KeyAction| action_code(a)) =~= seq![0x101int, -2, -2, 0x33, -2, -2, 0x2D, 0x2E, 0x2F, -2, -2, 0x101]);
    assert(default_row(1, 4).map_values(|a: KeyAction| action_code(a)) =~= seq![0xE0int, 0xE3, 0xE2, -2, -2, -2, -2, 0x4C, -2, 0xE6, 0xE7, 0xE4]);
}

} // verus!
