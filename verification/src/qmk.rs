use vstd::prelude::*;

use crate::errors::{EmitError, EmitErrorV};
use crate::format::Format;
use crate::keymap::{all_combos, all_shifts, Combo, ComboV, KeyMap, KeyMapV, Layer, LayerKey, LayerKeyV, LayerV, Shifted, ShiftedV};
use crate::keys::{Key, KeyDef, KeyDefV, Modifier, TapKey, TapKeyV, HoldKey, HoldKeyV};
use crate::text::{append_dec, append_str, append_string, chars_string, dec_spec};

verus! {

/// The first of the two supported backends.
pub struct QMK;

/// This backend's key-code token for each key. Keys the backend has no
/// distinct equivalent for share a degenerate token.
pub open spec fn qmk_key_token(k: Key) -> Seq<char> {
    match k {
        Key::A => "KC_A"@,
        Key::B => "KC_B"@,
        Key::C => "KC_C"@,
        Key::D => "KC_D"@,
        Key::E => "KC_E"@,
        Key::F => "KC_F"@,
        Key::G => "KC_G"@,
        Key::H => "KC_H"@,
        Key::I => "KC_I"@,
        Key::J => "KC_J"@,
        Key::K => "KC_K"@,
        Key::L => "KC_L"@,
        Key::M => "KC_M"@,
        Key::N => "KC_N"@,
        Key::O => "KC_O"@,
        Key::P => "KC_P"@,
        Key::Q => "KC_Q"@,
        Key::R => "KC_R"@,
        Key::S => "KC_S"@,
        Key::T => "KC_T"@,
        Key::U => "KC_U"@,
        Key::V => "KC_V"@,
        Key::W => "KC_W"@,
        Key::X => "KC_X"@,
        Key::Y => "KC_Y"@,
        Key::Z => "KC_Z"@,
        Key::Num0 => "KC_0"@,
        Key::Num1 => "KC_1"@,
        Key::Num2 => "KC_2"@,
        Key::Num3 => "KC_3"@,
        Key::Num4 => "KC_4"@,
        Key::Num5 => "KC_5"@,
        Key::Num6 => "KC_6"@,
        Key::Num7 => "KC_7"@,
        Key::Num8 => "KC_8"@,
        Key::Num9 => "KC_9"@,
        Key::Pipe => "LSFT(KC_BSLS)"@,
        Key::Plus => "LSFT(KC_EQL)"@,
        Key::Minus => "KC_MINUS"@,
        Key::Equal => "KC_EQL"@,
        Key::Comma => "KC_COMMA"@,
        Key::Period => "KC_DOT"@,
        Key::Colon => "LSFT(KC_SCLN)"@,
        Key::Caret => "LSFT(KC_6)"@,
        Key::Dollar => "LSFT(KC_4)"@,
        Key::Percent => "LSFT(KC_5)"@,
        Key::Semicolon => "KC_SCLN"@,
        Key::Question => "LSFT(KC_SLSH)"@,
        Key::Exclamation => "LSFT(KC_1)"@,
        Key::Octothorpe => "LSFT(KC_3)"@,
        Key::Ampersand => "LSFT(KC_7)"@,
        Key::Arobase => "LSFT(KC_2)"@,
        Key::Asterisk => "LSFT(KC_8)"@,
        Key::Slash => "KC_SLSH"@,
        Key::Tilde => "LSFT(KC_GRV)"@,
        Key::Backtick => "KC_GRAVE"@,
        Key::LessThan => "LSFT(KC_COMMA)"@,
        Key::GreaterThan => "LSFT(KC_DOT)"@,
        Key::ParensRight => "LSFT(KC_0)"@,
        Key::ParensLeft => "LSFT(KC_9)"@,
        Key::BracketRight => "KC_RBRC"@,
        Key::BracketLeft => "KC_LBRC"@,
        Key::BraceRight => "LSFT(KC_RBRC)"@,
        Key::BraceLeft => "LSFT(KC_LBRC)"@,
        Key::Underscore => "LSFT(KC_MINUS)"@,
        Key::Apostrophe => "KC_QUOTE"@,
        Key::Backslash => "KC_BACKSLASH"@,
        Key::Quote => "LSFT(KC_QUOTE)"@,
        Key::Up => "KC_UP"@,
        Key::Down => "KC_DOWN"@,
        Key::Left => "KC_LEFT"@,
        Key::Right => "KC_RIGHT"@,
        Key::PageUp => "KC_PGUP"@,
        Key::PageDown => "KC_PGDN"@,
        Key::VolumeUp => "KC_VOLU"@,
        Key::VolumeDown => "KC_VOLD"@,
        Key::VolumeMute => "KC_MUTE"@,
        Key::BrightnessUp => "KC_BRIGHTNESS_UP"@,
        Key::BrightnessDown => "KC_BRIGHTNESS_DOWN"@,
        Key::Aigu => "RALT(KC_QUOTE)"@,
        Key::Grave => "RALT(KC_GRAVE)"@,
        Key::Cedille => "RALT(KC_COMMA)"@,
        Key::Circonflex => "RALT(LSFT(KC_6))"@,
        Key::Trema => "RALT(LSFT(KC_QUOTE))"@,
        Key::Euro => "RALT(KC_EQUAL)"@,
        Key::Esc => "KC_ESC"@,
        Key::Tab => "KC_TAB"@,
        Key::Space => "KC_SPACE"@,
        Key::Backspace => "KC_BSPC"@,
        Key::Enter => "KC_ENTER"@,
        Key::Meta => "KC_LGUI"@,
        Key::Shift => "KC_LSFT"@,
        Key::Ctrl => "KC_LCTL"@,
        Key::Alt => "KC_LALT"@,
        Key::MouseWheelUp => "QK_MOUSE_WHEEL_UP"@,
        Key::MouseWheelDown => "QK_MOUSE_WHEEL_DOWN"@,
        Key::CapsWord => "QK_CAPS_WORD_TOGGLE"@,
        Key::Bt0 => "KC_NO"@,
        Key::Bt1 => "KC_NO"@,
        Key::BtClear => "KC_NO"@,
        Key::NotAllowed => "KC_NO"@,
        Key::Unassigned => "KC_TRNS"@,
    }
}

/// Executable key-code table.
pub fn qmk_key(k: Key) -> (r: &'static str)
    ensures
        r@ == qmk_key_token(k),
{
    match k {
        Key::A => "KC_A",
        Key::B => "KC_B",
        Key::C => "KC_C",
        Key::D => "KC_D",
        Key::E => "KC_E",
        Key::F => "KC_F",
        Key::G => "KC_G",
        Key::H => "KC_H",
        Key::I => "KC_I",
        Key::J => "KC_J",
        Key::K => "KC_K",
        Key::L => "KC_L",
        Key::M => "KC_M",
        Key::N => "KC_N",
        Key::O => "KC_O",
        Key::P => "KC_P",
        Key::Q => "KC_Q",
        Key::R => "KC_R",
        Key::S => "KC_S",
        Key::T => "KC_T",
        Key::U => "KC_U",
        Key::V => "KC_V",
        Key::W => "KC_W",
        Key::X => "KC_X",
        Key::Y => "KC_Y",
        Key::Z => "KC_Z",
        Key::Num0 => "KC_0",
        Key::Num1 => "KC_1",
        Key::Num2 => "KC_2",
        Key::Num3 => "KC_3",
        Key::Num4 => "KC_4",
        Key::Num5 => "KC_5",
        Key::Num6 => "KC_6",
        Key::Num7 => "KC_7",
        Key::Num8 => "KC_8",
        Key::Num9 => "KC_9",
        Key::Pipe => "LSFT(KC_BSLS)",
        Key::Plus => "LSFT(KC_EQL)",
        Key::Minus => "KC_MINUS",
        Key::Equal => "KC_EQL",
        Key::Comma => "KC_COMMA",
        Key::Period => "KC_DOT",
        Key::Colon => "LSFT(KC_SCLN)",
        Key::Caret => "LSFT(KC_6)",
        Key::Dollar => "LSFT(KC_4)",
        Key::Percent => "LSFT(KC_5)",
        Key::Semicolon => "KC_SCLN",
        Key::Question => "LSFT(KC_SLSH)",
        Key::Exclamation => "LSFT(KC_1)",
        Key::Octothorpe => "LSFT(KC_3)",
        Key::Ampersand => "LSFT(KC_7)",
        Key::Arobase => "LSFT(KC_2)",
        Key::Asterisk => "LSFT(KC_8)",
        Key::Slash => "KC_SLSH",
        Key::Tilde => "LSFT(KC_GRV)",
        Key::Backtick => "KC_GRAVE",
        Key::LessThan => "LSFT(KC_COMMA)",
        Key::GreaterThan => "LSFT(KC_DOT)",
        Key::ParensRight => "LSFT(KC_0)",
        Key::ParensLeft => "LSFT(KC_9)",
        Key::BracketRight => "KC_RBRC",
        Key::BracketLeft => "KC_LBRC",
        Key::BraceRight => "LSFT(KC_RBRC)",
        Key::BraceLeft => "LSFT(KC_LBRC)",
        Key::Underscore => "LSFT(KC_MINUS)",
        Key::Apostrophe => "KC_QUOTE",
        Key::Backslash => "KC_BACKSLASH",
        Key::Quote => "LSFT(KC_QUOTE)",
        Key::Up => "KC_UP",
        Key::Down => "KC_DOWN",
        Key::Left => "KC_LEFT",
        Key::Right => "KC_RIGHT",
        Key::PageUp => "KC_PGUP",
        Key::PageDown => "KC_PGDN",
        Key::VolumeUp => "KC_VOLU",
        Key::VolumeDown => "KC_VOLD",
        Key::VolumeMute => "KC_MUTE",
        Key::BrightnessUp => "KC_BRIGHTNESS_UP",
        Key::BrightnessDown => "KC_BRIGHTNESS_DOWN",
        Key::Aigu => "RALT(KC_QUOTE)",
        Key::Grave => "RALT(KC_GRAVE)",
        Key::Cedille => "RALT(KC_COMMA)",
        Key::Circonflex => "RALT(LSFT(KC_6))",
        Key::Trema => "RALT(LSFT(KC_QUOTE))",
        Key::Euro => "RALT(KC_EQUAL)",
        Key::Esc => "KC_ESC",
        Key::Tab => "KC_TAB",
        Key::Space => "KC_SPACE",
        Key::Backspace => "KC_BSPC",
        Key::Enter => "KC_ENTER",
        Key::Meta => "KC_LGUI",
        Key::Shift => "KC_LSFT",
        Key::Ctrl => "KC_LCTL",
        Key::Alt => "KC_LALT",
        Key::MouseWheelUp => "QK_MOUSE_WHEEL_UP",
        Key::MouseWheelDown => "QK_MOUSE_WHEEL_DOWN",
        Key::CapsWord => "QK_CAPS_WORD_TOGGLE",
        Key::Bt0 => "KC_NO",
        Key::Bt1 => "KC_NO",
        Key::BtClear => "KC_NO",
        Key::NotAllowed => "KC_NO",
        Key::Unassigned => "KC_TRNS",
    }
}

/// Every key has a non-degenerate rendering in this backend.
pub proof fn lemma_qmk_key_token_nonempty(k: Key)
    ensures
        qmk_key_token(k).len() > 0,
{
    reveal_strlit("KC_0");
    reveal_strlit("KC_1");
    reveal_strlit("KC_2");
    reveal_strlit("KC_3");
    reveal_strlit("KC_4");
    reveal_strlit("KC_5");
    reveal_strlit("KC_6");
    reveal_strlit("KC_7");
    reveal_strlit("KC_8");
    reveal_strlit("KC_9");
    reveal_strlit("KC_A");
    reveal_strlit("KC_B");
    reveal_strlit("KC_BACKSLASH");
    reveal_strlit("KC_BRIGHTNESS_DOWN");
    reveal_strlit("KC_BRIGHTNESS_UP");
    reveal_strlit("KC_BSPC");
    reveal_strlit("KC_C");
    reveal_strlit("KC_COMMA");
    reveal_strlit("KC_D");
    reveal_strlit("KC_DOT");
    reveal_strlit("KC_DOWN");
    reveal_strlit("KC_E");
    reveal_strlit("KC_ENTER");
    reveal_strlit("KC_EQL");
    reveal_strlit("KC_ESC");
    reveal_strlit("KC_F");
    reveal_strlit("KC_G");
    reveal_strlit("KC_GRAVE");
    reveal_strlit("KC_H");
    reveal_strlit("KC_I");
    reveal_strlit("KC_J");
    reveal_strlit("KC_K");
    reveal_strlit("KC_L");
    reveal_strlit("KC_LALT");
    reveal_strlit("KC_LBRC");
    reveal_strlit("KC_LCTL");
    reveal_strlit("KC_LEFT");
    reveal_strlit("KC_LGUI");
    reveal_strlit("KC_LSFT");
    reveal_strlit("KC_M");
    reveal_strlit("KC_MINUS");
    reveal_strlit("KC_MUTE");
    reveal_strlit("KC_N");
    reveal_strlit("KC_NO");
    reveal_strlit("KC_O");
    reveal_strlit("KC_P");
    reveal_strlit("KC_PGDN");
    reveal_strlit("KC_PGUP");
    reveal_strlit("KC_Q");
    reveal_strlit("KC_QUOTE");
    reveal_strlit("KC_R");
    reveal_strlit("KC_RBRC");
    reveal_strlit("KC_RIGHT");
    reveal_strlit("KC_S");
    reveal_strlit("KC_SCLN");
    reveal_strlit("KC_SLSH");
    reveal_strlit("KC_SPACE");
    reveal_strlit("KC_T");
    reveal_strlit("KC_TAB");
    reveal_strlit("KC_TRNS");
    reveal_strlit("KC_U");
    reveal_strlit("KC_UP");
    reveal_strlit("KC_V");
    reveal_strlit("KC_VOLD");
    reveal_strlit("KC_VOLU");
    reveal_strlit("KC_W");
    reveal_strlit("KC_X");
    reveal_strlit("KC_Y");
    reveal_strlit("KC_Z");
    reveal_strlit("LSFT(KC_0)");
    reveal_strlit("LSFT(KC_1)");
    reveal_strlit("LSFT(KC_2)");
    reveal_strlit("LSFT(KC_3)");
    reveal_strlit("LSFT(KC_4)");
    reveal_strlit("LSFT(KC_5)");
    reveal_strlit("LSFT(KC_6)");
    reveal_strlit("LSFT(KC_7)");
    reveal_strlit("LSFT(KC_8)");
    reveal_strlit("LSFT(KC_9)");
    reveal_strlit("LSFT(KC_BSLS)");
    reveal_strlit("LSFT(KC_COMMA)");
    reveal_strlit("LSFT(KC_DOT)");
    reveal_strlit("LSFT(KC_EQL)");
    reveal_strlit("LSFT(KC_GRV)");
    reveal_strlit("LSFT(KC_LBRC)");
    reveal_strlit("LSFT(KC_MINUS)");
    reveal_strlit("LSFT(KC_QUOTE)");
    reveal_strlit("LSFT(KC_RBRC)");
    reveal_strlit("LSFT(KC_SCLN)");
    reveal_strlit("LSFT(KC_SLSH)");
    reveal_strlit("QK_CAPS_WORD_TOGGLE");
    reveal_strlit("QK_MOUSE_WHEEL_DOWN");
    reveal_strlit("QK_MOUSE_WHEEL_UP");
    reveal_strlit("RALT(KC_COMMA)");
    reveal_strlit("RALT(KC_EQUAL)");
    reveal_strlit("RALT(KC_GRAVE)");
    reveal_strlit("RALT(KC_QUOTE)");
    reveal_strlit("RALT(LSFT(KC_6))");
    reveal_strlit("RALT(LSFT(KC_QUOTE))");
}

/// This backend's modifier token.
pub open spec fn qmk_mod_token(m: Modifier) -> Seq<char> {
    match m {
        Modifier::Alt => "LALT"@,
        Modifier::Meta => "LGUI"@,
        Modifier::Ctrl => "LCTL"@,
        Modifier::Shift => "LSFT"@,
    }
}

/// Executable modifier table.
pub fn qmk_mod(m: Modifier) -> (r: &'static str)
    ensures
        r@ == qmk_mod_token(m),
{
    match m {
        Modifier::Alt => "LALT",
        Modifier::Meta => "LGUI",
        Modifier::Ctrl => "LCTL",
        Modifier::Shift => "LSFT",
    }
}

/// Modifiers wrap the inner key's token in parsed order, the first
/// (outermost) modifier enclosing all the rest.
pub open spec fn qmk_wrap(mods: Seq<Modifier>, k: Key) -> Seq<char>
    decreases mods.len(),
{
    if mods.len() == 0 {
        qmk_key_token(k)
    } else {
        qmk_mod_token(mods[0]) + "("@ + qmk_wrap(mods.drop_first(), k) + ")"@
    }
}

/// Appends the wrapped rendering of `mods[i..]` around `k`.
fn append_wrap(out: &mut Vec<char>, mods: &Vec<Modifier>, i: usize, k: Key)
    requires
        i <= mods@.len(),
    ensures
        final(out)@ == old(out)@ + qmk_wrap(mods@.skip(i as int), k),
    decreases mods@.len() - i,
{
    let ghost tail = mods@.skip(i as int);
    if i >= mods.len() {
        proof {
            assert(tail =~= Seq::<Modifier>::empty());
        }
        append_str(out, qmk_key(k));
    } else {
        proof {
            assert(tail[0] == mods@[i as int]);
            assert(tail.drop_first() =~= mods@.skip(i + 1));
        }
        append_str(out, qmk_mod(mods[i]));
        append_str(out, "(");
        append_wrap(out, mods, i + 1, k);
        append_str(out, ")");
    }
}

/// The rendering of a tap key in this backend.
pub open spec fn qmk_tap_token(t: TapKeyV) -> Seq<char> {
    match t {
        TapKeyV::Key(k) => qmk_key_token(k),
        TapKeyV::Layer(n) => "MO("@ + n + ")"@,
        TapKeyV::ToggleLayer(n) => "TG("@ + n + ")"@,
        TapKeyV::OneShotMod(m) => "OSM(MOD_"@ + qmk_mod_token(m) + ")"@,
        TapKeyV::OneShotLayer(n) => "OSL("@ + n + ")"@,
        TapKeyV::Modified(ms, k) => qmk_wrap(ms, k),
    }
}

/// Appends the rendering of a tap key.
fn append_tap(out: &mut Vec<char>, t: &TapKey)
    ensures
        final(out)@ == old(out)@ + qmk_tap_token(t@),
{
    match t {
        TapKey::Key(k) => append_str(out, qmk_key(*k)),
        TapKey::Layer(n) => {
            append_str(out, "MO(");
            append_string(out, n);
            append_str(out, ")");
        },
        TapKey::ToggleLayer(n) => {
            append_str(out, "TG(");
            append_string(out, n);
            append_str(out, ")");
        },
        TapKey::OneShotMod(m) => {
            append_str(out, "OSM(MOD_");
            append_str(out, qmk_mod(*m));
            append_str(out, ")");
        },
        TapKey::OneShotLayer(n) => {
            append_str(out, "OSL(");
            append_string(out, n);
            append_str(out, ")");
        },
        TapKey::Modified(ms, k) => {
            proof {
                assert(ms@.skip(0) =~= ms@);
            }
            append_wrap(out, ms, 0, *k);
        },
    }
}

/// The rendering of a key definition: a tap renders as its tap key; a
/// tap-hold pair renders as the backend's dual-function construct, which
/// here accepts any tap key as the tap side.
pub open spec fn qmk_keydef_token(kd: KeyDefV) -> Seq<char> {
    match kd {
        KeyDefV::Tap(t) => qmk_tap_token(t),
        KeyDefV::TapHold(t, h) => match h {
            HoldKeyV::Layer(n) => "LT("@ + n + ", "@ + qmk_tap_token(t) + ")"@,
            HoldKeyV::Modifier(m) => "MT(MOD_"@ + qmk_mod_token(m) + ", "@ + qmk_tap_token(t)
                + ")"@,
        },
    }
}

/// Appends the rendering of a key definition.
fn append_keydef(out: &mut Vec<char>, kd: &KeyDef)
    ensures
        final(out)@ == old(out)@ + qmk_keydef_token(kd@),
{
    match kd {
        KeyDef::Tap(t) => append_tap(out, t),
        KeyDef::TapHold(t, h) => match h {
            HoldKey::Layer(n) => {
                append_str(out, "LT(");
                append_string(out, n);
                append_str(out, ", ");
                append_tap(out, t);
                append_str(out, ")");
            },
            HoldKey::Modifier(m) => {
                append_str(out, "MT(MOD_");
                append_str(out, qmk_mod(*m));
                append_str(out, ", ");
                append_tap(out, t);
                append_str(out, ")");
            },
        },
    }
}

/// One enum entry per layer, in declaration order.
pub open spec fn qmk_enum_lines(layers: Seq<LayerV>, i: int) -> Seq<char>
    decreases layers.len() - i,
    when 0 <= i
{
    if i >= layers.len() {
        Seq::empty()
    } else {
        "    "@ + layers[i].name + ",\n"@ + qmk_enum_lines(layers, i + 1)
    }
}

/// Appends the layer enum entries.
fn append_enum_lines(out: &mut Vec<char>, layers: &Vec<Layer>, i: usize)
    requires
        i <= layers@.len(),
    ensures
        final(out)@ == old(out)@ + qmk_enum_lines(layers@.map_values(|l: Layer| l@), i as int),
    decreases layers@.len() - i,
{
    let ghost lv = layers@.map_values(|l: Layer| l@);
    if i >= layers.len() {
        proof {
            assert(old(out)@ + qmk_enum_lines(lv, i as int) =~= old(out)@);
        }
        return ;
    }
    proof {
        assert(lv[i as int] == layers@[i as int]@);
    }
    append_str(out, "    ");
    append_string(out, &layers[i].name);
    append_str(out, ",\n");
    append_enum_lines(out, layers, i + 1);
}

/// The layout tokens of one layer, comma-joined.
pub open spec fn qmk_layout_tokens(layout: Seq<KeyDefV>, i: int) -> Seq<char>
    decreases layout.len() - i,
    when 0 <= i
{
    if i >= layout.len() {
        Seq::empty()
    } else if i + 1 == layout.len() {
        qmk_keydef_token(layout[i])
    } else {
        qmk_keydef_token(layout[i]) + ", "@ + qmk_layout_tokens(layout, i + 1)
    }
}

/// Appends the comma-joined layout tokens.
fn append_layout_tokens(out: &mut Vec<char>, layout: &Vec<KeyDef>, i: usize)
    requires
        i <= layout@.len(),
    ensures
        final(out)@ == old(out)@ + qmk_layout_tokens(
            layout@.map_values(|k: KeyDef| k@),
            i as int,
        ),
    decreases layout@.len() - i,
{
    let ghost lv = layout@.map_values(|k: KeyDef| k@);
    if i >= layout.len() {
        proof {
            assert(old(out)@ + qmk_layout_tokens(lv, i as int) =~= old(out)@);
        }
        return ;
    }
    proof {
        assert(lv[i as int] == layout@[i as int]@);
    }
    append_keydef(out, &layout[i]);
    if i + 1 < layout.len() {
        append_str(out, ", ");
        append_layout_tokens(out, layout, i + 1);
    }
}

/// One keymap-array entry per layer, in declaration order: the entry at
/// layer index `i` is labelled with that layer's name.
pub open spec fn qmk_keymap_lines(layers: Seq<LayerV>, i: int) -> Seq<char>
    decreases layers.len() - i,
    when 0 <= i
{
    if i >= layers.len() {
        Seq::empty()
    } else {
        "    ["@ + layers[i].name + "] = LAYOUT("@ + qmk_layout_tokens(layers[i].layout, 0)
            + "),\n"@ + qmk_keymap_lines(layers, i + 1)
    }
}

/// Appends the keymap-array entries.
fn append_keymap_lines(out: &mut Vec<char>, layers: &Vec<Layer>, i: usize)
    requires
        i <= layers@.len(),
    ensures
        final(out)@ == old(out)@ + qmk_keymap_lines(layers@.map_values(|l: Layer| l@), i as int),
    decreases layers@.len() - i,
{
    let ghost lv = layers@.map_values(|l: Layer| l@);
    if i >= layers.len() {
        proof {
            assert(old(out)@ + qmk_keymap_lines(lv, i as int) =~= old(out)@);
        }
        return ;
    }
    proof {
        assert(lv[i as int] == layers@[i as int]@);
    }
    append_str(out, "    [");
    append_string(out, &layers[i].name);
    append_str(out, "] = LAYOUT(");
    append_layout_tokens(out, &layers[i].layout, 0);
    append_str(out, "),\n");
    append_keymap_lines(out, layers, i + 1);
}

/// The comma-joined tokens of a combo's resolved inputs.
pub open spec fn qmk_combo_inputs(ins: Seq<LayerKeyV>, i: int) -> Seq<char>
    decreases ins.len() - i,
    when 0 <= i
{
    if i >= ins.len() {
        Seq::empty()
    } else if i + 1 == ins.len() {
        qmk_keydef_token(ins[i].key)
    } else {
        qmk_keydef_token(ins[i].key) + ", "@ + qmk_combo_inputs(ins, i + 1)
    }
}

/// Appends the comma-joined combo input tokens.
fn append_combo_inputs(out: &mut Vec<char>, ins: &Vec<LayerKey>, i: usize)
    requires
        i <= ins@.len(),
    ensures
        final(out)@ == old(out)@ + qmk_combo_inputs(
            ins@.map_values(|k: LayerKey| k@),
            i as int,
        ),
    decreases ins@.len() - i,
{
    let ghost iv = ins@.map_values(|k: LayerKey| k@);
    if i >= ins.len() {
        proof {
            assert(old(out)@ + qmk_combo_inputs(iv, i as int) =~= old(out)@);
        }
        return ;
    }
    proof {
        assert(iv[i as int] == ins@[i as int]@);
    }
    append_keydef(out, &ins[i].key);
    if i + 1 < ins.len() {
        append_str(out, ", ");
        append_combo_inputs(out, ins, i + 1);
    }
}

/// One standalone combo declaration per combo, numbered in declaration
/// order across all layers.
pub open spec fn qmk_combo_defs(cbs: Seq<ComboV>, i: int) -> Seq<char>
    decreases cbs.len() - i,
    when 0 <= i
{
    if i >= cbs.len() {
        Seq::empty()
    } else {
        "const uint16_t PROGMEM combo_"@ + dec_spec(i as nat) + "[] = {"@ + qmk_combo_inputs(
            cbs[i].inputs,
            0,
        ) + ", COMBO_END};\n"@ + qmk_combo_defs(cbs, i + 1)
    }
}

/// Appends the standalone combo declarations.
fn append_combo_defs(out: &mut Vec<char>, cbs: &Vec<Combo>, i: usize)
    requires
        i <= cbs@.len(),
    ensures
        final(out)@ == old(out)@ + qmk_combo_defs(cbs@.map_values(|c: Combo| c@), i as int),
    decreases cbs@.len() - i,
{
    let ghost cv = cbs@.map_values(|c: Combo| c@);
    if i >= cbs.len() {
        proof {
            assert(old(out)@ + qmk_combo_defs(cv, i as int) =~= old(out)@);
        }
        return ;
    }
    proof {
        assert(cv[i as int] == cbs@[i as int]@);
    }
    append_str(out, "const uint16_t PROGMEM combo_");
    append_dec(out, i);
    append_str(out, "[] = {");
    append_combo_inputs(out, &cbs[i].inputs, 0);
    append_str(out, ", COMBO_END};\n");
    append_combo_defs(out, cbs, i + 1);
}

/// One master-table registration per combo, in the same order.
pub open spec fn qmk_combo_regs(cbs: Seq<ComboV>, i: int) -> Seq<char>
    decreases cbs.len() - i,
    when 0 <= i
{
    if i >= cbs.len() {
        Seq::empty()
    } else {
        "    COMBO(combo_"@ + dec_spec(i as nat) + ", "@ + qmk_keydef_token(cbs[i].output)
            + "),\n"@ + qmk_combo_regs(cbs, i + 1)
    }
}

/// Appends the combo registration table entries.
fn append_combo_regs(out: &mut Vec<char>, cbs: &Vec<Combo>, i: usize)
    requires
        i <= cbs@.len(),
    ensures
        final(out)@ == old(out)@ + qmk_combo_regs(cbs@.map_values(|c: Combo| c@), i as int),
    decreases cbs@.len() - i,
{
    let ghost cv = cbs@.map_values(|c: Combo| c@);
    if i >= cbs.len() {
        proof {
            assert(old(out)@ + qmk_combo_regs(cv, i as int) =~= old(out)@);
        }
        return ;
    }
    proof {
        assert(cv[i as int] == cbs@[i as int]@);
    }
    append_str(out, "    COMBO(combo_");
    append_dec(out, i);
    append_str(out, ", ");
    append_keydef(out, &cbs[i].output);
    append_str(out, "),\n");
    append_combo_regs(out, cbs, i + 1);
}

/// One standalone shift-override declaration per override, numbered in
/// declaration order across all layers; this backend leaves the layer
/// grid untouched.
pub open spec fn qmk_shift_defs(shs: Seq<ShiftedV>, i: int) -> Seq<char>
    decreases shs.len() - i,
    when 0 <= i
{
    if i >= shs.len() {
        Seq::empty()
    } else {
        "const key_override_t shift_"@ + dec_spec(i as nat) + " = ko_make_basic(MOD_MASK_SHIFT, "@
            + qmk_keydef_token(shs[i].input) + ", "@ + qmk_keydef_token(shs[i].output) + ");\n"@
            + qmk_shift_defs(shs, i + 1)
    }
}

/// Appends the standalone shift-override declarations.
fn append_shift_defs(out: &mut Vec<char>, shs: &Vec<Shifted>, i: usize)
    requires
        i <= shs@.len(),
    ensures
        final(out)@ == old(out)@ + qmk_shift_defs(shs@.map_values(|s: Shifted| s@), i as int),
    decreases shs@.len() - i,
{
    let ghost sv = shs@.map_values(|s: Shifted| s@);
    if i >= shs.len() {
        proof {
            assert(old(out)@ + qmk_shift_defs(sv, i as int) =~= old(out)@);
        }
        return ;
    }
    proof {
        assert(sv[i as int] == shs@[i as int]@);
    }
    append_str(out, "const key_override_t shift_");
    append_dec(out, i);
    append_str(out, " = ko_make_basic(MOD_MASK_SHIFT, ");
    append_keydef(out, &shs[i].input);
    append_str(out, ", ");
    append_keydef(out, &shs[i].output);
    append_str(out, ");\n");
    append_shift_defs(out, shs, i + 1);
}

/// One master-table registration per shift override, in the same order.
pub open spec fn qmk_shift_regs(shs: Seq<ShiftedV>, i: int) -> Seq<char>
    decreases shs.len() - i,
    when 0 <= i
{
    if i >= shs.len() {
        Seq::empty()
    } else {
        "    &shift_"@ + dec_spec(i as nat) + ",\n"@ + qmk_shift_regs(shs, i + 1)
    }
}

/// Appends the shift-override registration table entries.
fn append_shift_regs(out: &mut Vec<char>, shs: &Vec<Shifted>, i: usize)
    requires
        i <= shs@.len(),
    ensures
        final(out)@ == old(out)@ + qmk_shift_regs(shs@.map_values(|s: Shifted| s@), i as int),
    decreases shs@.len() - i,
{
    let ghost sv = shs@.map_values(|s: Shifted| s@);
    if i >= shs.len() {
        proof {
            assert(old(out)@ + qmk_shift_regs(sv, i as int) =~= old(out)@);
        }
        return ;
    }
    append_str(out, "    &shift_");
    append_dec(out, i);
    append_str(out, ",\n");
    append_shift_regs(out, shs, i + 1);
}

/// The fixed head of the generated source, with the injection point for
/// the verbatim global fragment right after it.
pub open spec fn qmk_header() -> Seq<char> {
    "#inclu"@ + "de QMK_KEYBOARD_H\n#define LAYOUT LAYOUT_split_3x5_2\n\n"@
}

/// The complete generated source for this backend: header, injected
/// fragment, layer enum, keymap array, combo declarations and table,
/// shift-override declarations and table.
pub open spec fn qmk_render(km: KeyMapV) -> Seq<char> {
    qmk_header() + km.inject + "\n\nenum layers {\n"@ + qmk_enum_lines(km.layers, 0)
        + "};\n\nconst uint16_t PROGMEM keymaps[][MATRIX_ROWS][MATRIX_COLS] = {\n"@
        + qmk_keymap_lines(km.layers, 0) + "};\n\n"@ + qmk_combo_defs(
        all_combos(km.layers, 0),
        0,
    ) + "combo_t key_combos[] = {\n"@ + qmk_combo_regs(all_combos(km.layers, 0), 0) + "};\n\n"@
        + qmk_shift_defs(all_shifts(km.layers, 0), 0)
        + "const key_override_t *key_overrides[] = {\n"@ + qmk_shift_regs(
        all_shifts(km.layers, 0),
        0,
    ) + "};\n"@
}

impl Format for QMK {
    /// This backend can render every keymap.
    open spec fn spec_format(km: KeyMapV) -> Result<Seq<char>, EmitErrorV> {
        Ok(qmk_render(km))
    }

    fn format(keymap: &KeyMap) -> (r: Result<String, EmitError>) {
        let mut out: Vec<char> = Vec::new();
        append_str(&mut out, "#inclu");
        append_str(&mut out, "de QMK_KEYBOARD_H\n#define LAYOUT LAYOUT_split_3x5_2\n\n");
        append_string(&mut out, &keymap.inject);
        append_str(&mut out, "\n\nenum layers {\n");
        append_enum_lines(&mut out, &keymap.layers, 0);
        append_str(&mut out, "};\n\nconst uint16_t PROGMEM keymaps[][MATRIX_ROWS][MATRIX_COLS] = {\n");
        append_keymap_lines(&mut out, &keymap.layers, 0);
        append_str(&mut out, "};\n\n");
        let cbs = keymap.combos();
        append_combo_defs(&mut out, &cbs, 0);
        append_str(&mut out, "combo_t key_combos[] = {\n");
        append_combo_regs(&mut out, &cbs, 0);
        append_str(&mut out, "};\n\n");
        let shs = keymap.shifts();
        append_shift_defs(&mut out, &shs, 0);
        append_str(&mut out, "const key_override_t *key_overrides[] = {\n");
        append_shift_regs(&mut out, &shs, 0);
        append_str(&mut out, "};\n");
        proof {
            assert(out@ =~= qmk_render(keymap@));
        }
        Ok(chars_string(&out))
    }
}

} // verus!
