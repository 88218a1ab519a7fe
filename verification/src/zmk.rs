use vstd::prelude::*;

use crate::errors::{EmitError, EmitErrorV};
use crate::format::Format;
use crate::keymap::{Combo, ComboV, KeyMap, KeyMapV, Layer, LayerKey, LayerKeyV, LayerV, Shifted, ShiftedV};
use crate::keys::{Key, KeyDef, KeyDefV, Modifier, TapKey, TapKeyV, HoldKey, HoldKeyV};
use crate::text::{append_dec, append_str, append_string, chars_string, dec_spec};

verus! {

/// The second of the two supported backends.
pub struct ZMK;

/// This backend's key-code token for each key. Keys with no distinct
/// equivalent here share the degenerate token `none`; where one of them
/// stands alone as a tap it renders through a dedicated behavior
/// instead (see `zmk_tap_token`).
pub open spec fn zmk_key_token(k: Key) -> Seq<char> {
    match k {
        Key::A => "A"@,
        Key::B => "B"@,
        Key::C => "C"@,
        Key::D => "D"@,
        Key::E => "E"@,
        Key::F => "F"@,
        Key::G => "G"@,
        Key::H => "H"@,
        Key::I => "I"@,
        Key::J => "J"@,
        Key::K => "K"@,
        Key::L => "L"@,
        Key::M => "M"@,
        Key::N => "N"@,
        Key::O => "O"@,
        Key::P => "P"@,
        Key::Q => "Q"@,
        Key::R => "R"@,
        Key::S => "S"@,
        Key::T => "T"@,
        Key::U => "U"@,
        Key::V => "V"@,
        Key::W => "W"@,
        Key::X => "X"@,
        Key::Y => "Y"@,
        Key::Z => "Z"@,
        Key::Num0 => "N0"@,
        Key::Num1 => "N1"@,
        Key::Num2 => "N2"@,
        Key::Num3 => "N3"@,
        Key::Num4 => "N4"@,
        Key::Num5 => "N5"@,
        Key::Num6 => "N6"@,
        Key::Num7 => "N7"@,
        Key::Num8 => "N8"@,
        Key::Num9 => "N9"@,
        Key::Pipe => "LS(BACKSLASH)"@,
        Key::Plus => "LS(EQUAL)"@,
        Key::Minus => "MINUS"@,
        Key::Equal => "EQUAL"@,
        Key::Comma => "COMMA"@,
        Key::Period => "DOT"@,
        Key::Colon => "LS(SEMICOLON)"@,
        Key::Caret => "LS(N6)"@,
        Key::Dollar => "LS(N4)"@,
        Key::Percent => "LS(N5)"@,
        Key::Semicolon => "SEMICOLON"@,
        Key::Question => "LS(SLASH)"@,
        Key::Exclamation => "LS(N1)"@,
        Key::Octothorpe => "LS(N3)"@,
        Key::Ampersand => "LS(N7)"@,
        Key::Arobase => "LS(N2)"@,
        Key::Asterisk => "LS(N8)"@,
        Key::Slash => "SLASH"@,
        Key::Tilde => "LS(GRAVE)"@,
        Key::Backtick => "GRAVE"@,
        Key::LessThan => "LS(COMMA)"@,
        Key::GreaterThan => "LS(DOT)"@,
        Key::ParensRight => "LS(N0)"@,
        Key::ParensLeft => "LS(N9)"@,
        Key::BracketRight => "RBKT"@,
        Key::BracketLeft => "LBKT"@,
        Key::BraceRight => "LS(RBKT)"@,
        Key::BraceLeft => "LS(LBKT)"@,
        Key::Underscore => "LS(MINUS)"@,
        Key::Apostrophe => "SINGLE_QUOTE"@,
        Key::Backslash => "BACKSLASH"@,
        Key::Quote => "LS(SINGLE_QUOTE)"@,
        Key::Up => "UP"@,
        Key::Down => "DOWN"@,
        Key::Left => "LEFT"@,
        Key::Right => "RIGHT"@,
        Key::PageUp => "PG_UP"@,
        Key::PageDown => "PG_DN"@,
        Key::VolumeUp => "C_VOL_UP"@,
        Key::VolumeDown => "C_VOL_DN"@,
        Key::VolumeMute => "C_MUTE"@,
        Key::BrightnessUp => "C_BRI_INC"@,
        Key::BrightnessDown => "C_BRI_DEC"@,
        Key::Aigu => "RA(SINGLE_QUOTE)"@,
        Key::Grave => "RA(GRAVE)"@,
        Key::Cedille => "RA(COMMA)"@,
        Key::Circonflex => "RA(LS(N6))"@,
        Key::Trema => "RA(LS(SINGLE_QUOTE))"@,
        Key::Euro => "RA(EQUAL)"@,
        Key::Esc => "ESC"@,
        Key::Tab => "TAB"@,
        Key::Space => "SPACE"@,
        Key::Backspace => "BSPC"@,
        Key::Enter => "ENTER"@,
        Key::Meta => "LGUI"@,
        Key::Shift => "LSHIFT"@,
        Key::Ctrl => "LCTRL"@,
        Key::Alt => "LALT"@,
        Key::MouseWheelUp => "none"@,
        Key::MouseWheelDown => "none"@,
        Key::CapsWord => "none"@,
        Key::Bt0 => "none"@,
        Key::Bt1 => "none"@,
        Key::BtClear => "none"@,
        Key::NotAllowed => "none"@,
        Key::Unassigned => "none"@,
    }
}

/// Executable key-code table.
pub fn zmk_key(k: Key) -> (r: &'static str)
    ensures
        r@ == zmk_key_token(k),
{
    match k {
        Key::A => "A",
        Key::B => "B",
        Key::C => "C",
        Key::D => "D",
        Key::E => "E",
        Key::F => "F",
        Key::G => "G",
        Key::H => "H",
        Key::I => "I",
        Key::J => "J",
        Key::K => "K",
        Key::L => "L",
        Key::M => "M",
        Key::N => "N",
        Key::O => "O",
        Key::P => "P",
        Key::Q => "Q",
        Key::R => "R",
        Key::S => "S",
        Key::T => "T",
        Key::U => "U",
        Key::V => "V",
        Key::W => "W",
        Key::X => "X",
        Key::Y => "Y",
        Key::Z => "Z",
        Key::Num0 => "N0",
        Key::Num1 => "N1",
        Key::Num2 => "N2",
        Key::Num3 => "N3",
        Key::Num4 => "N4",
        Key::Num5 => "N5",
        Key::Num6 => "N6",
        Key::Num7 => "N7",
        Key::Num8 => "N8",
        Key::Num9 => "N9",
        Key::Pipe => "LS(BACKSLASH)",
        Key::Plus => "LS(EQUAL)",
        Key::Minus => "MINUS",
        Key::Equal => "EQUAL",
        Key::Comma => "COMMA",
        Key::Period => "DOT",
        Key::Colon => "LS(SEMICOLON)",
        Key::Caret => "LS(N6)",
        Key::Dollar => "LS(N4)",
        Key::Percent => "LS(N5)",
        Key::Semicolon => "SEMICOLON",
        Key::Question => "LS(SLASH)",
        Key::Exclamation => "LS(N1)",
        Key::Octothorpe => "LS(N3)",
        Key::Ampersand => "LS(N7)",
        Key::Arobase => "LS(N2)",
        Key::Asterisk => "LS(N8)",
        Key::Slash => "SLASH",
        Key::Tilde => "LS(GRAVE)",
        Key::Backtick => "GRAVE",
        Key::LessThan => "LS(COMMA)",
        Key::GreaterThan => "LS(DOT)",
        Key::ParensRight => "LS(N0)",
        Key::ParensLeft => "LS(N9)",
        Key::BracketRight => "RBKT",
        Key::BracketLeft => "LBKT",
        Key::BraceRight => "LS(RBKT)",
        Key::BraceLeft => "LS(LBKT)",
        Key::Underscore => "LS(MINUS)",
        Key::Apostrophe => "SINGLE_QUOTE",
        Key::Backslash => "BACKSLASH",
        Key::Quote => "LS(SINGLE_QUOTE)",
        Key::Up => "UP",
        Key::Down => "DOWN",
        Key::Left => "LEFT",
        Key::Right => "RIGHT",
        Key::PageUp => "PG_UP",
        Key::PageDown => "PG_DN",
        Key::VolumeUp => "C_VOL_UP",
        Key::VolumeDown => "C_VOL_DN",
        Key::VolumeMute => "C_MUTE",
        Key::BrightnessUp => "C_BRI_INC",
        Key::BrightnessDown => "C_BRI_DEC",
        Key::Aigu => "RA(SINGLE_QUOTE)",
        Key::Grave => "RA(GRAVE)",
        Key::Cedille => "RA(COMMA)",
        Key::Circonflex => "RA(LS(N6))",
        Key::Trema => "RA(LS(SINGLE_QUOTE))",
        Key::Euro => "RA(EQUAL)",
        Key::Esc => "ESC",
        Key::Tab => "TAB",
        Key::Space => "SPACE",
        Key::Backspace => "BSPC",
        Key::Enter => "ENTER",
        Key::Meta => "LGUI",
        Key::Shift => "LSHIFT",
        Key::Ctrl => "LCTRL",
        Key::Alt => "LALT",
        Key::MouseWheelUp => "none",
        Key::MouseWheelDown => "none",
        Key::CapsWord => "none",
        Key::Bt0 => "none",
        Key::Bt1 => "none",
        Key::BtClear => "none",
        Key::NotAllowed => "none",
        Key::Unassigned => "none",
    }
}

/// Every key has a rendering in this backend, possibly the shared
/// degenerate one.
pub proof fn lemma_zmk_key_token_nonempty(k: Key)
    ensures
        zmk_key_token(k).len() > 0,
{
    reveal_strlit("A");
    reveal_strlit("B");
    reveal_strlit("BACKSLASH");
    reveal_strlit("BSPC");
    reveal_strlit("C");
    reveal_strlit("COMMA");
    reveal_strlit("C_BRI_DEC");
    reveal_strlit("C_BRI_INC");
    reveal_strlit("C_MUTE");
    reveal_strlit("C_VOL_DN");
    reveal_strlit("C_VOL_UP");
    reveal_strlit("D");
    reveal_strlit("DOT");
    reveal_strlit("DOWN");
    reveal_strlit("E");
    reveal_strlit("ENTER");
    reveal_strlit("EQUAL");
    reveal_strlit("ESC");
    reveal_strlit("F");
    reveal_strlit("G");
    reveal_strlit("GRAVE");
    reveal_strlit("H");
    reveal_strlit("I");
    reveal_strlit("J");
    reveal_strlit("K");
    reveal_strlit("L");
    reveal_strlit("LALT");
    reveal_strlit("LBKT");
    reveal_strlit("LCTRL");
    reveal_strlit("LEFT");
    reveal_strlit("LGUI");
    reveal_strlit("LS(BACKSLASH)");
    reveal_strlit("LS(COMMA)");
    reveal_strlit("LS(DOT)");
    reveal_strlit("LS(EQUAL)");
    reveal_strlit("LS(GRAVE)");
    reveal_strlit("LS(LBKT)");
    reveal_strlit("LS(MINUS)");
    reveal_strlit("LS(N0)");
    reveal_strlit("LS(N1)");
    reveal_strlit("LS(N2)");
    reveal_strlit("LS(N3)");
    reveal_strlit("LS(N4)");
    reveal_strlit("LS(N5)");
    reveal_strlit("LS(N6)");
    reveal_strlit("LS(N7)");
    reveal_strlit("LS(N8)");
    reveal_strlit("LS(N9)");
    reveal_strlit("LS(RBKT)");
    reveal_strlit("LS(SEMICOLON)");
    reveal_strlit("LS(SINGLE_QUOTE)");
    reveal_strlit("LS(SLASH)");
    reveal_strlit("LSHIFT");
    reveal_strlit("M");
    reveal_strlit("MINUS");
    reveal_strlit("N");
    reveal_strlit("N0");
    reveal_strlit("N1");
    reveal_strlit("N2");
    reveal_strlit("N3");
    reveal_strlit("N4");
    reveal_strlit("N5");
    reveal_strlit("N6");
    reveal_strlit("N7");
    reveal_strlit("N8");
    reveal_strlit("N9");
    reveal_strlit("O");
    reveal_strlit("P");
    reveal_strlit("PG_DN");
    reveal_strlit("PG_UP");
    reveal_strlit("Q");
    reveal_strlit("R");
    reveal_strlit("RA(COMMA)");
    reveal_strlit("RA(EQUAL)");
    reveal_strlit("RA(GRAVE)");
    reveal_strlit("RA(LS(N6))");
    reveal_strlit("RA(LS(SINGLE_QUOTE))");
    reveal_strlit("RA(SINGLE_QUOTE)");
    reveal_strlit("RBKT");
    reveal_strlit("RIGHT");
    reveal_strlit("S");
    reveal_strlit("SEMICOLON");
    reveal_strlit("SINGLE_QUOTE");
    reveal_strlit("SLASH");
    reveal_strlit("SPACE");
    reveal_strlit("T");
    reveal_strlit("TAB");
    reveal_strlit("U");
    reveal_strlit("UP");
    reveal_strlit("V");
    reveal_strlit("W");
    reveal_strlit("X");
    reveal_strlit("Y");
    reveal_strlit("Z");
    reveal_strlit("none");
}

/// This backend's full modifier token.
pub open spec fn zmk_mod_token(m: Modifier) -> Seq<char> {
    match m {
        Modifier::Alt => "LALT"@,
        Modifier::Meta => "LGUI"@,
        Modifier::Ctrl => "LCTRL"@,
        Modifier::Shift => "LSHIFT"@,
    }
}

/// Executable full modifier table.
pub fn zmk_mod(m: Modifier) -> (r: &'static str)
    ensures
        r@ == zmk_mod_token(m),
{
    match m {
        Modifier::Alt => "LALT",
        Modifier::Meta => "LGUI",
        Modifier::Ctrl => "LCTRL",
        Modifier::Shift => "LSHIFT",
    }
}

/// This backend's short modifier-function token.
pub open spec fn zmk_mod_short(m: Modifier) -> Seq<char> {
    match m {
        Modifier::Alt => "LA"@,
        Modifier::Meta => "LG"@,
        Modifier::Ctrl => "LC"@,
        Modifier::Shift => "LS"@,
    }
}

/// Executable short modifier table.
pub fn zmk_mods(m: Modifier) -> (r: &'static str)
    ensures
        r@ == zmk_mod_short(m),
{
    match m {
        Modifier::Alt => "LA",
        Modifier::Meta => "LG",
        Modifier::Ctrl => "LC",
        Modifier::Shift => "LS",
    }
}

/// Modifiers wrap the inner key's token in parsed order, the first
/// (outermost) modifier enclosing all the rest.
pub open spec fn zmk_wrap(mods: Seq<Modifier>, k: Key) -> Seq<char>
    decreases mods.len(),
{
    if mods.len() == 0 {
        zmk_key_token(k)
    } else {
        zmk_mod_short(mods[0]) + "("@ + zmk_wrap(mods.drop_first(), k) + ")"@
    }
}

/// Appends the wrapped rendering of `mods[i..]` around `k`.
fn append_wrap(out: &mut Vec<char>, mods: &Vec<Modifier>, i: usize, k: Key)
    requires
        i <= mods@.len(),
    ensures
        final(out)@ == old(out)@ + zmk_wrap(mods@.skip(i as int), k),
    decreases mods@.len() - i,
{
    let ghost tail = mods@.skip(i as int);
    if i >= mods.len() {
        proof {
            assert(tail =~= Seq::<Modifier>::empty());
        }
        append_str(out, zmk_key(k));
    } else {
        proof {
            assert(tail[0] == mods@[i as int]);
            assert(tail.drop_first() =~= mods@.skip(i + 1));
        }
        append_str(out, zmk_mods(mods[i]));
        append_str(out, "(");
        append_wrap(out, mods, i + 1, k);
        append_str(out, ")");
    }
}

/// The rendering of a tap key: plain keys as `&kp` bindings with a few
/// dedicated behaviors, layer references as the backend's momentary,
/// toggle and one-shot layer syntax.
pub open spec fn zmk_tap_token(t: TapKeyV) -> Seq<char> {
    match t {
        TapKeyV::Key(k) => match k {
            Key::CapsWord => "&caps_word"@,
            Key::Unassigned => "&none"@,
            Key::NotAllowed => "&none"@,
            Key::Bt0 => "&bt BT_SEL 0"@,
            Key::Bt1 => "&bt BT_SEL 1"@,
            Key::BtClear => "&bt BT_CLR"@,
            _ => "&kp "@ + zmk_key_token(k),
        },
        TapKeyV::Layer(n) => "&mo "@ + n,
        TapKeyV::ToggleLayer(n) => "&tog "@ + n,
        TapKeyV::OneShotMod(m) => "&sk "@ + zmk_mod_token(m),
        TapKeyV::OneShotLayer(n) => "&sl "@ + n,
        TapKeyV::Modified(ms, k) => "&kp "@ + zmk_wrap(ms, k),
    }
}

/// Appends the rendering of a tap key.
fn append_tap(out: &mut Vec<char>, t: &TapKey)
    ensures
        final(out)@ == old(out)@ + zmk_tap_token(t@),
{
    match t {
        TapKey::Key(k) => match k {
            Key::CapsWord => append_str(out, "&caps_word"),
            Key::Unassigned => append_str(out, "&none"),
            Key::NotAllowed => append_str(out, "&none"),
            Key::Bt0 => append_str(out, "&bt BT_SEL 0"),
            Key::Bt1 => append_str(out, "&bt BT_SEL 1"),
            Key::BtClear => append_str(out, "&bt BT_CLR"),
            _ => {
                append_str(out, "&kp ");
                append_str(out, zmk_key(*k));
            },
        },
        TapKey::Layer(n) => {
            append_str(out, "&mo ");
            append_string(out, n);
        },
        TapKey::ToggleLayer(n) => {
            append_str(out, "&tog ");
            append_string(out, n);
        },
        TapKey::OneShotMod(m) => {
            append_str(out, "&sk ");
            append_str(out, zmk_mod(*m));
        },
        TapKey::OneShotLayer(n) => {
            append_str(out, "&sl ");
            append_string(out, n);
        },
        TapKey::Modified(ms, k) => {
            append_str(out, "&kp ");
            proof {
                assert(ms@.skip(0) =~= ms@);
            }
            append_wrap(out, ms, 0, *k);
        },
    }
}

/// The rendering of a key definition. This backend requires the tap
/// side of a dual-function key to be a plain key and fails on any
/// other tap key there.
pub open spec fn zmk_keydef_token(kd: KeyDefV) -> Result<Seq<char>, EmitErrorV> {
    match kd {
        KeyDefV::Tap(t) => Ok(zmk_tap_token(t)),
        KeyDefV::TapHold(t, h) => match t {
            TapKeyV::Key(k) => match h {
                HoldKeyV::Layer(n) => Ok("&lt "@ + n + " "@ + zmk_key_token(k)),
                HoldKeyV::Modifier(m) => Ok("&mt "@ + zmk_mod_token(m) + " "@ + zmk_key_token(k)),
            },
            _ => Err(EmitErrorV::HoldTapNotPlain),
        },
    }
}

/// Appends the rendering of a key definition, failing where the
/// backend cannot express it.
fn append_keydef(out: &mut Vec<char>, kd: &KeyDef) -> (r: Result<(), EmitError>)
    ensures
        match r {
            Ok(_) => zmk_keydef_token(kd@) matches Ok(tok) && final(out)@ == old(out)@ + tok,
            Err(e) => zmk_keydef_token(kd@) == Err::<Seq<char>, EmitErrorV>(e@),
        },
{
    match kd {
        KeyDef::Tap(t) => {
            append_tap(out, t);
            Ok(())
        },
        KeyDef::TapHold(t, h) => match t {
            TapKey::Key(k) => {
                match h {
                    HoldKey::Layer(n) => {
                        append_str(out, "&lt ");
                        append_string(out, n);
                        append_str(out, " ");
                        append_str(out, zmk_key(*k));
                    },
                    HoldKey::Modifier(m) => {
                        append_str(out, "&mt ");
                        append_str(out, zmk_mod(*m));
                        append_str(out, " ");
                        append_str(out, zmk_key(*k));
                    },
                }
                Ok(())
            },
            _ => Err(EmitError::HoldTapNotPlain),
        },
    }
}

/// The first declared shift override whose input equals `kd`, if any.
pub open spec fn shift_for(shifts: Seq<ShiftedV>, i: int, kd: KeyDefV) -> Option<ShiftedV>
    decreases shifts.len() - i,
    when 0 <= i
{
    if i >= shifts.len() {
        None
    } else if shifts[i].input == kd {
        Some(shifts[i])
    } else {
        shift_for(shifts, i + 1, kd)
    }
}

/// Finds the first shift override for `kd` in this layer.
fn shift_for_exec<'a>(shifts: &'a Vec<Shifted>, kd: &KeyDef) -> (r: Option<&'a Shifted>)
    ensures
        ({
            let sv = shifts@.map_values(|s: Shifted| s@);
            match r {
                Some(s) => shift_for(sv, 0, kd@) == Some(s@),
                None => shift_for(sv, 0, kd@) is None,
            }
        }),
{
    let ghost sv = shifts@.map_values(|s: Shifted| s@);
    let n: usize = shifts.len();
    let mut i: usize = 0;
    while i < n
        invariant
            n == shifts@.len(),
            i <= n,
            sv == shifts@.map_values(|s: Shifted| s@),
            sv.len() == n,
            shift_for(sv, 0, kd@) == shift_for(sv, i as int, kd@),
        decreases n - i,
    {
        proof {
            assert(sv[i as int] == shifts@[i as int]@);
        }
        if shifts[i].input.eq(kd) {
            return Some(&shifts[i]);
        }
        i = i + 1;
    }
    None
}

/// The binding a grid position renders to: a reference to its shift
/// override's behavior when one overrides it, else its own rendering
/// (this backend substitutes overrides inline in the grid).
pub open spec fn zmk_skd_token(kd: KeyDefV, shifts: Seq<ShiftedV>) -> Result<
    Seq<char>,
    EmitErrorV,
> {
    match shift_for(shifts, 0, kd) {
        Some(s) => Ok("&"@ + s.name),
        None => zmk_keydef_token(kd),
    }
}

/// Appends the binding of one grid position.
fn append_skd(out: &mut Vec<char>, kd: &KeyDef, shifts: &Vec<Shifted>) -> (r: Result<
    (),
    EmitError,
>)
    ensures
        ({
            let sv = shifts@.map_values(|s: Shifted| s@);
            match r {
                Ok(_) => zmk_skd_token(kd@, sv) matches Ok(tok) && final(out)@ == old(out)@ + tok,
                Err(e) => zmk_skd_token(kd@, sv) == Err::<Seq<char>, EmitErrorV>(e@),
            }
        }),
{
    match shift_for_exec(shifts, kd) {
        Some(s) => {
            append_str(out, "&");
            append_string(out, &s.name);
            Ok(())
        },
        None => append_keydef(out, kd),
    }
}

/// One numeric `#define` per layer: the layer declared at position `i`
/// is bound to index `i`.
pub open spec fn zmk_define_lines(layers: Seq<LayerV>, i: int) -> Seq<char>
    decreases layers.len() - i,
    when 0 <= i
{
    if i >= layers.len() {
        Seq::empty()
    } else {
        "#define "@ + layers[i].name + " "@ + dec_spec(i as nat) + "\n"@ + zmk_define_lines(
            layers,
            i + 1,
        )
    }
}

/// Appends the layer index defines.
fn append_define_lines(out: &mut Vec<char>, layers: &Vec<Layer>, i: usize)
    requires
        i <= layers@.len(),
    ensures
        final(out)@ == old(out)@ + zmk_define_lines(layers@.map_values(|l: Layer| l@), i as int),
    decreases layers@.len() - i,
{
    let ghost lv = layers@.map_values(|l: Layer| l@);
    if i >= layers.len() {
        proof {
            assert(old(out)@ + zmk_define_lines(lv, i as int) =~= old(out)@);
        }
        return ;
    }
    proof {
        assert(lv[i as int] == layers@[i as int]@);
    }
    append_str(out, "#define ");
    append_string(out, &layers[i].name);
    append_str(out, " ");
    append_dec(out, i);
    append_str(out, "\n");
    append_define_lines(out, layers, i + 1);
}

/// One mod-morph behavior node per shift override of one layer.
pub open spec fn zmk_shift_nodes(shs: Seq<ShiftedV>, i: int) -> Result<Seq<char>, EmitErrorV>
    decreases shs.len() - i,
    when 0 <= i
{
    if i >= shs.len() {
        Ok(Seq::empty())
    } else {
        match zmk_keydef_token(shs[i].input) {
            Err(e) => Err(e),
            Ok(a) => match zmk_keydef_token(shs[i].output) {
                Err(e) => Err(e),
                Ok(b) => match zmk_shift_nodes(shs, i + 1) {
                    Err(e) => Err(e),
                    Ok(rest) => Ok(
                        "        "@ + shs[i].name + ": "@ + shs[i].name
                            + " {\n            compatible = \"zmk,behavior-mod-morph\";\n            #binding-cells = <0>;\n            bindings = <"@
                            + a + ">, <"@ + b
                            + ">;\n            mods = <(MOD_LSFT|MOD_RSFT)>;\n        };\n"@
                            + rest,
                    ),
                },
            },
        }
    }
}

/// Appends the mod-morph behavior nodes of one layer's overrides.
#[verifier::rlimit(50)]
fn append_shift_nodes(out: &mut Vec<char>, shs: &Vec<Shifted>, i: usize) -> (r: Result<
    (),
    EmitError,
>)
    requires
        i <= shs@.len(),
    ensures
        ({
            let sv = shs@.map_values(|s: Shifted| s@);
            match r {
                Ok(_) => zmk_shift_nodes(sv, i as int) matches Ok(t) && final(out)@ == old(out)@
                    + t,
                Err(e) => zmk_shift_nodes(sv, i as int) == Err::<Seq<char>, EmitErrorV>(e@),
            }
        }),
    decreases shs@.len() - i,
{
    let ghost sv = shs@.map_values(|s: Shifted| s@);
    if i >= shs.len() {
        proof {
            assert(old(out)@ + Seq::<char>::empty() =~= old(out)@);
        }
        return Ok(());
    }
    proof {
        assert(sv[i as int] == shs@[i as int]@);
    }
    append_str(out, "        ");
    append_string(out, &shs[i].name);
    append_str(out, ": ");
    append_string(out, &shs[i].name);
    append_str(out, " {\n            compatible = \"zmk,behavior-mod-morph\";\n            #binding-cells = <0>;\n            bindings = <");
    match append_keydef(out, &shs[i].input) {
        Err(e) => {
            return Err(e);
        },
        Ok(_) => {},
    }
    append_str(out, ">, <");
    match append_keydef(out, &shs[i].output) {
        Err(e) => {
            return Err(e);
        },
        Ok(_) => {},
    }
    append_str(out, ">;\n            mods = <(MOD_LSFT|MOD_RSFT)>;\n        };\n");
    append_shift_nodes(out, shs, i + 1)
}

/// The mod-morph behavior nodes of every layer, in declaration order.
pub open spec fn zmk_all_shift_nodes(layers: Seq<LayerV>, i: int) -> Result<Seq<char>, EmitErrorV>
    decreases layers.len() - i,
    when 0 <= i
{
    if i >= layers.len() {
        Ok(Seq::empty())
    } else {
        match zmk_shift_nodes(layers[i].shifts, 0) {
            Err(e) => Err(e),
            Ok(a) => match zmk_all_shift_nodes(layers, i + 1) {
                Err(e) => Err(e),
                Ok(rest) => Ok(a + rest),
            },
        }
    }
}

/// Appends every layer's mod-morph behavior nodes.
fn append_all_shift_nodes(out: &mut Vec<char>, layers: &Vec<Layer>, i: usize) -> (r: Result<
    (),
    EmitError,
>)
    requires
        i <= layers@.len(),
    ensures
        ({
            let lv = layers@.map_values(|l: Layer| l@);
            match r {
                Ok(_) => zmk_all_shift_nodes(lv, i as int) matches Ok(t) && final(out)@ == old(
                    out,
                )@ + t,
                Err(e) => zmk_all_shift_nodes(lv, i as int) == Err::<Seq<char>, EmitErrorV>(e@),
            }
        }),
    decreases layers@.len() - i,
{
    let ghost lv = layers@.map_values(|l: Layer| l@);
    if i >= layers.len() {
        proof {
            assert(old(out)@ + Seq::<char>::empty() =~= old(out)@);
        }
        return Ok(());
    }
    proof {
        assert(lv[i as int] == layers@[i as int]@);
    }
    match append_shift_nodes(out, &layers[i].shifts, 0) {
        Err(e) => {
            return Err(e);
        },
        Ok(_) => {},
    }
    append_all_shift_nodes(out, layers, i + 1)
}

/// The space-joined resolved positions of a combo's inputs.
pub open spec fn zmk_positions(ins: Seq<LayerKeyV>, i: int) -> Seq<char>
    decreases ins.len() - i,
    when 0 <= i
{
    if i >= ins.len() {
        Seq::empty()
    } else if i + 1 == ins.len() {
        dec_spec(ins[i].position as nat)
    } else {
        dec_spec(ins[i].position as nat) + " "@ + zmk_positions(ins, i + 1)
    }
}

/// Appends the space-joined combo input positions.
fn append_positions(out: &mut Vec<char>, ins: &Vec<LayerKey>, i: usize)
    requires
        i <= ins@.len(),
    ensures
        final(out)@ == old(out)@ + zmk_positions(ins@.map_values(|k: LayerKey| k@), i as int),
    decreases ins@.len() - i,
{
    let ghost iv = ins@.map_values(|k: LayerKey| k@);
    if i >= ins.len() {
        proof {
            assert(old(out)@ + zmk_positions(iv, i as int) =~= old(out)@);
        }
        return ;
    }
    proof {
        assert(iv[i as int] == ins@[i as int]@);
    }
    append_dec(out, ins[i].position);
    if i + 1 < ins.len() {
        append_str(out, " ");
        append_positions(out, ins, i + 1);
    }
}

/// One combo node per combo of layer `li`, named `combo_<li>_<j>` and
/// bound to that layer by name.
pub open spec fn zmk_layer_combo_nodes(
    cbs: Seq<ComboV>,
    j: int,
    li: int,
    lname: Seq<char>,
) -> Result<Seq<char>, EmitErrorV>
    decreases cbs.len() - j,
    when 0 <= j
{
    if j >= cbs.len() {
        Ok(Seq::empty())
    } else {
        match zmk_keydef_token(cbs[j].output) {
            Err(e) => Err(e),
            Ok(tok) => match zmk_layer_combo_nodes(cbs, j + 1, li, lname) {
                Err(e) => Err(e),
                Ok(rest) => Ok(
                    "        combo_"@ + dec_spec(li as nat) + "_"@ + dec_spec(j as nat)
                        + " {\n            timeout-ms = <200>;\n            key-positions = <"@
                        + zmk_positions(cbs[j].inputs, 0) + ">;\n            bindings = <"@ + tok
                        + ">;\n            layers = <"@ + lname + ">;\n        };\n"@ + rest,
                ),
            },
        }
    }
}

/// Appends the combo nodes of one layer.
#[verifier::rlimit(50)]
fn append_layer_combo_nodes(
    out: &mut Vec<char>,
    cbs: &Vec<Combo>,
    j: usize,
    li: usize,
    lname: &String,
) -> (r: Result<(), EmitError>)
    requires
        j <= cbs@.len(),
    ensures
        ({
            let cv = cbs@.map_values(|c: Combo| c@);
            match r {
                Ok(_) => zmk_layer_combo_nodes(cv, j as int, li as int, lname@) matches Ok(t)
                    && final(out)@ == old(out)@ + t,
                Err(e) => zmk_layer_combo_nodes(cv, j as int, li as int, lname@) == Err::<
                    Seq<char>,
                    EmitErrorV,
                >(e@),
            }
        }),
    decreases cbs@.len() - j,
{
    let ghost cv = cbs@.map_values(|c: Combo| c@);
    if j >= cbs.len() {
        proof {
            assert(old(out)@ + Seq::<char>::empty() =~= old(out)@);
        }
        return Ok(());
    }
    proof {
        assert(cv[j as int] == cbs@[j as int]@);
    }
    append_str(out, "        combo_");
    append_dec(out, li);
    append_str(out, "_");
    append_dec(out, j);
    append_str(out, " {\n            timeout-ms = <200>;\n            key-positions = <");
    append_positions(out, &cbs[j].inputs, 0);
    append_str(out, ">;\n            bindings = <");
    match append_keydef(out, &cbs[j].output) {
        Err(e) => {
            return Err(e);
        },
        Ok(_) => {},
    }
    append_str(out, ">;\n            layers = <");
    append_string(out, lname);
    append_str(out, ">;\n        };\n");
    append_layer_combo_nodes(out, cbs, j + 1, li, lname)
}

/// The combo nodes of every layer, in declaration order.
pub open spec fn zmk_combo_nodes(layers: Seq<LayerV>, i: int) -> Result<Seq<char>, EmitErrorV>
    decreases layers.len() - i,
    when 0 <= i
{
    if i >= layers.len() {
        Ok(Seq::empty())
    } else {
        match zmk_layer_combo_nodes(layers[i].combos, 0, i, layers[i].name) {
            Err(e) => Err(e),
            Ok(a) => match zmk_combo_nodes(layers, i + 1) {
                Err(e) => Err(e),
                Ok(rest) => Ok(a + rest),
            },
        }
    }
}

/// Appends every layer's combo nodes.
fn append_combo_nodes(out: &mut Vec<char>, layers: &Vec<Layer>, i: usize) -> (r: Result<
    (),
    EmitError,
>)
    requires
        i <= layers@.len(),
    ensures
        ({
            let lv = layers@.map_values(|l: Layer| l@);
            match r {
                Ok(_) => zmk_combo_nodes(lv, i as int) matches Ok(t) && final(out)@ == old(out)@
                    + t,
                Err(e) => zmk_combo_nodes(lv, i as int) == Err::<Seq<char>, EmitErrorV>(e@),
            }
        }),
    decreases layers@.len() - i,
{
    let ghost lv = layers@.map_values(|l: Layer| l@);
    if i >= layers.len() {
        proof {
            assert(old(out)@ + Seq::<char>::empty() =~= old(out)@);
        }
        return Ok(());
    }
    proof {
        assert(lv[i as int] == layers@[i as int]@);
    }
    match append_layer_combo_nodes(out, &layers[i].combos, 0, i, &layers[i].name) {
        Err(e) => {
            return Err(e);
        },
        Ok(_) => {},
    }
    append_combo_nodes(out, layers, i + 1)
}

/// The space-joined bindings of one layer's grid, each position
/// substituted by its shift override's behavior where one applies.
pub open spec fn zmk_bindings(
    layout: Seq<KeyDefV>,
    i: int,
    shifts: Seq<ShiftedV>,
) -> Result<Seq<char>, EmitErrorV>
    decreases layout.len() - i,
    when 0 <= i
{
    if i >= layout.len() {
        Ok(Seq::empty())
    } else {
        match zmk_skd_token(layout[i], shifts) {
            Err(e) => Err(e),
            Ok(tok) => {
                if i + 1 == layout.len() {
                    Ok(tok)
                } else {
                    match zmk_bindings(layout, i + 1, shifts) {
                        Err(e) => Err(e),
                        Ok(rest) => Ok(tok + " "@ + rest),
                    }
                }
            },
        }
    }
}

/// Appends the bindings of one layer's grid.
fn append_bindings(
    out: &mut Vec<char>,
    layout: &Vec<KeyDef>,
    i: usize,
    shifts: &Vec<Shifted>,
) -> (r: Result<(), EmitError>)
    requires
        i <= layout@.len(),
    ensures
        ({
            let lv = layout@.map_values(|k: KeyDef| k@);
            let sv = shifts@.map_values(|s: Shifted| s@);
            match r {
                Ok(_) => zmk_bindings(lv, i as int, sv) matches Ok(t) && final(out)@ == old(out)@
                    + t,
                Err(e) => zmk_bindings(lv, i as int, sv) == Err::<Seq<char>, EmitErrorV>(e@),
            }
        }),
    decreases layout@.len() - i,
{
    let ghost lv = layout@.map_values(|k: KeyDef| k@);
    if i >= layout.len() {
        proof {
            assert(old(out)@ + Seq::<char>::empty() =~= old(out)@);
        }
        return Ok(());
    }
    proof {
        assert(lv[i as int] == layout@[i as int]@);
    }
    match append_skd(out, &layout[i], shifts) {
        Err(e) => {
            return Err(e);
        },
        Ok(_) => {},
    }
    if i + 1 < layout.len() {
        append_str(out, " ");
        return append_bindings(out, layout, i + 1, shifts);
    }
    Ok(())
}

/// One keymap node per layer, in declaration order.
pub open spec fn zmk_layer_nodes(layers: Seq<LayerV>, i: int) -> Result<Seq<char>, EmitErrorV>
    decreases layers.len() - i,
    when 0 <= i
{
    if i >= layers.len() {
        Ok(Seq::empty())
    } else {
        match zmk_bindings(layers[i].layout, 0, layers[i].shifts) {
            Err(e) => Err(e),
            Ok(b) => match zmk_layer_nodes(layers, i + 1) {
                Err(e) => Err(e),
                Ok(rest) => Ok(
                    "        "@ + layers[i].name
                        + " {\n            bindings = <\n                "@ + b
                        + "\n            >;\n        };\n"@ + rest,
                ),
            },
        }
    }
}

/// Appends every layer's keymap node.
fn append_layer_nodes(out: &mut Vec<char>, layers: &Vec<Layer>, i: usize) -> (r: Result<
    (),
    EmitError,
>)
    requires
        i <= layers@.len(),
    ensures
        ({
            let lv = layers@.map_values(|l: Layer| l@);
            match r {
                Ok(_) => zmk_layer_nodes(lv, i as int) matches Ok(t) && final(out)@ == old(out)@
                    + t,
                Err(e) => zmk_layer_nodes(lv, i as int) == Err::<Seq<char>, EmitErrorV>(e@),
            }
        }),
    decreases layers@.len() - i,
{
    let ghost lv = layers@.map_values(|l: Layer| l@);
    if i >= layers.len() {
        proof {
            assert(old(out)@ + Seq::<char>::empty() =~= old(out)@);
        }
        return Ok(());
    }
    proof {
        assert(lv[i as int] == layers@[i as int]@);
    }
    append_str(out, "        ");
    append_string(out, &layers[i].name);
    append_str(out, " {\n            bindings = <\n                ");
    match append_bindings(out, &layers[i].layout, 0, &layers[i].shifts) {
        Err(e) => {
            return Err(e);
        },
        Ok(_) => {},
    }
    append_str(out, "\n            >;\n        };\n");
    append_layer_nodes(out, layers, i + 1)
}

/// The fixed head of the generated source.
pub open spec fn zmk_header() -> Seq<char> {
    "#inclu"@ + "de <behaviors.dtsi>\n"@ + "#inclu"@ + "de <dt-bindings/zmk/keys.h>\n"@
        + "#inclu"@ + "de <dt-bindings/zmk/bt.h>\n\n"@
}

/// The complete generated source for this backend: header, numeric
/// layer defines, the behaviors node with the injected fragment and the
/// shift-override behaviors, the combos node, and one keymap node per
/// layer.
pub open spec fn zmk_render(km: KeyMapV) -> Result<Seq<char>, EmitErrorV> {
    match zmk_all_shift_nodes(km.layers, 0) {
        Err(e) => Err(e),
        Ok(shift_nodes) => match zmk_combo_nodes(km.layers, 0) {
            Err(e) => Err(e),
            Ok(combo_nodes) => match zmk_layer_nodes(km.layers, 0) {
                Err(e) => Err(e),
                Ok(layer_nodes) => Ok(
                    zmk_header() + zmk_define_lines(km.layers, 0) + "\n/ {\n    behaviors {\n"@
                        + km.inject + "\n"@ + shift_nodes
                        + "    };\n\n    combos {\n        compatible = \"zmk,combos\";\n"@
                        + combo_nodes
                        + "    };\n\n    keymap {\n        compatible = \"zmk,keymap\";\n\n"@
                        + layer_nodes + "    };\n};\n"@,
                ),
            },
        },
    }
}

impl Format for ZMK {
    /// This backend fails exactly where some reachable dual-function
    /// key's tap side is not a plain key.
    open spec fn spec_format(km: KeyMapV) -> Result<Seq<char>, EmitErrorV> {
        zmk_render(km)
    }

    fn format(keymap: &KeyMap) -> (r: Result<String, EmitError>) {
        let mut out: Vec<char> = Vec::new();
        append_str(&mut out, "#inclu");
        append_str(&mut out, "de <behaviors.dtsi>\n");
        append_str(&mut out, "#inclu");
        append_str(&mut out, "de <dt-bindings/zmk/keys.h>\n");
        append_str(&mut out, "#inclu");
        append_str(&mut out, "de <dt-bindings/zmk/bt.h>\n\n");
        append_define_lines(&mut out, &keymap.layers, 0);
        append_str(&mut out, "\n/ {\n    behaviors {\n");
        append_string(&mut out, &keymap.inject);
        append_str(&mut out, "\n");
        match append_all_shift_nodes(&mut out, &keymap.layers, 0) {
            Err(e) => {
                return Err(e);
            },
            Ok(_) => {},
        }
        append_str(&mut out, "    };\n\n    combos {\n        compatible = \"zmk,combos\";\n");
        match append_combo_nodes(&mut out, &keymap.layers, 0) {
            Err(e) => {
                return Err(e);
            },
            Ok(_) => {},
        }
        append_str(&mut out, "    };\n\n    keymap {\n        compatible = \"zmk,keymap\";\n\n");
        match append_layer_nodes(&mut out, &keymap.layers, 0) {
            Err(e) => {
                return Err(e);
            },
            Ok(_) => {},
        }
        append_str(&mut out, "    };\n};\n");
        proof {
            assert(zmk_render(keymap@) matches Ok(t) && out@ =~= t);
        }
        Ok(chars_string(&out))
    }
}

} // verus!
