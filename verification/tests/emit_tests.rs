use keymap_gen::errors::EmitError;
use keymap_gen::format::{Format, Target};
use std::str::FromStr;
use keymap_gen::keymap::{KeyMap, Layer};
use keymap_gen::keys::{HoldKey, Key, KeyDef, Modifier, TapKey};
use keymap_gen::qmk::{qmk_key, QMK};
use keymap_gen::zmk::{zmk_key, ZMK};

fn load(doc: &str) -> KeyMap {
    KeyMap::load(doc).unwrap()
}

fn count(haystack: &str, needle: &str) -> usize {
    haystack.matches(needle).count()
}

#[test]
fn emitting_twice_is_byte_identical() {
    let doc = "base\n\nabc\n\nholds:\n  a: Layer(nav)\ncombos:\n  [a, b]: Escape\nshifts:\n  ,: ;\n---\nnav\n\nxyz\n===\ninjected;";
    let km = load(doc);
    let q1 = QMK::format(&km).unwrap();
    let q2 = QMK::format(&km).unwrap();
    assert_eq!(q1, q2);
    let z1 = ZMK::format(&km).unwrap();
    let z2 = ZMK::format(&km).unwrap();
    assert_eq!(z1, z2);
}

#[test]
fn layer_declaration_order_is_index_order() {
    let km = load("base\n\nab\n---\nnav\n\ncd\n---\nnum\n\nef");
    let z = ZMK::format(&km).unwrap();
    assert!(z.contains("#define base 0\n"));
    assert!(z.contains("#define nav 1\n"));
    assert!(z.contains("#define num 2\n"));
    let q = QMK::format(&km).unwrap();
    let b = q.find("[base] = LAYOUT(").unwrap();
    let n = q.find("[nav] = LAYOUT(").unwrap();
    let m = q.find("[num] = LAYOUT(").unwrap();
    assert!(b < n && n < m);
}

#[test]
fn end_to_end_two_layer_document() {
    let doc = "base\n\nabc\n\nholds:\n  a: Layer(nav)\ncombos:\n  [a, b]: Escape\n---\nnav\n\nxyz";
    let km = load(doc);
    assert_eq!(km.layers.len(), 2);
    assert_eq!(km.layers[0].name, "base");
    assert_eq!(km.layers[1].name, "nav");
    let combo = &km.layers[0].combos[0];
    assert_eq!(combo.inputs[0].position, 0);
    assert_eq!(combo.inputs[1].position, 1);
    assert_eq!(combo.output, KeyDef::Tap(TapKey::Key(Key::Esc)));
    assert_eq!(
        km.layers[0].layout[0],
        KeyDef::TapHold(TapKey::Key(Key::A), HoldKey::Layer("nav".to_string()))
    );

    let q = QMK::format(&km).unwrap();
    assert!(q.contains("LT(nav, KC_A)"));
    assert!(q.contains("const uint16_t PROGMEM combo_0[] = {LT(nav, KC_A), KC_B, COMBO_END};"));
    assert!(q.contains("COMBO(combo_0, KC_ESC)"));

    let z = ZMK::format(&km).unwrap();
    assert!(z.contains("&lt nav A"));
    assert!(z.contains("key-positions = <0 1>;"));
    assert!(z.contains("bindings = <&kp ESC>;"));
    assert!(z.contains("layers = <base>;"));
}

#[test]
fn shift_override_emits_one_declaration() {
    let km = load("base\n\n, x\n\nshifts:\n  ,: ;");
    let q = QMK::format(&km).unwrap();
    assert_eq!(
        count(&q, "ko_make_basic(MOD_MASK_SHIFT, KC_COMMA, KC_SCLN)"),
        1
    );
    assert_eq!(count(&q, "const key_override_t shift_"), 1);
    assert!(q.contains("&shift_0"));
}

#[test]
fn zmk_substitutes_override_in_grid_but_qmk_does_not() {
    let km = load("base\n\n, x\n\nshifts:\n  ,: ;");
    let z = ZMK::format(&km).unwrap();
    let keymap_node = &z[z.find("keymap {").unwrap()..];
    assert!(keymap_node.contains("&shift_0_0"));
    assert!(!keymap_node.contains("&kp COMMA"));
    let behaviors = &z[z.find("behaviors {").unwrap()..z.find("combos {").unwrap()];
    assert!(behaviors.contains("bindings = <&kp COMMA>, <&kp SEMICOLON>;"));

    let q = QMK::format(&km).unwrap();
    let keymaps = &q[q.find("keymaps[][").unwrap()..q.find("// Combos").unwrap_or(q.len())];
    assert!(keymaps.contains("KC_COMMA"));
}

#[test]
fn modified_key_renders_outermost_first_in_both_backends() {
    let km = load("l\n\nx\n\ndefs:\n  x: Ctrl(Shift(A))");
    let q = QMK::format(&km).unwrap();
    assert!(q.contains("LCTL(LSFT(KC_A))"));
    let z = ZMK::format(&km).unwrap();
    assert!(z.contains("&kp LC(LS(A))"));
}

#[test]
fn zmk_rejects_non_plain_tap_in_tap_hold() {
    let km = load("l\n\nx\n\ndefs:\n  x: Enable(nav)\nholds:\n  x: Ctrl");
    let r = ZMK::format(&km);
    assert!(matches!(r, Err(EmitError::HoldTapNotPlain)));
    let q = QMK::format(&km).unwrap();
    assert!(q.contains("MT(MOD_LCTL, MO(nav))"));
}

#[test]
fn inject_fragment_is_spliced_into_both_outputs() {
    let km = load("l\n\nab\n===\n/* fragment-marker */");
    let q = QMK::format(&km).unwrap();
    assert!(q.contains("/* fragment-marker */"));
    let z = ZMK::format(&km).unwrap();
    assert!(z.contains("/* fragment-marker */"));
}

#[test]
fn every_key_has_a_rendering_in_both_backends() {
    let keys = vec![
        Key::A,
        Key::Num7,
        Key::Pipe,
        Key::Colon,
        Key::Up,
        Key::VolumeMute,
        Key::Aigu,
        Key::Esc,
        Key::Meta,
        Key::MouseWheelUp,
        Key::CapsWord,
        Key::Bt0,
        Key::Bt1,
        Key::BtClear,
        Key::NotAllowed,
        Key::Unassigned,
    ];
    for k in keys {
        assert!(!qmk_key(k).is_empty());
        assert!(!zmk_key(k).is_empty());
    }
    assert_eq!(qmk_key(Key::A), "KC_A");
    assert_eq!(qmk_key(Key::Pipe), "LSFT(KC_BSLS)");
    assert_eq!(zmk_key(Key::A), "A");
    assert_eq!(zmk_key(Key::Pipe), "LS(BACKSLASH)");
    assert_eq!(zmk_key(Key::CapsWord), "none");
}

#[test]
fn zmk_pseudo_keys_render_as_behaviors() {
    let km = load("l\n\n⇫ ∅ ⬚ ◐ ◑ ◌");
    let z = ZMK::format(&km).unwrap();
    assert!(z.contains("&caps_word"));
    assert!(z.contains("&none"));
    assert!(z.contains("&bt BT_SEL 0"));
    assert!(z.contains("&bt BT_SEL 1"));
    assert!(z.contains("&bt BT_CLR"));
    let q = QMK::format(&km).unwrap();
    assert!(q.contains("QK_CAPS_WORD_TOGGLE"));
    assert!(q.contains("KC_NO"));
    assert!(q.contains("KC_TRNS"));
}

#[test]
fn shift_names_are_per_layer_in_zmk_and_global_in_qmk() {
    let km = load("base\n\n, a\n\nshifts:\n  ,: ;\n---\nnav\n\n. b\n\nshifts:\n  .: ^");
    let z = ZMK::format(&km).unwrap();
    assert!(z.contains("shift_0_0: shift_0_0 {"));
    assert!(z.contains("shift_1_0: shift_1_0 {"));
    let q = QMK::format(&km).unwrap();
    assert!(q.contains("const key_override_t shift_0 "));
    assert!(q.contains("const key_override_t shift_1 "));
}

#[test]
fn one_shot_and_toggle_render_in_both_backends() {
    let km = load("l\n\nw x y z\n\ndefs:\n  w: OneShot(Shift)\n  x: OneShot(nav)\n  y: Toggle(nav)\n  z: Enable(nav)");
    let q = QMK::format(&km).unwrap();
    assert!(q.contains("OSM(MOD_LSFT)"));
    assert!(q.contains("OSL(nav)"));
    assert!(q.contains("TG(nav)"));
    assert!(q.contains("MO(nav)"));
    let z = ZMK::format(&km).unwrap();
    assert!(z.contains("&sk LSHIFT"));
    assert!(z.contains("&sl nav"));
    assert!(z.contains("&tog nav"));
    assert!(z.contains("&mo nav"));
}

#[test]
fn getters_flatten_in_declaration_order() {
    let doc = "base\n\nab\n\ncombos:\n  [a, b]: Esc\nshifts:\n  ,: ;\n---\nnav\n\ncd\n\ncombos:\n  [c, d]: Tab";
    let km = load(doc);
    let combos = km.combos();
    assert_eq!(combos.len(), 2);
    assert_eq!(combos[0].output, KeyDef::Tap(TapKey::Key(Key::Esc)));
    assert_eq!(combos[1].output, KeyDef::Tap(TapKey::Key(Key::Tab)));
    let shifts = km.shifts();
    assert_eq!(shifts.len(), 1);
    assert_eq!(shifts[0].name, "shift_0_0");
    let keys = km.layers[0].keys();
    assert_eq!(keys.len(), 3);
    assert_eq!(keys[0], KeyDef::Tap(TapKey::Key(Key::A)));
    assert_eq!(keys[2], KeyDef::Tap(TapKey::Key(Key::Esc)));
}

#[test]
fn validate_lists_every_broken_reference() {
    let km = load("base\n\nabc\n\nholds:\n  a: Layer(ghost1)\ndefs:\n  b: Enable(ghost2)\ncombos:\n  [a, b]: Toggle(ghost3)");
    let errors = km.validate();
    assert_eq!(errors.len(), 3);
    assert!(errors.contains(&"Missing layer: ghost1".to_string()));
    assert!(errors.contains(&"Missing layer: ghost2".to_string()));
    assert!(errors.contains(&"Missing layer: ghost3".to_string()));
}

#[test]
fn validate_counts_repeated_occurrences() {
    let km = load("base\n\nab\n\ndefs:\n  a: Enable(ghost)\n  b: Enable(ghost)");
    let errors = km.validate();
    assert_eq!(errors.len(), 2);
    assert_eq!(errors[0], "Missing layer: ghost");
    assert_eq!(errors[1], "Missing layer: ghost");
}

#[test]
fn validate_accepts_declared_references() {
    let km = load("base\n\nab\n\nholds:\n  a: Layer(nav)\n---\nnav\n\ncd");
    assert!(km.validate().is_empty());
}

#[test]
fn validate_checks_shift_outputs_too() {
    let mut km = load("base\n\nab");
    let layer: &mut Layer = &mut km.layers[0];
    layer.shifts.push(keymap_gen::keymap::Shifted {
        name: "shift_0_0".to_string(),
        input: KeyDef::Tap(TapKey::Key(Key::A)),
        output: KeyDef::Tap(TapKey::Layer("ghost".to_string())),
    });
    let errors = km.validate();
    assert_eq!(errors, vec!["Missing layer: ghost".to_string()]);
}

#[test]
fn validate_checks_hold_references() {
    let km = load("base\n\nab\n\nholds:\n  a: Layer(ghost)");
    assert_eq!(km.validate(), vec!["Missing layer: ghost".to_string()]);
    let _ = Modifier::Alt;
}

#[test]
fn two_digit_positions_render_in_decimal() {
    let km = load("l\n\nabcdefghijk\n\ncombos:\n  [k, a]: Esc");
    assert_eq!(km.layers[0].combos[0].inputs[0].position, 10);
    let z = ZMK::format(&km).unwrap();
    assert!(z.contains("key-positions = <10 0>;"));
}

#[test]
fn target_selects_the_backend() {
    assert!(matches!(Target::of_name("qmk"), Some(Target::QMK)));
    assert!(matches!(Target::of_name("zmk"), Some(Target::ZMK)));
    assert!(Target::of_name("dvorak").is_none());
    let r = Target::from_str("dvorak");
    assert!(matches!(r, Err(msg) if msg == "Invalid target: dvorak"));
    let km = load("l\n\nab");
    assert_eq!(Target::QMK.format(&km).unwrap(), QMK::format(&km).unwrap());
    assert_eq!(Target::ZMK.format(&km).unwrap(), ZMK::format(&km).unwrap());
}
