use keymap_gen::errors::ParseError;
use keymap_gen::keymap::KeyMap;
use keymap_gen::keys::{HoldKey, Key, KeyDef, Modifier, TapKey};
use keymap_gen::modexpr::{parse_hold, parse_tap};

fn chars(s: &str) -> Vec<char> {
    s.chars().collect()
}

#[test]
fn single_glyph_layer_recovers_key() {
    let cases: Vec<(char, Key)> = vec![
        ('a', Key::A),
        ('A', Key::A),
        ('z', Key::Z),
        ('0', Key::Num0),
        ('9', Key::Num9),
        ('|', Key::Pipe),
        (',', Key::Comma),
        (';', Key::Semicolon),
        ('\\', Key::Backslash),
        ('"', Key::Quote),
        ('↑', Key::Up),
        ('⇞', Key::PageUp),
        ('⏶', Key::VolumeUp),
        ('´', Key::Aigu),
        ('€', Key::Euro),
        ('⎋', Key::Esc),
        ('␣', Key::Space),
        ('⇫', Key::CapsWord),
        ('◐', Key::Bt0),
        ('∅', Key::NotAllowed),
        ('⬚', Key::Unassigned),
    ];
    for (glyph, key) in cases {
        let doc = format!("l\n\n{}", glyph);
        let km = KeyMap::load(&doc).unwrap();
        assert_eq!(km.layers.len(), 1);
        assert_eq!(km.layers[0].layout.len(), 1);
        assert_eq!(km.layers[0].layout[0], KeyDef::Tap(TapKey::Key(key)));
    }
}

#[test]
fn unknown_glyph_fails_with_the_character() {
    let r = KeyMap::load("l\n\naØb");
    assert!(matches!(r, Err(ParseError::UnknownGlyph('Ø'))));
}

#[test]
fn missing_grid_section_fails() {
    let r = KeyMap::load("just_a_name");
    assert!(matches!(r, Err(ParseError::MissingGrid(_))));
}

#[test]
fn whitespace_is_only_separation() {
    let km = KeyMap::load("l\n\na b\n c\td").unwrap();
    let expect: Vec<Key> = vec![Key::A, Key::B, Key::C, Key::D];
    assert_eq!(km.layers[0].layout.len(), 4);
    for (i, k) in expect.into_iter().enumerate() {
        assert_eq!(km.layers[0].layout[i], KeyDef::Tap(TapKey::Key(k)));
    }
}

#[test]
fn holds_entry_wraps_tap_hold() {
    let km = KeyMap::load("base\n\nabc\n\nholds:\n  a: Layer(nav)\n  b: Ctrl").unwrap();
    let layout = &km.layers[0].layout;
    assert_eq!(
        layout[0],
        KeyDef::TapHold(TapKey::Key(Key::A), HoldKey::Layer("nav".to_string()))
    );
    assert_eq!(
        layout[1],
        KeyDef::TapHold(TapKey::Key(Key::B), HoldKey::Modifier(Modifier::Ctrl))
    );
    assert_eq!(layout[2], KeyDef::Tap(TapKey::Key(Key::C)));
}

#[test]
fn hold_is_consumed_on_first_occurrence() {
    let km = KeyMap::load("l\n\naa\n\nholds:\n  a: Shift").unwrap();
    let layout = &km.layers[0].layout;
    assert_eq!(
        layout[0],
        KeyDef::TapHold(TapKey::Key(Key::A), HoldKey::Modifier(Modifier::Shift))
    );
    assert_eq!(layout[1], KeyDef::Tap(TapKey::Key(Key::A)));
}

#[test]
fn defs_override_replaces_vocabulary() {
    let km = KeyMap::load("l\n\nx\n\ndefs:\n  x: Ctrl(Shift(A))").unwrap();
    assert_eq!(
        km.layers[0].layout[0],
        KeyDef::Tap(TapKey::Modified(
            vec![Modifier::Ctrl, Modifier::Shift],
            Key::A
        ))
    );
}

#[test]
fn combo_chars_resolve_to_grid_positions() {
    let km = KeyMap::load("l\n\nabc\n\ncombos:\n  [a, b]: Esc").unwrap();
    let combo = &km.layers[0].combos[0];
    assert_eq!(combo.inputs.len(), 2);
    assert_eq!(combo.inputs[0].position, 0);
    assert_eq!(combo.inputs[0].key, KeyDef::Tap(TapKey::Key(Key::A)));
    assert_eq!(combo.inputs[1].position, 1);
    assert_eq!(combo.inputs[1].key, KeyDef::Tap(TapKey::Key(Key::B)));
    assert_eq!(combo.output, KeyDef::Tap(TapKey::Key(Key::Esc)));
}

#[test]
fn combo_positions_ignore_declaration_order() {
    let km = KeyMap::load("l\n\nabc\n\ncombos:\n  [b, a]: Esc").unwrap();
    let combo = &km.layers[0].combos[0];
    assert_eq!(combo.inputs[0].position, 1);
    assert_eq!(combo.inputs[1].position, 0);
}

#[test]
fn combo_input_absent_from_grid_fails() {
    let r = KeyMap::load("base\n\nabc\n\ncombos:\n  [a, z]: Esc");
    assert!(matches!(r, Err(ParseError::ComboInputMissing(name, 'z')) if name == "base"));
}

#[test]
fn shift_override_input_prefers_grid_definition() {
    let km = KeyMap::load("l\n\nab\n\nholds:\n  a: Ctrl\nshifts:\n  a: X\n  ,: ;").unwrap();
    let shifts = &km.layers[0].shifts;
    assert_eq!(shifts.len(), 2);
    assert_eq!(
        shifts[0].input,
        KeyDef::TapHold(TapKey::Key(Key::A), HoldKey::Modifier(Modifier::Ctrl))
    );
    assert_eq!(shifts[0].output, KeyDef::Tap(TapKey::Key(Key::X)));
    assert_eq!(shifts[1].input, KeyDef::Tap(TapKey::Key(Key::Comma)));
    assert_eq!(shifts[1].output, KeyDef::Tap(TapKey::Key(Key::Semicolon)));
    assert_eq!(shifts[0].name, "shift_0_0");
    assert_eq!(shifts[1].name, "shift_0_1");
}

#[test]
fn inject_fragment_is_kept_verbatim() {
    let km = KeyMap::load("l\n\nab\n===\nmagic: fragment;\nsecond line").unwrap();
    assert_eq!(km.inject, "magic: fragment;\nsecond line");
    let km2 = KeyMap::load("l\n\nab").unwrap();
    assert_eq!(km2.inject, "");
}

#[test]
fn layers_split_on_block_delimiter_in_order() {
    let km = KeyMap::load("base\n\nab\n---\nnav\n\ncd\n---\nnum\n\nef").unwrap();
    let names: Vec<&str> = km.layers.iter().map(|l| l.name.as_str()).collect();
    assert_eq!(names, vec!["base", "nav", "num"]);
}

#[test]
fn modifier_expression_nesting_order() {
    let t = parse_tap(&chars("Ctrl(Shift(A))")).unwrap();
    assert_eq!(
        t,
        TapKey::Modified(vec![Modifier::Ctrl, Modifier::Shift], Key::A)
    );
    let t = parse_tap(&chars("Alt(Meta(Ctrl(Shift(Space))))")).unwrap();
    assert_eq!(
        t,
        TapKey::Modified(
            vec![Modifier::Alt, Modifier::Meta, Modifier::Ctrl, Modifier::Shift],
            Key::Space
        )
    );
}

#[test]
fn modifier_expression_special_forms() {
    assert_eq!(
        parse_tap(&chars("Enable(nav)")).unwrap(),
        TapKey::Layer("nav".to_string())
    );
    assert_eq!(
        parse_tap(&chars("Toggle(num)")).unwrap(),
        TapKey::ToggleLayer("num".to_string())
    );
    assert_eq!(
        parse_tap(&chars("OneShot(Shift)")).unwrap(),
        TapKey::OneShotMod(Modifier::Shift)
    );
    assert_eq!(
        parse_tap(&chars("OneShot(nav)")).unwrap(),
        TapKey::OneShotLayer("nav".to_string())
    );
    assert_eq!(parse_tap(&chars("Escape")).unwrap(), TapKey::Key(Key::Esc));
    assert_eq!(parse_tap(&chars("Num0")).unwrap(), TapKey::Key(Key::Num0));
}

#[test]
fn malformed_tap_expression_fails() {
    let r = parse_tap(&chars("Bogus(A)"));
    assert!(matches!(r, Err(ParseError::BadTapExpr(s)) if s == "Bogus(A)"));
    let r = parse_tap(&chars("NotAKeyName"));
    assert!(matches!(r, Err(ParseError::BadTapExpr(_))));
}

#[test]
fn hold_expressions_parse() {
    assert_eq!(
        parse_hold(&chars("Ctrl")).unwrap(),
        HoldKey::Modifier(Modifier::Ctrl)
    );
    assert_eq!(
        parse_hold(&chars("Layer(nav)")).unwrap(),
        HoldKey::Layer("nav".to_string())
    );
    let r = parse_hold(&chars("Wobble(x)"));
    assert!(matches!(r, Err(ParseError::BadHoldExpr(s)) if s == "Wobble(x)"));
}

#[test]
fn tap_hold_value_shape_in_defs() {
    let r = KeyMap::load("l\n\nx\n\ndefs:\n  x: [Space, Layer(nav)]");
    assert!(matches!(r, Err(ParseError::BadTapExpr(_))));
    let km = KeyMap::load("l\n\nx\n\nshifts:\n  x: [Space, Ctrl]").unwrap();
    assert_eq!(
        km.layers[0].shifts[0].output,
        KeyDef::TapHold(TapKey::Key(Key::Space), HoldKey::Modifier(Modifier::Ctrl))
    );
}

#[test]
fn config_syntax_errors_are_reported() {
    let r = KeyMap::load("l\n\nab\n\nwobble:\n  a: X");
    assert!(matches!(r, Err(ParseError::ConfigSyntax(_))));
    let r = KeyMap::load("l\n\nab\n\n  a: X");
    assert!(matches!(r, Err(ParseError::ConfigSyntax(_))));
}

#[test]
fn quoted_config_keys_are_accepted() {
    let km = KeyMap::load("l\n\n:\n\nshifts:\n  ':': ;").unwrap();
    assert_eq!(km.layers[0].shifts[0].input, KeyDef::Tap(TapKey::Key(Key::Colon)));
    assert_eq!(
        km.layers[0].shifts[0].output,
        KeyDef::Tap(TapKey::Key(Key::Semicolon))
    );
}

#[test]
fn malformed_hold_in_document_fails() {
    let r = KeyMap::load("l\n\nab\n\nholds:\n  a: Wobble(x)");
    assert!(matches!(r, Err(ParseError::BadHoldExpr(s)) if s == "Wobble(x)"));
}

#[test]
fn defs_last_entry_wins() {
    let km = KeyMap::load("l\n\nx\n\ndefs:\n  x: A\n  x: B").unwrap();
    assert_eq!(km.layers[0].layout[0], KeyDef::Tap(TapKey::Key(Key::B)));
}
