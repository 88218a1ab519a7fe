use vstd::prelude::*;

use crate::keys::{Key, Modifier};
use crate::text::eq_str;

verus! {

/// The authoring glyphs of the key vocabulary: each accepted character
/// maps to exactly one canonical key. Letters are accepted in both
/// cases; every other key has one symbol glyph.
pub open spec fn char_key(c: char) -> Option<Key> {
    match c {
        'a' | 'A' => Some(Key::A),
        'b' | 'B' => Some(Key::B),
        'c' | 'C' => Some(Key::C),
        'd' | 'D' => Some(Key::D),
        'e' | 'E' => Some(Key::E),
        'f' | 'F' => Some(Key::F),
        'g' | 'G' => Some(Key::G),
        'h' | 'H' => Some(Key::H),
        'i' | 'I' => Some(Key::I),
        'j' | 'J' => Some(Key::J),
        'k' | 'K' => Some(Key::K),
        'l' | 'L' => Some(Key::L),
        'm' | 'M' => Some(Key::M),
        'n' | 'N' => Some(Key::N),
        'o' | 'O' => Some(Key::O),
        'p' | 'P' => Some(Key::P),
        'q' | 'Q' => Some(Key::Q),
        'r' | 'R' => Some(Key::R),
        's' | 'S' => Some(Key::S),
        't' | 'T' => Some(Key::T),
        'u' | 'U' => Some(Key::U),
        'v' | 'V' => Some(Key::V),
        'w' | 'W' => Some(Key::W),
        'x' | 'X' => Some(Key::X),
        'y' | 'Y' => Some(Key::Y),
        'z' | 'Z' => Some(Key::Z),
        '0' => Some(Key::Num0),
        '1' => Some(Key::Num1),
        '2' => Some(Key::Num2),
        '3' => Some(Key::Num3),
        '4' => Some(Key::Num4),
        '5' => Some(Key::Num5),
        '6' => Some(Key::Num6),
        '7' => Some(Key::Num7),
        '8' => Some(Key::Num8),
        '9' => Some(Key::Num9),
        '|' => Some(Key::Pipe),
        '+' => Some(Key::Plus),
        '-' => Some(Key::Minus),
        '=' => Some(Key::Equal),
        ',' => Some(Key::Comma),
        '.' => Some(Key::Period),
        ':' => Some(Key::Colon),
        '^' => Some(Key::Caret),
        '$' => Some(Key::Dollar),
        '%' => Some(Key::Percent),
        ';' => Some(Key::Semicolon),
        '?' => Some(Key::Question),
        '!' => Some(Key::Exclamation),
        '#' => Some(Key::Octothorpe),
        '&' => Some(Key::Ampersand),
        '@' => Some(Key::Arobase),
        '*' => Some(Key::Asterisk),
        '/' => Some(Key::Slash),
        '~' => Some(Key::Tilde),
        '`' => Some(Key::Backtick),
        '<' => Some(Key::LessThan),
        '>' => Some(Key::GreaterThan),
        ')' => Some(Key::ParensRight),
        '(' => Some(Key::ParensLeft),
        ']' => Some(Key::BracketRight),
        '[' => Some(Key::BracketLeft),
        '}' => Some(Key::BraceRight),
        '{' => Some(Key::BraceLeft),
        '_' => Some(Key::Underscore),
        '\'' => Some(Key::Apostrophe),
        '\\' => Some(Key::Backslash),
        '"' => Some(Key::Quote),
        '↑' => Some(Key::Up),
        '↓' => Some(Key::Down),
        '←' => Some(Key::Left),
        '→' => Some(Key::Right),
        '⇞' => Some(Key::PageUp),
        '⇟' => Some(Key::PageDown),
        '⏶' => Some(Key::VolumeUp),
        '⏷' => Some(Key::VolumeDown),
        '⨯' => Some(Key::VolumeMute),
        '☼' => Some(Key::BrightnessUp),
        '☾' => Some(Key::BrightnessDown),
        '´' => Some(Key::Aigu),
        'ˋ' => Some(Key::Grave),
        '¸' => Some(Key::Cedille),
        'ˆ' => Some(Key::Circonflex),
        '¨' => Some(Key::Trema),
        '€' => Some(Key::Euro),
        '⎋' => Some(Key::Esc),
        '⇥' => Some(Key::Tab),
        '␣' => Some(Key::Space),
        '⌫' => Some(Key::Backspace),
        '⏎' => Some(Key::Enter),
        '◆' => Some(Key::Meta),
        '⇧' => Some(Key::Shift),
        '⎈' => Some(Key::Ctrl),
        '⎇' => Some(Key::Alt),
        '⤊' => Some(Key::MouseWheelUp),
        '⤋' => Some(Key::MouseWheelDown),
        '⇫' => Some(Key::CapsWord),
        '◐' => Some(Key::Bt0),
        '◑' => Some(Key::Bt1),
        '◌' => Some(Key::BtClear),
        '∅' => Some(Key::NotAllowed),
        '⬚' => Some(Key::Unassigned),
        _ => None,
    }
}

/// Looks a single authoring glyph up in the key vocabulary.
pub fn char_key_exec(c: char) -> (r: Option<Key>)
    ensures
        r == char_key(c),
{
    match c {
        'a' | 'A' => Some(Key::A),
        'b' | 'B' => Some(Key::B),
        'c' | 'C' => Some(Key::C),
        'd' | 'D' => Some(Key::D),
        'e' | 'E' => Some(Key::E),
        'f' | 'F' => Some(Key::F),
        'g' | 'G' => Some(Key::G),
        'h' | 'H' => Some(Key::H),
        'i' | 'I' => Some(Key::I),
        'j' | 'J' => Some(Key::J),
        'k' | 'K' => Some(Key::K),
        'l' | 'L' => Some(Key::L),
        'm' | 'M' => Some(Key::M),
        'n' | 'N' => Some(Key::N),
        'o' | 'O' => Some(Key::O),
        'p' | 'P' => Some(Key::P),
        'q' | 'Q' => Some(Key::Q),
        'r' | 'R' => Some(Key::R),
        's' | 'S' => Some(Key::S),
        't' | 'T' => Some(Key::T),
        'u' | 'U' => Some(Key::U),
        'v' | 'V' => Some(Key::V),
        'w' | 'W' => Some(Key::W),
        'x' | 'X' => Some(Key::X),
        'y' | 'Y' => Some(Key::Y),
        'z' | 'Z' => Some(Key::Z),
        '0' => Some(Key::Num0),
        '1' => Some(Key::Num1),
        '2' => Some(Key::Num2),
        '3' => Some(Key::Num3),
        '4' => Some(Key::Num4),
        '5' => Some(Key::Num5),
        '6' => Some(Key::Num6),
        '7' => Some(Key::Num7),
        '8' => Some(Key::Num8),
        '9' => Some(Key::Num9),
        '|' => Some(Key::Pipe),
        '+' => Some(Key::Plus),
        '-' => Some(Key::Minus),
        '=' => Some(Key::Equal),
        ',' => Some(Key::Comma),
        '.' => Some(Key::Period),
        ':' => Some(Key::Colon),
        '^' => Some(Key::Caret),
        '$' => Some(Key::Dollar),
        '%' => Some(Key::Percent),
        ';' => Some(Key::Semicolon),
        '?' => Some(Key::Question),
        '!' => Some(Key::Exclamation),
        '#' => Some(Key::Octothorpe),
        '&' => Some(Key::Ampersand),
        '@' => Some(Key::Arobase),
        '*' => Some(Key::Asterisk),
        '/' => Some(Key::Slash),
        '~' => Some(Key::Tilde),
        '`' => Some(Key::Backtick),
        '<' => Some(Key::LessThan),
        '>' => Some(Key::GreaterThan),
        ')' => Some(Key::ParensRight),
        '(' => Some(Key::ParensLeft),
        ']' => Some(Key::BracketRight),
        '[' => Some(Key::BracketLeft),
        '}' => Some(Key::BraceRight),
        '{' => Some(Key::BraceLeft),
        '_' => Some(Key::Underscore),
        '\'' => Some(Key::Apostrophe),
        '\\' => Some(Key::Backslash),
        '"' => Some(Key::Quote),
        '↑' => Some(Key::Up),
        '↓' => Some(Key::Down),
        '←' => Some(Key::Left),
        '→' => Some(Key::Right),
        '⇞' => Some(Key::PageUp),
        '⇟' => Some(Key::PageDown),
        '⏶' => Some(Key::VolumeUp),
        '⏷' => Some(Key::VolumeDown),
        '⨯' => Some(Key::VolumeMute),
        '☼' => Some(Key::BrightnessUp),
        '☾' => Some(Key::BrightnessDown),
        '´' => Some(Key::Aigu),
        'ˋ' => Some(Key::Grave),
        '¸' => Some(Key::Cedille),
        'ˆ' => Some(Key::Circonflex),
        '¨' => Some(Key::Trema),
        '€' => Some(Key::Euro),
        '⎋' => Some(Key::Esc),
        '⇥' => Some(Key::Tab),
        '␣' => Some(Key::Space),
        '⌫' => Some(Key::Backspace),
        '⏎' => Some(Key::Enter),
        '◆' => Some(Key::Meta),
        '⇧' => Some(Key::Shift),
        '⎈' => Some(Key::Ctrl),
        '⎇' => Some(Key::Alt),
        '⤊' => Some(Key::MouseWheelUp),
        '⤋' => Some(Key::MouseWheelDown),
        '⇫' => Some(Key::CapsWord),
        '◐' => Some(Key::Bt0),
        '◑' => Some(Key::Bt1),
        '◌' => Some(Key::BtClear),
        '∅' => Some(Key::NotAllowed),
        '⬚' => Some(Key::Unassigned),
        _ => None,
    }
}

/// Key names accepted in structured-config expressions: a one-character
/// name is a glyph lookup; longer names are the canonical spellings
/// (with `Escape` accepted as an alias of `Esc`).
pub open spec fn name_key(s: Seq<char>) -> Option<Key> {
    if s.len() == 1 {
        char_key(s[0])
    } else if s == "Num0"@ {
        Some(Key::Num0)
    } else if s == "Num1"@ {
        Some(Key::Num1)
    } else if s == "Num2"@ {
        Some(Key::Num2)
    } else if s == "Num3"@ {
        Some(Key::Num3)
    } else if s == "Num4"@ {
        Some(Key::Num4)
    } else if s == "Num5"@ {
        Some(Key::Num5)
    } else if s == "Num6"@ {
        Some(Key::Num6)
    } else if s == "Num7"@ {
        Some(Key::Num7)
    } else if s == "Num8"@ {
        Some(Key::Num8)
    } else if s == "Num9"@ {
        Some(Key::Num9)
    } else if s == "Pipe"@ {
        Some(Key::Pipe)
    } else if s == "Plus"@ {
        Some(Key::Plus)
    } else if s == "Minus"@ {
        Some(Key::Minus)
    } else if s == "Equal"@ {
        Some(Key::Equal)
    } else if s == "Comma"@ {
        Some(Key::Comma)
    } else if s == "Period"@ {
        Some(Key::Period)
    } else if s == "Colon"@ {
        Some(Key::Colon)
    } else if s == "Caret"@ {
        Some(Key::Caret)
    } else if s == "Dollar"@ {
        Some(Key::Dollar)
    } else if s == "Percent"@ {
        Some(Key::Percent)
    } else if s == "Semicolon"@ {
        Some(Key::Semicolon)
    } else if s == "Question"@ {
        Some(Key::Question)
    } else if s == "Exclamation"@ {
        Some(Key::Exclamation)
    } else if s == "Octothorpe"@ {
        Some(Key::Octothorpe)
    } else if s == "Ampersand"@ {
        Some(Key::Ampersand)
    } else if s == "Arobase"@ {
        Some(Key::Arobase)
    } else if s == "Asterisk"@ {
        Some(Key::Asterisk)
    } else if s == "Slash"@ {
        Some(Key::Slash)
    } else if s == "Tilde"@ {
        Some(Key::Tilde)
    } else if s == "Backtick"@ {
        Some(Key::Backtick)
    } else if s == "LessThan"@ {
        Some(Key::LessThan)
    } else if s == "GreaterThan"@ {
        Some(Key::GreaterThan)
    } else if s == "ParensRight"@ {
        Some(Key::ParensRight)
    } else if s == "ParensLeft"@ {
        Some(Key::ParensLeft)
    } else if s == "BracketRight"@ {
        Some(Key::BracketRight)
    } else if s == "BracketLeft"@ {
        Some(Key::BracketLeft)
    } else if s == "BraceRight"@ {
        Some(Key::BraceRight)
    } else if s == "BraceLeft"@ {
        Some(Key::BraceLeft)
    } else if s == "Underscore"@ {
        Some(Key::Underscore)
    } else if s == "Apostrophe"@ {
        Some(Key::Apostrophe)
    } else if s == "Backslash"@ {
        Some(Key::Backslash)
    } else if s == "Quote"@ {
        Some(Key::Quote)
    } else if s == "Up"@ {
        Some(Key::Up)
    } else if s == "Down"@ {
        Some(Key::Down)
    } else if s == "Left"@ {
        Some(Key::Left)
    } else if s == "Right"@ {
        Some(Key::Right)
    } else if s == "PageUp"@ {
        Some(Key::PageUp)
    } else if s == "PageDown"@ {
        Some(Key::PageDown)
    } else if s == "VolumeUp"@ {
        Some(Key::VolumeUp)
    } else if s == "VolumeDown"@ {
        Some(Key::VolumeDown)
    } else if s == "VolumeMute"@ {
        Some(Key::VolumeMute)
    } else if s == "BrightnessUp"@ {
        Some(Key::BrightnessUp)
    } else if s == "BrightnessDown"@ {
        Some(Key::BrightnessDown)
    } else if s == "Aigu"@ {
        Some(Key::Aigu)
    } else if s == "Grave"@ {
        Some(Key::Grave)
    } else if s == "Cedille"@ {
        Some(Key::Cedille)
    } else if s == "Circonflex"@ {
        Some(Key::Circonflex)
    } else if s == "Trema"@ {
        Some(Key::Trema)
    } else if s == "Euro"@ {
        Some(Key::Euro)
    } else if s == "Esc"@ {
        Some(Key::Esc)
    } else if s == "Tab"@ {
        Some(Key::Tab)
    } else if s == "Space"@ {
        Some(Key::Space)
    } else if s == "Backspace"@ {
        Some(Key::Backspace)
    } else if s == "Enter"@ {
        Some(Key::Enter)
    } else if s == "Meta"@ {
        Some(Key::Meta)
    } else if s == "Shift"@ {
        Some(Key::Shift)
    } else if s == "Ctrl"@ {
        Some(Key::Ctrl)
    } else if s == "Alt"@ {
        Some(Key::Alt)
    } else if s == "MouseWheelUp"@ {
        Some(Key::MouseWheelUp)
    } else if s == "MouseWheelDown"@ {
        Some(Key::MouseWheelDown)
    } else if s == "CapsWord"@ {
        Some(Key::CapsWord)
    } else if s == "Bt0"@ {
        Some(Key::Bt0)
    } else if s == "Bt1"@ {
        Some(Key::Bt1)
    } else if s == "BtClear"@ {
        Some(Key::BtClear)
    } else if s == "NotAllowed"@ {
        Some(Key::NotAllowed)
    } else if s == "Unassigned"@ {
        Some(Key::Unassigned)
    } else if s == "Escape"@ {
        Some(Key::Esc)
    } else {
        None
    }
}

/// Looks a key name up in the key vocabulary.
pub fn name_key_exec(v: &Vec<char>) -> (r: Option<Key>)
    ensures
        r == name_key(v@),
{
    if v.len() == 1 {
        char_key_exec(v[0])
    } else if eq_str(v, "Num0") {
        Some(Key::Num0)
    } else if eq_str(v, "Num1") {
        Some(Key::Num1)
    } else if eq_str(v, "Num2") {
        Some(Key::Num2)
    } else if eq_str(v, "Num3") {
        Some(Key::Num3)
    } else if eq_str(v, "Num4") {
        Some(Key::Num4)
    } else if eq_str(v, "Num5") {
        Some(Key::Num5)
    } else if eq_str(v, "Num6") {
        Some(Key::Num6)
    } else if eq_str(v, "Num7") {
        Some(Key::Num7)
    } else if eq_str(v, "Num8") {
        Some(Key::Num8)
    } else if eq_str(v, "Num9") {
        Some(Key::Num9)
    } else if eq_str(v, "Pipe") {
        Some(Key::Pipe)
    } else if eq_str(v, "Plus") {
        Some(Key::Plus)
    } else if eq_str(v, "Minus") {
        Some(Key::Minus)
    } else if eq_str(v, "Equal") {
        Some(Key::Equal)
    } else if eq_str(v, "Comma") {
        Some(Key::Comma)
    } else if eq_str(v, "Period") {
        Some(Key::Period)
    } else if eq_str(v, "Colon") {
        Some(Key::Colon)
    } else if eq_str(v, "Caret") {
        Some(Key::Caret)
    } else if eq_str(v, "Dollar") {
        Some(Key::Dollar)
    } else if eq_str(v, "Percent") {
        Some(Key::Percent)
    } else if eq_str(v, "Semicolon") {
        Some(Key::Semicolon)
    } else if eq_str(v, "Question") {
        Some(Key::Question)
    } else if eq_str(v, "Exclamation") {
        Some(Key::Exclamation)
    } else if eq_str(v, "Octothorpe") {
        Some(Key::Octothorpe)
    } else if eq_str(v, "Ampersand") {
        Some(Key::Ampersand)
    } else if eq_str(v, "Arobase") {
        Some(Key::Arobase)
    } else if eq_str(v, "Asterisk") {
        Some(Key::Asterisk)
    } else if eq_str(v, "Slash") {
        Some(Key::Slash)
    } else if eq_str(v, "Tilde") {
        Some(Key::Tilde)
    } else if eq_str(v, "Backtick") {
        Some(Key::Backtick)
    } else if eq_str(v, "LessThan") {
        Some(Key::LessThan)
    } else if eq_str(v, "GreaterThan") {
        Some(Key::GreaterThan)
    } else if eq_str(v, "ParensRight") {
        Some(Key::ParensRight)
    } else if eq_str(v, "ParensLeft") {
        Some(Key::ParensLeft)
    } else if eq_str(v, "BracketRight") {
        Some(Key::BracketRight)
    } else if eq_str(v, "BracketLeft") {
        Some(Key::BracketLeft)
    } else if eq_str(v, "BraceRight") {
        Some(Key::BraceRight)
    } else if eq_str(v, "BraceLeft") {
        Some(Key::BraceLeft)
    } else if eq_str(v, "Underscore") {
        Some(Key::Underscore)
    } else if eq_str(v, "Apostrophe") {
        Some(Key::Apostrophe)
    } else if eq_str(v, "Backslash") {
        Some(Key::Backslash)
    } else if eq_str(v, "Quote") {
        Some(Key::Quote)
    } else if eq_str(v, "Up") {
        Some(Key::Up)
    } else if eq_str(v, "Down") {
        Some(Key::Down)
    } else if eq_str(v, "Left") {
        Some(Key::Left)
    } else if eq_str(v, "Right") {
        Some(Key::Right)
    } else if eq_str(v, "PageUp") {
        Some(Key::PageUp)
    } else if eq_str(v, "PageDown") {
        Some(Key::PageDown)
    } else if eq_str(v, "VolumeUp") {
        Some(Key::VolumeUp)
    } else if eq_str(v, "VolumeDown") {
        Some(Key::VolumeDown)
    } else if eq_str(v, "VolumeMute") {
        Some(Key::VolumeMute)
    } else if eq_str(v, "BrightnessUp") {
        Some(Key::BrightnessUp)
    } else if eq_str(v, "BrightnessDown") {
        Some(Key::BrightnessDown)
    } else if eq_str(v, "Aigu") {
        Some(Key::Aigu)
    } else if eq_str(v, "Grave") {
        Some(Key::Grave)
    } else if eq_str(v, "Cedille") {
        Some(Key::Cedille)
    } else if eq_str(v, "Circonflex") {
        Some(Key::Circonflex)
    } else if eq_str(v, "Trema") {
        Some(Key::Trema)
    } else if eq_str(v, "Euro") {
        Some(Key::Euro)
    } else if eq_str(v, "Esc") {
        Some(Key::Esc)
    } else if eq_str(v, "Tab") {
        Some(Key::Tab)
    } else if eq_str(v, "Space") {
        Some(Key::Space)
    } else if eq_str(v, "Backspace") {
        Some(Key::Backspace)
    } else if eq_str(v, "Enter") {
        Some(Key::Enter)
    } else if eq_str(v, "Meta") {
        Some(Key::Meta)
    } else if eq_str(v, "Shift") {
        Some(Key::Shift)
    } else if eq_str(v, "Ctrl") {
        Some(Key::Ctrl)
    } else if eq_str(v, "Alt") {
        Some(Key::Alt)
    } else if eq_str(v, "MouseWheelUp") {
        Some(Key::MouseWheelUp)
    } else if eq_str(v, "MouseWheelDown") {
        Some(Key::MouseWheelDown)
    } else if eq_str(v, "CapsWord") {
        Some(Key::CapsWord)
    } else if eq_str(v, "Bt0") {
        Some(Key::Bt0)
    } else if eq_str(v, "Bt1") {
        Some(Key::Bt1)
    } else if eq_str(v, "BtClear") {
        Some(Key::BtClear)
    } else if eq_str(v, "NotAllowed") {
        Some(Key::NotAllowed)
    } else if eq_str(v, "Unassigned") {
        Some(Key::Unassigned)
    } else if eq_str(v, "Escape") {
        Some(Key::Esc)
    } else {
        None
    }
}

/// Modifier names accepted in structured-config expressions.
pub open spec fn name_modifier(s: Seq<char>) -> Option<Modifier> {
    if s == "Alt"@ {
        Some(Modifier::Alt)
    } else if s == "Meta"@ {
        Some(Modifier::Meta)
    } else if s == "Ctrl"@ {
        Some(Modifier::Ctrl)
    } else if s == "Shift"@ {
        Some(Modifier::Shift)
    } else {
        None
    }
}

/// Looks a modifier name up.
pub fn name_modifier_exec(v: &Vec<char>) -> (r: Option<Modifier>)
    ensures
        r == name_modifier(v@),
{
    if eq_str(v, "Alt") {
        Some(Modifier::Alt)
    } else if eq_str(v, "Meta") {
        Some(Modifier::Meta)
    } else if eq_str(v, "Ctrl") {
        Some(Modifier::Ctrl)
    } else if eq_str(v, "Shift") {
        Some(Modifier::Shift)
    } else {
        None
    }
}

} // verus!
