use vstd::prelude::*;

use crate::errors::{ParseError, ParseErrorV};
use crate::keys::{HoldKey, HoldKeyV, Modifier, TapKey, TapKeyV};
use crate::text::{chars_string, copy_range, trim, trim_spec};
use crate::vocab::{name_key, name_key_exec, name_modifier, name_modifier_exec};

verus! {

/// One step of scanning a right-nested `Name1(Name2(...(Inner)))` chain:
/// each identifier directly followed by `(` is pushed in encounter order
/// (outermost first); the token before the first `)` is the inner value.
pub open spec fn nested_scan(s: Seq<char>, i: int, start: int, acc: Seq<Seq<char>>) -> (Seq<
    Seq<char>,
>, Seq<char>)
    decreases s.len() - i,
    when 0 <= start <= i
{
    if i >= s.len() {
        (acc, Seq::<char>::empty())
    } else if s[i] == '(' {
        nested_scan(s, i + 1, i + 1, acc.push(s.subrange(start, i)))
    } else if s[i] == ')' {
        (acc, s.subrange(start, i))
    } else {
        nested_scan(s, i + 1, start, acc)
    }
}

/// The modifier chain and innermost token of a nested expression.
pub open spec fn nested_split(s: Seq<char>) -> (Seq<Seq<char>>, Seq<char>) {
    nested_scan(s, 0, 0, Seq::empty())
}

/// Scans `v` for the nested chain, mirroring `nested_scan`.
fn nested_scan_exec(v: &Vec<char>, i: usize, start: usize, acc: Vec<Vec<char>>) -> (r: (
    Vec<Vec<char>>,
    Vec<char>,
))
    requires
        start <= i <= v@.len(),
    ensures
        (r.0.deep_view(), r.1@) == nested_scan(v@, i as int, start as int, acc.deep_view()),
    decreases v@.len() - i,
{
    if i >= v.len() {
        let empty: Vec<char> = Vec::new();
        proof {
            assert(empty@ =~= Seq::<char>::empty());
        }
        (acc, empty)
    } else if v[i] == '(' {
        let piece = copy_range(v, start, i);
        let mut acc2 = acc;
        acc2.push(piece);
        proof {
            assert(acc2.deep_view() =~~= acc.deep_view().push(v@.subrange(
                start as int,
                i as int,
            )));
        }
        nested_scan_exec(v, i + 1, i + 1, acc2)
    } else if v[i] == ')' {
        let inner = copy_range(v, start, i);
        (acc, inner)
    } else {
        nested_scan_exec(v, i + 1, start, acc)
    }
}

/// Splits a nested expression into its modifier-name chain and inner token.
pub fn nested_split_exec(v: &Vec<char>) -> (r: (Vec<Vec<char>>, Vec<char>))
    ensures
        (r.0.deep_view(), r.1@) == nested_split(v@),
{
    let acc: Vec<Vec<char>> = Vec::new();
    proof {
        assert(acc.deep_view() =~~= Seq::<Seq<char>>::empty());
    }
    nested_scan_exec(v, 0, 0, acc)
}

/// `Some(mid)` when `s` is `p` + `mid` + `)`.
pub open spec fn strip_form(s: Seq<char>, p: Seq<char>) -> Option<Seq<char>> {
    if p.len() + 1 <= s.len() && s.subrange(0, p.len() as int) == p && s.last() == ')' {
        Some(s.subrange(p.len() as int, s.len() - 1))
    } else {
        None
    }
}

/// Strips the wrapper `p` ... `)` from `v`, if it has that shape.
fn strip_form_exec(v: &Vec<char>, p: &str) -> (r: Option<Vec<char>>)
    ensures
        match r {
            Some(mid) => strip_form(v@, p@) == Some(mid@),
            None => strip_form(v@, p@) is None,
        },
{
    let n: usize = p.unicode_len();
    if v.len() <= n {
        return None;
    }
    let mut i: usize = 0;
    while i < n
        invariant
            n == p@.len(),
            n + 1 <= v@.len(),
            i <= n,
            forall|j: int| 0 <= j < i ==> v@[j] == p@[j],
        decreases n - i,
    {
        if v[i] != p.get_char(i) {
            proof {
                assert(v@.subrange(0, p@.len() as int)[i as int] == v@[i as int]);
            }
            return None;
        }
        i = i + 1;
    }
    if v[v.len() - 1] != ')' {
        return None;
    }
    proof {
        assert(v@.subrange(0, p@.len() as int) =~= p@);
        assert(v@.last() == ')');
    }
    Some(copy_range(v, n, v.len() - 1))
}

/// Interprets a chain of modifier names; `None` when one is unknown.
pub open spec fn mods_of(names: Seq<Seq<char>>) -> Option<Seq<Modifier>>
    decreases names.len(),
{
    if names.len() == 0 {
        Some(Seq::empty())
    } else {
        match name_modifier(names[0]) {
            None => None,
            Some(m) => match mods_of(names.drop_first()) {
                None => None,
                Some(rest) => Some(seq![m] + rest),
            },
        }
    }
}

/// Resolves each name in `names` to a modifier.
fn mods_of_exec(names: &Vec<Vec<char>>, from: usize) -> (r: Option<Vec<Modifier>>)
    requires
        from <= names@.len(),
    ensures
        match r {
            Some(ms) => mods_of(names.deep_view().skip(from as int)) == Some(ms@),
            None => mods_of(names.deep_view().skip(from as int)) is None,
        },
    decreases names@.len() - from,
{
    let ghost tail = names.deep_view().skip(from as int);
    if from >= names.len() {
        let out: Vec<Modifier> = Vec::new();
        proof {
            assert(tail =~= Seq::<Seq<char>>::empty());
            assert(out@ =~= Seq::<Modifier>::empty());
        }
        return Some(out);
    }
    proof {
        assert(tail[0] == names.deep_view()[from as int]);
        assert(names.deep_view()[from as int] == names@[from as int].deep_view());
        assert(names@[from as int].deep_view() =~= names@[from as int]@);
        assert(tail.drop_first() =~= names.deep_view().skip(from + 1));
    }
    match name_modifier_exec(&names[from]) {
        None => None,
        Some(m) => {
            match mods_of_exec(names, from + 1) {
                None => None,
                Some(rest) => {
                    let mut out: Vec<Modifier> = Vec::new();
                    out.push(m);
                    let mut rest = rest;
                    let ghost rest_v = rest@;
                    out.append(&mut rest);
                    proof {
                        assert(out@ =~= seq![m] + rest_v);
                    }
                    Some(out)
                },
            }
        },
    }
}

/// The meaning of a tap-key expression.
///
/// A plain key name resolves through the vocabulary; `Enable(name)` is a
/// momentary layer, `Toggle(name)` a toggle layer, `OneShot(x)` a
/// one-shot modifier when `x` names a modifier and otherwise a one-shot
/// layer; anything else must be a right-nested modifier chain around a
/// plain key.
pub open spec fn parse_tap_spec(s: Seq<char>) -> Result<TapKeyV, ParseErrorV> {
    match name_key(s) {
        Some(k) => Ok(TapKeyV::Key(k)),
        None => match strip_form(s, "Enable("@) {
            Some(mid) => Ok(TapKeyV::Layer(mid)),
            None => match strip_form(s, "Toggle("@) {
                Some(mid) => Ok(TapKeyV::ToggleLayer(mid)),
                None => match strip_form(s, "OneShot("@) {
                    Some(mid) => match name_modifier(mid) {
                        Some(m) => Ok(TapKeyV::OneShotMod(m)),
                        None => Ok(TapKeyV::OneShotLayer(mid)),
                    },
                    None => {
                        let (names, inner) = nested_split(s);
                        if names.len() == 0 {
                            Err(ParseErrorV::BadTapExpr(s))
                        } else {
                            match mods_of(names) {
                                Some(ms) => match name_key(inner) {
                                    Some(k) => Ok(TapKeyV::Modified(ms, k)),
                                    None => Err(ParseErrorV::BadTapExpr(s)),
                                },
                                None => Err(ParseErrorV::BadTapExpr(s)),
                            }
                        }
                    },
                },
            },
        },
    }
}

/// Parses a tap-key expression.
pub fn parse_tap(v: &Vec<char>) -> (r: Result<TapKey, ParseError>)
    ensures
        match r {
            Ok(t) => parse_tap_spec(v@) == Ok::<TapKeyV, ParseErrorV>(t@),
            Err(e) => parse_tap_spec(v@) == Err::<TapKeyV, ParseErrorV>(e@),
        },
{
    if let Some(k) = name_key_exec(v) {
        return Ok(TapKey::Key(k));
    }
    if let Some(mid) = strip_form_exec(v, "Enable(") {
        return Ok(TapKey::Layer(chars_string(&mid)));
    }
    if let Some(mid) = strip_form_exec(v, "Toggle(") {
        return Ok(TapKey::ToggleLayer(chars_string(&mid)));
    }
    if let Some(mid) = strip_form_exec(v, "OneShot(") {
        if let Some(m) = name_modifier_exec(&mid) {
            return Ok(TapKey::OneShotMod(m));
        }
        return Ok(TapKey::OneShotLayer(chars_string(&mid)));
    }
    let (names, inner) = nested_split_exec(v);
    if names.len() == 0 {
        assert(names.deep_view().len() == 0);
        return Err(ParseError::BadTapExpr(chars_string(v)));
    }
    proof {
        assert(names.deep_view().skip(0) =~= names.deep_view());
    }
    match mods_of_exec(&names, 0) {
        None => Err(ParseError::BadTapExpr(chars_string(v))),
        Some(ms) => {
            match name_key_exec(&inner) {
                None => Err(ParseError::BadTapExpr(chars_string(v))),
                Some(k) => Ok(TapKey::Modified(ms, k)),
            }
        },
    }
}

/// The meaning of a hold-key expression: a modifier name, or
/// `Layer(name)` for a momentary layer hold.
pub open spec fn parse_hold_spec(s: Seq<char>) -> Result<HoldKeyV, ParseErrorV> {
    match name_modifier(s) {
        Some(m) => Ok(HoldKeyV::Modifier(m)),
        None => match strip_form(s, "Layer("@) {
            Some(mid) => Ok(HoldKeyV::Layer(mid)),
            None => Err(ParseErrorV::BadHoldExpr(s)),
        },
    }
}

/// Parses a hold-key expression.
pub fn parse_hold(v: &Vec<char>) -> (r: Result<HoldKey, ParseError>)
    ensures
        match r {
            Ok(h) => parse_hold_spec(v@) == Ok::<HoldKeyV, ParseErrorV>(h@),
            Err(e) => parse_hold_spec(v@) == Err::<HoldKeyV, ParseErrorV>(e@),
        },
{
    if let Some(m) = name_modifier_exec(v) {
        return Ok(HoldKey::Modifier(m));
    }
    if let Some(mid) = strip_form_exec(v, "Layer(") {
        return Ok(HoldKey::Layer(chars_string(&mid)));
    }
    Err(ParseError::BadHoldExpr(chars_string(v)))
}

/// The meaning of a key-definition expression: `[tap, hold]` is a
/// tap-hold pair (the explicit two-attempt decode of the two shapes);
/// anything else is a plain tap.
pub open spec fn parse_keydef_spec(s: Seq<char>) -> Result<crate::keys::KeyDefV, ParseErrorV> {
    if s.len() >= 2 && s[0] == '[' && s.last() == ']' {
        let mid = s.subrange(1, s.len() - 1);
        match crate::text::find_from(mid, ","@, 0) {
            None => Err(ParseErrorV::BadTapExpr(s)),
            Some(i) => {
                let tap_tok = trim_spec(mid.subrange(0, i));
                let hold_tok = trim_spec(mid.subrange(i + 1, mid.len() as int));
                match parse_tap_spec(tap_tok) {
                    Err(e) => Err(e),
                    Ok(t) => match parse_hold_spec(hold_tok) {
                        Err(e) => Err(e),
                        Ok(h) => Ok(crate::keys::KeyDefV::TapHold(t, h)),
                    },
                }
            },
        }
    } else {
        match parse_tap_spec(s) {
            Err(e) => Err(e),
            Ok(t) => Ok(crate::keys::KeyDefV::Tap(t)),
        }
    }
}

/// Parses a key-definition expression.
pub fn parse_keydef(v: &Vec<char>) -> (r: Result<crate::keys::KeyDef, ParseError>)
    ensures
        match r {
            Ok(d) => parse_keydef_spec(v@) == Ok::<crate::keys::KeyDefV, ParseErrorV>(d@),
            Err(e) => parse_keydef_spec(v@) == Err::<crate::keys::KeyDefV, ParseErrorV>(e@),
        },
{
    if v.len() >= 2 && v[0] == '[' && v[v.len() - 1] == ']' {
        let mid = copy_range(v, 1, v.len() - 1);
        let comma = crate::text::str_chars(",");
        proof {
            reveal_strlit(",");
            assert(comma@.len() == 1);
        }
        match crate::text::split_once(&mid, &comma) {
            None => Err(ParseError::BadTapExpr(chars_string(v))),
            Some((a, b)) => {
                let tap_tok = trim(&a);
                let hold_tok = trim(&b);
                match parse_tap(&tap_tok) {
                    Err(e) => Err(e),
                    Ok(t) => {
                        match parse_hold(&hold_tok) {
                            Err(e) => Err(e),
                            Ok(h) => Ok(crate::keys::KeyDef::TapHold(t, h)),
                        }
                    },
                }
            },
        }
    } else {
        match parse_tap(v) {
            Err(e) => Err(e),
            Ok(t) => Ok(crate::keys::KeyDef::Tap(t)),
        }
    }
}

} // verus!
