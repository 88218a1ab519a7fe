use vstd::prelude::*;

use crate::errors::{ParseError, ParseErrorV};
use crate::keys::{HoldKey, HoldKeyV, KeyDef, KeyDefV, TapKey, TapKeyV};
use crate::modexpr::{
    parse_hold, parse_hold_spec, parse_keydef, parse_keydef_spec, parse_tap, parse_tap_spec,
};
use crate::text::{
    chars_string, copy_range, eq_str, find_from, is_space, is_space_c, lemma_find_from_bounds,
    split_all, split_spec, str_chars, trim, trim_spec,
};

verus! {

/// The optional structured configuration of one layer block: four
/// independent mappings, kept in declaration order.
///
/// The grammar is a small key-value block: an unindented line `name:`
/// opens one of the four sections; each indented line below it is one
/// entry `key: value`. A key is a single character, optionally quoted;
/// a combo key is a bracketed list such as `[a, b]`. A value is a
/// key-definition expression, with `[tap, hold]` for tap-hold pairs.
pub struct LayerConfig {
    /// Optional hold actions per grid character.
    pub holds: Vec<(char, HoldKey)>,
    /// Tap-key overrides per grid character.
    pub defs: Vec<(char, TapKey)>,
    /// Combos: input characters mapped to an output definition.
    pub combos: Vec<(Vec<char>, KeyDef)>,
    /// Shift overrides: input character mapped to an output definition.
    pub shifts: Vec<(char, KeyDef)>,
}

/// Mathematical model of a `LayerConfig`.
pub struct LayerConfigV {
    pub holds: Seq<(char, HoldKeyV)>,
    pub defs: Seq<(char, TapKeyV)>,
    pub combos: Seq<(Seq<char>, KeyDefV)>,
    pub shifts: Seq<(char, KeyDefV)>,
}

impl View for LayerConfig {
    type V = LayerConfigV;

    open spec fn view(&self) -> LayerConfigV {
        LayerConfigV {
            holds: self.holds@.map_values(|p: (char, HoldKey)| (p.0, p.1@)),
            defs: self.defs@.map_values(|p: (char, TapKey)| (p.0, p.1@)),
            combos: self.combos@.map_values(|p: (Vec<char>, KeyDef)| (p.0@, p.1@)),
            shifts: self.shifts@.map_values(|p: (char, KeyDef)| (p.0, p.1@)),
        }
    }
}

/// The empty configuration.
pub open spec fn empty_config() -> LayerConfigV {
    LayerConfigV {
        holds: Seq::empty(),
        defs: Seq::empty(),
        combos: Seq::empty(),
        shifts: Seq::empty(),
    }
}

impl LayerConfig {
    /// A configuration with no entries.
    pub fn new() -> (r: LayerConfig)
        ensures
            r@ == empty_config(),
    {
        let r = LayerConfig { holds: Vec::new(), defs: Vec::new(), combos: Vec::new(), shifts: Vec::new() };
        proof {
            assert(r@.holds =~= empty_config().holds);
            assert(r@.defs =~= empty_config().defs);
            assert(r@.combos =~= empty_config().combos);
            assert(r@.shifts =~= empty_config().shifts);
        }
        r
    }
}

/// Which of the four sections an indented entry belongs to.
#[derive(Debug, Clone, Copy, PartialEq, Eq, Structural)]
pub enum Section {
    Outside,
    Holds,
    Defs,
    Combos,
    Shifts,
}

/// Strips one level of matching quotes, if present.
pub open spec fn unquote(s: Seq<char>) -> Seq<char> {
    if s.len() >= 2 && ((s[0] == '\'' && s.last() == '\'') || (s[0] == '"' && s.last() == '"')) {
        s.subrange(1, s.len() - 1)
    } else {
        s
    }
}

/// Executable `unquote`.
pub fn unquote_exec(v: &Vec<char>) -> (r: Vec<char>)
    ensures
        r@ == unquote(v@),
{
    if v.len() >= 2 && ((v[0] == '\'' && v[v.len() - 1] == '\'') || (v[0] == '"' && v[v.len()
        - 1] == '"')) {
        copy_range(v, 1, v.len() - 1)
    } else {
        let r = copy_range(v, 0, v.len());
        proof {
            assert(v@.subrange(0, v@.len() as int) =~= v@);
        }
        r
    }
}

/// Splits a trimmed entry line into its single-character key (optionally
/// quoted) and the text after the `:`.
pub open spec fn entry_key(t: Seq<char>) -> Option<(char, Seq<char>)> {
    if t.len() >= 4 && t[3] == ':' && ((t[0] == '\'' && t[2] == '\'') || (t[0] == '"' && t[2]
        == '"')) {
        Some((t[1], t.subrange(4, t.len() as int)))
    } else if t.len() >= 2 && t[1] == ':' {
        Some((t[0], t.subrange(2, t.len() as int)))
    } else {
        None
    }
}

/// Executable `entry_key`.
pub fn entry_key_exec(t: &Vec<char>) -> (r: Option<(char, Vec<char>)>)
    ensures
        match r {
            Some(p) => entry_key(t@) == Some((p.0, p.1@)),
            None => entry_key(t@) is None,
        },
{
    if t.len() >= 4 && t[3] == ':' && ((t[0] == '\'' && t[2] == '\'') || (t[0] == '"' && t[2]
        == '"')) {
        Some((t[1], copy_range(t, 4, t.len())))
    } else if t.len() >= 2 && t[1] == ':' {
        Some((t[0], copy_range(t, 2, t.len())))
    } else {
        None
    }
}

/// The single characters named by the pieces of a combo key list.
pub open spec fn combo_key_chars(pieces: Seq<Seq<char>>, i: int) -> Option<Seq<char>>
    decreases pieces.len() - i,
    when 0 <= i
{
    if i >= pieces.len() {
        Some(Seq::empty())
    } else {
        let p = unquote(trim_spec(pieces[i]));
        if p.len() == 1 {
            match combo_key_chars(pieces, i + 1) {
                None => None,
                Some(rest) => Some(seq![p[0]] + rest),
            }
        } else {
            None
        }
    }
}

/// Resolves the pieces of a combo key list to characters.
fn combo_key_chars_exec(pieces: &Vec<Vec<char>>, i: usize) -> (r: Option<Vec<char>>)
    requires
        i <= pieces@.len(),
    ensures
        match r {
            Some(cs) => combo_key_chars(pieces.deep_view(), i as int) == Some(cs@),
            None => combo_key_chars(pieces.deep_view(), i as int) is None,
        },
    decreases pieces@.len() - i,
{
    if i >= pieces.len() {
        let out: Vec<char> = Vec::new();
        proof {
            assert(out@ =~= Seq::<char>::empty());
        }
        return Some(out);
    }
    proof {
        assert(pieces.deep_view()[i as int] == pieces@[i as int].deep_view());
        assert(pieces@[i as int].deep_view() =~= pieces@[i as int]@);
    }
    let p = unquote_exec(&trim(&pieces[i]));
    if p.len() != 1 {
        return None;
    }
    match combo_key_chars_exec(pieces, i + 1) {
        None => None,
        Some(rest) => {
            let mut out: Vec<char> = Vec::new();
            out.push(p[0]);
            let mut rest = rest;
            let ghost rest_v = rest@;
            out.append(&mut rest);
            proof {
                assert(out@ =~= seq![p@[0]] + rest_v);
            }
            Some(out)
        },
    }
}

/// The effect of one configuration line on the parse state: blank lines
/// are skipped, an unindented `name:` line selects a section, and an
/// indented `key: value` line adds one entry to the current section.
pub open spec fn config_step(st: Section, cfg: LayerConfigV, line: Seq<char>) -> Result<
    (Section, LayerConfigV),
    ParseErrorV,
> {
    let t = trim_spec(line);
    if t.len() == 0 {
        Ok((st, cfg))
    } else if !is_space_c(line[0]) {
        if t.last() == ':' {
            let name = t.subrange(0, t.len() - 1);
            if name == "holds"@ {
                Ok((Section::Holds, cfg))
            } else if name == "defs"@ {
                Ok((Section::Defs, cfg))
            } else if name == "combos"@ {
                Ok((Section::Combos, cfg))
            } else if name == "shifts"@ {
                Ok((Section::Shifts, cfg))
            } else {
                Err(ParseErrorV::ConfigSyntax(line))
            }
        } else {
            Err(ParseErrorV::ConfigSyntax(line))
        }
    } else {
        match st {
            Section::Outside => Err(ParseErrorV::ConfigSyntax(line)),
            Section::Combos => {
                if t[0] == '[' {
                    match find_from(t, "]"@, 0) {
                        None => Err(ParseErrorV::ConfigSyntax(line)),
                        Some(j) => {
                            let inside = t.subrange(1, j);
                            let rest = t.subrange(j + 1, t.len() as int);
                            if rest.len() >= 1 && rest[0] == ':' {
                                let val = unquote(
                                    trim_spec(rest.subrange(1, rest.len() as int)),
                                );
                                match combo_key_chars(split_spec(inside, ","@), 0) {
                                    None => Err(ParseErrorV::ConfigSyntax(line)),
                                    Some(cs) => match parse_keydef_spec(val) {
                                        Err(e) => Err(e),
                                        Ok(kd) => Ok(
                                            (
                                                st,
                                                LayerConfigV {
                                                    combos: cfg.combos.push((cs, kd)),
                                                    ..cfg
                                                },
                                            ),
                                        ),
                                    },
                                }
                            } else {
                                Err(ParseErrorV::ConfigSyntax(line))
                            }
                        },
                    }
                } else {
                    Err(ParseErrorV::ConfigSyntax(line))
                }
            },
            _ => {
                match entry_key(t) {
                    None => Err(ParseErrorV::ConfigSyntax(line)),
                    Some(p) => {
                        let val = unquote(trim_spec(p.1));
                        match st {
                            Section::Holds => match parse_hold_spec(val) {
                                Err(e) => Err(e),
                                Ok(h) => Ok(
                                    (st, LayerConfigV { holds: cfg.holds.push((p.0, h)), ..cfg }),
                                ),
                            },
                            Section::Defs => match parse_tap_spec(val) {
                                Err(e) => Err(e),
                                Ok(tk) => Ok(
                                    (st, LayerConfigV { defs: cfg.defs.push((p.0, tk)), ..cfg }),
                                ),
                            },
                            Section::Shifts => match parse_keydef_spec(val) {
                                Err(e) => Err(e),
                                Ok(kd) => Ok(
                                    (st, LayerConfigV { shifts: cfg.shifts.push((p.0, kd)), ..cfg }),
                                ),
                            },
                            _ => Err(ParseErrorV::ConfigSyntax(line)),
                        }
                    },
                }
            },
        }
    }
}

/// Folds `config_step` over the lines from position `i` on.
pub open spec fn config_lines(lines: Seq<Seq<char>>, i: int, st: Section, cfg: LayerConfigV) -> Result<
    LayerConfigV,
    ParseErrorV,
>
    decreases lines.len() - i,
    when 0 <= i
{
    if i >= lines.len() {
        Ok(cfg)
    } else {
        match config_step(st, cfg, lines[i]) {
            Err(e) => Err(e),
            Ok(next) => config_lines(lines, i + 1, next.0, next.1),
        }
    }
}

/// The meaning of a whole structured-config block.
pub open spec fn parse_config_spec(s: Seq<char>) -> Result<LayerConfigV, ParseErrorV> {
    config_lines(split_spec(s, "\n"@), 0, Section::Outside, empty_config())
}

/// Applies one configuration line, mirroring `config_step`.
fn config_step_exec(st: Section, cfg: LayerConfig, line: &Vec<char>) -> (r: Result<
    (Section, LayerConfig),
    ParseError,
>)
    ensures
        match r {
            Ok(p) => config_step(st, cfg@, line@) == Ok::<(Section, LayerConfigV), ParseErrorV>(
                (p.0, p.1@),
            ),
            Err(e) => config_step(st, cfg@, line@) == Err::<(Section, LayerConfigV), ParseErrorV>(
                e@,
            ),
        },
{
    let ghost cfg0 = cfg@;
    let t = trim(line);
    if t.len() == 0 {
        return Ok((st, cfg));
    }
    if !is_space(line[0]) {
        if t[t.len() - 1] == ':' {
            let name = copy_range(&t, 0, t.len() - 1);
            if eq_str(&name, "holds") {
                return Ok((Section::Holds, cfg));
            }
            if eq_str(&name, "defs") {
                return Ok((Section::Defs, cfg));
            }
            if eq_str(&name, "combos") {
                return Ok((Section::Combos, cfg));
            }
            if eq_str(&name, "shifts") {
                return Ok((Section::Shifts, cfg));
            }
            return Err(ParseError::ConfigSyntax(chars_string(line)));
        }
        return Err(ParseError::ConfigSyntax(chars_string(line)));
    }
    match st {
        Section::Outside => Err(ParseError::ConfigSyntax(chars_string(line))),
        Section::Combos => {
            if t[0] == '[' {
                let bracket = str_chars("]");
                proof {
                    reveal_strlit("]");
                    assert(bracket@.len() == 1);
                }
                match crate::text::find_sub_from(&t, &bracket, 0) {
                    None => Err(ParseError::ConfigSyntax(chars_string(line))),
                    Some(j) => {
                        proof {
                            lemma_find_from_bounds(t@, bracket@, 0, j as int);
                            if j == 0 {
                                assert(t@.subrange(0, 1)[0] == t@[0]);
                                assert(false);
                            }
                        }
                        let inside = copy_range(&t, 1, j);
                        let rest = copy_range(&t, j + 1, t.len());
                        if rest.len() >= 1 && rest[0] == ':' {
                            let val = unquote_exec(&trim(&copy_range(&rest, 1, rest.len())));
                            let comma = str_chars(",");
                            proof {
                                reveal_strlit(",");
                                assert(comma@.len() == 1);
                            }
                            let pieces = split_all(&inside, &comma);
                            match combo_key_chars_exec(&pieces, 0) {
                                None => Err(ParseError::ConfigSyntax(chars_string(line))),
                                Some(cs) => {
                                    match parse_keydef(&val) {
                                        Err(e) => Err(e),
                                        Ok(kd) => {
                                            let mut cfg = cfg;
                                            let ghost kdv = kd@;
                                            let ghost csv = cs@;
                                            cfg.combos.push((cs, kd));
                                            proof {
                                                assert(cfg@.combos =~= cfg0.combos.push(
                                                    (csv, kdv),
                                                ));
                                                assert(cfg@.holds =~= cfg0.holds);
                                                assert(cfg@.defs =~= cfg0.defs);
                                                assert(cfg@.shifts =~= cfg0.shifts);
                                            }
                                            Ok((st, cfg))
                                        },
                                    }
                                },
                            }
                        } else {
                            Err(ParseError::ConfigSyntax(chars_string(line)))
                        }
                    },
                }
            } else {
                Err(ParseError::ConfigSyntax(chars_string(line)))
            }
        },
        _ => {
            match entry_key_exec(&t) {
                None => Err(ParseError::ConfigSyntax(chars_string(line))),
                Some((c, restv)) => {
                    let val = unquote_exec(&trim(&restv));
                    match st {
                        Section::Holds => {
                            match parse_hold(&val) {
                                Err(e) => Err(e),
                                Ok(h) => {
                                    let mut cfg = cfg;
                                    let ghost hv = h@;
                                    cfg.holds.push((c, h));
                                    proof {
                                        assert(cfg@.holds =~= cfg0.holds.push((c, hv)));
                                        assert(cfg@.combos =~= cfg0.combos);
                                        assert(cfg@.defs =~= cfg0.defs);
                                        assert(cfg@.shifts =~= cfg0.shifts);
                                    }
                                    Ok((st, cfg))
                                },
                            }
                        },
                        Section::Defs => {
                            match parse_tap(&val) {
                                Err(e) => Err(e),
                                Ok(tk) => {
                                    let mut cfg = cfg;
                                    let ghost tv = tk@;
                                    cfg.defs.push((c, tk));
                                    proof {
                                        assert(cfg@.defs =~= cfg0.defs.push((c, tv)));
                                        assert(cfg@.combos =~= cfg0.combos);
                                        assert(cfg@.holds =~= cfg0.holds);
                                        assert(cfg@.shifts =~= cfg0.shifts);
                                    }
                                    Ok((st, cfg))
                                },
                            }
                        },
                        Section::Shifts => {
                            match parse_keydef(&val) {
                                Err(e) => Err(e),
                                Ok(kd) => {
                                    let mut cfg = cfg;
                                    let ghost kv = kd@;
                                    cfg.shifts.push((c, kd));
                                    proof {
                                        assert(cfg@.shifts =~= cfg0.shifts.push((c, kv)));
                                        assert(cfg@.combos =~= cfg0.combos);
                                        assert(cfg@.holds =~= cfg0.holds);
                                        assert(cfg@.defs =~= cfg0.defs);
                                    }
                                    Ok((st, cfg))
                                },
                            }
                        },
                        _ => Err(ParseError::ConfigSyntax(chars_string(line))),
                    }
                },
            }
        },
    }
}

/// Folds the configuration lines, mirroring `config_lines`.
fn config_lines_exec(lines: &Vec<Vec<char>>, i: usize, st: Section, cfg: LayerConfig) -> (r: Result<
    LayerConfig,
    ParseError,
>)
    requires
        i <= lines@.len(),
    ensures
        match r {
            Ok(c) => config_lines(lines.deep_view(), i as int, st, cfg@) == Ok::<
                LayerConfigV,
                ParseErrorV,
            >(c@),
            Err(e) => config_lines(lines.deep_view(), i as int, st, cfg@) == Err::<
                LayerConfigV,
                ParseErrorV,
            >(e@),
        },
    decreases lines@.len() - i,
{
    if i >= lines.len() {
        return Ok(cfg);
    }
    proof {
        assert(lines.deep_view()[i as int] == lines@[i as int].deep_view());
        assert(lines@[i as int].deep_view() =~= lines@[i as int]@);
    }
    match config_step_exec(st, cfg, &lines[i]) {
        Err(e) => Err(e),
        Ok((st2, cfg2)) => config_lines_exec(lines, i + 1, st2, cfg2),
    }
}

/// Parses one layer's structured-config block.
pub fn parse_config(v: &Vec<char>) -> (r: Result<LayerConfig, ParseError>)
    ensures
        match r {
            Ok(c) => parse_config_spec(v@) == Ok::<LayerConfigV, ParseErrorV>(c@),
            Err(e) => parse_config_spec(v@) == Err::<LayerConfigV, ParseErrorV>(e@),
        },
{
    let nl = str_chars("\n");
    proof {
        reveal_strlit("\n");
        assert(nl@.len() == 1);
    }
    let lines = split_all(v, &nl);
    config_lines_exec(&lines, 0, Section::Outside, LayerConfig::new())
}

} // verus!
