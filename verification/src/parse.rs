use vstd::prelude::*;

use crate::config::{empty_config, parse_config, parse_config_spec, LayerConfig, LayerConfigV};
use crate::errors::{ParseError, ParseErrorV};
use crate::keymap::{Combo, ComboV, KeyMap, KeyMapV, Layer, LayerKey, LayerKeyV, LayerV, Shifted, ShiftedV};
use crate::keys::{HoldKey, HoldKeyV, KeyDef, KeyDefV, TapKey, TapKeyV};
use crate::text::{
    append_dec, append_str, chars_string, copy_range, dec_spec, find_from,
    lemma_find_from_bounds, non_ws, non_ws_chars, split_all, split_spec, str_chars, trim,
    trim_spec,
};
use crate::vocab::{char_key, char_key_exec};

verus! {

/// The `defs` override for `c`, the latest entry winning.
pub open spec fn defs_lookup(defs: Seq<(char, TapKeyV)>, c: char) -> Option<TapKeyV>
    decreases defs.len(),
{
    if defs.len() == 0 {
        None
    } else if defs.last().0 == c {
        Some(defs.last().1)
    } else {
        defs_lookup(defs.drop_last(), c)
    }
}

/// Looks `c` up among the `defs` overrides.
fn defs_lookup_exec(defs: &Vec<(char, TapKey)>, c: char) -> (r: Option<TapKey>)
    ensures
        match r {
            Some(t) => defs_lookup(defs@.map_values(|p: (char, TapKey)| (p.0, p.1@)), c) == Some(
                t@,
            ),
            None => defs_lookup(defs@.map_values(|p: (char, TapKey)| (p.0, p.1@)), c) is None,
        },
{
    let ghost dv = defs@.map_values(|p: (char, TapKey)| (p.0, p.1@));
    let mut j: usize = defs.len();
    proof {
        assert(dv.take(j as int) =~= dv);
    }
    while j > 0
        invariant
            j <= defs@.len(),
            dv == defs@.map_values(|p: (char, TapKey)| (p.0, p.1@)),
            dv.len() == defs@.len(),
            defs_lookup(dv, c) == defs_lookup(dv.take(j as int), c),
        decreases j,
    {
        proof {
            let cur = dv.take(j as int);
            assert(cur.last() == dv[j - 1]);
            assert(dv[j - 1] == (defs@[j - 1].0, defs@[j - 1].1@));
            assert(cur.drop_last() =~= dv.take(j - 1));
        }
        if defs[j - 1].0 == c {
            return Some(defs[j - 1].1.clone());
        }
        j = j - 1;
    }
    proof {
        assert(dv.take(0) =~= Seq::<(char, TapKeyV)>::empty());
    }
    None
}

/// Consumes the first `holds` entry for `c`, returning the hold and the
/// remaining entries; `None` when no entry matches.
pub open spec fn holds_take(holds: Seq<(char, HoldKeyV)>, c: char) -> Option<
    (HoldKeyV, Seq<(char, HoldKeyV)>),
>
    decreases holds.len(),
{
    if holds.len() == 0 {
        None
    } else if holds[0].0 == c {
        Some((holds[0].1, holds.drop_first()))
    } else {
        match holds_take(holds.drop_first(), c) {
            None => None,
            Some(p) => Some((p.0, seq![holds[0]] + p.1)),
        }
    }
}

proof fn lemma_holds_take_found(hs: Seq<(char, HoldKeyV)>, c: char, j: int)
    requires
        0 <= j < hs.len(),
        hs[j].0 == c,
        forall|k: int| 0 <= k < j ==> hs[k].0 != c,
    ensures
        holds_take(hs, c) == Some(
            (hs[j].1, hs.subrange(0, j) + hs.subrange(j + 1, hs.len() as int)),
        ),
    decreases j,
{
    if j == 0 {
        assert(hs.subrange(0, 0) + hs.subrange(1, hs.len() as int) =~= hs.drop_first());
    } else {
        let tl = hs.drop_first();
        assert(tl[j - 1].0 == c);
        assert(forall|k: int| 0 <= k < j - 1 ==> tl[k].0 != c);
        lemma_holds_take_found(tl, c, j - 1);
        assert(seq![hs[0]] + (tl.subrange(0, j - 1) + tl.subrange(j, tl.len() as int))
            =~= hs.subrange(0, j) + hs.subrange(j + 1, hs.len() as int));
        assert(tl[j - 1] == hs[j]);
    }
}

proof fn lemma_holds_take_none(hs: Seq<(char, HoldKeyV)>, c: char)
    requires
        forall|k: int| 0 <= k < hs.len() ==> hs[k].0 != c,
    ensures
        holds_take(hs, c) is None,
    decreases hs.len(),
{
    if hs.len() > 0 {
        lemma_holds_take_none(hs.drop_first(), c);
    }
}

/// Consumes the first hold entry for `c`, if any.
fn holds_take_exec(holds: &mut Vec<(char, HoldKey)>, c: char) -> (r: Option<HoldKey>)
    ensures
        ({
            let oldv = old(holds)@.map_values(|p: (char, HoldKey)| (p.0, p.1@));
            let newv = final(holds)@.map_values(|p: (char, HoldKey)| (p.0, p.1@));
            match r {
                Some(h) => holds_take(oldv, c) == Some((h@, newv)),
                None => holds_take(oldv, c) is None && newv == oldv,
            }
        }),
{
    let ghost oldv = holds@.map_values(|p: (char, HoldKey)| (p.0, p.1@));
    let n: usize = holds.len();
    let mut j: usize = 0;
    while j < n
        invariant
            n == holds@.len(),
            j <= n,
            holds@ == old(holds)@,
            oldv == holds@.map_values(|p: (char, HoldKey)| (p.0, p.1@)),
            oldv.len() == n,
            forall|k: int| 0 <= k < j ==> oldv[k].0 != c,
        decreases n - j,
    {
        proof {
            assert(oldv[j as int] == (holds@[j as int].0, holds@[j as int].1@));
        }
        if holds[j].0 == c {
            let h = holds[j].1.clone();
            let ghost jj = j as int;
            holds.remove(j);
            proof {
                lemma_holds_take_found(oldv, c, jj);
                let newv = holds@.map_values(|p: (char, HoldKey)| (p.0, p.1@));
                assert(newv =~= oldv.subrange(0, jj) + oldv.subrange(jj + 1, oldv.len() as int));
            }
            return Some(h);
        }
        j = j + 1;
    }
    proof {
        lemma_holds_take_none(oldv, c);
    }
    None
}

/// The key definition one grid character resolves to: the `defs`
/// override if present, else the vocabulary key; wrapped as a tap-hold
/// when an unconsumed `holds` entry matches, which is then consumed.
pub open spec fn resolve_cell(c: char, defs: Seq<(char, TapKeyV)>, holds: Seq<(char, HoldKeyV)>) -> Result<
    (KeyDefV, Seq<(char, HoldKeyV)>),
    ParseErrorV,
> {
    let tap_or = match defs_lookup(defs, c) {
        Some(t) => Some(t),
        None => match char_key(c) {
            Some(k) => Some(TapKeyV::Key(k)),
            None => None,
        },
    };
    match tap_or {
        None => Err(ParseErrorV::UnknownGlyph(c)),
        Some(tap) => match holds_take(holds, c) {
            Some(p) => Ok((KeyDefV::TapHold(tap, p.0), p.1)),
            None => Ok((KeyDefV::Tap(tap), holds)),
        },
    }
}

/// Resolves the grid characters from position `i` on, threading the
/// consumable `holds` entries left to right.
pub open spec fn resolve_cells(
    cs: Seq<char>,
    i: int,
    defs: Seq<(char, TapKeyV)>,
    holds: Seq<(char, HoldKeyV)>,
) -> Result<(Seq<KeyDefV>, Seq<(char, HoldKeyV)>), ParseErrorV>
    decreases cs.len() - i,
    when 0 <= i
{
    if i >= cs.len() {
        Ok((Seq::empty(), holds))
    } else {
        match resolve_cell(cs[i], defs, holds) {
            Err(e) => Err(e),
            Ok(p) => match resolve_cells(cs, i + 1, defs, p.1) {
                Err(e) => Err(e),
                Ok(q) => Ok((seq![p.0] + q.0, q.1)),
            },
        }
    }
}

/// A successful resolution yields one definition per character.
pub proof fn lemma_resolve_cells_len(
    cs: Seq<char>,
    i: int,
    defs: Seq<(char, TapKeyV)>,
    holds: Seq<(char, HoldKeyV)>,
)
    requires
        0 <= i <= cs.len(),
        resolve_cells(cs, i, defs, holds) is Ok,
    ensures
        resolve_cells(cs, i, defs, holds)->Ok_0.0.len() == cs.len() - i,
    decreases cs.len() - i,
{
    if i < cs.len() {
        match resolve_cell(cs[i], defs, holds) {
            Err(_) => {},
            Ok(p) => {
                lemma_resolve_cells_len(cs, i + 1, defs, p.1);
            },
        }
    }
}

/// Resolves the grid characters, mirroring `resolve_cells`.
fn resolve_cells_exec(
    cs: &Vec<char>,
    i: usize,
    defs: &Vec<(char, TapKey)>,
    holds: Vec<(char, HoldKey)>,
) -> (r: Result<(Vec<KeyDef>, Vec<(char, HoldKey)>), ParseError>)
    requires
        i <= cs@.len(),
    ensures
        ({
            let dv = defs@.map_values(|p: (char, TapKey)| (p.0, p.1@));
            let hv = holds@.map_values(|p: (char, HoldKey)| (p.0, p.1@));
            match r {
                Ok(p) => resolve_cells(cs@, i as int, dv, hv) == Ok::<
                    (Seq<KeyDefV>, Seq<(char, HoldKeyV)>),
                    ParseErrorV,
                >(
                    (
                        p.0@.map_values(|k: KeyDef| k@),
                        p.1@.map_values(|q: (char, HoldKey)| (q.0, q.1@)),
                    ),
                ),
                Err(e) => resolve_cells(cs@, i as int, dv, hv) == Err::<
                    (Seq<KeyDefV>, Seq<(char, HoldKeyV)>),
                    ParseErrorV,
                >(e@),
            }
        }),
    decreases cs@.len() - i,
{
    let ghost dv = defs@.map_values(|p: (char, TapKey)| (p.0, p.1@));
    let ghost hv = holds@.map_values(|p: (char, HoldKey)| (p.0, p.1@));
    if i >= cs.len() {
        let out: Vec<KeyDef> = Vec::new();
        proof {
            assert(out@.map_values(|k: KeyDef| k@) =~= Seq::<KeyDefV>::empty());
        }
        return Ok((out, holds));
    }
    let c = cs[i];
    let tap_or: Option<TapKey> = match defs_lookup_exec(defs, c) {
        Some(t) => Some(t),
        None => match char_key_exec(c) {
            Some(k) => Some(TapKey::Key(k)),
            None => None,
        },
    };
    let tap = match tap_or {
        None => {
            return Err(ParseError::UnknownGlyph(c));
        },
        Some(tap) => tap,
    };
    let mut holds = holds;
    let kd: KeyDef = match holds_take_exec(&mut holds, c) {
        Some(h) => KeyDef::TapHold(tap, h),
        None => KeyDef::Tap(tap),
    };
    let ghost hv2 = holds@.map_values(|p: (char, HoldKey)| (p.0, p.1@));
    proof {
        assert(resolve_cell(cs@[i as int], dv, hv) == Ok::<
            (KeyDefV, Seq<(char, HoldKeyV)>),
            ParseErrorV,
        >((kd@, hv2)));
    }
    match resolve_cells_exec(cs, i + 1, defs, holds) {
        Err(e) => Err(e),
        Ok((rest, hrest)) => {
            let mut out: Vec<KeyDef> = Vec::new();
            out.push(kd);
            let mut rest = rest;
            let ghost rest_v = rest@.map_values(|k: KeyDef| k@);
            let ghost kdv = out@[0]@;
            out.append(&mut rest);
            proof {
                assert(out@.map_values(|k: KeyDef| k@) =~= seq![kdv] + rest_v);
            }
            Ok((out, hrest))
        },
    }
}

/// The position of the last occurrence of `c` in the grid characters.
pub open spec fn grid_lookup(cs: Seq<char>, c: char) -> Option<int>
    decreases cs.len(),
{
    if cs.len() == 0 {
        None
    } else if cs.last() == c {
        Some(cs.len() - 1)
    } else {
        grid_lookup(cs.drop_last(), c)
    }
}

/// A found position lies within the grid.
pub proof fn lemma_grid_lookup_bounds(cs: Seq<char>, c: char, p: int)
    requires
        grid_lookup(cs, c) == Some(p),
    ensures
        0 <= p < cs.len(),
        cs[p] == c,
    decreases cs.len(),
{
    if cs.len() > 0 && cs.last() != c {
        lemma_grid_lookup_bounds(cs.drop_last(), c, p);
    }
}

/// Finds the last occurrence of `c` among the grid characters.
fn grid_lookup_exec(cs: &Vec<char>, c: char) -> (r: Option<usize>)
    ensures
        match r {
            Some(p) => grid_lookup(cs@, c) == Some(p as int),
            None => grid_lookup(cs@, c) is None,
        },
{
    let mut j: usize = cs.len();
    proof {
        assert(cs@.take(cs@.len() as int) =~= cs@);
    }
    while j > 0
        invariant
            j <= cs@.len(),
            grid_lookup(cs@, c) == grid_lookup(cs@.take(j as int), c),
        decreases j,
    {
        proof {
            let cur = cs@.take(j as int);
            assert(cur.last() == cs@[j - 1]);
            assert(cur.drop_last() =~= cs@.take(j - 1));
        }
        if cs[j - 1] == c {
            return Some(j - 1);
        }
        j = j - 1;
    }
    proof {
        assert(cs@.take(0) =~= Seq::<char>::empty());
    }
    None
}

/// Resolves a combo's declared input characters (from position `i`) to
/// layer keys: each character's last grid occurrence gives its key
/// definition and position.
pub open spec fn resolve_inputs(
    ins: Seq<char>,
    i: int,
    cs: Seq<char>,
    layout: Seq<KeyDefV>,
    lname: Seq<char>,
) -> Result<Seq<LayerKeyV>, ParseErrorV>
    decreases ins.len() - i,
    when 0 <= i
{
    if i >= ins.len() {
        Ok(Seq::empty())
    } else {
        match grid_lookup(cs, ins[i]) {
            None => Err(ParseErrorV::ComboInputMissing(lname, ins[i])),
            Some(p) => match resolve_inputs(ins, i + 1, cs, layout, lname) {
                Err(e) => Err(e),
                Ok(rest) => Ok(seq![LayerKeyV { key: layout[p], position: p }] + rest),
            },
        }
    }
}

/// Resolves combo inputs, mirroring `resolve_inputs`.
fn resolve_inputs_exec(
    ins: &Vec<char>,
    i: usize,
    cs: &Vec<char>,
    layout: &Vec<KeyDef>,
    lname: &String,
) -> (r: Result<Vec<LayerKey>, ParseError>)
    requires
        i <= ins@.len(),
        layout@.len() == cs@.len(),
    ensures
        ({
            let lv = layout@.map_values(|k: KeyDef| k@);
            match r {
                Ok(ks) => resolve_inputs(ins@, i as int, cs@, lv, lname@) == Ok::<
                    Seq<LayerKeyV>,
                    ParseErrorV,
                >(ks@.map_values(|k: LayerKey| k@)),
                Err(e) => resolve_inputs(ins@, i as int, cs@, lv, lname@) == Err::<
                    Seq<LayerKeyV>,
                    ParseErrorV,
                >(e@),
            }
        }),
    decreases ins@.len() - i,
{
    let ghost lv = layout@.map_values(|k: KeyDef| k@);
    if i >= ins.len() {
        let out: Vec<LayerKey> = Vec::new();
        proof {
            assert(out@.map_values(|k: LayerKey| k@) =~= Seq::<LayerKeyV>::empty());
        }
        return Ok(out);
    }
    let c = ins[i];
    match grid_lookup_exec(cs, c) {
        None => Err(ParseError::ComboInputMissing(lname.clone(), c)),
        Some(p) => {
            proof {
                lemma_grid_lookup_bounds(cs@, c, p as int);
            }
            let lk = LayerKey { key: layout[p].clone(), position: p };
            match resolve_inputs_exec(ins, i + 1, cs, layout, lname) {
                Err(e) => Err(e),
                Ok(rest) => {
                    let ghost lkv = lk@;
                    let mut out: Vec<LayerKey> = Vec::new();
                    out.push(lk);
                    let mut rest = rest;
                    let ghost rest_v = rest@.map_values(|k: LayerKey| k@);
                    out.append(&mut rest);
                    proof {
                        assert(out@.map_values(|k: LayerKey| k@) =~= seq![lkv] + rest_v);
                        assert(lkv == LayerKeyV { key: lv[p as int], position: p as int });
                    }
                    Ok(out)
                },
            }
        },
    }
}

/// Resolves the declared combos (from position `i`) of one layer.
pub open spec fn resolve_combos(
    combos: Seq<(Seq<char>, KeyDefV)>,
    i: int,
    cs: Seq<char>,
    layout: Seq<KeyDefV>,
    lname: Seq<char>,
) -> Result<Seq<ComboV>, ParseErrorV>
    decreases combos.len() - i,
    when 0 <= i
{
    if i >= combos.len() {
        Ok(Seq::empty())
    } else {
        match resolve_inputs(combos[i].0, 0, cs, layout, lname) {
            Err(e) => Err(e),
            Ok(inputs) => match resolve_combos(combos, i + 1, cs, layout, lname) {
                Err(e) => Err(e),
                Ok(rest) => Ok(seq![ComboV { inputs, output: combos[i].1 }] + rest),
            },
        }
    }
}

/// Resolves combos, mirroring `resolve_combos`.
fn resolve_combos_exec(
    combos: &Vec<(Vec<char>, KeyDef)>,
    i: usize,
    cs: &Vec<char>,
    layout: &Vec<KeyDef>,
    lname: &String,
) -> (r: Result<Vec<Combo>, ParseError>)
    requires
        i <= combos@.len(),
        layout@.len() == cs@.len(),
    ensures
        ({
            let cv = combos@.map_values(|p: (Vec<char>, KeyDef)| (p.0@, p.1@));
            let lv = layout@.map_values(|k: KeyDef| k@);
            match r {
                Ok(ks) => resolve_combos(cv, i as int, cs@, lv, lname@) == Ok::<
                    Seq<ComboV>,
                    ParseErrorV,
                >(ks@.map_values(|c: Combo| c@)),
                Err(e) => resolve_combos(cv, i as int, cs@, lv, lname@) == Err::<
                    Seq<ComboV>,
                    ParseErrorV,
                >(e@),
            }
        }),
    decreases combos@.len() - i,
{
    let ghost cv = combos@.map_values(|p: (Vec<char>, KeyDef)| (p.0@, p.1@));
    if i >= combos.len() {
        let out: Vec<Combo> = Vec::new();
        proof {
            assert(out@.map_values(|c: Combo| c@) =~= Seq::<ComboV>::empty());
        }
        return Ok(out);
    }
    proof {
        assert(cv[i as int] == (combos@[i as int].0@, combos@[i as int].1@));
    }
    match resolve_inputs_exec(&combos[i].0, 0, cs, layout, lname) {
        Err(e) => Err(e),
        Ok(inputs) => {
            let combo = Combo { inputs, output: combos[i].1.clone() };
            match resolve_combos_exec(combos, i + 1, cs, layout, lname) {
                Err(e) => Err(e),
                Ok(rest) => {
                    let ghost combov = combo@;
                    let mut out: Vec<Combo> = Vec::new();
                    out.push(combo);
                    let mut rest = rest;
                    let ghost rest_v = rest@.map_values(|c: Combo| c@);
                    out.append(&mut rest);
                    proof {
                        assert(out@.map_values(|c: Combo| c@) =~= seq![combov] + rest_v);
                    }
                    Ok(out)
                },
            }
        },
    }
}

/// The generated identifier of the `j`-th shift override of layer `li`.
pub open spec fn shift_name(li: int, j: int) -> Seq<char> {
    "shift_"@ + dec_spec(li as nat) + "_"@ + dec_spec(j as nat)
}

/// Resolves the declared shift overrides (from position `i`) of one
/// layer: the input character's grid key definition when it appears in
/// the grid, else its plain vocabulary key.
pub open spec fn resolve_shifts(
    shifts: Seq<(char, KeyDefV)>,
    i: int,
    cs: Seq<char>,
    layout: Seq<KeyDefV>,
    li: int,
) -> Result<Seq<ShiftedV>, ParseErrorV>
    decreases shifts.len() - i,
    when 0 <= i
{
    if i >= shifts.len() {
        Ok(Seq::empty())
    } else {
        let input_or = match grid_lookup(cs, shifts[i].0) {
            Some(p) => Some(layout[p]),
            None => match char_key(shifts[i].0) {
                Some(k) => Some(KeyDefV::Tap(TapKeyV::Key(k))),
                None => None,
            },
        };
        match input_or {
            None => Err(ParseErrorV::UnknownGlyph(shifts[i].0)),
            Some(input) => match resolve_shifts(shifts, i + 1, cs, layout, li) {
                Err(e) => Err(e),
                Ok(rest) => Ok(
                    seq![ShiftedV { name: shift_name(li, i), input, output: shifts[i].1 }] + rest,
                ),
            },
        }
    }
}

/// Resolves shift overrides, mirroring `resolve_shifts`.
fn resolve_shifts_exec(
    shifts: &Vec<(char, KeyDef)>,
    i: usize,
    cs: &Vec<char>,
    layout: &Vec<KeyDef>,
    li: usize,
) -> (r: Result<Vec<Shifted>, ParseError>)
    requires
        i <= shifts@.len(),
        layout@.len() == cs@.len(),
    ensures
        ({
            let sv = shifts@.map_values(|p: (char, KeyDef)| (p.0, p.1@));
            let lv = layout@.map_values(|k: KeyDef| k@);
            match r {
                Ok(ks) => resolve_shifts(sv, i as int, cs@, lv, li as int) == Ok::<
                    Seq<ShiftedV>,
                    ParseErrorV,
                >(ks@.map_values(|s: Shifted| s@)),
                Err(e) => resolve_shifts(sv, i as int, cs@, lv, li as int) == Err::<
                    Seq<ShiftedV>,
                    ParseErrorV,
                >(e@),
            }
        }),
    decreases shifts@.len() - i,
{
    let ghost sv = shifts@.map_values(|p: (char, KeyDef)| (p.0, p.1@));
    let ghost lv = layout@.map_values(|k: KeyDef| k@);
    if i >= shifts.len() {
        let out: Vec<Shifted> = Vec::new();
        proof {
            assert(out@.map_values(|s: Shifted| s@) =~= Seq::<ShiftedV>::empty());
        }
        return Ok(out);
    }
    proof {
        assert(sv[i as int] == (shifts@[i as int].0, shifts@[i as int].1@));
    }
    let c = shifts[i].0;
    let input_or: Option<KeyDef> = match grid_lookup_exec(cs, c) {
        Some(p) => {
            proof {
                lemma_grid_lookup_bounds(cs@, c, p as int);
            }
            Some(layout[p].clone())
        },
        None => match char_key_exec(c) {
            Some(k) => Some(KeyDef::Tap(TapKey::Key(k))),
            None => None,
        },
    };
    match input_or {
        None => Err(ParseError::UnknownGlyph(c)),
        Some(input) => {
            let mut name = str_chars("shift_");
            append_dec(&mut name, li);
            append_str(&mut name, "_");
            append_dec(&mut name, i);
            let shifted = Shifted {
                name: chars_string(&name),
                input,
                output: shifts[i].1.clone(),
            };
            match resolve_shifts_exec(shifts, i + 1, cs, layout, li) {
                Err(e) => Err(e),
                Ok(rest) => {
                    let ghost shv = shifted@;
                    let mut out: Vec<Shifted> = Vec::new();
                    out.push(shifted);
                    let mut rest = rest;
                    let ghost rest_v = rest@.map_values(|s: Shifted| s@);
                    out.append(&mut rest);
                    proof {
                        assert(out@.map_values(|s: Shifted| s@) =~= seq![shv] + rest_v);
                    }
                    Ok(out)
                },
            }
        },
    }
}

/// The meaning of one layer block at layer index `li`: a name line, a
/// blank-line separator, the grid, and an optional blank-line-separated
/// structured config.
pub open spec fn parse_layer_spec(block: Seq<char>, li: int) -> Result<LayerV, ParseErrorV> {
    let b = trim_spec(block);
    match find_from(b, "\n\n"@, 0) {
        None => Err(ParseErrorV::MissingGrid(b)),
        Some(i) => {
            let name = b.subrange(0, i);
            let rest = b.subrange(i + "\n\n"@.len(), b.len() as int);
            let grid = match find_from(rest, "\n\n"@, 0) {
                None => rest,
                Some(j) => rest.subrange(0, j),
            };
            let cfg_r = match find_from(rest, "\n\n"@, 0) {
                None => Ok(empty_config()),
                Some(j) => parse_config_spec(rest.subrange(j + "\n\n"@.len(), rest.len() as int)),
            };
            match cfg_r {
                Err(e) => Err(e),
                Ok(cfg) => {
                    let cs = non_ws(grid);
                    match resolve_cells(cs, 0, cfg.defs, cfg.holds) {
                        Err(e) => Err(e),
                        Ok(p) => {
                            let layout = p.0;
                            match resolve_combos(cfg.combos, 0, cs, layout, name) {
                                Err(e) => Err(e),
                                Ok(combos) => match resolve_shifts(cfg.shifts, 0, cs, layout, li) {
                                    Err(e) => Err(e),
                                    Ok(shifts) => Ok(
                                        LayerV { name, layout, combos, shifts },
                                    ),
                                },
                            }
                        },
                    }
                },
            }
        },
    }
}

/// Parses one layer block, mirroring `parse_layer_spec`.
fn parse_layer(block: &Vec<char>, li: usize) -> (r: Result<Layer, ParseError>)
    ensures
        match r {
            Ok(l) => parse_layer_spec(block@, li as int) == Ok::<LayerV, ParseErrorV>(l@),
            Err(e) => parse_layer_spec(block@, li as int) == Err::<LayerV, ParseErrorV>(e@),
        },
{
    let b = trim(block);
    let sep = str_chars("\n\n");
    proof {
        reveal_strlit("\n\n");
        assert(sep@.len() == 2);
    }
    let i = match crate::text::find_sub_from(&b, &sep, 0) {
        None => {
            return Err(ParseError::MissingGrid(chars_string(&b)));
        },
        Some(i) => i,
    };
    proof {
        lemma_find_from_bounds(b@, sep@, 0, i as int);
    }
    let name = copy_range(&b, 0, i);
    let blen: usize = b.len();
    let rest = copy_range(&b, i + sep.len(), blen);
    let (grid, cfg_r): (Vec<char>, Result<LayerConfig, ParseError>) =
        match crate::text::find_sub_from(&rest, &sep, 0) {
        None => (copy_full(&rest), Ok(LayerConfig::new())),
        Some(j) => {
            proof {
                lemma_find_from_bounds(rest@, sep@, 0, j as int);
            }
            let rlen: usize = rest.len();
            (copy_range(&rest, 0, j), parse_config(&copy_range(&rest, j + sep.len(), rlen)))
        },
    };
    let cfg = match cfg_r {
        Err(e) => {
            return Err(e);
        },
        Ok(cfg) => cfg,
    };
    let cs = non_ws_chars(&grid);
    let (layout, _holds_left) = match resolve_cells_exec(&cs, 0, &cfg.defs, cfg.holds) {
        Err(e) => {
            return Err(e);
        },
        Ok(p) => p,
    };
    proof {
        let dv = cfg.defs@.map_values(|p: (char, TapKey)| (p.0, p.1@));
        lemma_resolve_cells_len(cs@, 0, dv, cfg@.holds);
        assert(cfg@.defs =~= dv);
    }
    let lname = chars_string(&name);
    let combos = match resolve_combos_exec(&cfg.combos, 0, &cs, &layout, &lname) {
        Err(e) => {
            return Err(e);
        },
        Ok(cbs) => cbs,
    };
    let shifts = match resolve_shifts_exec(&cfg.shifts, 0, &cs, &layout, li) {
        Err(e) => {
            return Err(e);
        },
        Ok(shs) => shs,
    };
    proof {
        assert(cfg@.combos =~= cfg.combos@.map_values(|p: (Vec<char>, KeyDef)| (p.0@, p.1@)));
        assert(cfg@.shifts =~= cfg.shifts@.map_values(|p: (char, KeyDef)| (p.0, p.1@)));
    }
    Ok(Layer { name: lname, layout, combos, shifts })
}

/// A fresh copy of a character vector.
fn copy_full(v: &Vec<char>) -> (r: Vec<char>)
    ensures
        r@ == v@,
{
    let r = copy_range(v, 0, v.len());
    proof {
        assert(v@.subrange(0, v@.len() as int) =~= v@);
    }
    r
}

/// The meaning of the layer blocks from position `i` on.
pub open spec fn parse_layers_spec(blocks: Seq<Seq<char>>, i: int) -> Result<
    Seq<LayerV>,
    ParseErrorV,
>
    decreases blocks.len() - i,
    when 0 <= i
{
    if i >= blocks.len() {
        Ok(Seq::empty())
    } else {
        match parse_layer_spec(blocks[i], i) {
            Err(e) => Err(e),
            Ok(l) => match parse_layers_spec(blocks, i + 1) {
                Err(e) => Err(e),
                Ok(rest) => Ok(seq![l] + rest),
            },
        }
    }
}

/// Parses the layer blocks, mirroring `parse_layers_spec`.
fn parse_layers(blocks: &Vec<Vec<char>>, i: usize) -> (r: Result<Vec<Layer>, ParseError>)
    requires
        i <= blocks@.len(),
    ensures
        match r {
            Ok(ls) => parse_layers_spec(blocks.deep_view(), i as int) == Ok::<
                Seq<LayerV>,
                ParseErrorV,
            >(ls@.map_values(|l: Layer| l@)),
            Err(e) => parse_layers_spec(blocks.deep_view(), i as int) == Err::<
                Seq<LayerV>,
                ParseErrorV,
            >(e@),
        },
    decreases blocks@.len() - i,
{
    if i >= blocks.len() {
        let out: Vec<Layer> = Vec::new();
        proof {
            assert(out@.map_values(|l: Layer| l@) =~= Seq::<LayerV>::empty());
        }
        return Ok(out);
    }
    proof {
        assert(blocks.deep_view()[i as int] == blocks@[i as int].deep_view());
        assert(blocks@[i as int].deep_view() =~= blocks@[i as int]@);
    }
    match parse_layer(&blocks[i], i) {
        Err(e) => Err(e),
        Ok(l) => {
            match parse_layers(blocks, i + 1) {
                Err(e) => Err(e),
                Ok(rest) => {
                    let ghost lv = l@;
                    let mut out: Vec<Layer> = Vec::new();
                    out.push(l);
                    let mut rest = rest;
                    let ghost rest_v = rest@.map_values(|x: Layer| x@);
                    out.append(&mut rest);
                    proof {
                        assert(out@.map_values(|x: Layer| x@) =~= seq![lv] + rest_v);
                    }
                    Ok(out)
                },
            }
        },
    }
}

/// The meaning of a whole layout document: layer blocks separated by
/// the block delimiter, optionally followed by the inject delimiter
/// and a verbatim global-inject fragment.
pub open spec fn parse_keymap_spec(s: Seq<char>) -> Result<KeyMapV, ParseErrorV> {
    let body = match find_from(s, "\n===\n"@, 0) {
        None => s,
        Some(i) => s.subrange(0, i),
    };
    let inject = match find_from(s, "\n===\n"@, 0) {
        None => Seq::<char>::empty(),
        Some(i) => s.subrange(i + "\n===\n"@.len(), s.len() as int),
    };
    match parse_layers_spec(split_spec(body, "\n---\n"@), 0) {
        Err(e) => Err(e),
        Ok(layers) => Ok(KeyMapV { layers, inject }),
    }
}

/// Parses a layout document into a keymap, mirroring `parse_keymap_spec`.
pub fn parse_keymap(text: &str) -> (r: Result<KeyMap, ParseError>)
    ensures
        match r {
            Ok(km) => parse_keymap_spec(text@) == Ok::<KeyMapV, ParseErrorV>(km@),
            Err(e) => parse_keymap_spec(text@) == Err::<KeyMapV, ParseErrorV>(e@),
        },
{
    let chars = str_chars(text);
    let inc_sep = str_chars("\n===\n");
    proof {
        reveal_strlit("\n===\n");
        assert(inc_sep@.len() == 5);
    }
    let (body, inject): (Vec<char>, Vec<char>) = match crate::text::split_once(
        &chars,
        &inc_sep,
    ) {
        None => {
            let empty_inject: Vec<char> = Vec::new();
            proof {
                assert(empty_inject@ =~= Seq::<char>::empty());
            }
            (copy_full(&chars), empty_inject)
        },
        Some(p) => p,
    };
    let layer_sep = str_chars("\n---\n");
    proof {
        reveal_strlit("\n---\n");
        assert(layer_sep@.len() == 5);
    }
    let blocks = split_all(&body, &layer_sep);
    match parse_layers(&blocks, 0) {
        Err(e) => Err(e),
        Ok(layers) => Ok(KeyMap { layers, inject: chars_string(&inject) }),
    }
}

} // verus!
