use vstd::prelude::*;

use crate::errors::{EmitErrorV, ParseErrorV};
use crate::format::Format;
use crate::keymap::{keymap_refs, layer_names, missing_from, missing_refs, KeyMapV, LayerV};
use crate::keys::{HoldKeyV, Key, KeyDefV, Modifier, TapKeyV};
use crate::config::empty_config;
use crate::parse::{
    defs_lookup, grid_lookup, parse_layer_spec, resolve_cell, resolve_cells, resolve_combos,
    resolve_inputs, resolve_shifts,
};
use crate::qmk::{qmk_mod_token, qmk_tap_token, qmk_wrap};
use crate::text::{
    dec_spec, find_from, is_space_c, match_at, non_ws, trim_end_spec, trim_spec, trim_start_spec,
};
use crate::vocab::char_key;
use crate::zmk::{zmk_define_lines, zmk_mod_short, zmk_tap_token, zmk_wrap};

verus! {

/// Parsing a single-position layer whose one grid character is an
/// accepted vocabulary glyph recovers that glyph's canonical key, as a
/// plain tap, with no overrides or holds in play.
pub proof fn lemma_glyph_round_trip(c: char, k: Key)
    requires
        char_key(c) == Some(k),
    ensures
        resolve_cells(seq![c], 0, Seq::empty(), Seq::empty()) == Ok::<
            (Seq<KeyDefV>, Seq<(char, HoldKeyV)>),
            ParseErrorV,
        >((seq![KeyDefV::Tap(TapKeyV::Key(k))], Seq::empty())),
{
    let cs = seq![c];
    let defs = Seq::<(char, TapKeyV)>::empty();
    let holds = Seq::<(char, HoldKeyV)>::empty();
    assert(defs_lookup(defs, c) is None);
    assert(resolve_cell(c, defs, holds) == Ok::<(KeyDefV, Seq<(char, HoldKeyV)>), ParseErrorV>(
        (KeyDefV::Tap(TapKeyV::Key(k)), holds),
    ));
    assert(resolve_cells(cs, 1, defs, holds) == Ok::<(Seq<KeyDefV>, Seq<(char, HoldKeyV)>), ParseErrorV>(
        (Seq::empty(), holds),
    ));
    assert(seq![KeyDefV::Tap(TapKeyV::Key(k))] + Seq::<KeyDefV>::empty() =~= seq![
        KeyDefV::Tap(TapKeyV::Key(k)),
    ]);
}

/// Parsing a whole one-character single-position layer block recovers
/// the glyph's canonical key: the layer has exactly one position,
/// holding that key as a plain tap, and no combos or overrides.
pub proof fn lemma_single_glyph_layer_parses(c: char, k: Key, li: int)
    requires
        char_key(c) == Some(k),
        !is_space_c(c),
    ensures
        parse_layer_spec(seq!['l', '\n', '\n', c], li) == Ok::<LayerV, ParseErrorV>(
            LayerV {
                name: seq!['l'],
                layout: seq![KeyDefV::Tap(TapKeyV::Key(k))],
                combos: Seq::empty(),
                shifts: Seq::empty(),
            },
        ),
{
    reveal_strlit("\n\n");
    let b = seq!['l', '\n', '\n', c];
    let d = "\n\n"@;
    assert(d.len() == 2);
    assert(trim_start_spec(b) == b);
    assert(trim_end_spec(b) == b);
    assert(trim_spec(b) == b);
    assert(!match_at(b, d, 0)) by {
        if b.subrange(0, 2) == d {
            assert(b.subrange(0, 2)[0] == 'l');
            assert(d[0] == '\n');
        }
    }
    assert(match_at(b, d, 1)) by {
        assert(b.subrange(1, 3) =~= d);
    }
    assert(find_from(b, d, 1) == Some(1int));
    assert(find_from(b, d, 0) == Some(1int));
    let name = b.subrange(0, 1);
    assert(name =~= seq!['l']);
    let rest = b.subrange(3, 4);
    assert(rest =~= seq![c]);
    assert(find_from(rest, d, 0) is None);
    assert(crate::text::non_ws_from(rest, 1) == Seq::<char>::empty());
    assert(crate::text::non_ws_from(rest, 0) == seq![rest[0]] + crate::text::non_ws_from(rest, 1));
    assert(non_ws(rest) =~= seq![c]);
    lemma_glyph_round_trip(c, k);
    assert(resolve_cells(non_ws(rest), 0, empty_config().defs, empty_config().holds) == Ok::<
        (Seq<KeyDefV>, Seq<(char, HoldKeyV)>),
        ParseErrorV,
    >((seq![KeyDefV::Tap(TapKeyV::Key(k))], Seq::empty())));
    let layout = seq![KeyDefV::Tap(TapKeyV::Key(k))];
    assert(resolve_combos(empty_config().combos, 0, non_ws(rest), layout, name) == Ok::<
        Seq<crate::keymap::ComboV>,
        ParseErrorV,
    >(Seq::empty()));
    assert(resolve_shifts(empty_config().shifts, 0, non_ws(rest), layout, li) == Ok::<
        Seq<crate::keymap::ShiftedV>,
        ParseErrorV,
    >(Seq::empty()));
}

/// A grid character that the vocabulary does not accept and no `defs`
/// override covers fails the resolution of its layer: it never becomes
/// a key silently.
pub proof fn lemma_unmapped_glyph_fails(
    cs: Seq<char>,
    i: int,
    defs: Seq<(char, TapKeyV)>,
    holds: Seq<(char, HoldKeyV)>,
    j: int,
)
    requires
        0 <= i <= j < cs.len(),
        char_key(cs[j]) is None,
        defs_lookup(defs, cs[j]) is None,
    ensures
        resolve_cells(cs, i, defs, holds) is Err,
    decreases j - i,
{
    if i == j {
        assert(resolve_cell(cs[i], defs, holds) == Err::<(KeyDefV, Seq<(char, HoldKeyV)>), ParseErrorV>(
            ParseErrorV::UnknownGlyph(cs[i]),
        ));
    } else {
        match resolve_cell(cs[i], defs, holds) {
            Err(_) => {},
            Ok(p) => {
                lemma_unmapped_glyph_fails(cs, i + 1, defs, p.1, j);
            },
        }
    }
}

/// A `holds` entry is consumed by the first occurrence of its
/// character: in a grid where the character repeats, only the first
/// position becomes a tap-hold pair; later occurrences stay plain taps.
pub proof fn lemma_hold_consumed_on_first_occurrence(c: char, k: Key, h: crate::keys::HoldKeyV)
    requires
        char_key(c) == Some(k),
    ensures
        resolve_cells(seq![c, c], 0, Seq::empty(), seq![(c, h)]) == Ok::<
            (Seq<KeyDefV>, Seq<(char, HoldKeyV)>),
            ParseErrorV,
        >(
            (
                seq![
                    KeyDefV::TapHold(TapKeyV::Key(k), h),
                    KeyDefV::Tap(TapKeyV::Key(k)),
                ],
                Seq::empty(),
            ),
        ),
{
    let cs = seq![c, c];
    let defs = Seq::<(char, TapKeyV)>::empty();
    let holds = seq![(c, h)];
    assert(defs_lookup(defs, c) is None);
    assert(crate::parse::holds_take(holds, c) == Some((h, holds.drop_first())));
    assert(holds.drop_first() =~= Seq::<(char, HoldKeyV)>::empty());
    let none_left = Seq::<(char, HoldKeyV)>::empty();
    assert(resolve_cell(c, defs, holds) == Ok::<(KeyDefV, Seq<(char, HoldKeyV)>), ParseErrorV>(
        (KeyDefV::TapHold(TapKeyV::Key(k), h), none_left),
    ));
    assert(crate::parse::holds_take(none_left, c) is None);
    assert(resolve_cell(c, defs, none_left) == Ok::<
        (KeyDefV, Seq<(char, HoldKeyV)>),
        ParseErrorV,
    >((KeyDefV::Tap(TapKeyV::Key(k)), none_left)));
    assert(resolve_cells(cs, 2, defs, none_left) == Ok::<
        (Seq<KeyDefV>, Seq<(char, HoldKeyV)>),
        ParseErrorV,
    >((Seq::empty(), none_left)));
    assert(resolve_cells(cs, 1, defs, none_left) == Ok::<
        (Seq<KeyDefV>, Seq<(char, HoldKeyV)>),
        ParseErrorV,
    >((seq![KeyDefV::Tap(TapKeyV::Key(k))] + Seq::<KeyDefV>::empty(), none_left)));
    assert(seq![KeyDefV::Tap(TapKeyV::Key(k))] + Seq::<KeyDefV>::empty() =~= seq![
        KeyDefV::Tap(TapKeyV::Key(k)),
    ]);
    assert(seq![KeyDefV::TapHold(TapKeyV::Key(k), h)] + seq![KeyDefV::Tap(TapKeyV::Key(k))] =~= seq![
        KeyDefV::TapHold(TapKeyV::Key(k), h),
        KeyDefV::Tap(TapKeyV::Key(k)),
    ]);
}

/// Emitting the same keymap twice yields byte-identical text: a
/// backend's output is a function of the keymap model alone.
pub proof fn lemma_emit_deterministic<F: Format>(
    km: KeyMapV,
    a: Result<Seq<char>, EmitErrorV>,
    b: Result<Seq<char>, EmitErrorV>,
)
    requires
        a == F::spec_format(km),
        b == F::spec_format(km),
    ensures
        a == b,
{
}

/// In the second backend's output, the layer declared at position `i`
/// is defined as numeric index `i`: declaration order equals emitted
/// index order.
pub proof fn lemma_layer_index_order(layers: Seq<LayerV>, i: int)
    requires
        0 <= i < layers.len(),
    ensures
        zmk_define_lines(layers, i) == "#define "@ + layers[i].name + " "@ + dec_spec(i as nat)
            + "\n"@ + zmk_define_lines(layers, i + 1),
{
}

/// In the first backend's output, the keymap-array entry at position
/// `i` is labelled with the name of the layer declared at position `i`.
pub proof fn lemma_qmk_layer_entry_order(layers: Seq<LayerV>, i: int)
    requires
        0 <= i < layers.len(),
    ensures
        crate::qmk::qmk_keymap_lines(layers, i) == "    ["@ + layers[i].name + "] = LAYOUT("@
            + crate::qmk::qmk_layout_tokens(layers[i].layout, 0) + "),\n"@
            + crate::qmk::qmk_keymap_lines(layers, i + 1),
{
}

/// Each combo input resolves independently of the order in which the
/// combo's characters are declared: the `j`-th resolved input is the
/// last grid occurrence of the `j`-th declared character, whatever the
/// other inputs are.
pub proof fn lemma_combo_positions_pointwise(
    ins: Seq<char>,
    i: int,
    cs: Seq<char>,
    layout: Seq<KeyDefV>,
    lname: Seq<char>,
    lks: Seq<crate::keymap::LayerKeyV>,
    j: int,
)
    requires
        0 <= i <= ins.len(),
        i <= j < ins.len(),
        resolve_inputs(ins, i, cs, layout, lname) == Ok::<
            Seq<crate::keymap::LayerKeyV>,
            ParseErrorV,
        >(lks),
    ensures
        lks.len() == ins.len() - i,
        grid_lookup(cs, ins[j]) matches Some(p) && lks[j - i].position == p && lks[j - i].key
            == layout[p],
    decreases j - i,
{
    match grid_lookup(cs, ins[i]) {
        None => {},
        Some(p) => {
            match resolve_inputs(ins, i + 1, cs, layout, lname) {
                Err(_) => {},
                Ok(rest) => {
                    if j > i {
                        lemma_combo_positions_pointwise(ins, i + 1, cs, layout, lname, rest, j);
                    } else {
                        lemma_resolve_inputs_len(ins, i + 1, cs, layout, lname, rest);
                    }
                },
            }
        },
    }
}

/// A successful combo-input resolution has one layer key per declared
/// character.
pub proof fn lemma_resolve_inputs_len(
    ins: Seq<char>,
    i: int,
    cs: Seq<char>,
    layout: Seq<KeyDefV>,
    lname: Seq<char>,
    lks: Seq<crate::keymap::LayerKeyV>,
)
    requires
        0 <= i <= ins.len(),
        resolve_inputs(ins, i, cs, layout, lname) == Ok::<
            Seq<crate::keymap::LayerKeyV>,
            ParseErrorV,
        >(lks),
    ensures
        lks.len() == ins.len() - i,
    decreases ins.len() - i,
{
    if i < ins.len() {
        match grid_lookup(cs, ins[i]) {
            None => {},
            Some(_) => {
                match resolve_inputs(ins, i + 1, cs, layout, lname) {
                    Err(_) => {},
                    Ok(rest) => {
                        lemma_resolve_inputs_len(ins, i + 1, cs, layout, lname, rest);
                    },
                }
            },
        }
    }
}

/// The validator reports every broken occurrence: its result is empty
/// exactly when every reachable layer-name reference names a declared
/// layer.
pub proof fn lemma_missing_iff_undeclared(
    names: Seq<Seq<char>>,
    refs: Seq<Seq<char>>,
    i: int,
)
    requires
        0 <= i <= refs.len(),
    ensures
        missing_from(names, refs, i).len() == 0 <==> (forall|j: int|
            i <= j < refs.len() ==> names.contains(refs[j])),
    decreases refs.len() - i,
{
    if i < refs.len() {
        lemma_missing_iff_undeclared(names, refs, i + 1);
    }
}

/// A keymap validates cleanly exactly when every reachable reference
/// names a declared layer.
pub proof fn lemma_valid_iff_all_declared(km: KeyMapV)
    ensures
        missing_refs(km).len() == 0 <==> (forall|j: int|
            0 <= j < keymap_refs(km.layers, 0).len() ==> layer_names(km).contains(
                keymap_refs(km.layers, 0)[j],
            )),
{
    lemma_missing_iff_undeclared(layer_names(km), keymap_refs(km.layers, 0), 0);
}

/// In the first backend a modified key renders its modifiers in parsed
/// order: the first (outermost) declared modifier is the outermost
/// wrapper around the inner key's token.
pub proof fn lemma_modified_outermost_qmk(ms: Seq<Modifier>, k: Key)
    requires
        ms.len() > 0,
    ensures
        qmk_tap_token(TapKeyV::Modified(ms, k)) == qmk_mod_token(ms[0]) + "("@ + qmk_wrap(
            ms.drop_first(),
            k,
        ) + ")"@,
{
}

/// In the second backend a modified key renders its modifiers in
/// parsed order as well, inside one `&kp` binding.
pub proof fn lemma_modified_outermost_zmk(ms: Seq<Modifier>, k: Key)
    requires
        ms.len() > 0,
    ensures
        zmk_tap_token(TapKeyV::Modified(ms, k)) == "&kp "@ + (zmk_mod_short(ms[0]) + "("@
            + zmk_wrap(ms.drop_first(), k) + ")"@),
{
}

} // verus!
