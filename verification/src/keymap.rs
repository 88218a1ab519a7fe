use vstd::prelude::*;

use crate::errors::ParseError;
use crate::keys::{HoldKeyV, KeyDef, KeyDefV, TapKeyV};
use crate::text::{append_string, chars_string, str_chars};

verus! {

/// One addressable keyboard layout state: a unique name, one key
/// definition per physical position in reading order, and the combos
/// and shift overrides declared with it.
pub struct Layer {
    pub name: String,
    pub layout: Layout,
    pub combos: Vec<Combo>,
    pub shifts: Vec<Shifted>,
}

/// The ordered key definitions of a layer, one per position.
pub type Layout = Vec<KeyDef>;

/// A key definition paired with its 0-based position within its owning
/// layer's layout; used for combo-input resolution.
pub struct LayerKey {
    pub key: KeyDef,
    /// Key's position in the layer.
    pub position: usize,
}

/// A chorded input: simultaneous keys of one layer mapped to one output.
pub struct Combo {
    pub inputs: Vec<LayerKey>,
    pub output: KeyDef,
}

/// An override for a `Shift+Key` behavior, with a generated identifier
/// for backend reference.
pub struct Shifted {
    pub name: String,
    pub input: KeyDef,
    pub output: KeyDef,
}

/// The whole keymap: layers in declaration order and a verbatim
/// backend-injection text block.
pub struct KeyMap {
    pub layers: Vec<Layer>,
    pub inject: String,
}

/// Mathematical model of a `LayerKey`.
pub struct LayerKeyV {
    pub key: KeyDefV,
    pub position: int,
}

/// Mathematical model of a `Combo`.
pub struct ComboV {
    pub inputs: Seq<LayerKeyV>,
    pub output: KeyDefV,
}

/// Mathematical model of a `Shifted`.
pub struct ShiftedV {
    pub name: Seq<char>,
    pub input: KeyDefV,
    pub output: KeyDefV,
}

/// Mathematical model of a `Layer`.
pub struct LayerV {
    pub name: Seq<char>,
    pub layout: Seq<KeyDefV>,
    pub combos: Seq<ComboV>,
    pub shifts: Seq<ShiftedV>,
}

/// Mathematical model of a `KeyMap`.
pub struct KeyMapV {
    pub layers: Seq<LayerV>,
    pub inject: Seq<char>,
}

impl View for LayerKey {
    type V = LayerKeyV;

    open spec fn view(&self) -> LayerKeyV {
        LayerKeyV { key: self.key@, position: self.position as int }
    }
}

impl View for Combo {
    type V = ComboV;

    open spec fn view(&self) -> ComboV {
        ComboV {
            inputs: self.inputs@.map_values(|k: LayerKey| k@),
            output: self.output@,
        }
    }
}

impl View for Shifted {
    type V = ShiftedV;

    open spec fn view(&self) -> ShiftedV {
        ShiftedV { name: self.name@, input: self.input@, output: self.output@ }
    }
}

impl View for Layer {
    type V = LayerV;

    open spec fn view(&self) -> LayerV {
        LayerV {
            name: self.name@,
            layout: self.layout@.map_values(|k: KeyDef| k@),
            combos: self.combos@.map_values(|c: Combo| c@),
            shifts: self.shifts@.map_values(|s: Shifted| s@),
        }
    }
}

impl View for KeyMap {
    type V = KeyMapV;

    open spec fn view(&self) -> KeyMapV {
        KeyMapV { layers: self.layers@.map_values(|l: Layer| l@), inject: self.inject@ }
    }
}

impl Clone for LayerKey {
    fn clone(&self) -> (r: LayerKey)
        ensures
            r@ == self@,
    {
        LayerKey { key: self.key.clone(), position: self.position }
    }
}

impl Clone for Combo {
    fn clone(&self) -> (r: Combo)
        ensures
            r@ == self@,
    {
        let mut inputs: Vec<LayerKey> = Vec::new();
        let n: usize = self.inputs.len();
        let mut i: usize = 0;
        while i < n
            invariant
                n == self.inputs@.len(),
                i <= n,
                inputs@.map_values(|k: LayerKey| k@) == self.inputs@.map_values(
                    |k: LayerKey| k@,
                ).take(i as int),
            decreases n - i,
        {
            let ghost pre = inputs@.map_values(|k: LayerKey| k@);
            inputs.push(self.inputs[i].clone());
            proof {
                assert(inputs@.map_values(|k: LayerKey| k@) =~= pre.push(self.inputs@[i as int]@));
                assert(pre.push(self.inputs@[i as int]@) =~= self.inputs@.map_values(
                    |k: LayerKey| k@,
                ).take(i + 1));
            }
            i = i + 1;
        }
        proof {
            let full = self.inputs@.map_values(|k: LayerKey| k@);
            assert(full.take(n as int) =~= full);
        }
        Combo { inputs, output: self.output.clone() }
    }
}

impl Clone for Shifted {
    fn clone(&self) -> (r: Shifted)
        ensures
            r@ == self@,
    {
        Shifted { name: self.name.clone(), input: self.input.clone(), output: self.output.clone() }
    }
}

/// The layer-name references a tap key makes.
pub open spec fn tap_refs(t: TapKeyV) -> Seq<Seq<char>> {
    match t {
        TapKeyV::Layer(n) => seq![n],
        TapKeyV::ToggleLayer(n) => seq![n],
        TapKeyV::OneShotLayer(n) => seq![n],
        _ => Seq::empty(),
    }
}

/// The layer-name references a hold key makes.
pub open spec fn hold_refs(h: HoldKeyV) -> Seq<Seq<char>> {
    match h {
        HoldKeyV::Layer(n) => seq![n],
        _ => Seq::empty(),
    }
}

/// The layer-name references a key definition makes, tap side first.
pub open spec fn keydef_refs(k: KeyDefV) -> Seq<Seq<char>> {
    match k {
        KeyDefV::Tap(t) => tap_refs(t),
        KeyDefV::TapHold(t, h) => tap_refs(t) + hold_refs(h),
    }
}

/// The references of a sequence of key definitions, in order.
pub open spec fn keydefs_refs(ks: Seq<KeyDefV>, i: int) -> Seq<Seq<char>>
    decreases ks.len() - i,
    when 0 <= i
{
    if i >= ks.len() {
        Seq::empty()
    } else {
        keydef_refs(ks[i]) + keydefs_refs(ks, i + 1)
    }
}

/// Every reference reachable from one layer: its layout positions, then
/// its combo outputs, then its shift-override outputs.
pub open spec fn layer_refs(l: LayerV) -> Seq<Seq<char>> {
    keydefs_refs(l.layout, 0) + keydefs_refs(l.combos.map_values(|c: ComboV| c.output), 0)
        + keydefs_refs(l.shifts.map_values(|s: ShiftedV| s.output), 0)
}

/// Every reference reachable from the keymap, layer by layer.
pub open spec fn keymap_refs(layers: Seq<LayerV>, i: int) -> Seq<Seq<char>>
    decreases layers.len() - i,
    when 0 <= i
{
    if i >= layers.len() {
        Seq::empty()
    } else {
        layer_refs(layers[i]) + keymap_refs(layers, i + 1)
    }
}

/// The declared layer names, in declaration order.
pub open spec fn layer_names(km: KeyMapV) -> Seq<Seq<char>> {
    km.layers.map_values(|l: LayerV| l.name)
}

/// The references of `refs` (from position `i`) that name no declared
/// layer, in walk order, one entry per broken occurrence.
pub open spec fn missing_from(names: Seq<Seq<char>>, refs: Seq<Seq<char>>, i: int) -> Seq<
    Seq<char>,
>
    decreases refs.len() - i,
    when 0 <= i
{
    if i >= refs.len() {
        Seq::empty()
    } else if names.contains(refs[i]) {
        missing_from(names, refs, i + 1)
    } else {
        seq![refs[i]] + missing_from(names, refs, i + 1)
    }
}

/// Every broken layer-name reference in the keymap, in walk order.
pub open spec fn missing_refs(km: KeyMapV) -> Seq<Seq<char>> {
    missing_from(layer_names(km), keymap_refs(km.layers, 0), 0)
}

/// The validation message for one broken reference.
pub open spec fn missing_msg(n: Seq<char>) -> Seq<char> {
    "Missing layer: "@ + n
}

/// Whether some declared layer carries the name `n`.
fn contains_name(layers: &Vec<Layer>, n: &String) -> (r: bool)
    ensures
        r <==> layers@.map_values(|l: Layer| l@).map_values(|l: LayerV| l.name).contains(n@),
{
    let ghost names = layers@.map_values(|l: Layer| l@).map_values(|l: LayerV| l.name);
    let m: usize = layers.len();
    let mut i: usize = 0;
    while i < m
        invariant
            m == layers@.len(),
            i <= m,
            names == layers@.map_values(|l: Layer| l@).map_values(|l: LayerV| l.name),
            names.len() == m,
            forall|j: int| 0 <= j < i ==> names[j] != n@,
        decreases m - i,
    {
        proof {
            assert(names[i as int] == layers@[i as int]@.name);
        }
        if layers[i].name.eq(n) {
            assert(names.contains(n@)) by {
                assert(names[i as int] == n@);
            }
            return true;
        }
        i = i + 1;
    }
    proof {
        if names.contains(n@) {
            let j = choose|j: int| 0 <= j < names.len() && names[j] == n@;
            assert(false);
        }
    }
    false
}

/// The layer-name references one key definition makes, as strings.
fn keydef_ref_names(k: &KeyDef) -> (r: Vec<String>)
    ensures
        r@.map_values(|s: String| s@) == keydef_refs(k@),
{
    let mut out: Vec<String> = Vec::new();
    match k {
        KeyDef::Tap(t) => {
            push_tap_ref(&mut out, t);
        },
        KeyDef::TapHold(t, h) => {
            push_tap_ref(&mut out, t);
            let ghost mid = out@.map_values(|s: String| s@);
            match h {
                crate::keys::HoldKey::Layer(n) => {
                    out.push(n.clone());
                    proof {
                        assert(out@.map_values(|s: String| s@) =~= mid + seq![n@]);
                    }
                },
                _ => {
                    proof {
                        assert(mid + hold_refs(h@) =~= mid);
                    }
                },
            }
        },
    }
    proof {
        assert(out@.map_values(|s: String| s@) =~= keydef_refs(k@));
    }
    out
}

/// Appends the reference of a tap key, if it makes one.
fn push_tap_ref(out: &mut Vec<String>, t: &crate::keys::TapKey)
    ensures
        final(out)@.map_values(|s: String| s@) == old(out)@.map_values(|s: String| s@) + tap_refs(
            t@,
        ),
{
    let ghost pre = out@.map_values(|s: String| s@);
    match t {
        crate::keys::TapKey::Layer(n) => {
            out.push(n.clone());
            proof {
                assert(out@.map_values(|s: String| s@) =~= pre + seq![n@]);
            }
        },
        crate::keys::TapKey::ToggleLayer(n) => {
            out.push(n.clone());
            proof {
                assert(out@.map_values(|s: String| s@) =~= pre + seq![n@]);
            }
        },
        crate::keys::TapKey::OneShotLayer(n) => {
            out.push(n.clone());
            proof {
                assert(out@.map_values(|s: String| s@) =~= pre + seq![n@]);
            }
        },
        _ => {
            proof {
                assert(pre + tap_refs(t@) =~= pre);
            }
        },
    }
}

/// Appends the references of a run of key definitions.
fn push_keydefs_refs(out: &mut Vec<String>, ks: &Vec<KeyDef>)
    ensures
        final(out)@.map_values(|s: String| s@) == old(out)@.map_values(|s: String| s@)
            + keydefs_refs(ks@.map_values(|k: KeyDef| k@), 0),
{
    let ghost ksv = ks@.map_values(|k: KeyDef| k@);
    let n: usize = ks.len();
    let mut i: usize = 0;
    while i < n
        invariant
            n == ks@.len(),
            i <= n,
            ksv == ks@.map_values(|k: KeyDef| k@),
            ksv.len() == n,
            out@.map_values(|s: String| s@) + keydefs_refs(ksv, i as int) == old(out)@.map_values(
                |s: String| s@,
            ) + keydefs_refs(ksv, 0),
        decreases n - i,
    {
        let refs = keydef_ref_names(&ks[i]);
        let ghost pre = out@.map_values(|s: String| s@);
        let mut j: usize = 0;
        let m: usize = refs.len();
        while j < m
            invariant
                m == refs@.len(),
                j <= m,
                out@.map_values(|s: String| s@) == pre + refs@.map_values(|s: String| s@).take(
                    j as int,
                ),
            decreases m - j,
        {
            let ghost mid = out@.map_values(|s: String| s@);
            out.push(refs[j].clone());
            proof {
                assert(out@.map_values(|s: String| s@) =~= mid.push(refs@[j as int]@));
                assert(mid.push(refs@[j as int]@) =~= pre + refs@.map_values(|s: String| s@).take(
                    j + 1,
                ));
            }
            j = j + 1;
        }
        proof {
            let rv = refs@.map_values(|s: String| s@);
            assert(rv.take(m as int) =~= rv);
            assert(ksv[i as int] == ks@[i as int]@);
            assert(keydefs_refs(ksv, i as int) == keydef_refs(ksv[i as int]) + keydefs_refs(
                ksv,
                i + 1,
            ));
            assert((pre + rv) + keydefs_refs(ksv, i + 1) =~= pre + (rv + keydefs_refs(ksv, i + 1)));
        }
        i = i + 1;
    }
    proof {
        assert(keydefs_refs(ksv, n as int) == Seq::<Seq<char>>::empty());
        assert(out@.map_values(|s: String| s@) + Seq::<Seq<char>>::empty() =~= out@.map_values(
            |s: String| s@,
        ));
    }
}

impl Layer {
    /// The key definitions reachable from this layer's layout and combo
    /// outputs, in walk order.
    pub fn keys(&self) -> (r: Vec<KeyDef>)
        ensures
            r@.map_values(|k: KeyDef| k@) == self@.layout + self@.combos.map_values(
                |c: ComboV| c.output,
            ),
    {
        let mut out: Vec<KeyDef> = Vec::new();
        let n: usize = self.layout.len();
        let mut i: usize = 0;
        while i < n
            invariant
                n == self.layout@.len(),
                i <= n,
                out@.map_values(|k: KeyDef| k@) == self@.layout.take(i as int),
            decreases n - i,
        {
            let ghost pre = out@.map_values(|k: KeyDef| k@);
            out.push(self.layout[i].clone());
            proof {
                assert(out@.map_values(|k: KeyDef| k@) =~= pre.push(self.layout@[i as int]@));
                assert(pre.push(self.layout@[i as int]@) =~= self@.layout.take(i + 1));
            }
            i = i + 1;
        }
        proof {
            assert(self@.layout.take(n as int) =~= self@.layout);
        }
        let m: usize = self.combos.len();
        let mut j: usize = 0;
        while j < m
            invariant
                m == self.combos@.len(),
                j <= m,
                out@.map_values(|k: KeyDef| k@) == self@.layout + self@.combos.map_values(
                    |c: ComboV| c.output,
                ).take(j as int),
            decreases m - j,
        {
            let ghost pre = out@.map_values(|k: KeyDef| k@);
            out.push(self.combos[j].output.clone());
            proof {
                let outs = self@.combos.map_values(|c: ComboV| c.output);
                assert(outs[j as int] == self.combos@[j as int]@.output);
                assert(out@.map_values(|k: KeyDef| k@) =~= pre.push(outs[j as int]));
                assert(pre.push(outs[j as int]) =~= self@.layout + outs.take(j + 1));
            }
            j = j + 1;
        }
        proof {
            let outs = self@.combos.map_values(|c: ComboV| c.output);
            assert(outs.take(m as int) =~= outs);
        }
        out
    }
}

impl KeyMap {
    /// Parses a layout document into a keymap. Fails with the first
    /// lexical or structural error; no partial keymap is returned.
    pub fn load(text: &str) -> (r: Result<KeyMap, ParseError>)
        ensures
            match r {
                Ok(km) => crate::parse::parse_keymap_spec(text@) == Ok::<
                    KeyMapV,
                    crate::errors::ParseErrorV,
                >(km@),
                Err(e) => crate::parse::parse_keymap_spec(text@) == Err::<
                    KeyMapV,
                    crate::errors::ParseErrorV,
                >(e@),
            },
    {
        crate::parse::parse_keymap(text)
    }

    /// All combos across layers, in declaration order.
    pub fn combos(&self) -> (r: Vec<Combo>)
        ensures
            r@.map_values(|c: Combo| c@) == all_combos(self@.layers, 0),
    {
        let mut out: Vec<Combo> = Vec::new();
        let n: usize = self.layers.len();
        let mut i: usize = 0;
        while i < n
            invariant
                n == self.layers@.len(),
                i <= n,
                out@.map_values(|c: Combo| c@) + all_combos(self@.layers, i as int) == all_combos(
                    self@.layers,
                    0,
                ),
            decreases n - i,
        {
            let layer = &self.layers[i];
            let m: usize = layer.combos.len();
            let ghost pre = out@.map_values(|c: Combo| c@);
            let mut j: usize = 0;
            while j < m
                invariant
                    m == layer.combos@.len(),
                    j <= m,
                    out@.map_values(|c: Combo| c@) == pre + layer@.combos.take(j as int),
                decreases m - j,
            {
                let ghost mid = out@.map_values(|c: Combo| c@);
                out.push(layer.combos[j].clone());
                proof {
                    assert(out@.map_values(|c: Combo| c@) =~= mid.push(layer.combos@[j as int]@));
                    assert(layer@.combos[j as int] == layer.combos@[j as int]@);
                    assert(mid.push(layer@.combos[j as int]) =~= pre + layer@.combos.take(j + 1));
                }
                j = j + 1;
            }
            proof {
                assert(layer@.combos.take(m as int) =~= layer@.combos);
                assert(self@.layers[i as int] == self.layers@[i as int]@);
                assert(all_combos(self@.layers, i as int) == self@.layers[i as int].combos
                    + all_combos(self@.layers, i + 1));
                assert((pre + layer@.combos) + all_combos(self@.layers, i + 1) =~= pre + (
                layer@.combos + all_combos(self@.layers, i + 1)));
            }
            i = i + 1;
        }
        proof {
            assert(all_combos(self@.layers, n as int) == Seq::<ComboV>::empty());
            assert(out@.map_values(|c: Combo| c@) + Seq::<ComboV>::empty() =~= out@.map_values(
                |c: Combo| c@,
            ));
        }
        out
    }

    /// All shift overrides across layers, in declaration order.
    pub fn shifts(&self) -> (r: Vec<Shifted>)
        ensures
            r@.map_values(|s: Shifted| s@) == all_shifts(self@.layers, 0),
    {
        let mut out: Vec<Shifted> = Vec::new();
        let n: usize = self.layers.len();
        let mut i: usize = 0;
        while i < n
            invariant
                n == self.layers@.len(),
                i <= n,
                out@.map_values(|s: Shifted| s@) + all_shifts(self@.layers, i as int) == all_shifts(
                    self@.layers,
                    0,
                ),
            decreases n - i,
        {
            let layer = &self.layers[i];
            let m: usize = layer.shifts.len();
            let ghost pre = out@.map_values(|s: Shifted| s@);
            let mut j: usize = 0;
            while j < m
                invariant
                    m == layer.shifts@.len(),
                    j <= m,
                    out@.map_values(|s: Shifted| s@) == pre + layer@.shifts.take(j as int),
                decreases m - j,
            {
                let ghost mid = out@.map_values(|s: Shifted| s@);
                out.push(layer.shifts[j].clone());
                proof {
                    assert(out@.map_values(|s: Shifted| s@) =~= mid.push(layer.shifts@[j as int]@));
                    assert(layer@.shifts[j as int] == layer.shifts@[j as int]@);
                    assert(mid.push(layer@.shifts[j as int]) =~= pre + layer@.shifts.take(j + 1));
                }
                j = j + 1;
            }
            proof {
                assert(layer@.shifts.take(m as int) =~= layer@.shifts);
                assert(self@.layers[i as int] == self.layers@[i as int]@);
                assert(all_shifts(self@.layers, i as int) == self@.layers[i as int].shifts
                    + all_shifts(self@.layers, i + 1));
                assert((pre + layer@.shifts) + all_shifts(self@.layers, i + 1) =~= pre + (
                layer@.shifts + all_shifts(self@.layers, i + 1)));
            }
            i = i + 1;
        }
        proof {
            assert(all_shifts(self@.layers, n as int) == Seq::<ShiftedV>::empty());
            assert(out@.map_values(|s: Shifted| s@) + Seq::<ShiftedV>::empty() =~= out@.map_values(
                |s: Shifted| s@,
            ));
        }
        out
    }

    /// Checks every layer-name reference reachable from layouts, combo
    /// outputs and shift-override outputs against the declared layer
    /// names. Returns one message per broken occurrence, in walk order;
    /// the empty list means the keymap is valid. The caller decides
    /// whether a non-empty result is fatal.
    pub fn validate(&self) -> (r: Vec<String>)
        ensures
            r@.len() == missing_refs(self@).len(),
            forall|i: int|
                0 <= i < r@.len() ==> r@[i]@ == missing_msg(missing_refs(self@)[i]),
    {
        let ghost names = layer_names(self@);
        let mut refs: Vec<String> = Vec::new();
        let n: usize = self.layers.len();
        let mut i: usize = 0;
        while i < n
            invariant
                n == self.layers@.len(),
                i <= n,
                refs@.map_values(|s: String| s@) + keymap_refs(self@.layers, i as int)
                    == keymap_refs(self@.layers, 0),
            decreases n - i,
        {
            let layer = &self.layers[i];
            let ghost pre = refs@.map_values(|s: String| s@);
            push_keydefs_refs(&mut refs, &layer.layout);
            let mut outs: Vec<KeyDef> = Vec::new();
            let m: usize = layer.combos.len();
            let mut j: usize = 0;
            while j < m
                invariant
                    m == layer.combos@.len(),
                    j <= m,
                    outs@.map_values(|k: KeyDef| k@) == layer@.combos.map_values(
                        |c: ComboV| c.output,
                    ).take(j as int),
                decreases m - j,
            {
                let ghost midv = outs@.map_values(|k: KeyDef| k@);
                outs.push(layer.combos[j].output.clone());
                proof {
                    let co = layer@.combos.map_values(|c: ComboV| c.output);
                    assert(co[j as int] == layer.combos@[j as int]@.output);
                    assert(outs@.map_values(|k: KeyDef| k@) =~= midv.push(co[j as int]));
                    assert(midv.push(co[j as int]) =~= co.take(j + 1));
                }
                j = j + 1;
            }
            proof {
                let co = layer@.combos.map_values(|c: ComboV| c.output);
                assert(co.take(m as int) =~= co);
                assert(outs@.map_values(|k: KeyDef| k@) =~= co);
            }
            push_keydefs_refs(&mut refs, &outs);
            let mut souts: Vec<KeyDef> = Vec::new();
            let sm: usize = layer.shifts.len();
            let mut sj: usize = 0;
            while sj < sm
                invariant
                    sm == layer.shifts@.len(),
                    sj <= sm,
                    souts@.map_values(|k: KeyDef| k@) == layer@.shifts.map_values(
                        |s: ShiftedV| s.output,
                    ).take(sj as int),
                decreases sm - sj,
            {
                let ghost midv = souts@.map_values(|k: KeyDef| k@);
                souts.push(layer.shifts[sj].output.clone());
                proof {
                    let so = layer@.shifts.map_values(|s: ShiftedV| s.output);
                    assert(so[sj as int] == layer.shifts@[sj as int]@.output);
                    assert(souts@.map_values(|k: KeyDef| k@) =~= midv.push(so[sj as int]));
                    assert(midv.push(so[sj as int]) =~= so.take(sj + 1));
                }
                sj = sj + 1;
            }
            proof {
                let so = layer@.shifts.map_values(|s: ShiftedV| s.output);
                assert(so.take(sm as int) =~= so);
                assert(souts@.map_values(|k: KeyDef| k@) =~= so);
            }
            push_keydefs_refs(&mut refs, &souts);
            proof {
                let ko = layer@.combos.map_values(|c: ComboV| c.output);
                let so = layer@.shifts.map_values(|s: ShiftedV| s.output);
                assert(self@.layers[i as int] == self.layers@[i as int]@);
                assert(refs@.map_values(|s: String| s@) =~= pre + layer_refs(self@.layers[i as int]));
                assert(keymap_refs(self@.layers, i as int) == layer_refs(self@.layers[i as int])
                    + keymap_refs(self@.layers, i + 1));
                assert((pre + layer_refs(self@.layers[i as int])) + keymap_refs(
                    self@.layers,
                    i + 1,
                ) =~= pre + (layer_refs(self@.layers[i as int]) + keymap_refs(
                    self@.layers,
                    i + 1,
                )));
            }
            i = i + 1;
        }
        proof {
            assert(keymap_refs(self@.layers, n as int) == Seq::<Seq<char>>::empty());
            assert(refs@.map_values(|s: String| s@) + Seq::<Seq<char>>::empty() =~= refs@.map_values(
                |s: String| s@,
            ));
        }
        let ghost refs_v = refs@.map_values(|s: String| s@);
        let mut errors: Vec<String> = Vec::new();
        let ghost missing_acc: Seq<Seq<char>> = Seq::empty();
        let rn: usize = refs.len();
        let mut j: usize = 0;
        let ghost mut missing: Seq<Seq<char>> = Seq::empty();
        while j < rn
            invariant
                rn == refs@.len(),
                j <= rn,
                refs_v == refs@.map_values(|s: String| s@),
                refs_v.len() == rn,
                names == layer_names(self@),
                missing_from(names, refs_v, 0) == missing + missing_from(names, refs_v, j as int),
                errors@.len() == missing.len(),
                forall|k: int| 0 <= k < errors@.len() ==> errors@[k]@ == missing_msg(missing[k]),
            decreases rn - j,
        {
            proof {
                assert(refs_v[j as int] == refs@[j as int]@);
            }
            if !contains_name(&self.layers, &refs[j]) {
                let mut msg = str_chars("Missing layer: ");
                append_string(&mut msg, &refs[j]);
                errors.push(chars_string(&msg));
                proof {
                    missing = missing.push(refs_v[j as int]);
                    assert(missing.drop_last() + (seq![refs_v[j as int]] + missing_from(
                        names,
                        refs_v,
                        j + 1,
                    )) =~= missing + missing_from(names, refs_v, j + 1));
                }
            } else {
                proof {
                    assert(names.contains(refs_v[j as int]));
                }
            }
            j = j + 1;
        }
        proof {
            assert(missing_from(names, refs_v, rn as int) == Seq::<Seq<char>>::empty());
            assert(missing + Seq::<Seq<char>>::empty() =~= missing);
        }
        errors
    }
}

/// The combos of all layers from position `i` on, in declaration order.
pub open spec fn all_combos(layers: Seq<LayerV>, i: int) -> Seq<ComboV>
    decreases layers.len() - i,
    when 0 <= i
{
    if i >= layers.len() {
        Seq::empty()
    } else {
        layers[i].combos + all_combos(layers, i + 1)
    }
}

/// The shift overrides of all layers from position `i` on, in
/// declaration order.
pub open spec fn all_shifts(layers: Seq<LayerV>, i: int) -> Seq<ShiftedV>
    decreases layers.len() - i,
    when 0 <= i
{
    if i >= layers.len() {
        Seq::empty()
    } else {
        layers[i].shifts + all_shifts(layers, i + 1)
    }
}

} // verus!
