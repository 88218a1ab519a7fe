use vstd::prelude::*;

verus! {

/// The closed set of logical keys the authoring vocabulary can name.
///
/// Letters, digits, punctuation, navigation, media, diacritic-composed
/// keys, and pseudo-keys ("no-op", "transparent", caps-word toggle,
/// bluetooth selection).
#[derive(Debug, Clone, Copy, PartialEq, Eq, Structural)]
pub enum Key {
    A,
    B,
    C,
    D,
    E,
    F,
    G,
    H,
    I,
    J,
    K,
    L,
    M,
    N,
    O,
    P,
    Q,
    R,
    S,
    T,
    U,
    V,
    W,
    X,
    Y,
    Z,
    Num0,
    Num1,
    Num2,
    Num3,
    Num4,
    Num5,
    Num6,
    Num7,
    Num8,
    Num9,
    Pipe,
    Plus,
    Minus,
    Equal,
    Comma,
    Period,
    Colon,
    Caret,
    Dollar,
    Percent,
    Semicolon,
    Question,
    Exclamation,
    Octothorpe,
    Ampersand,
    Arobase,
    Asterisk,
    Slash,
    Tilde,
    Backtick,
    LessThan,
    GreaterThan,
    ParensRight,
    ParensLeft,
    BracketRight,
    BracketLeft,
    BraceRight,
    BraceLeft,
    Underscore,
    Apostrophe,
    Backslash,
    Quote,
    Up,
    Down,
    Left,
    Right,
    PageUp,
    PageDown,
    VolumeUp,
    VolumeDown,
    VolumeMute,
    BrightnessUp,
    BrightnessDown,
    Aigu,
    Grave,
    Cedille,
    Circonflex,
    Trema,
    Euro,
    Esc,
    Tab,
    Space,
    Backspace,
    Enter,
    Meta,
    Shift,
    Ctrl,
    Alt,
    MouseWheelUp,
    MouseWheelDown,
    CapsWord,
    Bt0,
    Bt1,
    BtClear,
    NotAllowed,
    Unassigned,
}

/// The closed set of modifiers.
#[derive(Debug, Clone, Copy, PartialEq, Eq, Structural)]
pub enum Modifier {
    Alt,
    Meta,
    Ctrl,
    Shift,
}

/// A key for a tap action.
#[derive(Debug)]
pub enum TapKey {
    Key(Key),
    Layer(String),
    ToggleLayer(String),
    OneShotMod(Modifier),
    OneShotLayer(String),
    Modified(Vec<Modifier>, Key),
}

/// A key for a hold action.
#[derive(Debug)]
pub enum HoldKey {
    Layer(String),
    Modifier(Modifier),
}

/// A complete definition for a key: a plain tap, or a dual-function
/// tap-hold pair.
#[derive(Debug)]
pub enum KeyDef {
    Tap(TapKey),
    TapHold(TapKey, HoldKey),
}

/// Mathematical model of a `TapKey`: layer names as character sequences.
pub enum TapKeyV {
    Key(Key),
    Layer(Seq<char>),
    ToggleLayer(Seq<char>),
    OneShotMod(Modifier),
    OneShotLayer(Seq<char>),
    Modified(Seq<Modifier>, Key),
}

/// Mathematical model of a `HoldKey`.
pub enum HoldKeyV {
    Layer(Seq<char>),
    Modifier(Modifier),
}

/// Mathematical model of a `KeyDef`.
pub enum KeyDefV {
    Tap(TapKeyV),
    TapHold(TapKeyV, HoldKeyV),
}

impl View for TapKey {
    type V = TapKeyV;

    open spec fn view(&self) -> TapKeyV {
        match self {
            TapKey::Key(k) => TapKeyV::Key(*k),
            TapKey::Layer(s) => TapKeyV::Layer(s@),
            TapKey::ToggleLayer(s) => TapKeyV::ToggleLayer(s@),
            TapKey::OneShotMod(m) => TapKeyV::OneShotMod(*m),
            TapKey::OneShotLayer(s) => TapKeyV::OneShotLayer(s@),
            TapKey::Modified(ms, k) => TapKeyV::Modified(ms@, *k),
        }
    }
}

impl View for HoldKey {
    type V = HoldKeyV;

    open spec fn view(&self) -> HoldKeyV {
        match self {
            HoldKey::Layer(s) => HoldKeyV::Layer(s@),
            HoldKey::Modifier(m) => HoldKeyV::Modifier(*m),
        }
    }
}

impl View for KeyDef {
    type V = KeyDefV;

    open spec fn view(&self) -> KeyDefV {
        match self {
            KeyDef::Tap(t) => KeyDefV::Tap(t@),
            KeyDef::TapHold(t, h) => KeyDefV::TapHold(t@, h@),
        }
    }
}

/// Equality of two modifier lists, element by element.
fn eq_modifiers(a: &Vec<Modifier>, b: &Vec<Modifier>) -> (r: bool)
    ensures
        r <==> a@ == b@,
{
    if a.len() != b.len() {
        assert(a@.len() != b@.len());
        return false;
    }
    let n: usize = a.len();
    let mut i: usize = 0;
    while i < n
        invariant
            n == a@.len() == b@.len(),
            i <= n,
            forall|j: int| 0 <= j < i ==> a@[j] == b@[j],
        decreases n - i,
    {
        if a[i] != b[i] {
            return false;
        }
        i = i + 1;
    }
    proof {
        assert(a@ =~= b@);
    }
    true
}

impl PartialEq for TapKey {
    fn eq(&self, other: &TapKey) -> (r: bool) {
        match (self, other) {
            (TapKey::Key(a), TapKey::Key(b)) => *a == *b,
            (TapKey::Layer(a), TapKey::Layer(b)) => *a == *b,
            (TapKey::ToggleLayer(a), TapKey::ToggleLayer(b)) => *a == *b,
            (TapKey::OneShotMod(a), TapKey::OneShotMod(b)) => *a == *b,
            (TapKey::OneShotLayer(a), TapKey::OneShotLayer(b)) => *a == *b,
            (TapKey::Modified(am, ak), TapKey::Modified(bm, bk)) => eq_modifiers(am, bm)
                && *ak == *bk,
            _ => false,
        }
    }
}

impl vstd::std_specs::cmp::PartialEqSpecImpl for TapKey {
    open spec fn obeys_eq_spec() -> bool {
        true
    }

    open spec fn eq_spec(&self, other: &TapKey) -> bool {
        self@ == other@
    }
}

impl PartialEq for HoldKey {
    fn eq(&self, other: &HoldKey) -> (r: bool) {
        match (self, other) {
            (HoldKey::Layer(a), HoldKey::Layer(b)) => *a == *b,
            (HoldKey::Modifier(a), HoldKey::Modifier(b)) => *a == *b,
            _ => false,
        }
    }
}

impl vstd::std_specs::cmp::PartialEqSpecImpl for HoldKey {
    open spec fn obeys_eq_spec() -> bool {
        true
    }

    open spec fn eq_spec(&self, other: &HoldKey) -> bool {
        self@ == other@
    }
}

impl PartialEq for KeyDef {
    fn eq(&self, other: &KeyDef) -> (r: bool) {
        match (self, other) {
            (KeyDef::Tap(a), KeyDef::Tap(b)) => *a == *b,
            (KeyDef::TapHold(at, ah), KeyDef::TapHold(bt, bh)) => *at == *bt && *ah == *bh,
            _ => false,
        }
    }
}

impl vstd::std_specs::cmp::PartialEqSpecImpl for KeyDef {
    open spec fn obeys_eq_spec() -> bool {
        true
    }

    open spec fn eq_spec(&self, other: &KeyDef) -> bool {
        self@ == other@
    }
}

impl Clone for TapKey {
    fn clone(&self) -> (r: TapKey)
        ensures
            r@ == self@,
    {
        match self {
            TapKey::Key(k) => TapKey::Key(*k),
            TapKey::Layer(s) => TapKey::Layer(s.clone()),
            TapKey::ToggleLayer(s) => TapKey::ToggleLayer(s.clone()),
            TapKey::OneShotMod(m) => TapKey::OneShotMod(*m),
            TapKey::OneShotLayer(s) => TapKey::OneShotLayer(s.clone()),
            TapKey::Modified(ms, k) => TapKey::Modified(clone_modifiers(ms), *k),
        }
    }
}

/// A fresh copy of a modifier list.
fn clone_modifiers(ms: &Vec<Modifier>) -> (r: Vec<Modifier>)
    ensures
        r@ == ms@,
{
    let mut out: Vec<Modifier> = Vec::new();
    let n: usize = ms.len();
    let mut i: usize = 0;
    while i < n
        invariant
            n == ms@.len(),
            i <= n,
            out@ == ms@.take(i as int),
        decreases n - i,
    {
        out.push(ms[i]);
        i = i + 1;
    }
    proof {
        assert(ms@.take(n as int) =~= ms@);
    }
    out
}

impl Clone for HoldKey {
    fn clone(&self) -> (r: HoldKey)
        ensures
            r@ == self@,
    {
        match self {
            HoldKey::Layer(s) => HoldKey::Layer(s.clone()),
            HoldKey::Modifier(m) => HoldKey::Modifier(*m),
        }
    }
}

impl Clone for KeyDef {
    fn clone(&self) -> (r: KeyDef)
        ensures
            r@ == self@,
    {
        match self {
            KeyDef::Tap(t) => KeyDef::Tap(t.clone()),
            KeyDef::TapHold(t, h) => KeyDef::TapHold(t.clone(), h.clone()),
        }
    }
}

} // verus!
