use vstd::prelude::*;

verus! {

/// A fatal parse failure: the run aborts with no partial keymap.
#[derive(Debug)]
pub enum ParseError {
    /// A grid character that the key vocabulary does not accept and no
    /// `defs` override covers.
    UnknownGlyph(char),
    /// A malformed tap-key expression in the structured config.
    BadTapExpr(String),
    /// A malformed hold-key expression in the structured config.
    BadHoldExpr(String),
    /// A structured-config line that does not fit the expected shape.
    ConfigSyntax(String),
    /// A layer block with no grid section after the name line.
    MissingGrid(String),
    /// A combo input character that never appears in its layer's grid;
    /// carries the layer name and the character.
    ComboInputMissing(String, char),
}

/// Mathematical model of a `ParseError`.
pub enum ParseErrorV {
    UnknownGlyph(char),
    BadTapExpr(Seq<char>),
    BadHoldExpr(Seq<char>),
    ConfigSyntax(Seq<char>),
    MissingGrid(Seq<char>),
    ComboInputMissing(Seq<char>, char),
}

impl View for ParseError {
    type V = ParseErrorV;

    open spec fn view(&self) -> ParseErrorV {
        match self {
            ParseError::UnknownGlyph(c) => ParseErrorV::UnknownGlyph(*c),
            ParseError::BadTapExpr(s) => ParseErrorV::BadTapExpr(s@),
            ParseError::BadHoldExpr(s) => ParseErrorV::BadHoldExpr(s@),
            ParseError::ConfigSyntax(s) => ParseErrorV::ConfigSyntax(s@),
            ParseError::MissingGrid(s) => ParseErrorV::MissingGrid(s@),
            ParseError::ComboInputMissing(s, c) => ParseErrorV::ComboInputMissing(s@, *c),
        }
    }
}

/// A fatal emission failure: a construct the chosen backend cannot express.
#[derive(Debug)]
pub enum EmitError {
    /// The backend requires the tap side of a tap-hold pair to be a
    /// plain key, and this one is not.
    HoldTapNotPlain,
}

/// Mathematical model of an `EmitError`.
#[derive(PartialEq, Eq, Structural)]
pub enum EmitErrorV {
    HoldTapNotPlain,
}

impl View for EmitError {
    type V = EmitErrorV;

    open spec fn view(&self) -> EmitErrorV {
        match self {
            EmitError::HoldTapNotPlain => EmitErrorV::HoldTapNotPlain,
        }
    }
}

} // verus!
