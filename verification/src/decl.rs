//! Palette declarations: a palette name and, in braces, colours by name.
//!
//! ```text
//! Name { "first": "#rrggbb", "second": (1.0, 0.5, 0.0), }
//! ```
//!
//! A colour is a string in hexadecimal notation or three floating-point
//! literals in parentheses. Colours are separated by commas, and a comma may
//! follow the last. [`declaration`] says what a sequence of tokens declares;
//! [`PaletteDef::parse`] computes it.

use vstd::prelude::*;
use vstd::string::StringSliceAdditionalSpecFns;
use vstd::utf8::encode_utf8;
use crate::color::{scaled_rgb, Color, ColorView};
use crate::hex::{decode, parse_hex, HexFault};
use crate::token::Token;

verus! {

/// What is wrong with a declaration.
#[derive(Clone, Copy, Debug, PartialEq, Eq, Structural)]
pub enum DeclFault {
    /// The declaration does not start with an identifier.
    ExpectedPaletteName,
    /// No `{` follows the palette name.
    ExpectedOpenBrace,
    /// Where a colour should start there is neither a string literal nor `}`.
    ExpectedColorName,
    /// No `:` follows the name of a colour.
    ExpectedColon,
    /// After the `:` there is neither a string literal nor `(`.
    ExpectedValue,
    /// In parentheses, a floating-point literal is missing.
    ExpectedFloat,
    /// In parentheses, no `,` follows the first or the second literal.
    ExpectedComma,
    /// No `)` follows the third literal.
    ExpectedCloseParen,
    /// After a colour there is neither `,` nor `}`.
    ExpectedCommaOrEnd,
    /// The tokens end before the `}`.
    MissingCloseBrace,
    /// A token follows the `}`.
    UnexpectedToken,
    /// A string literal is not a colour in hexadecimal notation.
    Hex(HexFault),
    /// The digits of a floating-point literal are not a number in base 10.
    Float,
}

/// The two kinds of fault: in the shape of the declaration, or in a value
/// that has the right shape.
#[derive(Clone, Copy, Debug, PartialEq, Eq, Structural)]
pub enum FaultKind {
    Syntax,
    Value,
}

/// A fault and the place of the token at which it was found. The place is
/// the number of tokens where the tokens ended too early.
#[derive(Clone, Copy, Debug, PartialEq, Eq, Structural)]
pub struct DeclError {
    pub at: usize,
    pub fault: DeclFault,
}

/// A colour with the name under which it was declared.
#[derive(Debug)]
pub struct ColorDef {
    pub name: String,
    pub value: Color,
}

/// A palette as declared: its name and its colours in the order of the
/// declaration. Two colours may have the same name.
#[derive(Debug)]
pub struct PaletteDef {
    pub name: String,
    pub colors: Vec<ColorDef>,
}

/// What a [`ColorDef`] is, as a plain value.
pub ghost struct ColorDefView {
    pub name: Seq<char>,
    pub value: ColorView,
}

/// What a [`PaletteDef`] is, as a plain value.
pub ghost struct PaletteDefView {
    pub name: Seq<char>,
    pub colors: Seq<ColorDefView>,
}

/// The colours of `colors` as plain values, in the same order.
pub open spec fn color_views(colors: Seq<ColorDef>) -> Seq<ColorDefView> {
    colors.map_values(|d: ColorDef| d@)
}

impl View for ColorDef {
    type V = ColorDefView;

    open spec fn view(&self) -> ColorDefView {
        ColorDefView { name: self.name@, value: self.value@ }
    }
}

impl View for PaletteDef {
    type V = PaletteDefView;

    open spec fn view(&self) -> PaletteDefView {
        PaletteDefView { name: self.name@, colors: color_views(self.colors@) }
    }
}

impl Clone for ColorDef {
    fn clone(&self) -> (def: ColorDef)
        ensures
            def@ == self@,
    {
        ColorDef { name: self.name.clone(), value: self.value }
    }
}

impl Clone for PaletteDef {
    fn clone(&self) -> (def: PaletteDef)
        ensures
            def@ == self@,
    {
        let mut colors: Vec<ColorDef> = Vec::new();
        let mut i: usize = 0;
        while i < self.colors.len()
            invariant
                i <= self.colors.len(),
                color_views(colors@) == self@.colors.take(i as int),
            decreases self.colors.len() - i,
        {
            let ghost before = colors@;
            let color = self.colors[i].clone();
            colors.push(color);
            proof {
                assert(self@.colors[i as int] == self.colors@[i as int]@);
                assert(self@.colors.take(i + 1) =~= self@.colors.take(i as int).push(color@));
                assert(color_views(before.push(color)) =~= color_views(before).push(color@));
            }
            i += 1;
        }
        assert(self@.colors.take(i as int) =~= self@.colors);
        PaletteDef { name: self.name.clone(), colors }
    }
}

impl DeclFault {
    /// The kind of the fault.
    pub open spec fn kind_spec(self) -> FaultKind {
        if self is Hex || self is Float {
            FaultKind::Value
        } else {
            FaultKind::Syntax
        }
    }

    /// The kind of the fault.
    pub fn kind(self) -> (kind: FaultKind)
        ensures
            kind == self.kind_spec(),
    {
        match self {
            DeclFault::Hex(_) | DeclFault::Float => FaultKind::Value,
            _ => FaultKind::Syntax,
        }
    }

    /// The words for this fault.
    pub open spec fn message_spec(self) -> Seq<char> {
        match self {
            DeclFault::ExpectedPaletteName => "expected identifier"@,
            DeclFault::ExpectedOpenBrace => "expected curly braces"@,
            DeclFault::ExpectedColorName => "expected string literal"@,
            DeclFault::ExpectedColon => "expected `:`"@,
            DeclFault::ExpectedValue => "expected string literal or parentheses"@,
            DeclFault::ExpectedFloat => "expected floating point literal"@,
            DeclFault::ExpectedComma => "expected `,`"@,
            DeclFault::ExpectedCloseParen => "expected `)`"@,
            DeclFault::ExpectedCommaOrEnd => "expected comma or end of block"@,
            DeclFault::MissingCloseBrace => "expected `}`"@,
            DeclFault::UnexpectedToken => "unexpected token"@,
            DeclFault::Hex(fault) => fault.message_spec(),
            DeclFault::Float => "invalid float literal"@,
        }
    }

    /// The words for this fault.
    pub fn message(self) -> (words: String)
        ensures
            words@ == self.message_spec(),
    {
        match self {
            DeclFault::ExpectedPaletteName => "expected identifier".to_owned(),
            DeclFault::ExpectedOpenBrace => "expected curly braces".to_owned(),
            DeclFault::ExpectedColorName => "expected string literal".to_owned(),
            DeclFault::ExpectedColon => "expected `:`".to_owned(),
            DeclFault::ExpectedValue => "expected string literal or parentheses".to_owned(),
            DeclFault::ExpectedFloat => "expected floating point literal".to_owned(),
            DeclFault::ExpectedComma => "expected `,`".to_owned(),
            DeclFault::ExpectedCloseParen => "expected `)`".to_owned(),
            DeclFault::ExpectedCommaOrEnd => "expected comma or end of block".to_owned(),
            DeclFault::MissingCloseBrace => "expected `}`".to_owned(),
            DeclFault::UnexpectedToken => "unexpected token".to_owned(),
            DeclFault::Hex(fault) => fault.message(),
            DeclFault::Float => "invalid float literal".to_owned(),
        }
    }
}

/// The error for a fault at place `at`.
pub open spec fn fault_at(at: int, fault: DeclFault) -> DeclError {
    DeclError { at: at as usize, fault }
}

/// The scaled amount of the floating-point literal at place `at`.
pub open spec fn float_at(tokens: Seq<Token>, at: int) -> Result<i32, DeclError> {
    if at < tokens.len() && tokens[at] is Float {
        match tokens[at]->Float_0 {
            Some(scaled) => Ok(scaled),
            None => Err(fault_at(at, DeclFault::Float)),
        }
    } else {
        Err(fault_at(at, DeclFault::ExpectedFloat))
    }
}

/// The fault of a token other than `,` at place `at`, if there is one.
pub open spec fn comma_at(tokens: Seq<Token>, at: int) -> Option<DeclError> {
    if at < tokens.len() && tokens[at] is Comma {
        None
    } else {
        Some(fault_at(at, DeclFault::ExpectedComma))
    }
}

/// The colour of three literals in parentheses, the first of them at place
/// `at`, and the place after the `)`: `f , f , f )`. The literals are taken
/// from left to right, and the first fault counts.
pub open spec fn triple_at(tokens: Seq<Token>, at: int) -> Result<(ColorView, int), DeclError> {
    match float_at(tokens, at) {
        Err(e) => Err(e),
        Ok(r) => match comma_at(tokens, at + 1) {
            Some(e) => Err(e),
            None => match float_at(tokens, at + 2) {
                Err(e) => Err(e),
                Ok(g) => match comma_at(tokens, at + 3) {
                    Some(e) => Err(e),
                    None => match float_at(tokens, at + 4) {
                        Err(e) => Err(e),
                        Ok(b) => if at + 5 < tokens.len() && tokens[at + 5] is CloseParen {
                            Ok((scaled_rgb(r as int, g as int, b as int), at + 6))
                        } else {
                            Err(fault_at(at + 5, DeclFault::ExpectedCloseParen))
                        },
                    },
                },
            },
        },
    }
}

/// The colour that starts at place `at`, and the place after it: a string
/// literal in hexadecimal notation, or three literals in parentheses.
pub open spec fn value_at(tokens: Seq<Token>, at: int) -> Result<(ColorView, int), DeclError> {
    if at < tokens.len() && tokens[at] is Str {
        match decode(encode_utf8(tokens[at]->Str_0@)) {
            Ok(color) => Ok((color, at + 1)),
            Err(fault) => Err(fault_at(at, DeclFault::Hex(fault))),
        }
    } else if at < tokens.len() && tokens[at] is OpenParen {
        triple_at(tokens, at + 1)
    } else {
        Err(fault_at(at, DeclFault::ExpectedValue))
    }
}

/// The named colour that starts at place `at`, and the place after it: a
/// string literal, `:`, and a colour.
pub open spec fn entry_at(tokens: Seq<Token>, at: int) -> Result<(ColorDefView, int), DeclError> {
    if !(at < tokens.len() && tokens[at] is Str) {
        Err(fault_at(at, DeclFault::ExpectedColorName))
    } else if !(at + 1 < tokens.len() && tokens[at + 1] is Colon) {
        Err(fault_at(at + 1, DeclFault::ExpectedColon))
    } else {
        match value_at(tokens, at + 2) {
            Ok((value, next)) => Ok((ColorDefView { name: tokens[at]->Str_0@, value }, next)),
            Err(e) => Err(e),
        }
    }
}

/// The colours of a block from place `at` to its `}`, after the colours
/// `done`, and the place after the `}`. At `at` a colour starts or the block
/// ends; after a colour comes `,` or the end of the block.
pub open spec fn entries_from(tokens: Seq<Token>, at: int, done: Seq<ColorDefView>) -> Result<
    (Seq<ColorDefView>, int),
    DeclError,
>
    decreases tokens.len() - at,
{
    if at < 0 || at >= tokens.len() {
        Err(fault_at(at, DeclFault::MissingCloseBrace))
    } else if tokens[at] is CloseBrace {
        Ok((done, at + 1))
    } else {
        match entry_at(tokens, at) {
            Err(e) => Err(e),
            Ok((def, next)) => if next >= tokens.len() {
                Err(fault_at(next, DeclFault::MissingCloseBrace))
            } else if tokens[next] is Comma {
                entries_from(tokens, next + 1, done.push(def))
            } else if tokens[next] is CloseBrace {
                Ok((done.push(def), next + 1))
            } else {
                Err(fault_at(next, DeclFault::ExpectedCommaOrEnd))
            },
        }
    }
}

/// What a sequence of tokens declares: an identifier, `{`, the colours, `}`,
/// and nothing after it; or the first fault, with its place.
pub open spec fn declaration(tokens: Seq<Token>) -> Result<PaletteDefView, DeclError> {
    if !(0 < tokens.len() && tokens[0] is Ident) {
        Err(fault_at(0, DeclFault::ExpectedPaletteName))
    } else if !(1 < tokens.len() && tokens[1] is OpenBrace) {
        Err(fault_at(1, DeclFault::ExpectedOpenBrace))
    } else {
        match entries_from(tokens, 2, Seq::empty()) {
            Err(e) => Err(e),
            Ok((colors, end)) => if end < tokens.len() {
                Err(fault_at(end, DeclFault::UnexpectedToken))
            } else {
                Ok(PaletteDefView { name: tokens[0]->Ident_0@, colors })
            },
        }
    }
}

/// A fault of a block is found at a token of the declaration, or at its end;
/// a block that is read ends within the declaration.
pub proof fn lemma_block_place(tokens: Seq<Token>, at: int, done: Seq<ColorDefView>)
    requires
        0 <= at <= tokens.len() <= usize::MAX,
    ensures
        match entries_from(tokens, at, done) {
            Ok((_, end)) => at < end <= tokens.len(),
            Err(e) => at <= e.at <= tokens.len(),
        },
    decreases tokens.len() - at,
{
    if at < tokens.len() && !(tokens[at] is CloseBrace) {
        if let Ok((def, next)) = entry_at(tokens, at) {
            if next < tokens.len() && tokens[next] is Comma {
                lemma_block_place(tokens, next + 1, done.push(def));
            }
        }
    }
}

/// Every fault of a declaration is found at one of its tokens, or at its end
/// where the tokens end too early.
pub proof fn lemma_fault_place(tokens: Seq<Token>)
    requires
        tokens.len() <= usize::MAX,
    ensures
        declaration(tokens) matches Err(e) ==> e.at <= tokens.len(),
{
    if 1 < tokens.len() {
        lemma_block_place(tokens, 2, Seq::empty());
    }
}

/// The colours of a declaration come in the order in which they are
/// declared, whatever their names: those read before place `at` stand first,
/// and the colour declared at `at` stands right after them.
pub proof fn lemma_declared_order(tokens: Seq<Token>, at: int, done: Seq<ColorDefView>)
    requires
        entries_from(tokens, at, done) is Ok,
    ensures
        ({
            let all = entries_from(tokens, at, done)->Ok_0.0;
            &&& done.len() <= all.len()
            &&& all.take(done.len() as int) == done
            &&& !(tokens[at] is CloseBrace) ==> {
                &&& entry_at(tokens, at) is Ok
                &&& done.len() < all.len()
                &&& all[done.len() as int] == entry_at(tokens, at)->Ok_0.0
            }
        }),
    decreases tokens.len() - at,
{
    let all = entries_from(tokens, at, done)->Ok_0.0;
    if tokens[at] is CloseBrace {
        assert(all.take(done.len() as int) =~= done);
    } else {
        let (def, next) = entry_at(tokens, at)->Ok_0;
        let more = done.push(def);
        if tokens[next] is Comma {
            lemma_declared_order(tokens, next + 1, more);
            assert(all.take(more.len() as int) == more);
            assert(all.take(done.len() as int) =~= more.take(done.len() as int));
            assert(more.take(done.len() as int) =~= done);
            assert(all[done.len() as int] == all.take(more.len() as int)[done.len() as int]);
        } else {
            assert(all == more);
            assert(all.take(done.len() as int) =~= done);
        }
    }
}

/// The scaled amount of the floating-point literal at place `at`.
fn read_float(tokens: &[Token], at: usize) -> (res: Result<i32, DeclError>)
    requires
        at <= tokens@.len(),
    ensures
        res == float_at(tokens@, at as int),
        res is Ok ==> at < tokens@.len(),
{
    if at < tokens.len() {
        match &tokens[at] {
            Token::Float(Some(scaled)) => Ok(*scaled),
            Token::Float(None) => Err(DeclError { at, fault: DeclFault::Float }),
            _ => Err(DeclError { at, fault: DeclFault::ExpectedFloat }),
        }
    } else {
        Err(DeclError { at, fault: DeclFault::ExpectedFloat })
    }
}

/// Passes over the `,` at place `at`.
fn read_comma(tokens: &[Token], at: usize) -> (res: Option<DeclError>)
    requires
        at <= tokens@.len(),
    ensures
        res == comma_at(tokens@, at as int),
        res is None ==> at < tokens@.len(),
{
    if at < tokens.len() {
        match &tokens[at] {
            Token::Comma => None,
            _ => Some(DeclError { at, fault: DeclFault::ExpectedComma }),
        }
    } else {
        Some(DeclError { at, fault: DeclFault::ExpectedComma })
    }
}

/// Reads three literals in parentheses, the first of them at place `at`.
fn read_triple(tokens: &[Token], at: usize) -> (res: Result<(Color, usize), DeclError>)
    requires
        at <= tokens@.len(),
    ensures
        match res {
            Ok((color, next)) => triple_at(tokens@, at as int) == Ok::<(ColorView, int), DeclError>(
                (color@, next as int),
            ) && next <= tokens@.len(),
            Err(e) => triple_at(tokens@, at as int) == Err::<(ColorView, int), DeclError>(e),
        },
{
    let len = tokens.len();
    let first = read_float(tokens, at);
    let r = match first {
        Ok(r) => r,
        Err(e) => {
            return Err(e);
        },
    };
    let comma = read_comma(tokens, at + 1);
    if let Some(e) = comma {
        return Err(e);
    }
    let second = read_float(tokens, at + 2);
    let g = match second {
        Ok(g) => g,
        Err(e) => {
            return Err(e);
        },
    };
    let comma = read_comma(tokens, at + 3);
    if let Some(e) = comma {
        return Err(e);
    }
    let third = read_float(tokens, at + 4);
    let b = match third {
        Ok(b) => b,
        Err(e) => {
            return Err(e);
        },
    };
    let closed = at + 5 < len && matches!(&tokens[at + 5], Token::CloseParen);
    if closed {
        Ok((Color::from_scaled_rgb(r, g, b), at + 6))
    } else {
        Err(DeclError { at: at + 5, fault: DeclFault::ExpectedCloseParen })
    }
}

/// Reads the colour that starts at place `at`.
fn read_value(tokens: &[Token], at: usize) -> (res: Result<(Color, usize), DeclError>)
    requires
        at <= tokens@.len(),
    ensures
        match res {
            Ok((color, next)) => value_at(tokens@, at as int) == Ok::<(ColorView, int), DeclError>(
                (color@, next as int),
            ) && at < next <= tokens@.len(),
            Err(e) => value_at(tokens@, at as int) == Err::<(ColorView, int), DeclError>(e),
        },
{
    if at >= tokens.len() {
        return Err(DeclError { at, fault: DeclFault::ExpectedValue });
    }
    match &tokens[at] {
        Token::Str(text) => match parse_hex(text.as_str().as_bytes()) {
            Ok(color) => Ok((color, at + 1)),
            Err(fault) => Err(DeclError { at, fault: DeclFault::Hex(fault) }),
        },
        Token::OpenParen => read_triple(tokens, at + 1),
        _ => Err(DeclError { at, fault: DeclFault::ExpectedValue }),
    }
}

impl ColorDef {
    /// Reads the named colour that starts at place `at` of `tokens`: a string
    /// literal, `:`, and a colour. Gives the colour and the place after it, or
    /// the first fault.
    pub fn parse(tokens: &[Token], at: usize) -> (res: Result<(ColorDef, usize), DeclError>)
        ensures
            match res {
                Ok((def, next)) => entry_at(tokens@, at as int) == Ok::<
                    (ColorDefView, int),
                    DeclError,
                >((def@, next as int)) && at < next <= tokens@.len(),
                Err(e) => entry_at(tokens@, at as int) == Err::<(ColorDefView, int), DeclError>(e),
            },
    {
        if at >= tokens.len() {
            return Err(DeclError { at, fault: DeclFault::ExpectedColorName });
        }
        let name = match &tokens[at] {
            Token::Str(name) => name.clone(),
            _ => {
                return Err(DeclError { at, fault: DeclFault::ExpectedColorName });
            },
        };
        let colon = at + 1 < tokens.len() && matches!(&tokens[at + 1], Token::Colon);
        if !colon {
            return Err(DeclError { at: at + 1, fault: DeclFault::ExpectedColon });
        }
        match read_value(tokens, at + 2) {
            Ok((value, next)) => Ok((ColorDef { name, value }, next)),
            Err(e) => Err(e),
        }
    }
}

impl PaletteDef {
    /// Reads a whole declaration. Gives the palette as declared, with its
    /// colours in the order of the declaration, or the first fault with its
    /// place.
    pub fn parse(tokens: &[Token]) -> (res: Result<PaletteDef, DeclError>)
        ensures
            match res {
                Ok(def) => declaration(tokens@) == Ok::<PaletteDefView, DeclError>(def@),
                Err(e) => declaration(tokens@) == Err::<PaletteDefView, DeclError>(e),
            },
    {
        if tokens.len() == 0 {
            return Err(DeclError { at: 0, fault: DeclFault::ExpectedPaletteName });
        }
        let name = match &tokens[0] {
            Token::Ident(name) => name.clone(),
            _ => {
                return Err(DeclError { at: 0, fault: DeclFault::ExpectedPaletteName });
            },
        };
        let opened = 1 < tokens.len() && matches!(&tokens[1], Token::OpenBrace);
        if !opened {
            return Err(DeclError { at: 1, fault: DeclFault::ExpectedOpenBrace });
        }
        let mut colors: Vec<ColorDef> = Vec::new();
        let mut at: usize = 2;
        let ghost whole = entries_from(tokens@, 2, Seq::empty());
        assert(color_views(colors@) =~= Seq::empty());
        loop
            invariant_except_break
                entries_from(tokens@, at as int, color_views(colors@)) == whole,
            invariant
                2 <= at <= tokens@.len(),
                tokens@[0] is Ident,
                tokens@[0]->Ident_0@ == name@,
                tokens@[1] is OpenBrace,
                whole == entries_from(tokens@, 2, Seq::empty()),
            ensures
                whole == Ok::<(Seq<ColorDefView>, int), DeclError>(
                    (color_views(colors@), at as int),
                ),
            decreases tokens@.len() - at,
        {
            if at >= tokens.len() {
                return Err(DeclError { at, fault: DeclFault::MissingCloseBrace });
            }
            if matches!(&tokens[at], Token::CloseBrace) {
                at = at + 1;
                break;
            }
            let ghost before = color_views(colors@);
            let (def, next) = match ColorDef::parse(tokens, at) {
                Ok(read) => read,
                Err(e) => {
                    return Err(e);
                },
            };
            colors.push(def);
            assert(color_views(colors@) =~= before.push(def@));
            if next >= tokens.len() {
                return Err(DeclError { at: next, fault: DeclFault::MissingCloseBrace });
            }
            match &tokens[next] {
                Token::Comma => {
                    at = next + 1;
                },
                Token::CloseBrace => {
                    at = next + 1;
                    break;
                },
                _ => {
                    return Err(DeclError { at: next, fault: DeclFault::ExpectedCommaOrEnd });
                },
            }
        }
        if at < tokens.len() {
            return Err(DeclError { at, fault: DeclFault::UnexpectedToken });
        }
        Ok(PaletteDef { name, colors })
    }
}

} // verus!
