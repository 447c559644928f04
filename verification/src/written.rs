//! Declarations written out as tokens, and the law that reading what was
//! written gives the palette back, with its colours in the order in which
//! they were written.

use vstd::prelude::*;
use vstd::utf8::encode_utf8;
use crate::color::{scaled_rgb, ColorView};
use crate::decl::{
    declaration,
    entries_from,
    entry_at,
    triple_at,
    value_at,
    ColorDefView,
    DeclError,
    PaletteDefView,
};
use crate::hex::{decode, HexFault};
use crate::token::Token;

verus! {

/// The value of a colour, as a declaration writes it.
pub ghost enum WrittenValue {
    /// A string literal.
    Text(String),
    /// Three floating-point literals in parentheses, as scaled amounts.
    Triple(i32, i32, i32),
}

/// A colour with its name, as a declaration writes it.
pub ghost struct WrittenColor {
    pub name: String,
    pub value: WrittenValue,
}

impl WrittenValue {
    /// The tokens of the value.
    pub open spec fn tokens(self) -> Seq<Token> {
        match self {
            WrittenValue::Text(text) => seq![Token::Str(text)],
            WrittenValue::Triple(r, g, b) => seq![
                Token::OpenParen,
                Token::Float(Some(r)),
                Token::Comma,
                Token::Float(Some(g)),
                Token::Comma,
                Token::Float(Some(b)),
                Token::CloseParen,
            ],
        }
    }

    /// The colour that the value stands for, if it stands for one.
    pub open spec fn meaning(self) -> Result<ColorView, HexFault> {
        match self {
            WrittenValue::Text(text) => decode(encode_utf8(text@)),
            WrittenValue::Triple(r, g, b) => Ok(scaled_rgb(r as int, g as int, b as int)),
        }
    }
}

impl WrittenColor {
    /// The tokens of the colour: its name, `:`, and its value.
    pub open spec fn tokens(self) -> Seq<Token> {
        seq![Token::Str(self.name), Token::Colon] + self.value.tokens()
    }

    /// The colour as declared. Its value is arbitrary where what is written
    /// stands for none.
    pub open spec fn declared(self) -> ColorDefView {
        ColorDefView { name: self.name@, value: self.value.meaning()->Ok_0 }
    }
}

/// The tokens of a block after its `{`: the colours with a `,` between
/// them, a `,` after the last where `last_comma` says so, and `}`.
pub open spec fn written_block(colors: Seq<WrittenColor>, last_comma: bool) -> Seq<Token>
    decreases colors.len(),
{
    if colors.len() == 0 {
        seq![Token::CloseBrace]
    } else if colors.len() == 1 && !last_comma {
        colors[0].tokens() + seq![Token::CloseBrace]
    } else {
        colors[0].tokens() + seq![Token::Comma] + written_block(colors.drop_first(), last_comma)
    }
}

/// The tokens of a declaration: the name, `{`, and the block.
pub open spec fn written(name: String, colors: Seq<WrittenColor>, last_comma: bool) -> Seq<
    Token,
> {
    seq![Token::Ident(name), Token::OpenBrace] + written_block(colors, last_comma)
}

/// The colours as declared, in the order in which they are written.
pub open spec fn declared(colors: Seq<WrittenColor>) -> Seq<ColorDefView> {
    colors.map_values(|c: WrittenColor| c.declared())
}

/// Reading the tokens of one written colour at place `at` gives that colour,
/// and the place after its tokens.
proof fn lemma_entry_of_written(tokens: Seq<Token>, at: int, color: WrittenColor)
    requires
        0 <= at,
        at + color.tokens().len() <= tokens.len(),
        tokens.subrange(at, at + color.tokens().len()) == color.tokens(),
        color.value.meaning() is Ok,
    ensures
        entry_at(tokens, at) == Ok::<(ColorDefView, int), DeclError>(
            (color.declared(), at + color.tokens().len()),
        ),
{
    let own = color.tokens();
    let part = tokens.subrange(at, at + own.len());
    assert forall|k: int| 0 <= k < own.len() implies tokens[at + k] == own[k] by {
        assert(part[k] == tokens[at + k]);
    }
    assert(own[0] == Token::Str(color.name));
    assert(own[1] == Token::Colon);
    assert(tokens[at] == own[0]);
    assert(tokens[at + 1] == own[1]);
    match color.value {
        WrittenValue::Text(text) => {
            assert(own[2] == Token::Str(text));
            assert(tokens[at + 2] == own[2]);
        },
        WrittenValue::Triple(r, g, b) => {
            assert(own.len() == 9);
            assert(tokens[at + 2] == own[2]);
            assert(tokens[at + 3] == own[3]);
            assert(tokens[at + 4] == own[4]);
            assert(tokens[at + 5] == own[5]);
            assert(tokens[at + 6] == own[6]);
            assert(tokens[at + 7] == own[7]);
            assert(tokens[at + 8] == own[8]);
            assert(triple_at(tokens, at + 3) == Ok::<(ColorView, int), DeclError>(
                (scaled_rgb(r as int, g as int, b as int), at + 9),
            ));
            assert(value_at(tokens, at + 2) == triple_at(tokens, at + 3));
        },
    }
}

/// Reading a written block that starts at place `at` adds its colours, in
/// their order, to those already read.
proof fn lemma_block_of_written(
    tokens: Seq<Token>,
    at: int,
    colors: Seq<WrittenColor>,
    last_comma: bool,
    done: Seq<ColorDefView>,
)
    requires
        0 <= at <= tokens.len(),
        tokens.skip(at) == written_block(colors, last_comma),
        forall|i: int| 0 <= i < colors.len() ==> (#[trigger] colors[i]).value.meaning() is Ok,
    ensures
        entries_from(tokens, at, done) == Ok::<(Seq<ColorDefView>, int), DeclError>(
            (done + declared(colors), tokens.len() as int),
        ),
    decreases colors.len(),
{
    let block = written_block(colors, last_comma);
    assert(tokens.len() == at + block.len());
    assert forall|k: int| 0 <= k < block.len() implies tokens[at + k] == block[k] by {
        assert(tokens.skip(at)[k] == tokens[at + k]);
    }
    if colors.len() == 0 {
        assert(tokens[at] == block[0]);
        assert(done + declared(colors) =~= done);
    } else {
        let first = colors[0];
        let rest = colors.drop_first();
        let own = first.tokens();
        let next = at + own.len();
        let closes = colors.len() == 1 && !last_comma;
        let tail = if closes {
            seq![Token::CloseBrace]
        } else {
            seq![Token::Comma] + written_block(rest, last_comma)
        };
        assert(block =~= own + tail);
        assert(tokens.subrange(at, next) =~= own) by {
            assert forall|k: int| 0 <= k < own.len() implies tokens.subrange(at, next)[k]
                == own[k] by {
                assert(block[k] == own[k]);
                assert(tokens[at + k] == block[k]);
            }
        }
        lemma_entry_of_written(tokens, at, first);
        assert(tokens[at] == Token::Str(first.name)) by {
            assert(block[0] == own[0]);
            assert(tokens[at + 0] == block[0]);
        }
        assert(tokens[next] == tail[0]) by {
            assert(block[own.len() as int] == tail[0]);
            assert(tokens[at + own.len()] == block[own.len() as int]);
        }
        if closes {
            assert(tokens.len() == next + 1);
            assert(rest.len() == 0);
            assert(done.push(first.declared()) =~= done + declared(colors));
        } else {
            assert(tokens.skip(next + 1) =~= written_block(rest, last_comma)) by {
                assert forall|k: int|
                    0 <= k < written_block(rest, last_comma).len() implies tokens.skip(
                    next + 1,
                )[k] == written_block(rest, last_comma)[k] by {
                    assert(block[own.len() + 1 + k] == written_block(rest, last_comma)[k]);
                    assert(tokens[at + (own.len() + 1 + k)] == block[own.len() + 1 + k]);
                }
            }
            assert forall|i: int| 0 <= i < rest.len() implies (#[trigger] rest[i]).value.meaning()
                is Ok by {
                assert(rest[i] == colors[i + 1]);
            }
            lemma_block_of_written(tokens, next + 1, rest, last_comma, done.push(first.declared()));
            assert(done.push(first.declared()) + declared(rest) =~= done + declared(colors)) by {
                assert forall|i: int| 0 <= i < rest.len() implies declared(rest)[i] == declared(
                    colors,
                )[i + 1] by {
                    assert(rest[i] == colors[i + 1]);
                }
            }
        }
    }
}

/// Reading a written declaration gives the palette that was written: the
/// same name, and the same colours in the same order, whatever their names,
/// with or without a `,` after the last colour.
pub proof fn lemma_declaration_of_written(
    name: String,
    colors: Seq<WrittenColor>,
    last_comma: bool,
)
    requires
        forall|i: int| 0 <= i < colors.len() ==> (#[trigger] colors[i]).value.meaning() is Ok,
    ensures
        declaration(written(name, colors, last_comma)) == Ok::<PaletteDefView, DeclError>(
            PaletteDefView { name: name@, colors: declared(colors) },
        ),
{
    let tokens = written(name, colors, last_comma);
    assert(tokens[0] == Token::Ident(name));
    assert(tokens[1] == Token::OpenBrace);
    assert(tokens.skip(2) =~= written_block(colors, last_comma));
    lemma_block_of_written(tokens, 2, colors, last_comma, Seq::empty());
    assert(Seq::<ColorDefView>::empty() + declared(colors) =~= declared(colors));
}

} // verus!
