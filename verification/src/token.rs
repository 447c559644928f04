//! The tokens of a palette declaration.

use vstd::prelude::*;

verus! {

/// One token of a palette declaration, as a tokenizer hands it over.
///
/// Brackets are tokens of their own: a declaration is a flat sequence.
#[derive(Debug)]
pub enum Token {
    /// An identifier.
    Ident(String),
    /// A string literal, as the string that it denotes.
    Str(String),
    /// A floating-point literal with its sign, as a scaled amount: its value
    /// multiplied by 255 and cut off toward zero. `None` stands for a literal
    /// whose digits are not a number in base 10.
    Float(Option<i32>),
    /// `:`
    Colon,
    /// `,`
    Comma,
    /// `{`
    OpenBrace,
    /// `}`
    CloseBrace,
    /// `(`
    OpenParen,
    /// `)`
    CloseParen,
    /// Any other token.
    Other,
}

impl Clone for Token {
    fn clone(&self) -> (token: Token)
        ensures
            token == *self,
    {
        match self {
            Token::Ident(name) => Token::Ident(name.clone()),
            Token::Str(text) => Token::Str(text.clone()),
            Token::Float(scaled) => Token::Float(*scaled),
            Token::Colon => Token::Colon,
            Token::Comma => Token::Comma,
            Token::OpenBrace => Token::OpenBrace,
            Token::CloseBrace => Token::CloseBrace,
            Token::OpenParen => Token::OpenParen,
            Token::CloseParen => Token::CloseParen,
            Token::Other => Token::Other,
        }
    }
}

} // verus!
