use weirdboi_bevy_colour::decl::{ColorDef, DeclError, DeclFault, FaultKind, PaletteDef};
use weirdboi_bevy_colour::hex::{Channel, HexFault, HexForm};
use weirdboi_bevy_colour::token::Token;
use weirdboi_bevy_colour::Color;

fn ident(name: &str) -> Token {
    Token::Ident(name.to_string())
}

fn string(text: &str) -> Token {
    Token::Str(text.to_string())
}

fn float(value: f32) -> Token {
    Token::Float(Some((value * 255.0) as i32))
}

fn triple(r: f32, g: f32, b: f32) -> Vec<Token> {
    vec![
        Token::OpenParen,
        float(r),
        Token::Comma,
        float(g),
        Token::Comma,
        float(b),
        Token::CloseParen,
    ]
}

/// `P { "a": "#f00", "b": (0.0, 1.0, 0.0) }`
fn two_colors() -> Vec<Token> {
    let mut tokens = vec![
        ident("P"),
        Token::OpenBrace,
        string("a"),
        Token::Colon,
        string("#f00"),
        Token::Comma,
        string("b"),
        Token::Colon,
    ];
    tokens.extend(triple(0.0, 1.0, 0.0));
    tokens.push(Token::CloseBrace);
    tokens
}

fn fault(tokens: &[Token]) -> DeclError {
    PaletteDef::parse(tokens).unwrap_err()
}

fn names(def: &PaletteDef) -> Vec<&str> {
    def.colors.iter().map(|color| color.name.as_str()).collect()
}

#[test]
fn declaration_of_both_kinds_of_value() {
    let def = PaletteDef::parse(&two_colors()).unwrap();
    assert_eq!(def.name, "P");
    assert_eq!(names(&def), ["a", "b"]);
    assert_eq!(def.colors[0].value, Color::new(255, 0, 0, 255));
    assert_eq!(def.colors[1].value, Color::new(0, 255, 0, 255));
}

#[test]
fn declaration_with_a_comma_after_the_last_color() {
    let mut tokens = two_colors();
    let close = tokens.pop().unwrap();
    tokens.push(Token::Comma);
    tokens.push(close);
    let def = PaletteDef::parse(&tokens).unwrap();
    assert_eq!(names(&def), ["a", "b"]);
}

#[test]
fn declaration_without_colors() {
    let def = PaletteDef::parse(&[ident("Empty"), Token::OpenBrace, Token::CloseBrace]).unwrap();
    assert_eq!(def.name, "Empty");
    assert!(def.colors.is_empty());
}

#[test]
fn declaration_keeps_order_and_duplicates() {
    let mut tokens = vec![ident("P"), Token::OpenBrace];
    for (name, text) in [("zebra", "#000"), ("Apple", "#111"), ("mango", "#222"), ("apple", "#333")]
    {
        tokens.extend([string(name), Token::Colon, string(text), Token::Comma]);
    }
    tokens.push(Token::CloseBrace);
    let def = PaletteDef::parse(&tokens).unwrap();
    assert_eq!(names(&def), ["zebra", "Apple", "mango", "apple"]);
    let values: Vec<u8> = def.colors.iter().map(|color| color.value.r8).collect();
    assert_eq!(values, [0x00, 0x11, 0x22, 0x33]);
}

#[test]
fn declaration_with_intensity() {
    let tokens = [
        ident("P"),
        Token::OpenBrace,
        string("dim"),
        Token::Colon,
        string("#ff8000+0080"),
        Token::CloseBrace,
    ];
    let def = PaletteDef::parse(&tokens).unwrap();
    assert_eq!(
        def.colors[0].value,
        Color::new(255, 128, 0, 255).with_intensity_u16_experimental(128)
    );
}

#[test]
fn float_triples_saturate() {
    let mut tokens = vec![ident("P"), Token::OpenBrace, string("c"), Token::Colon];
    tokens.extend(triple(1.5, -1.0, 0.5));
    tokens.push(Token::CloseBrace);
    let def = PaletteDef::parse(&tokens).unwrap();
    let color = def.colors[0].value;
    assert_eq!((color.r8, color.g8, color.b8, color.a8), (255, 0, 127, 255));
    assert_eq!(color.intensity(), 256);
}

#[test]
fn one_color_at_a_place() {
    let tokens = two_colors();
    let (first, next) = ColorDef::parse(&tokens, 2).unwrap();
    assert_eq!((first.name.as_str(), next), ("a", 5));
    let (second, next) = ColorDef::parse(&tokens, 6).unwrap();
    assert_eq!((second.name.as_str(), next), ("b", 15));
    assert_eq!(
        ColorDef::parse(&tokens, 0).unwrap_err(),
        DeclError { at: 0, fault: DeclFault::ExpectedColorName }
    );
    assert_eq!(
        ColorDef::parse(&tokens, 99).unwrap_err(),
        DeclError { at: 99, fault: DeclFault::ExpectedColorName }
    );
}

#[test]
fn fault_missing_palette_name() {
    assert_eq!(fault(&[]), DeclError { at: 0, fault: DeclFault::ExpectedPaletteName });
    assert_eq!(
        fault(&[Token::OpenBrace, Token::CloseBrace]),
        DeclError { at: 0, fault: DeclFault::ExpectedPaletteName }
    );
}

#[test]
fn fault_missing_open_brace() {
    assert_eq!(fault(&[ident("P")]), DeclError { at: 1, fault: DeclFault::ExpectedOpenBrace });
    assert_eq!(
        fault(&[ident("P"), Token::OpenParen, Token::CloseParen]),
        DeclError { at: 1, fault: DeclFault::ExpectedOpenBrace }
    );
}

#[test]
fn fault_missing_color_name() {
    assert_eq!(
        fault(&[ident("P"), Token::OpenBrace, ident("red"), Token::CloseBrace]),
        DeclError { at: 2, fault: DeclFault::ExpectedColorName }
    );
    // Two commas in a row.
    let mut tokens = two_colors();
    tokens.insert(5, Token::Comma);
    assert_eq!(fault(&tokens), DeclError { at: 6, fault: DeclFault::ExpectedColorName });
}

#[test]
fn fault_missing_colon() {
    let mut tokens = two_colors();
    tokens.remove(3);
    assert_eq!(fault(&tokens), DeclError { at: 3, fault: DeclFault::ExpectedColon });
    assert_eq!(
        fault(&[ident("P"), Token::OpenBrace, string("a")]),
        DeclError { at: 3, fault: DeclFault::ExpectedColon }
    );
}

#[test]
fn fault_missing_value() {
    let mut tokens = two_colors();
    tokens[4] = ident("red");
    assert_eq!(fault(&tokens), DeclError { at: 4, fault: DeclFault::ExpectedValue });
    assert_eq!(
        fault(&[ident("P"), Token::OpenBrace, string("a"), Token::Colon]),
        DeclError { at: 4, fault: DeclFault::ExpectedValue }
    );
}

#[test]
fn fault_in_a_triple() {
    // `b` starts at 6, its `(` is at 8, then f , f , f ) at 9 to 14.
    let mut tokens = two_colors();
    tokens[9] = string("1.0");
    assert_eq!(fault(&tokens), DeclError { at: 9, fault: DeclFault::ExpectedFloat });
    let mut tokens = two_colors();
    tokens[10] = Token::Colon;
    assert_eq!(fault(&tokens), DeclError { at: 10, fault: DeclFault::ExpectedComma });
    let mut tokens = two_colors();
    tokens[12] = Token::CloseParen;
    assert_eq!(fault(&tokens), DeclError { at: 12, fault: DeclFault::ExpectedComma });
    let mut tokens = two_colors();
    tokens[13] = Token::CloseParen;
    assert_eq!(fault(&tokens), DeclError { at: 13, fault: DeclFault::ExpectedFloat });
    let mut tokens = two_colors();
    tokens[14] = Token::Comma;
    assert_eq!(fault(&tokens), DeclError { at: 14, fault: DeclFault::ExpectedCloseParen });
    let mut tokens = two_colors();
    tokens.truncate(14);
    assert_eq!(fault(&tokens), DeclError { at: 14, fault: DeclFault::ExpectedCloseParen });
}

#[test]
fn fault_missing_comma_or_end() {
    let mut tokens = two_colors();
    tokens.remove(5);
    assert_eq!(fault(&tokens), DeclError { at: 5, fault: DeclFault::ExpectedCommaOrEnd });
}

#[test]
fn fault_missing_close_brace() {
    let mut tokens = two_colors();
    tokens.pop();
    assert_eq!(fault(&tokens), DeclError { at: 15, fault: DeclFault::MissingCloseBrace });
    tokens.push(Token::Comma);
    assert_eq!(fault(&tokens), DeclError { at: 16, fault: DeclFault::MissingCloseBrace });
    assert_eq!(
        fault(&[ident("P"), Token::OpenBrace]),
        DeclError { at: 2, fault: DeclFault::MissingCloseBrace }
    );
}

#[test]
fn fault_token_after_the_end() {
    let mut tokens = two_colors();
    tokens.push(Token::Comma);
    assert_eq!(fault(&tokens), DeclError { at: 16, fault: DeclFault::UnexpectedToken });
}

#[test]
fn fault_in_a_hex_string() {
    let mut tokens = two_colors();
    tokens[4] = string("#xyz");
    assert_eq!(
        fault(&tokens),
        DeclError {
            at: 4,
            fault: DeclFault::Hex(HexFault::Digit { form: HexForm::Rgb, channel: Channel::Red }),
        }
    );
    tokens[4] = string("f00");
    assert_eq!(fault(&tokens), DeclError { at: 4, fault: DeclFault::Hex(HexFault::MissingHash) });
    tokens[4] = string("#f0");
    assert_eq!(fault(&tokens), DeclError { at: 4, fault: DeclFault::Hex(HexFault::Length) });
    tokens[4] = string("#f0+1234");
    assert_eq!(fault(&tokens), DeclError { at: 4, fault: DeclFault::Hex(HexFault::Length) });
    tokens[4] = string("#f00+12.4");
    assert_eq!(fault(&tokens), DeclError { at: 4, fault: DeclFault::Hex(HexFault::Intensity) });
}

#[test]
fn fault_in_a_float_literal() {
    let mut tokens = two_colors();
    tokens[11] = Token::Float(None);
    assert_eq!(fault(&tokens), DeclError { at: 11, fault: DeclFault::Float });
}

#[test]
fn the_first_fault_counts() {
    let mut tokens = two_colors();
    tokens[4] = string("#xyz");
    tokens[11] = Token::Float(None);
    tokens.pop();
    assert_eq!(fault(&tokens).at, 4);
}

#[test]
fn kinds_of_fault() {
    assert_eq!(DeclFault::Float.kind(), FaultKind::Value);
    assert_eq!(DeclFault::Hex(HexFault::Length).kind(), FaultKind::Value);
    for fault in [
        DeclFault::ExpectedPaletteName,
        DeclFault::ExpectedOpenBrace,
        DeclFault::ExpectedColorName,
        DeclFault::ExpectedColon,
        DeclFault::ExpectedValue,
        DeclFault::ExpectedFloat,
        DeclFault::ExpectedComma,
        DeclFault::ExpectedCloseParen,
        DeclFault::ExpectedCommaOrEnd,
        DeclFault::MissingCloseBrace,
        DeclFault::UnexpectedToken,
    ] {
        assert_eq!(fault.kind(), FaultKind::Syntax);
    }
}

#[test]
fn words_for_faults() {
    assert_eq!(DeclFault::ExpectedCommaOrEnd.message(), "expected comma or end of block");
    assert_eq!(DeclFault::ExpectedColon.message(), "expected `:`");
    assert_eq!(DeclFault::MissingCloseBrace.message(), "expected `}`");
    assert_eq!(DeclFault::Float.message(), "invalid float literal");
    assert_eq!(
        DeclFault::Hex(HexFault::Digit { form: HexForm::Rrggbbaa, channel: Channel::Alpha })
            .message(),
        "Error parsing #rrggbbAA portion: invalid digit found in string"
    );
    assert_eq!(
        HexFault::MissingHash.message(),
        "HTML hex color string must start with '#'."
    );
}
