use bevy_color::Color as FloatColor;
use weirdboi_bevy_colour::palette;
use weirdboi_bevy_colour::token::Token;
use weirdboi_bevy_colour::{Color, Palette};

/// A floating-point literal as the token that stands for it.
fn float(value: f32) -> Token {
    Token::Float(Some((value * 255.0) as i32))
}

/// The tokens of `"name": (r, g, b),`.
fn entry(tokens: &mut Vec<Token>, name: &str, r: f32, g: f32, b: f32) {
    tokens.push(Token::Str(name.to_string()));
    tokens.push(Token::Colon);
    tokens.push(Token::OpenParen);
    tokens.push(float(r));
    tokens.push(Token::Comma);
    tokens.push(float(g));
    tokens.push(Token::Comma);
    tokens.push(float(b));
    tokens.push(Token::CloseParen);
    tokens.push(Token::Comma);
}

/// The palette declared as
/// `TestPalette { "red": (1.0, 0.0, 0.0), "green": (0.0, 1.0, 0.0),
/// "blue": (0.0, 0.0, 1.0), "customColor": (0.5, 0.5, 0.5), }`.
fn test_palette() -> Palette {
    let mut tokens = vec![Token::Ident("TestPalette".to_string()), Token::OpenBrace];
    entry(&mut tokens, "red", 1.0, 0.0, 0.0);
    entry(&mut tokens, "green", 0.0, 1.0, 0.0);
    entry(&mut tokens, "blue", 0.0, 0.0, 1.0);
    entry(&mut tokens, "customColor", 0.5, 0.5, 0.5);
    tokens.push(Token::CloseBrace);
    palette(&tokens).unwrap()
}

/// The colour of the library for a floating-point colour.
fn from_float(color: FloatColor) -> Color {
    let srgba = color.to_srgba();
    Color::from_scaled(
        (srgba.red * 255.0) as i32,
        (srgba.green * 255.0) as i32,
        (srgba.blue * 255.0) as i32,
        (srgba.alpha * 255.0) as i32,
    )
}

#[test]
fn test_palette_constants() {
    // Test the constants
    let palette = test_palette();
    assert_eq!(
        palette.constant("RED"),
        Some(from_float(FloatColor::srgb(1.0, 0.0, 0.0)))
    );
    assert_eq!(
        palette.constant("GREEN"),
        Some(from_float(FloatColor::srgb(0.0, 1.0, 0.0)))
    );
    assert_eq!(
        palette.constant("BLUE"),
        Some(from_float(FloatColor::srgb(0.0, 0.0, 1.0)))
    );
    assert_eq!(
        palette.constant("CUSTOM_COLOR"),
        Some(from_float(FloatColor::srgb(0.5, 0.5, 0.5)))
    );
}

#[test]
fn test_palette_methods() {
    // Test the accessors
    let palette = test_palette();
    assert_eq!(
        palette.accessor("red"),
        Some(from_float(FloatColor::srgb(1.0, 0.0, 0.0)))
    );
    assert_eq!(
        palette.accessor("green"),
        Some(from_float(FloatColor::srgb(0.0, 1.0, 0.0)))
    );
    assert_eq!(
        palette.accessor("blue"),
        Some(from_float(FloatColor::srgb(0.0, 0.0, 1.0)))
    );
    assert_eq!(
        palette.accessor("custom_color"),
        Some(from_float(FloatColor::srgb(0.5, 0.5, 0.5)))
    );
}

#[test]
fn test_all_method() {
    // Test the all method
    let colors = test_palette().all();
    assert_eq!(colors.len(), 4);
    assert!(colors.contains(&from_float(FloatColor::srgb(1.0, 0.0, 0.0))));
    assert!(colors.contains(&from_float(FloatColor::srgb(0.0, 1.0, 0.0))));
    assert!(colors.contains(&from_float(FloatColor::srgb(0.0, 0.0, 1.0))));
    assert!(colors.contains(&from_float(FloatColor::srgb(0.5, 0.5, 0.5))));
}

#[test]
fn test_iter_method() {
    // Test the iter method
    let palette = test_palette();
    let colors: Vec<Color> = palette.iter().collect();
    assert_eq!(colors.len(), 4);
    assert!(colors.contains(&from_float(FloatColor::srgb(1.0, 0.0, 0.0))));
    assert!(colors.contains(&from_float(FloatColor::srgb(0.0, 1.0, 0.0))));
    assert!(colors.contains(&from_float(FloatColor::srgb(0.0, 0.0, 1.0))));
    assert!(colors.contains(&from_float(FloatColor::srgb(0.5, 0.5, 0.5))));
}

#[test]
fn test_into_iter() {
    // Test IntoIterator for the palette
    let colors: Vec<Color> = test_palette().into_iter().collect();
    assert_eq!(colors.len(), 4);
    assert!(colors.contains(&from_float(FloatColor::srgb(1.0, 0.0, 0.0))));
    assert!(colors.contains(&from_float(FloatColor::srgb(0.0, 1.0, 0.0))));
    assert!(colors.contains(&from_float(FloatColor::srgb(0.0, 0.0, 1.0))));
    assert!(colors.contains(&from_float(FloatColor::srgb(0.5, 0.5, 0.5))));

    // Test IntoIterator for references to the palette
    let palette = test_palette();
    let colors: Vec<Color> = (&palette).into_iter().collect();
    assert_eq!(colors.len(), 4);
    assert!(colors.contains(&from_float(FloatColor::srgb(1.0, 0.0, 0.0))));
    assert!(colors.contains(&from_float(FloatColor::srgb(0.0, 1.0, 0.0))));
    assert!(colors.contains(&from_float(FloatColor::srgb(0.0, 0.0, 1.0))));
    assert!(colors.contains(&from_float(FloatColor::srgb(0.5, 0.5, 0.5))));
}

#[test]
fn test_get() {
    // Test get method
    let palette = test_palette();
    assert_eq!(
        palette.get("red"),
        Some(from_float(FloatColor::srgb(1.0, 0.0, 0.0)))
    );
    assert_eq!(
        palette.get("green"),
        Some(from_float(FloatColor::srgb(0.0, 1.0, 0.0)))
    );
    assert_eq!(
        palette.get("blue"),
        Some(from_float(FloatColor::srgb(0.0, 0.0, 1.0)))
    );
    assert_eq!(
        palette.get("customColor"),
        Some(from_float(FloatColor::srgb(0.5, 0.5, 0.5)))
    );
    assert_eq!(
        palette.get("custom_color"),
        Some(from_float(FloatColor::srgb(0.5, 0.5, 0.5)))
    );
    assert_eq!(
        palette.get("CUSTOM_COLOR"),
        Some(from_float(FloatColor::srgb(0.5, 0.5, 0.5)))
    );
    assert_eq!(palette.get("nonexistent"), None);
}
