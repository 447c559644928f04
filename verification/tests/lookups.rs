use weirdboi_bevy_colour::token::Token;
use weirdboi_bevy_colour::{palette, Color, Palette};

fn declare(name: &str, colors: &[(&str, &str)]) -> Palette {
    let mut tokens = vec![Token::Ident(name.to_string()), Token::OpenBrace];
    for (name, text) in colors {
        tokens.push(Token::Str(name.to_string()));
        tokens.push(Token::Colon);
        tokens.push(Token::Str(text.to_string()));
        tokens.push(Token::Comma);
    }
    tokens.push(Token::CloseBrace);
    palette(&tokens).unwrap()
}

fn common() -> Palette {
    declare(
        "Common",
        &[
            ("black", "#000000ff"),
            ("blue", "#0000ffff"),
            ("cyan", "#00ffffff"),
            ("green", "#00ff00ff"),
            ("magenta", "#ff00ffff"),
            ("red", "#ff0000ff"),
            ("transparent_black", "#00000000"),
            ("transparent_white", "#ffffff00"),
            ("white", "#ffffffff"),
            ("yellow", "#ffff00ff"),
        ],
    )
}

#[test]
fn get_ignores_case_and_punctuation() {
    let palette = declare("P", &[("red", "#f00"), ("customColor", "#808080")]);
    let gray = Some(Color::new(128, 128, 128, 255));
    assert_eq!(palette.get("customColor"), gray);
    assert_eq!(palette.get("CUSTOM_COLOR"), gray);
    assert_eq!(palette.get("custom_color"), gray);
    assert_eq!(palette.get("custom-color"), gray);
    assert_eq!(palette.get("Custom Color"), gray);
    assert_eq!(palette.get("nonexistent"), None);
    assert_eq!(palette.get(""), None);
}

#[test]
fn empty_palette() {
    let palette = declare("Empty", &[]);
    assert_eq!(palette.len(), 0);
    assert!(palette.is_empty());
    assert!(palette.all().is_empty());
    assert!(palette.iter().collect().is_empty());
    assert_eq!(palette.iter().next(), None);
    assert_eq!(palette.get("red"), None);
    assert_eq!(palette.get(""), None);
    assert_eq!(palette.constant("RED"), None);
    assert_eq!(palette.accessor("red"), None);
    assert_eq!(palette.into_iter().count(), 0);
}

#[test]
fn counts_agree() {
    for palette in [declare("Empty", &[]), declare("One", &[("a", "#123")]), common()] {
        let n = palette.len();
        assert_eq!(palette.all().len(), n);
        assert_eq!(palette.iter().collect().len(), n);
        assert_eq!((&palette).into_iter().count(), n);
        assert_eq!(palette.is_empty(), n == 0);
    }
    assert_eq!(common().len(), 10);
}

#[test]
fn iter_starts_anew() {
    let palette = common();
    let mut first = palette.iter();
    assert_eq!(first.next(), Some(Color::new(0, 0, 0, 255)));
    assert_eq!(first.next(), Some(Color::new(0, 0, 255, 255)));
    let second = palette.iter();
    assert_eq!(second.collect(), palette.all());
    assert_eq!(first.collect(), palette.all()[2..]);
    assert_eq!(palette.iter().collect(), palette.iter().collect());
}

#[test]
fn iter_gives_one_color_at_a_time() {
    let palette = declare("P", &[("a", "#100"), ("b", "#200")]);
    let mut it = palette.iter();
    assert_eq!(it.next(), Some(Color::new(0x11, 0, 0, 255)));
    assert_eq!(it.next(), Some(Color::new(0x22, 0, 0, 255)));
    assert_eq!(it.next(), None);
    assert_eq!(it.next(), None);
    assert!(it.collect().is_empty());
}

#[test]
fn order_of_declaration_is_kept() {
    let palette = declare(
        "P",
        &[("zebra", "#010101"), ("Apple", "#020202"), ("mango", "#030303"), ("apple2", "#040404")],
    );
    let reds: Vec<u8> = palette.all().iter().map(|color| color.r8).collect();
    assert_eq!(reds, [1, 2, 3, 4]);
    let reds: Vec<u8> = palette.iter().collect().iter().map(|color| color.r8).collect();
    assert_eq!(reds, [1, 2, 3, 4]);
    let reds: Vec<u8> = palette.into_iter().map(|color| color.r8).collect();
    assert_eq!(reds, [1, 2, 3, 4]);
}

#[test]
fn the_first_of_two_alike_names_is_found() {
    let palette = declare("P", &[("myColor", "#111"), ("my_color", "#222"), ("MYCOLOR", "#333")]);
    assert_eq!(palette.len(), 3);
    assert_eq!(palette.get("my-color"), Some(Color::new(0x11, 0x11, 0x11, 255)));
    assert_eq!(palette.get("MYCOLOR"), Some(Color::new(0x11, 0x11, 0x11, 255)));
    // Each keeps its own constant and accessor.
    assert_eq!(palette.constant("MY_COLOR"), Some(Color::new(0x11, 0x11, 0x11, 255)));
    assert_eq!(palette.constant("MYCOLOR"), Some(Color::new(0x33, 0x33, 0x33, 255)));
    assert_eq!(palette.accessor("my_color"), Some(Color::new(0x11, 0x11, 0x11, 255)));
    assert_eq!(palette.accessor("mycolor"), Some(Color::new(0x33, 0x33, 0x33, 255)));
}

#[test]
fn constants_and_accessors_go_by_the_exact_name() {
    let palette = common();
    assert_eq!(palette.constant("TRANSPARENT_WHITE"), Some(Color::new(255, 255, 255, 0)));
    assert_eq!(palette.constant("transparent_white"), None);
    assert_eq!(palette.constant("TransparentWhite"), None);
    assert_eq!(palette.accessor("transparent_white"), Some(Color::new(255, 255, 255, 0)));
    assert_eq!(palette.accessor("TRANSPARENT_WHITE"), None);
    assert_eq!(palette.get("TransparentWhite"), Some(Color::new(255, 255, 255, 0)));
}

#[test]
fn names_of_each_color() {
    let palette = declare("Mine", &[("red", "#f00"), ("customColor", "#808080")]);
    assert_eq!(palette.name(), "Mine");
    let color = palette.color(1).unwrap();
    assert_eq!(color.name(), "customColor");
    assert_eq!(color.constant(), "CUSTOM_COLOR");
    assert_eq!(color.accessor(), "custom_color");
    assert_eq!(color.key(), "customcolor");
    assert_eq!(color.value(), Color::new(128, 128, 128, 255));
    assert_eq!(palette.color(0).unwrap().constant(), "RED");
    assert!(palette.color(2).is_none());
}

#[test]
fn a_faulty_declaration_gives_no_palette() {
    let tokens = [Token::Ident("P".to_string()), Token::OpenBrace, Token::Other];
    let error = palette(&tokens).unwrap_err();
    assert_eq!(error.at, 2);
}

#[test]
fn a_copy_of_a_palette_answers_alike() {
    let palette = common();
    let copy = palette.clone();
    assert_eq!(copy.name(), "Common");
    assert_eq!(copy.all(), palette.all());
    assert_eq!(copy.get("Transparent White"), palette.get("transparent_white"));
    assert_eq!(copy.color(9).unwrap().constant(), "YELLOW");
    let tokens = vec![Token::Ident("P".to_string()), Token::Float(Some(3)), Token::Other];
    let copies = tokens.clone();
    assert!(matches!(&copies[0], Token::Ident(name) if name == "P"));
    assert!(matches!(copies[1], Token::Float(Some(3))));
    assert!(matches!(copies[2], Token::Other));
}
