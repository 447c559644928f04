use weirdboi_bevy_colour::{normalize_color_name, to_lower_snake_case, to_upper_snake_case};

#[test]
fn upper_snake_case() {
    assert_eq!(to_upper_snake_case("customColor"), "CUSTOM_COLOR");
    assert_eq!(to_upper_snake_case("red"), "RED");
    assert_eq!(to_upper_snake_case(""), "");
    assert_eq!(to_upper_snake_case("aB"), "A_B");
    assert_eq!(to_upper_snake_case("Ab"), "AB");
    assert_eq!(to_upper_snake_case("someOtherColor2"), "SOME_OTHER_COLOR2");
    assert_eq!(to_upper_snake_case("transparent_black"), "TRANSPARENT_BLACK");
}

#[test]
fn upper_snake_case_keeps_a_run_of_capitals_together() {
    assert_eq!(to_upper_snake_case("HTMLColor"), "HTMLCOLOR");
    assert_eq!(to_upper_snake_case("myHTMLColor"), "MY_HTMLCOLOR");
}

#[test]
fn lower_snake_case() {
    assert_eq!(to_lower_snake_case("customColor"), "custom_color");
    assert_eq!(to_lower_snake_case("red"), "red");
    assert_eq!(to_lower_snake_case(""), "");
    assert_eq!(to_lower_snake_case("aB"), "a_b");
    assert_eq!(to_lower_snake_case("Ab"), "ab");
    assert_eq!(to_lower_snake_case("HTMLColor"), "htmlcolor");
    assert_eq!(to_lower_snake_case("myHTMLColor"), "my_htmlcolor");
    assert_eq!(to_lower_snake_case("with-dash and space"), "with-dash and space");
}

#[test]
fn snake_case_beyond_ascii() {
    // A capital outside ASCII starts a word and is left as it is.
    assert_eq!(to_upper_snake_case("\u{e9}\u{c9}a"), "\u{e9}_\u{c9}A");
    assert_eq!(to_lower_snake_case("\u{e9}\u{c9}A"), "\u{e9}_\u{c9}a");
}

#[test]
fn lookup_keys() {
    assert_eq!(normalize_color_name("customColor"), "customcolor");
    assert_eq!(normalize_color_name("CUSTOM_COLOR"), "customcolor");
    assert_eq!(normalize_color_name("custom-color"), "customcolor");
    assert_eq!(normalize_color_name("custom_color"), "customcolor");
    assert_eq!(normalize_color_name(" Custom Color 2! "), "customcolor2");
    assert_eq!(normalize_color_name(""), "");
    assert_eq!(normalize_color_name("-_-"), "");
    assert_eq!(normalize_color_name("\u{c9}t\u{e9}"), "\u{c9}t\u{e9}");
}
