//! Descriptions of colours and palettes for documentation: each colour as a
//! swatch in CSS notation, with channels in per cent.

use vstd::prelude::*;
use crate::color::{Color, ColorView, NEUTRAL_INTENSITY};
use crate::palette::Palette;

verus! {

/// The character for the digit `d`.
pub open spec fn digit_char(d: nat) -> char
    recommends
        d < 10,
{
    ((0x30 + d) as u8) as char
}

/// `n` in decimal notation.
pub open spec fn decimal(n: nat) -> Seq<char>
    decreases n,
{
    if n < 10 {
        seq![digit_char(n)]
    } else {
        decimal(n / 10).push(digit_char(n % 10))
    }
}

/// A number of hundredths with two decimal places: 50 is `0.50`.
pub open spec fn hundredths(n: nat) -> Seq<char> {
    decimal(n / 100).push('.').push(digit_char(n / 10 % 10)).push(digit_char(n % 10))
}

/// A channel in per cent of 255, rounded to the nearest whole number. No
/// channel lies halfway between two.
pub open spec fn percent(channel: u8) -> nat {
    ((channel as nat) * 200 + 255) / 510
}

/// An intensity in hundredths of one, rounded to the nearest, halves up.
pub open spec fn intensity_hundredths(intensity: u16) -> nat {
    ((intensity as nat) * 100 + 128) / 256
}

/// The three colour channels in per cent, with `sep` between them.
pub open spec fn channels_text(c: ColorView, sep: Seq<char>) -> Seq<char> {
    decimal(percent(c.r8)) + "%"@ + sep + decimal(percent(c.g8)) + "%"@ + sep + decimal(
        percent(c.b8),
    ) + "%"@
}

/// A colour in CSS notation with commas: `rgb(100%, 0%, 0%)`, or with an
/// alpha that is not 255 `rgba(100%, 0%, 0%, 0.50)`.
pub open spec fn css_text(c: ColorView) -> Seq<char> {
    if c.a8 == 255 {
        "rgb("@ + channels_text(c, ", "@) + ")"@
    } else {
        "rgba("@ + channels_text(c, ", "@) + ", "@ + hundredths(percent(c.a8)) + ")"@
    }
}

/// A colour in CSS notation with spaces: `rgb(100% 0% 0%)`, or with an alpha
/// that is not 255 `rgb(100% 0% 0% / 0.50)`.
pub open spec fn css_spaced_text(c: ColorView) -> Seq<char> {
    if c.a8 == 255 {
        "rgb("@ + channels_text(c, " "@) + ")"@
    } else {
        "rgb("@ + channels_text(c, " "@) + " / "@ + hundredths(percent(c.a8)) + ")"@
    }
}

/// The documentation of a colour's constant: a bar in that colour, and the
/// intensity where it is not neutral.
pub open spec fn constant_doc_text(c: ColorView) -> Seq<char> {
    let bar = "<div style=\"background-color: "@ + css_text(c) + "; height: 20px\"></div>"@;
    if c.intensity16 == NEUTRAL_INTENSITY {
        bar
    } else {
        bar + "<br/>intensity "@ + hundredths(intensity_hundredths(c.intensity16))
    }
}

/// The documentation of a colour's accessor: what it returns, and the
/// documentation of the constant.
pub open spec fn accessor_doc_text(palette: Seq<char>, constant: Seq<char>, c: ColorView) -> Seq<
    char,
> {
    "Returns the value of ["@ + palette + "::"@ + constant + "]<br/>"@ + constant_doc_text(c)
}

/// One square of the grid that documents a palette.
pub open spec fn grid_entry_text(c: ColorView) -> Seq<char> {
    "<div style=\"background-color: "@ + css_spaced_text(c)
        + "; width: 20px; height: 20px;\"></div>"@
}

/// The squares of the first `n` colours, one per line.
pub open spec fn grid_text(colors: Seq<ColorView>, n: nat) -> Seq<char>
    decreases n,
{
    if n == 0 {
        Seq::empty()
    } else if n == 1 {
        grid_entry_text(colors[0])
    } else {
        grid_text(colors, (n - 1) as nat) + "\n"@ + grid_entry_text(colors[n - 1])
    }
}

/// The documentation of a palette: its name, the number of its colours, and
/// a grid with one square per colour, eight to a row.
pub open spec fn palette_doc_text(name: Seq<char>, colors: Seq<ColorView>) -> Seq<char> {
    "<span>The "@ + name + " palette, containing "@ + decimal(colors.len()) + " colors.</span> <br />\n\t\t<div style=\"display: grid; grid-template-columns: repeat(8, 20px); grid-auto-rows: 20px;\">"@
        + grid_text(colors, colors.len()) + "</div>"@
}

/// Appends `n` in decimal notation.
pub fn push_decimal(out: &mut String, n: usize)
    ensures
        final(out)@ == old(out)@ + decimal(n as nat),
    decreases n,
{
    if n >= 10 {
        push_decimal(out, n / 10);
    }
    out.push((0x30 + (n % 10) as u8) as char);
    assert(out@ =~= old(out)@ + decimal(n as nat));
}

/// Appends a number of hundredths with two decimal places.
pub fn push_hundredths(out: &mut String, n: usize)
    ensures
        final(out)@ == old(out)@ + hundredths(n as nat),
{
    push_decimal(out, n / 100);
    out.push('.');
    out.push((0x30 + (n / 10 % 10) as u8) as char);
    out.push((0x30 + (n % 10) as u8) as char);
    assert(out@ =~= old(out)@ + hundredths(n as nat));
}

/// A channel in per cent.
pub fn to_percent(channel: u8) -> (p: usize)
    ensures
        p == percent(channel),
        p <= 100,
{
    ((channel as usize) * 200 + 255) / 510
}

/// Appends the three colour channels in per cent, with `sep` between them.
fn push_channels(out: &mut String, color: Color, sep: &str)
    ensures
        final(out)@ == old(out)@ + channels_text(color@, sep@),
{
    let (r, g, b, _) = color.channels();
    push_decimal(out, to_percent(r));
    out.append("%");
    out.append(sep);
    push_decimal(out, to_percent(g));
    out.append("%");
    out.append(sep);
    push_decimal(out, to_percent(b));
    out.append("%");
    assert(out@ =~= old(out)@ + channels_text(color@, sep@));
}

/// Appends a colour in CSS notation with commas.
fn push_css(out: &mut String, color: Color)
    ensures
        final(out)@ == old(out)@ + css_text(color@),
{
    let (_, _, _, a) = color.channels();
    if a == 255 {
        out.append("rgb(");
        push_channels(out, color, ", ");
        out.append(")");
    } else {
        out.append("rgba(");
        push_channels(out, color, ", ");
        out.append(", ");
        push_hundredths(out, to_percent(a));
        out.append(")");
    }
    assert(out@ =~= old(out)@ + css_text(color@));
}

/// Appends a colour in CSS notation with spaces.
fn push_css_spaced(out: &mut String, color: Color)
    ensures
        final(out)@ == old(out)@ + css_spaced_text(color@),
{
    let (_, _, _, a) = color.channels();
    out.append("rgb(");
    push_channels(out, color, " ");
    if a != 255 {
        out.append(" / ");
        push_hundredths(out, to_percent(a));
    }
    out.append(")");
    assert(out@ =~= old(out)@ + css_spaced_text(color@));
}

/// Appends the documentation of a colour's constant.
fn push_constant_doc(out: &mut String, color: Color)
    ensures
        final(out)@ == old(out)@ + constant_doc_text(color@),
{
    out.append("<div style=\"background-color: ");
    push_css(out, color);
    out.append("; height: 20px\"></div>");
    let intensity = color.intensity();
    if intensity != NEUTRAL_INTENSITY {
        out.append("<br/>intensity ");
        push_hundredths(out, ((intensity as usize) * 100 + 128) / 256);
    }
    assert(out@ =~= old(out)@ + constant_doc_text(color@));
}

/// Appends one square of the grid that documents a palette.
fn push_grid_entry(out: &mut String, color: Color)
    ensures
        final(out)@ == old(out)@ + grid_entry_text(color@),
{
    out.append("<div style=\"background-color: ");
    push_css_spaced(out, color);
    out.append("; width: 20px; height: 20px;\"></div>");
    assert(out@ =~= old(out)@ + grid_entry_text(color@));
}

/// A colour in CSS notation with commas.
pub fn css(color: Color) -> (text: String)
    ensures
        text@ == css_text(color@),
{
    let mut text = String::new();
    push_css(&mut text, color);
    assert(text@ =~= css_text(color@));
    text
}

/// The documentation of a colour's constant.
pub fn constant_doc(color: Color) -> (text: String)
    ensures
        text@ == constant_doc_text(color@),
{
    let mut text = String::new();
    push_constant_doc(&mut text, color);
    assert(text@ =~= constant_doc_text(color@));
    text
}

/// The documentation of a colour's accessor, in the palette named `palette`,
/// where the colour's constant is named `constant`.
pub fn accessor_doc(palette: &str, constant: &str, color: Color) -> (text: String)
    ensures
        text@ == accessor_doc_text(palette@, constant@, color@),
{
    let mut text = "Returns the value of [".to_owned();
    text.append(palette);
    text.append("::");
    text.append(constant);
    text.append("]<br/>");
    push_constant_doc(&mut text, color);
    assert(text@ =~= accessor_doc_text(palette@, constant@, color@));
    text
}

/// One square of the grid that documents a palette.
pub fn grid_entry(color: Color) -> (text: String)
    ensures
        text@ == grid_entry_text(color@),
{
    let mut text = String::new();
    push_grid_entry(&mut text, color);
    assert(text@ =~= grid_entry_text(color@));
    text
}

/// The documentation of a palette.
pub fn palette_doc(palette: &Palette) -> (text: String)
    ensures
        text@ == palette_doc_text(palette@.name, palette@.values()),
{
    let colors = palette.all();
    let ghost views = palette@.values();
    let mut text = "<span>The ".to_owned();
    text.append(palette.name());
    text.append(" palette, containing ");
    push_decimal(&mut text, colors.len());
    text.append(
        " colors.</span> <br />\n\t\t<div style=\"display: grid; grid-template-columns: repeat(8, 20px); grid-auto-rows: 20px;\">",
    );
    let ghost head = text@;
    let mut i: usize = 0;
    while i < colors.len()
        invariant
            i <= colors.len(),
            colors.deep_view() == views,
            text@ == head + grid_text(views, i as nat),
        decreases colors.len() - i,
    {
        if i > 0 {
            text.append("\n");
        }
        proof {
            assert(views[i as int] == colors[i as int]@);
        }
        push_grid_entry(&mut text, colors[i]);
        assert(text@ =~= head + grid_text(views, (i + 1) as nat));
        i += 1;
    }
    text.append("</div>");
    assert(text@ =~= palette_doc_text(palette@.name, palette@.values()));
    text
}

} // verus!
