//! Colours: four 8-bit channels and an intensity, made from channel values,
//! from a text in hexadecimal notation, or from scaled amounts.

use vstd::prelude::*;
use vstd::string::StringSliceAdditionalSpecFns;
use crate::error::Error;
use crate::hex::{canonical, decode, lemma_canonical_ascii, parse_hex, push_pair};
use crate::text::{as_chars, lemma_ascii_bytes_encode};

verus! {

/// A colour: four 8-bit channels and an intensity.
///
/// The intensity is a fixed-point factor with 256 as one. It dims the three
/// colour channels when the colour is turned into a floating-point colour,
/// and has no effect at 256.
#[derive(Clone, Copy, Debug, PartialEq, Eq, Structural)]
pub struct Color {
    pub r8: u8,
    pub g8: u8,
    pub b8: u8,
    pub a8: u8,
    intensity16: u16,
}

/// What a [`Color`] is, as a plain value.
pub ghost struct ColorView {
    pub r8: u8,
    pub g8: u8,
    pub b8: u8,
    pub a8: u8,
    pub intensity16: u16,
}

/// The intensity that leaves a colour unchanged.
pub const NEUTRAL_INTENSITY: u16 = 256;

/// The channel for a scaled amount: the amount itself from 0 to 255, 0 for
/// anything below, 255 for anything above.
///
/// A scaled amount is a fraction of one, multiplied by 255 and cut off
/// toward zero.
pub open spec fn channel_of_scaled(scaled: int) -> u8 {
    if scaled <= 0 {
        0
    } else if scaled >= 255 {
        255
    } else {
        scaled as u8
    }
}

/// The intensity for a scaled amount: the amount itself from 0 to 256, 0 for
/// anything below, and 256, the neutral intensity, for anything above. A
/// factor never brightens.
///
/// A scaled amount is a factor, multiplied by 256 and cut off toward zero.
pub open spec fn intensity_of_scaled(scaled: int) -> u16 {
    if scaled <= 0 {
        0
    } else if scaled >= NEUTRAL_INTENSITY {
        NEUTRAL_INTENSITY
    } else {
        scaled as u16
    }
}

/// The opaque colour for three scaled amounts, at the neutral intensity.
pub open spec fn scaled_rgb(r: int, g: int, b: int) -> ColorView {
    ColorView {
        r8: channel_of_scaled(r),
        g8: channel_of_scaled(g),
        b8: channel_of_scaled(b),
        a8: 255,
        intensity16: NEUTRAL_INTENSITY,
    }
}

/// The channel for a scaled amount.
pub fn saturate_channel(scaled: i32) -> (channel: u8)
    ensures
        channel == channel_of_scaled(scaled as int),
{
    if scaled <= 255 {
        if scaled >= 0 {
            scaled as u8
        } else {
            0
        }
    } else {
        255
    }
}

/// The intensity for a scaled amount, which lies from 0 to 256.
pub fn saturate_intensity(scaled: i32) -> (intensity: u16)
    ensures
        intensity == intensity_of_scaled(scaled as int),
        intensity <= NEUTRAL_INTENSITY,
{
    if scaled <= 256 {
        if scaled >= 0 {
            scaled as u16
        } else {
            0
        }
    } else {
        NEUTRAL_INTENSITY
    }
}

impl View for Color {
    type V = ColorView;

    closed spec fn view(&self) -> ColorView {
        ColorView {
            r8: self.r8,
            g8: self.g8,
            b8: self.b8,
            a8: self.a8,
            intensity16: self.intensity16,
        }
    }
}

impl DeepView for Color {
    type V = ColorView;

    open spec fn deep_view(&self) -> ColorView {
        self@
    }
}

impl Color {
    /// The colour that is `v` as a plain value.
    pub closed spec fn of_view(v: ColorView) -> Color {
        Color { r8: v.r8, g8: v.g8, b8: v.b8, a8: v.a8, intensity16: v.intensity16 }
    }

    /// Every plain value is that of a colour.
    pub proof fn lemma_of_view(v: ColorView)
        ensures
            Color::of_view(v)@ == v,
    {
    }

    /// Two colours are the same exactly when their four channels and their
    /// intensities are the same.
    pub proof fn lemma_equality(a: Color, b: Color)
        ensures
            a == b <==> a@ == b@,
    {
    }

    /// A colour with the given channels and the neutral intensity.
    #[must_use]
    pub fn new(r8: u8, g8: u8, b8: u8, a8: u8) -> (c: Color)
        ensures
            c@ == (ColorView { r8, g8, b8, a8, intensity16: NEUTRAL_INTENSITY }),
    {
        Color { r8, g8, b8, a8, intensity16: NEUTRAL_INTENSITY }
    }

    /// This colour with another alpha channel, and the neutral intensity.
    #[must_use]
    pub fn with_alpha_u8(&self, alpha: u8) -> (c: Color)
        ensures
            c@ == (ColorView { a8: alpha, intensity16: NEUTRAL_INTENSITY, ..self@ }),
    {
        Color::new(self.r8, self.g8, self.b8, alpha)
    }

    /// This colour with another intensity. Any value is kept as it is, also
    /// one above the neutral intensity.
    #[must_use]
    pub fn with_intensity_u16_experimental(&self, intensity: u16) -> (c: Color)
        ensures
            c@ == (ColorView { intensity16: intensity, ..self@ }),
    {
        Color { r8: self.r8, g8: self.g8, b8: self.b8, a8: self.a8, intensity16: intensity }
    }

    /// Reads a colour from a text in hexadecimal notation: `#rgb`, `#rgba`,
    /// `#rrggbb` or `#rrggbbaa`, optionally followed by `+` and four digits
    /// of intensity. The text is taken as its bytes.
    ///
    /// # Errors
    /// - `Error::ParseError` - the text is not a colour; the reason is that
    ///   of the first fault in it.
    pub fn try_parse(string: &str) -> (res: Result<Color, Error>)
        ensures
            match decode(string.spec_bytes()) {
                Ok(color) => res matches Ok(c) && c@ == color,
                Err(fault) => res matches Err(e) && e.reason() == fault.message_spec(),
            },
    {
        match parse_hex(string.as_bytes()) {
            Ok(c) => Ok(c),
            Err(fault) => Err(Error::ParseError(fault.message())),
        }
    }

    /// Writes the colour in hexadecimal notation, in lower case: `#rrggbb`,
    /// then the alpha channel unless it is 255, then `+` and the intensity
    /// unless it is neutral. [`Color::try_parse`] reads the text back as the
    /// same colour.
    pub fn to_hex(&self) -> (text: String)
        ensures
            text@ == as_chars(canonical(self@)),
            vstd::utf8::encode_utf8(text@) == canonical(self@),
    {
        let mut text = String::new();
        text.push('#');
        push_pair(&mut text, self.r8);
        push_pair(&mut text, self.g8);
        push_pair(&mut text, self.b8);
        if self.a8 != 255 {
            push_pair(&mut text, self.a8);
        }
        if self.intensity16 != NEUTRAL_INTENSITY {
            text.push('+');
            push_pair(&mut text, (self.intensity16 / 256) as u8);
            push_pair(&mut text, (self.intensity16 % 256) as u8);
        }
        proof {
            assert(text@ =~= as_chars(canonical(self@)));
            lemma_canonical_ascii(self@);
            lemma_ascii_bytes_encode(canonical(self@));
        }
        text
    }

    /// The opaque colour for three scaled amounts, at the neutral intensity.
    #[must_use]
    pub fn from_scaled_rgb(r: i32, g: i32, b: i32) -> (c: Color)
        ensures
            c@ == scaled_rgb(r as int, g as int, b as int),
    {
        Color::new(saturate_channel(r), saturate_channel(g), saturate_channel(b), 255)
    }

    /// The colour for four scaled amounts, at the neutral intensity.
    #[must_use]
    pub fn from_scaled(r: i32, g: i32, b: i32, a: i32) -> (c: Color)
        ensures
            c@ == (ColorView {
                a8: channel_of_scaled(a as int),
                ..scaled_rgb(r as int, g as int, b as int)
            }),
    {
        Color::new(
            saturate_channel(r),
            saturate_channel(g),
            saturate_channel(b),
            saturate_channel(a),
        )
    }

    /// This colour with the alpha channel for a scaled amount, and the
    /// neutral intensity.
    #[must_use]
    pub fn with_alpha_scaled(&self, scaled: i32) -> (c: Color)
        ensures
            c@ == (ColorView {
                a8: channel_of_scaled(scaled as int),
                intensity16: NEUTRAL_INTENSITY,
                ..self@
            }),
    {
        self.with_alpha_u8(saturate_channel(scaled))
    }

    /// This colour with the intensity for a scaled amount, which lies from 0
    /// to 256: a factor of one or more gives the neutral intensity.
    #[must_use]
    pub fn with_intensity_scaled(&self, scaled: i32) -> (c: Color)
        ensures
            c@ == (ColorView { intensity16: intensity_of_scaled(scaled as int), ..self@ }),
            c@.intensity16 <= NEUTRAL_INTENSITY,
    {
        self.with_intensity_u16_experimental(saturate_intensity(scaled))
    }

    /// The colour channels multiplied by the intensity, for a colour whose
    /// intensity is not neutral; `None` for one whose intensity is neutral,
    /// whose channels stand as they are.
    pub fn dimmed(&self) -> (products: Option<(u32, u32, u32)>)
        ensures
            products is None <==> self@.intensity16 == NEUTRAL_INTENSITY,
            products matches Some((r, g, b)) ==> {
                &&& r == self@.r8 * self@.intensity16
                &&& g == self@.g8 * self@.intensity16
                &&& b == self@.b8 * self@.intensity16
            },
    {
        if self.intensity16 == NEUTRAL_INTENSITY {
            None
        } else {
            let i = self.intensity16 as u32;
            assert(self.r8 * self.intensity16 <= 255 * 65535) by (nonlinear_arith)
                requires
                    self.r8 <= 255,
                    self.intensity16 <= 65535,
            ;
            assert(self.g8 * self.intensity16 <= 255 * 65535) by (nonlinear_arith)
                requires
                    self.g8 <= 255,
                    self.intensity16 <= 65535,
            ;
            assert(self.b8 * self.intensity16 <= 255 * 65535) by (nonlinear_arith)
                requires
                    self.b8 <= 255,
                    self.intensity16 <= 65535,
            ;
            Some(((self.r8 as u32) * i, (self.g8 as u32) * i, (self.b8 as u32) * i))
        }
    }

    /// The four channels: red, green, blue, alpha.
    pub fn channels(&self) -> (rgba: (u8, u8, u8, u8))
        ensures
            rgba == (self@.r8, self@.g8, self@.b8, self@.a8),
    {
        (self.r8, self.g8, self.b8, self.a8)
    }

    /// The intensity of this colour.
    pub fn intensity(&self) -> (i: u16)
        ensures
            i == self@.intensity16,
    {
        self.intensity16
    }
}

} // verus!
