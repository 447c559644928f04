//! Colours to and from `egui::Color32`, which holds four bytes: red, green
//! and blue, each already multiplied by alpha, and alpha.
//!
//! What is said here of `Color32` and its two functions is assumed of egui,
//! not proved.

use vstd::prelude::*;
use vstd::std_specs::convert::FromSpecImpl;
use crate::color::{Color, ColorView, NEUTRAL_INTENSITY};

verus! {

/// `egui::Color32`, whose inside Verus does not see.
#[verifier::external_type_specification]
#[verifier::external_body]
pub struct ExColor32(egui::Color32);

/// The four bytes that a `Color32` holds, in the order red, green, blue,
/// alpha: what `Color32::to_array` gives.
pub uninterp spec fn color32_bytes(c: egui::Color32) -> Seq<u8>;

/// A channel multiplied by an alpha as a fraction of 255, rounded to the
/// nearest, as `Color32` computes it without dividing.
pub open spec fn times_alpha(channel: u8, alpha: u8) -> u8 {
    let p = channel * alpha + 128;
    ((p + p / 256) / 256) as u8
}

/// A channel multiplied by an alpha is their product divided by 255, rounded
/// to the nearest whole number.
pub proof fn lemma_times_alpha_rounds(channel: u8, alpha: u8)
    ensures
        times_alpha(channel, alpha) == (2 * channel * alpha + 255) / 510,
{
    let c = channel as u32;
    let a = alpha as u32;
    assert(c * a <= 255 * 255) by (nonlinear_arith)
        requires
            c <= 255,
            a <= 255,
    ;
    let x: u32 = (c * a) as u32;
    assert(((x + 128) + (x + 128) / 256) / 256 == (2 * x + 255) / 510) by (bit_vector)
        requires
            x <= 65025,
    ;
    assert(2 * channel * alpha == 2 * x) by (nonlinear_arith)
        requires
            x == channel * alpha,
    ;
}

/// The four bytes of the `Color32` for a colour: nothing but zeros where
/// alpha is 0, the channels as they are where it is 255, and else each colour
/// channel multiplied by alpha.
pub open spec fn premultiplied(c: ColorView) -> Seq<u8> {
    if c.a8 == 0 {
        seq![0u8, 0u8, 0u8, 0u8]
    } else if c.a8 == 255 {
        seq![c.r8, c.g8, c.b8, 255u8]
    } else {
        seq![times_alpha(c.r8, c.a8), times_alpha(c.g8, c.a8), times_alpha(c.b8, c.a8), c.a8]
    }
}

/// Assumed of `Color32::from_rgba_unmultiplied`: it takes channels with a
/// separate alpha and gives the value that holds them multiplied by it, as
/// [`premultiplied`] says.
pub assume_specification[ egui::Color32::from_rgba_unmultiplied ](
    r: u8,
    g: u8,
    b: u8,
    a: u8,
) -> (out: egui::Color32)
    ensures
        color32_bytes(out) == premultiplied(
            ColorView { r8: r, g8: g, b8: b, a8: a, intensity16: NEUTRAL_INTENSITY },
        ),
;

/// Assumed of `Color32::to_array`: it gives the four bytes that the value
/// holds.
pub assume_specification[ egui::Color32::to_array ](c: &egui::Color32) -> (out: [u8; 4])
    ensures
        out@ == color32_bytes(*c),
;

impl From<Color> for egui::Color32 {
    /// The `Color32` for a colour. The intensity plays no part.
    fn from(c: Color) -> (out: egui::Color32)
        ensures
            color32_bytes(out) == premultiplied(
                ColorView { intensity16: NEUTRAL_INTENSITY, ..c@ },
            ),
    {
        let (r, g, b, a) = c.channels();
        egui::Color32::from_rgba_unmultiplied(r, g, b, a)
    }
}

impl FromSpecImpl<Color> for egui::Color32 {
    /// The bytes of the result are known, see `from`; that they decide the
    /// result is not.
    open spec fn obeys_from_spec() -> bool {
        false
    }

    open spec fn from_spec(c: Color) -> egui::Color32 {
        choose|out: egui::Color32|
            color32_bytes(out) == premultiplied(ColorView { intensity16: NEUTRAL_INTENSITY, ..c@ })
    }
}

impl FromSpecImpl<egui::Color32> for Color {
    open spec fn obeys_from_spec() -> bool {
        true
    }

    open spec fn from_spec(c: egui::Color32) -> Color {
        Color::of_view(
            ColorView {
                r8: color32_bytes(c)[0],
                g8: color32_bytes(c)[1],
                b8: color32_bytes(c)[2],
                a8: color32_bytes(c)[3],
                intensity16: NEUTRAL_INTENSITY,
            },
        )
    }
}

impl From<egui::Color32> for Color {
    /// The colour whose channels are the four bytes of a `Color32`, as they
    /// are, at the neutral intensity.
    fn from(c: egui::Color32) -> (out: Color)
        ensures
            out@ == (ColorView {
                r8: color32_bytes(c)[0],
                g8: color32_bytes(c)[1],
                b8: color32_bytes(c)[2],
                a8: color32_bytes(c)[3],
                intensity16: NEUTRAL_INTENSITY,
            }),
    {
        let bytes = c.to_array();
        let out = Color::new(bytes[0], bytes[1], bytes[2], bytes[3]);
        proof {
            Color::lemma_of_view(out@);
            Color::lemma_equality(out, Color::of_view(out@));
        }
        out
    }
}

} // verus!
