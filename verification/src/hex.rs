//! The hexadecimal notation for colours: `#rgb`, `#rgba`, `#rrggbb` and
//! `#rrggbbaa`, each optionally followed by `+` and four digits of intensity.
//!
//! The notation is defined on bytes. [`decode`] says what a text denotes,
//! [`canonical`] is the text that this library writes for a colour;
//! [`parse_hex`] computes the first and `Color::to_hex` the second.

use vstd::prelude::*;
use crate::color::{Color, ColorView, NEUTRAL_INTENSITY};
use crate::text::{as_chars, is_ascii_bytes};

verus! {

/// The byte `#`, which starts every colour text.
pub const HASH: u8 = 0x23;

/// The byte `+`, which starts an intensity suffix.
pub const PLUS: u8 = 0x2b;

/// How many bytes an intensity suffix takes: `+` and four digits.
pub const SUFFIX_LEN: usize = 5;

/// The four shapes of the digits between `#` and the intensity suffix.
#[derive(Clone, Copy, Debug, PartialEq, Eq, Structural)]
pub enum HexForm {
    /// Three digits, one per colour channel, each standing for itself twice.
    Rgb,
    /// Four digits, one per channel, each standing for itself twice.
    Rgba,
    /// Six digits, two per colour channel.
    Rrggbb,
    /// Eight digits, two per channel.
    Rrggbbaa,
}

/// One of the four channels of a colour.
#[derive(Clone, Copy, Debug, PartialEq, Eq, Structural)]
pub enum Channel {
    Red,
    Green,
    Blue,
    Alpha,
}

/// Why a text is not a colour.
#[derive(Clone, Copy, Debug, PartialEq, Eq, Structural)]
pub enum HexFault {
    /// The text does not start with `#`.
    MissingHash,
    /// An intensity suffix holds something other than four hexadecimal digits.
    Intensity,
    /// The digits have one of the four shapes, and those of `channel` are not
    /// hexadecimal.
    Digit { form: HexForm, channel: Channel },
    /// The digits have none of the four shapes.
    Length,
}

impl HexForm {
    /// Whether one digit stands for a whole channel.
    pub open spec fn is_short(self) -> bool {
        self is Rgb || self is Rgba
    }

    /// Whether the form writes the alpha channel.
    pub open spec fn has_alpha(self) -> bool {
        self is Rgba || self is Rrggbbaa
    }

    /// The number of digits of the form.
    pub open spec fn digits(self) -> int {
        match self {
            HexForm::Rgb => 3,
            HexForm::Rgba => 4,
            HexForm::Rrggbb => 6,
            HexForm::Rrggbbaa => 8,
        }
    }

    /// The form with `len` digits, if there is one.
    pub open spec fn of_len(len: int) -> Option<HexForm> {
        if len == 3 {
            Some(HexForm::Rgb)
        } else if len == 4 {
            Some(HexForm::Rgba)
        } else if len == 6 {
            Some(HexForm::Rrggbb)
        } else if len == 8 {
            Some(HexForm::Rrggbbaa)
        } else {
            None
        }
    }

    /// The form with `len` digits, if there is one.
    pub fn from_len(len: usize) -> (form: Option<HexForm>)
        ensures
            form == HexForm::of_len(len as int),
    {
        if len == 3 {
            Some(HexForm::Rgb)
        } else if len == 4 {
            Some(HexForm::Rgba)
        } else if len == 6 {
            Some(HexForm::Rrggbb)
        } else if len == 8 {
            Some(HexForm::Rrggbbaa)
        } else {
            None
        }
    }

    /// Whether one digit stands for a whole channel.
    pub fn short(self) -> (b: bool)
        ensures
            b == self.is_short(),
    {
        match self {
            HexForm::Rgb | HexForm::Rgba => true,
            HexForm::Rrggbb | HexForm::Rrggbbaa => false,
        }
    }

    /// Whether the form writes the alpha channel.
    pub fn alpha(self) -> (b: bool)
        ensures
            b == self.has_alpha(),
    {
        match self {
            HexForm::Rgba | HexForm::Rrggbbaa => true,
            HexForm::Rgb | HexForm::Rrggbb => false,
        }
    }
}

impl HexFault {
    /// The words for this fault.
    pub open spec fn message_spec(self) -> Seq<char> {
        match self {
            HexFault::MissingHash => "HTML hex color string must start with '#'."@,
            HexFault::Intensity => "Error parsing intensity portion: invalid digit found in string"@,
            HexFault::Digit { form, channel } => "Error parsing #"@ + pattern_spec(form, channel)
                + " portion: invalid digit found in string"@,
            HexFault::Length => "Hex color must be in #rrggbb, #rrggbbaa, #rgb, or #rgba format."@,
        }
    }

    /// The words for this fault.
    pub fn message(self) -> (words: String)
        ensures
            words@ == self.message_spec(),
    {
        match self {
            HexFault::MissingHash => "HTML hex color string must start with '#'.".to_owned(),
            HexFault::Intensity => {
                "Error parsing intensity portion: invalid digit found in string".to_owned()
            },
            HexFault::Digit { form, channel } => {
                let mut words = "Error parsing #".to_owned();
                words.append(pattern(form, channel));
                words.append(" portion: invalid digit found in string");
                words
            },
            HexFault::Length => {
                "Hex color must be in #rrggbb, #rrggbbaa, #rgb, or #rgba format.".to_owned()
            },
        }
    }
}

/// The letters of a form with those of one channel in upper case, as the
/// message for a bad digit shows them. A form without alpha has no such
/// letters for the alpha channel, and is shown in lower case.
pub open spec fn pattern_spec(form: HexForm, channel: Channel) -> Seq<char> {
    match (form, channel) {
        (HexForm::Rgb, Channel::Red) => "Rgb"@,
        (HexForm::Rgb, Channel::Green) => "rGb"@,
        (HexForm::Rgb, Channel::Blue) => "rgB"@,
        (HexForm::Rgb, Channel::Alpha) => "rgb"@,
        (HexForm::Rgba, Channel::Red) => "Rgba"@,
        (HexForm::Rgba, Channel::Green) => "rGba"@,
        (HexForm::Rgba, Channel::Blue) => "rgBa"@,
        (HexForm::Rgba, Channel::Alpha) => "rgbA"@,
        (HexForm::Rrggbb, Channel::Red) => "RRggbb"@,
        (HexForm::Rrggbb, Channel::Green) => "rrGGbb"@,
        (HexForm::Rrggbb, Channel::Blue) => "rrggBB"@,
        (HexForm::Rrggbb, Channel::Alpha) => "rrggbb"@,
        (HexForm::Rrggbbaa, Channel::Red) => "RRggbbaa"@,
        (HexForm::Rrggbbaa, Channel::Green) => "rrGGbbaa"@,
        (HexForm::Rrggbbaa, Channel::Blue) => "rrggBBaa"@,
        (HexForm::Rrggbbaa, Channel::Alpha) => "rrggbbAA"@,
    }
}

/// The letters of a form with those of one channel in upper case.
pub fn pattern(form: HexForm, channel: Channel) -> (letters: &'static str)
    ensures
        letters@ == pattern_spec(form, channel),
{
    match (form, channel) {
        (HexForm::Rgb, Channel::Red) => "Rgb",
        (HexForm::Rgb, Channel::Green) => "rGb",
        (HexForm::Rgb, Channel::Blue) => "rgB",
        (HexForm::Rgb, Channel::Alpha) => "rgb",
        (HexForm::Rgba, Channel::Red) => "Rgba",
        (HexForm::Rgba, Channel::Green) => "rGba",
        (HexForm::Rgba, Channel::Blue) => "rgBa",
        (HexForm::Rgba, Channel::Alpha) => "rgbA",
        (HexForm::Rrggbb, Channel::Red) => "RRggbb",
        (HexForm::Rrggbb, Channel::Green) => "rrGGbb",
        (HexForm::Rrggbb, Channel::Blue) => "rrggBB",
        (HexForm::Rrggbb, Channel::Alpha) => "rrggbb",
        (HexForm::Rrggbbaa, Channel::Red) => "RRggbbaa",
        (HexForm::Rrggbbaa, Channel::Green) => "rrGGbbaa",
        (HexForm::Rrggbbaa, Channel::Blue) => "rrggBBaa",
        (HexForm::Rrggbbaa, Channel::Alpha) => "rrggbbAA",
    }
}

impl Channel {
    /// The place of the channel among the four: red is 0, alpha is 3.
    pub open spec fn index(self) -> int {
        match self {
            Channel::Red => 0,
            Channel::Green => 1,
            Channel::Blue => 2,
            Channel::Alpha => 3,
        }
    }

    /// The place of the channel among the four: red is 0, alpha is 3.
    pub fn position(self) -> (k: usize)
        ensures
            k == self.index(),
    {
        match self {
            Channel::Red => 0,
            Channel::Green => 1,
            Channel::Blue => 2,
            Channel::Alpha => 3,
        }
    }
}

/// Whether `b` is one of `0`-`9`, `a`-`f`, `A`-`F`.
pub open spec fn is_hex_digit(b: u8) -> bool {
    (0x30 <= b <= 0x39) || (0x61 <= b <= 0x66) || (0x41 <= b <= 0x46)
}

/// The number that the hexadecimal digit `b` stands for.
pub open spec fn hex_value(b: u8) -> int
    recommends
        is_hex_digit(b),
{
    if 0x30 <= b <= 0x39 {
        b - 0x30
    } else if 0x61 <= b <= 0x66 {
        b - 0x61 + 10
    } else {
        b - 0x41 + 10
    }
}

/// The number that the two digits `hi`, `lo` stand for.
pub open spec fn pair_value(hi: u8, lo: u8) -> int {
    16 * hex_value(hi) + hex_value(lo)
}

/// The lower-case digit for `d`, which is below 16.
pub open spec fn hex_digit_of(d: int) -> u8
    recommends
        0 <= d < 16,
{
    if d < 10 {
        (0x30 + d) as u8
    } else {
        (0x61 + d - 10) as u8
    }
}

/// The two lower-case digits that stand for `v`.
pub open spec fn pair_of(v: u8) -> Seq<u8> {
    seq![hex_digit_of(v as int / 16), hex_digit_of(v as int % 16)]
}

/// The text between `#` and the end.
pub open spec fn body(text: Seq<u8>) -> Seq<u8> {
    text.skip(1)
}

/// Whether a body ends in an intensity suffix: its fifth byte from the end is `+`.
pub open spec fn has_suffix(body: Seq<u8>) -> bool {
    body.len() >= SUFFIX_LEN && body[body.len() - SUFFIX_LEN] == PLUS
}

/// The digits of the channels: the body without its intensity suffix.
pub open spec fn channel_digits(body: Seq<u8>) -> Seq<u8> {
    if has_suffix(body) {
        body.take(body.len() - SUFFIX_LEN)
    } else {
        body
    }
}

/// The four bytes that follow the `+` of an intensity suffix.
pub open spec fn suffix_digits(body: Seq<u8>) -> Seq<u8>
    recommends
        has_suffix(body),
{
    body.skip(body.len() - 4)
}

/// Whether the four bytes of `s` are hexadecimal digits.
pub open spec fn quad_ok(s: Seq<u8>) -> bool
    recommends
        s.len() == 4,
{
    is_hex_digit(s[0]) && is_hex_digit(s[1]) && is_hex_digit(s[2]) && is_hex_digit(s[3])
}

/// The number that the four digits of `s` stand for.
pub open spec fn quad_value(s: Seq<u8>) -> int
    recommends
        s.len() == 4,
{
    256 * pair_value(s[0], s[1]) + pair_value(s[2], s[3])
}

/// The first digit of channel `k` in `digits`, which have the form `form`.
pub open spec fn channel_hi(digits: Seq<u8>, form: HexForm, k: int) -> u8 {
    if form.is_short() {
        digits[k]
    } else {
        digits[2 * k]
    }
}

/// The second digit of channel `k`: for a short form the first one again.
pub open spec fn channel_lo(digits: Seq<u8>, form: HexForm, k: int) -> u8 {
    if form.is_short() {
        digits[k]
    } else {
        digits[2 * k + 1]
    }
}

/// Whether the digits of channel `k` are hexadecimal.
pub open spec fn channel_ok(digits: Seq<u8>, form: HexForm, k: int) -> bool {
    is_hex_digit(channel_hi(digits, form, k)) && is_hex_digit(channel_lo(digits, form, k))
}

/// The value of channel `k`.
pub open spec fn channel_value(digits: Seq<u8>, form: HexForm, k: int) -> u8 {
    pair_value(channel_hi(digits, form, k), channel_lo(digits, form, k)) as u8
}

/// The colour that digits of a known form denote, or the first channel, in the
/// order red, green, blue, alpha, whose digits are not hexadecimal.
pub open spec fn decode_channels(digits: Seq<u8>, form: HexForm, intensity: u16) -> Result<
    ColorView,
    HexFault,
> {
    if !channel_ok(digits, form, Channel::Red.index()) {
        Err(HexFault::Digit { form, channel: Channel::Red })
    } else if !channel_ok(digits, form, Channel::Green.index()) {
        Err(HexFault::Digit { form, channel: Channel::Green })
    } else if !channel_ok(digits, form, Channel::Blue.index()) {
        Err(HexFault::Digit { form, channel: Channel::Blue })
    } else if form.has_alpha() && !channel_ok(digits, form, Channel::Alpha.index()) {
        Err(HexFault::Digit { form, channel: Channel::Alpha })
    } else {
        Ok(
            ColorView {
                r8: channel_value(digits, form, Channel::Red.index()),
                g8: channel_value(digits, form, Channel::Green.index()),
                b8: channel_value(digits, form, Channel::Blue.index()),
                a8: if form.has_alpha() {
                    channel_value(digits, form, Channel::Alpha.index())
                } else {
                    255
                },
                intensity16: intensity,
            },
        )
    }
}

/// What a text denotes: a colour, or the first thing that is wrong with it.
///
/// A text starts with `#`. Where the fifth byte from the end of the rest is
/// `+`, the four bytes after it are the intensity, and the digits of the
/// channels end before it; else the intensity is neutral. The number of
/// channel digits decides their form.
pub open spec fn decode(text: Seq<u8>) -> Result<ColorView, HexFault> {
    if text.len() == 0 || text[0] != HASH {
        Err(HexFault::MissingHash)
    } else if has_suffix(body(text)) && !quad_ok(suffix_digits(body(text))) {
        Err(HexFault::Intensity)
    } else {
        let digits = channel_digits(body(text));
        let intensity = if has_suffix(body(text)) {
            quad_value(suffix_digits(body(text))) as u16
        } else {
            NEUTRAL_INTENSITY
        };
        match HexForm::of_len(digits.len() as int) {
            None => Err(HexFault::Length),
            Some(form) => decode_channels(digits, form, intensity),
        }
    }
}

/// The text that this library writes for a colour: `#`, two lower-case digits
/// for each of red, green and blue, two for alpha unless it is 255, and `+`
/// with four digits of intensity unless that is neutral.
pub open spec fn canonical(c: ColorView) -> Seq<u8> {
    let rgb = seq![HASH] + pair_of(c.r8) + pair_of(c.g8) + pair_of(c.b8);
    let rgba = if c.a8 == 255 {
        rgb
    } else {
        rgb + pair_of(c.a8)
    };
    if c.intensity16 == NEUTRAL_INTENSITY {
        rgba
    } else {
        rgba + seq![PLUS] + pair_of((c.intensity16 / 256) as u8) + pair_of(
            (c.intensity16 % 256) as u8,
        )
    }
}

/// The value of a hexadecimal digit, or `None` for any other byte.
pub fn hex_digit(b: u8) -> (v: Option<u8>)
    ensures
        v is Some <==> is_hex_digit(b),
        v matches Some(d) ==> d == hex_value(b) && d < 16,
{
    if 0x30 <= b && b <= 0x39 {
        Some(b - 0x30)
    } else if 0x61 <= b && b <= 0x66 {
        Some(b - 0x61 + 10)
    } else if 0x41 <= b && b <= 0x46 {
        Some(b - 0x41 + 10)
    } else {
        None
    }
}

/// The value of two hexadecimal digits, or `None` if one of them is none.
pub fn hex_pair(hi: u8, lo: u8) -> (v: Option<u8>)
    ensures
        v is Some <==> is_hex_digit(hi) && is_hex_digit(lo),
        v matches Some(p) ==> p == pair_value(hi, lo),
{
    match (hex_digit(hi), hex_digit(lo)) {
        (Some(h), Some(l)) => Some(h * 16 + l),
        _ => None,
    }
}

/// The value of one channel of a text whose channel digits have the form
/// `form`, or `None` where the digits of the channel are not hexadecimal.
fn read_channel(text: &[u8], form: HexForm, channel: Channel) -> (v: Option<u8>)
    requires
        1 + form.digits() <= text@.len(),
        channel is Alpha ==> form.has_alpha(),
    ensures
        v is Some <==> channel_ok(body(text@), form, channel.index()),
        v matches Some(p) ==> p == channel_value(body(text@), form, channel.index()),
{
    let k = channel.position();
    if form.short() {
        hex_pair(text[1 + k], text[1 + k])
    } else {
        hex_pair(text[1 + 2 * k], text[2 + 2 * k])
    }
}

/// Reads a colour from the bytes of a text.
pub fn parse_hex(text: &[u8]) -> (res: Result<Color, HexFault>)
    ensures
        match res {
            Ok(c) => decode(text@) == Ok::<ColorView, HexFault>(c@),
            Err(fault) => decode(text@) == Err::<ColorView, HexFault>(fault),
        },
{
    let n = text.len();
    if n == 0 || text[0] != HASH {
        return Err(HexFault::MissingHash);
    }
    let ghost whole = body(text@);
    let mut intensity: u16 = NEUTRAL_INTENSITY;
    let mut len: usize = n - 1;
    if len >= SUFFIX_LEN && text[n - SUFFIX_LEN] == PLUS {
        let hi = hex_pair(text[n - 4], text[n - 3]);
        let lo = hex_pair(text[n - 2], text[n - 1]);
        match (hi, lo) {
            (Some(h), Some(l)) => {
                intensity = (h as u16) * 256 + (l as u16);
            },
            _ => {
                return Err(HexFault::Intensity);
            },
        }
        len = len - SUFFIX_LEN;
    }
    let ghost digits = channel_digits(whole);
    assert(digits.len() == len);
    assert(forall|i: int| 0 <= i < len ==> digits[i] == whole[i]);
    let form = match HexForm::from_len(len) {
        Some(form) => form,
        None => {
            return Err(HexFault::Length);
        },
    };
    let r = match read_channel(text, form, Channel::Red) {
        Some(v) => v,
        None => {
            return Err(HexFault::Digit { form, channel: Channel::Red });
        },
    };
    let g = match read_channel(text, form, Channel::Green) {
        Some(v) => v,
        None => {
            return Err(HexFault::Digit { form, channel: Channel::Green });
        },
    };
    let b = match read_channel(text, form, Channel::Blue) {
        Some(v) => v,
        None => {
            return Err(HexFault::Digit { form, channel: Channel::Blue });
        },
    };
    let a = if form.alpha() {
        match read_channel(text, form, Channel::Alpha) {
            Some(v) => v,
            None => {
                return Err(HexFault::Digit { form, channel: Channel::Alpha });
            },
        }
    } else {
        255
    };
    Ok(Color::new(r, g, b, a).with_intensity_u16_experimental(intensity))
}

/// The lower-case hexadecimal digit for `d`.
fn hex_digit_byte(d: u8) -> (b: u8)
    requires
        d < 16,
    ensures
        b == hex_digit_of(d as int),
{
    if d < 10 {
        0x30 + d
    } else {
        0x61 + (d - 10)
    }
}

/// Appends the two lower-case digits of `v` to `out`.
pub fn push_pair(out: &mut String, v: u8)
    ensures
        final(out)@ == old(out)@ + as_chars(pair_of(v)),
{
    out.push(hex_digit_byte(v / 16) as char);
    out.push(hex_digit_byte(v % 16) as char);
    assert(out@ =~= old(out)@ + as_chars(pair_of(v)));
}

/// The two digits written for a byte are hexadecimal digits, none of them is
/// `+` or above 127, and they stand for that byte.
pub proof fn lemma_pair_of(v: u8)
    ensures
        pair_of(v).len() == 2,
        is_hex_digit(pair_of(v)[0]),
        is_hex_digit(pair_of(v)[1]),
        pair_value(pair_of(v)[0], pair_of(v)[1]) == v,
        pair_of(v)[0] != PLUS,
        pair_of(v)[1] != PLUS,
        pair_of(v)[0] < 128,
        pair_of(v)[1] < 128,
{
}

/// Reading the text that is written for a colour gives that colour back,
/// whatever the colour: the channels and the intensity come back exactly.
pub proof fn lemma_decode_canonical(c: ColorView)
    ensures
        decode(canonical(c)) == Ok::<ColorView, HexFault>(c),
{
    let text = canonical(c);
    let r = pair_of(c.r8);
    let g = pair_of(c.g8);
    let b = pair_of(c.b8);
    let a = pair_of(c.a8);
    let hi = pair_of((c.intensity16 / 256) as u8);
    let lo = pair_of((c.intensity16 % 256) as u8);
    lemma_pair_of(c.r8);
    lemma_pair_of(c.g8);
    lemma_pair_of(c.b8);
    lemma_pair_of(c.a8);
    lemma_pair_of((c.intensity16 / 256) as u8);
    lemma_pair_of((c.intensity16 % 256) as u8);
    let rgb = seq![HASH, r[0], r[1], g[0], g[1], b[0], b[1]];
    assert(seq![HASH] + r + g + b =~= rgb);
    let rgba = if c.a8 == 255 {
        rgb
    } else {
        rgb + a
    };
    let rest = body(text);
    let digits = channel_digits(rest);
    if c.intensity16 == NEUTRAL_INTENSITY {
        assert(text =~= rgba);
        assert(!has_suffix(rest));
        assert(digits =~= rgba.skip(1));
    } else {
        let suffix = seq![PLUS, hi[0], hi[1], lo[0], lo[1]];
        assert(text =~= rgba + suffix);
        assert(rest[rest.len() - SUFFIX_LEN] == PLUS);
        assert(has_suffix(rest));
        assert(suffix_digits(rest) =~= seq![hi[0], hi[1], lo[0], lo[1]]);
        assert(digits =~= rgba.skip(1));
    }
    if c.a8 == 255 {
        assert(HexForm::of_len(digits.len() as int) == Some(HexForm::Rrggbb));
    } else {
        assert(HexForm::of_len(digits.len() as int) == Some(HexForm::Rrggbbaa));
    }
}

/// A text that is a colour, read and written again, is a text of the same
/// colour: the channels and the intensity come back exactly, for each of the
/// four forms.
pub proof fn lemma_reencode(text: Seq<u8>)
    requires
        decode(text) is Ok,
    ensures
        decode(canonical(decode(text)->Ok_0)) == decode(text),
{
    lemma_decode_canonical(decode(text)->Ok_0);
}

/// A short form gives each of its channels one of sixteen values, the
/// multiples of 17, so a colour with another channel value has no short form.
pub proof fn lemma_short_form_values(digits: Seq<u8>, form: HexForm, intensity: u16)
    requires
        form.is_short(),
        decode_channels(digits, form, intensity) is Ok,
    ensures
        ({
            let c = decode_channels(digits, form, intensity)->Ok_0;
            &&& c.r8 % 17 == 0
            &&& c.g8 % 17 == 0
            &&& c.b8 % 17 == 0
            &&& c.a8 % 17 == 0
        }),
{
}

/// The text written for a colour holds bytes below 128 only.
pub proof fn lemma_canonical_ascii(c: ColorView)
    ensures
        is_ascii_bytes(canonical(c)),
{
    lemma_pair_of(c.r8);
    lemma_pair_of(c.g8);
    lemma_pair_of(c.b8);
    lemma_pair_of(c.a8);
    lemma_pair_of((c.intensity16 / 256) as u8);
    lemma_pair_of((c.intensity16 % 256) as u8);
}

} // verus!
