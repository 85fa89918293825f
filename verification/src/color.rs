//! Color literals. Parsing the literal syntax (named colors, hex and
//! functional notation) is delegated to an outside color library; the model
//! only keeps the normalized result.

use vstd::prelude::*;
use crate::model::Rgba;

verus! {

/// What the color library makes of a literal: `None` where the bytes are no
/// accepted color, otherwise the normalized channels, one byte each, in
/// red-green-blue-alpha order. The outcome depends on the bytes alone.
pub uninterp spec fn color_of(s: Seq<u8>) -> Option<(u8, u8, u8, u8)>;

/// Relies on `csscolorparser::parse` to read a color literal, and on
/// `csscolorparser::Color::to_rgba8` to normalize it to one byte per
/// channel; both are pure functions of the input text.
#[verifier::external_body]
fn parse_color_raw(s: &[u8]) -> (r: Option<(u8, u8, u8, u8)>)
    ensures
        r == color_of(s@),
{
    match std::str::from_utf8(s) {
        Ok(text) => match csscolorparser::parse(text) {
            Ok(c) => {
                let [red, green, blue, alpha] = c.to_rgba8();
                Some((red, green, blue, alpha))
            },
            Err(_) => None,
        },
        Err(_) => None,
    }
}

/// Parse a color literal to its normalized RGBA value, or `None` where the
/// bytes are no accepted literal.
pub fn parse_color(s: &[u8]) -> (r: Option<Rgba>)
    ensures
        match color_of(s@) {
            Some(c) => r == Some(Rgba { r: c.0, g: c.1, b: c.2, a: c.3 }),
            None => r is None,
        },
{
    match parse_color_raw(s) {
        Some(c) => Some(Rgba { r: c.0, g: c.1, b: c.2, a: c.3 }),
        None => None,
    }
}

/// The model color that a literal denotes, where it denotes one.
pub open spec fn rgba_of(c: (u8, u8, u8, u8)) -> Rgba {
    Rgba { r: c.0, g: c.1, b: c.2, a: c.3 }
}

} // verus!
