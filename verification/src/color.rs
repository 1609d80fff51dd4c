//! Resolution of wire colors into the canonical color value.
//!
//! A wire color is either a hex string, kept exactly as given, or an
//! (r, g, b) triplet whose components are truncated into 8-bit channels.
//! The canonical string form of a color is the hex string itself, or
//! `rgb(r,g,b)` with the channels written in decimal.

use vstd::prelude::*;

use crate::error::RendererError;
use crate::wire::{ChartElementColor, ChartViewColors, ColorValue, SpecColorValue, SpecElementColor, SpecViewColors};

verus! {

/// A resolved color: a hex string as given on the wire, or an RGB triplet
/// of 8-bit channels.
#[derive(Clone, Debug, PartialEq, Eq)]
pub enum Color {
    Hex(String),
    Rgb(u8, u8, u8),
}

/// Spec model of [`Color`].
pub enum SpecColor {
    Hex(Seq<char>),
    Rgb(u8, u8, u8),
}

impl DeepView for Color {
    type V = SpecColor;

    open spec fn deep_view(&self) -> SpecColor {
        match self {
            Color::Hex(s) => SpecColor::Hex(s@),
            Color::Rgb(r, g, b) => SpecColor::Rgb(*r, *g, *b),
        }
    }
}

/// The decimal digit character for a value below ten.
pub open spec fn spec_digit_char(d: nat) -> char {
    if d == 0 {
        '0'
    } else if d == 1 {
        '1'
    } else if d == 2 {
        '2'
    } else if d == 3 {
        '3'
    } else if d == 4 {
        '4'
    } else if d == 5 {
        '5'
    } else if d == 6 {
        '6'
    } else if d == 7 {
        '7'
    } else if d == 8 {
        '8'
    } else {
        '9'
    }
}

/// The decimal notation of a natural number, without leading zeros.
pub open spec fn spec_decimal(n: nat) -> Seq<char>
    decreases n,
{
    if n < 10 {
        seq![spec_digit_char(n)]
    } else {
        spec_decimal(n / 10) + seq![spec_digit_char(n % 10)]
    }
}

/// The canonical string form of a color: a hex color is its hex string as
/// given; an RGB color is `rgb(r,g,b)` with decimal channels.
pub open spec fn spec_color_string(c: SpecColor) -> Seq<char> {
    match c {
        SpecColor::Hex(s) => s,
        SpecColor::Rgb(r, g, b) => "rgb("@ + spec_decimal(r as nat) + ","@ + spec_decimal(
            g as nat,
        ) + ","@ + spec_decimal(b as nat) + ")"@,
    }
}

/// The digit character of a value below ten.
fn digit_str(d: u8) -> (r: &'static str)
    requires
        d < 10,
    ensures
        r@ =~= seq![spec_digit_char(d as nat)],
{
    proof {
        reveal_strlit("0");
        reveal_strlit("1");
        reveal_strlit("2");
        reveal_strlit("3");
        reveal_strlit("4");
        reveal_strlit("5");
        reveal_strlit("6");
        reveal_strlit("7");
        reveal_strlit("8");
        reveal_strlit("9");
    }
    if d == 0 {
        "0"
    } else if d == 1 {
        "1"
    } else if d == 2 {
        "2"
    } else if d == 3 {
        "3"
    } else if d == 4 {
        "4"
    } else if d == 5 {
        "5"
    } else if d == 6 {
        "6"
    } else if d == 7 {
        "7"
    } else if d == 8 {
        "8"
    } else {
        "9"
    }
}

/// The decimal notation of an 8-bit channel value.
fn decimal_u8(n: u8) -> (r: String)
    ensures
        r@ == spec_decimal(n as nat),
{
    if n < 10 {
        digit_str(n).to_owned()
    } else if n < 100 {
        let mut s = digit_str(n / 10).to_owned();
        s.append(digit_str(n % 10));
        proof {
            reveal_with_fuel(spec_decimal, 3);
            assert(s@ =~= spec_decimal(n as nat));
        }
        s
    } else {
        let q = n / 10;
        let mut s = digit_str(q / 10).to_owned();
        s.append(digit_str(q % 10));
        s.append(digit_str(n % 10));
        proof {
            reveal_with_fuel(spec_decimal, 4);
            assert(s@ =~= spec_decimal(n as nat));
        }
        s
    }
}

impl Color {
    /// The canonical string form of this color, as
    /// [`spec_color_string`] states it.
    pub fn to_string(&self) -> (r: String)
        ensures
            r@ == spec_color_string(self.deep_view()),
    {
        match self {
            Color::Hex(s) => s.clone(),
            Color::Rgb(red, green, blue) => {
                let mut out: String = "rgb(".to_owned();
                out.append(decimal_u8(*red).as_str());
                out.append(",");
                out.append(decimal_u8(*green).as_str());
                out.append(",");
                out.append(decimal_u8(*blue).as_str());
                out.append(")");
                proof {
                    assert(out@ =~= spec_color_string(self.deep_view()));
                }
                out
            },
        }
    }
}

/// What color resolution returns: nothing for an absent wire color or an
/// absent value; the hex string as given; or the RGB triplet truncated
/// into 8-bit channels.
pub open spec fn spec_get_color(c: Option<SpecElementColor>) -> Option<SpecColor> {
    match c {
        None => None,
        Some(ec) => match ec.color_value {
            None => None,
            Some(SpecColorValue::ColorHex(h)) => Some(SpecColor::Hex(h)),
            Some(SpecColorValue::ColorRgb(rgb)) => Some(
                SpecColor::Rgb(rgb.r as u8, rgb.g as u8, rgb.b as u8),
            ),
        },
    }
}

/// Resolve one wire color slot. Absence at either level is not an error
/// here; mandatoriness is enforced later, per view kind.
pub fn get_color(chart_element_color: &Option<ChartElementColor>) -> (r: Option<Color>)
    ensures
        r.deep_view() == spec_get_color(chart_element_color.deep_view()),
{
    match chart_element_color {
        Some(ec) => match &ec.color_value {
            Some(ColorValue::ColorHex(hex)) => Some(Color::Hex(hex.clone())),
            Some(ColorValue::ColorRgb(rgb)) => Some(
                Color::Rgb(
                    #[verifier::truncate] (rgb.r as u8),
                    #[verifier::truncate] (rgb.g as u8),
                    #[verifier::truncate] (rgb.b as u8),
                ),
            ),
            None => None,
        },
        None => None,
    }
}

/// The resolved color bundle of a view; each slot stays optional here.
#[derive(Clone, Debug, PartialEq, Eq)]
pub struct ViewColors {
    pub fill_color: Option<Color>,
    pub stroke_color: Option<Color>,
    pub point_fill_color: Option<Color>,
    pub point_stroke_color: Option<Color>,
}

/// Spec model of [`ViewColors`].
pub struct SpecResolvedViewColors {
    pub fill_color: Option<SpecColor>,
    pub stroke_color: Option<SpecColor>,
    pub point_fill_color: Option<SpecColor>,
    pub point_stroke_color: Option<SpecColor>,
}

impl DeepView for ViewColors {
    type V = SpecResolvedViewColors;

    open spec fn deep_view(&self) -> SpecResolvedViewColors {
        SpecResolvedViewColors {
            fill_color: self.fill_color.deep_view(),
            stroke_color: self.stroke_color.deep_view(),
            point_fill_color: self.point_fill_color.deep_view(),
            point_stroke_color: self.point_stroke_color.deep_view(),
        }
    }
}

/// What color-bundle resolution returns: an absent bundle is an error;
/// a present bundle has each slot resolved independently, with absent
/// slots carried through as absent.
pub open spec fn spec_get_view_colors(c: Option<SpecViewColors>) -> Result<
    SpecResolvedViewColors,
    RendererError,
> {
    match c {
        None => Err(RendererError::ViewColorsAreNotSpecified),
        Some(vc) => Ok(
            SpecResolvedViewColors {
                fill_color: spec_get_color(vc.fill_color),
                stroke_color: spec_get_color(vc.stroke_color),
                point_fill_color: spec_get_color(vc.point_fill_color),
                point_stroke_color: spec_get_color(vc.point_stroke_color),
            },
        ),
    }
}

/// Resolve the color bundle of a view: the bundle itself must be present,
/// each of its four slots is resolved independently.
pub fn get_view_colors(chart_view_colors: &Option<ChartViewColors>) -> (r: Result<
    ViewColors,
    RendererError,
>)
    ensures
        (r matches Ok(vc) ==> spec_get_view_colors(chart_view_colors.deep_view()) == Ok::<
            SpecResolvedViewColors,
            RendererError,
        >(vc.deep_view())),
        (r matches Err(e) ==> spec_get_view_colors(chart_view_colors.deep_view()) == Err::<
            SpecResolvedViewColors,
            RendererError,
        >(e)),
{
    match chart_view_colors {
        Some(vc) => Ok(
            ViewColors {
                fill_color: get_color(&vc.fill_color),
                stroke_color: get_color(&vc.stroke_color),
                point_fill_color: get_color(&vc.point_fill_color),
                point_stroke_color: get_color(&vc.point_stroke_color),
            },
        ),
        None => Err(RendererError::ViewColorsAreNotSpecified),
    }
}

/// A hex color round-trips: resolving a wire hex color and taking the
/// canonical string form gives back exactly the hex string as given.
pub proof fn lemma_hex_color_round_trip(h: Seq<char>)
    ensures
        spec_get_color(
            Some(SpecElementColor { color_value: Some(SpecColorValue::ColorHex(h)) }),
        ) == Some(SpecColor::Hex(h)),
        spec_color_string(SpecColor::Hex(h)) == h,
{
}

} // verus!
