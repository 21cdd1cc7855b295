//! Defines the [PdfColor] struct, a 32-bit RGB color value with an optional alpha channel.

use crate::bindgen::FPDF_DWORD;
use vstd::prelude::*;

verus! {

/// A 32-bit RGB color value with an optional alpha channel.
///
/// Certain basic primary colors are available as const values on this struct.
///
/// Note that when used as a form field highlight color, a solid color with no opacity
/// will overprint any user data in the field. Use the [PdfColor::with_alpha()] function
/// to apply an alpha channel value to an existing [PdfColor].
#[derive(Debug, Copy, Clone, PartialEq, Eq, Structural)]
pub struct PdfColor {
    r: u8,
    g: u8,
    b: u8,
    a: u8,
}

/// The 32-bit value that stands for a solid color with the given components:
/// hexadecimal `0xFFRRGGBB`.
pub open spec fn spec_pdfium_color(r: u8, g: u8, b: u8) -> int {
    0xFF * 0x1000000 + r * 0x10000 + g * 0x100 + b
}

impl PdfColor {
    /// The solid (fully opaque) color with red 255, green 255 and blue 255.
    pub fn solid_white() -> (c: PdfColor)
        ensures
            c.spec_red() == 255,
            c.spec_green() == 255,
            c.spec_blue() == 255,
            c.spec_alpha() == 255,
    {
        PdfColor { r: 255, g: 255, b: 255, a: 255 }
    }

    /// The solid (fully opaque) color with red 255, green 0 and blue 0.
    pub fn solid_red() -> (c: PdfColor)
        ensures
            c.spec_red() == 255,
            c.spec_green() == 0,
            c.spec_blue() == 0,
            c.spec_alpha() == 255,
    {
        PdfColor { r: 255, g: 0, b: 0, a: 255 }
    }

    /// The solid (fully opaque) color with red 0, green 255 and blue 0.
    pub fn solid_green() -> (c: PdfColor)
        ensures
            c.spec_red() == 0,
            c.spec_green() == 255,
            c.spec_blue() == 0,
            c.spec_alpha() == 255,
    {
        PdfColor { r: 0, g: 255, b: 0, a: 255 }
    }

    /// The solid (fully opaque) color with red 0, green 0 and blue 255.
    pub fn solid_blue() -> (c: PdfColor)
        ensures
            c.spec_red() == 0,
            c.spec_green() == 0,
            c.spec_blue() == 255,
            c.spec_alpha() == 255,
    {
        PdfColor { r: 0, g: 0, b: 255, a: 255 }
    }

    /// The solid (fully opaque) color with red 0, green 255 and blue 255.
    pub fn solid_cyan() -> (c: PdfColor)
        ensures
            c.spec_red() == 0,
            c.spec_green() == 255,
            c.spec_blue() == 255,
            c.spec_alpha() == 255,
    {
        PdfColor { r: 0, g: 255, b: 255, a: 255 }
    }

    /// The solid (fully opaque) color with red 255, green 255 and blue 0.
    pub fn solid_yellow() -> (c: PdfColor)
        ensures
            c.spec_red() == 255,
            c.spec_green() == 255,
            c.spec_blue() == 0,
            c.spec_alpha() == 255,
    {
        PdfColor { r: 255, g: 255, b: 0, a: 255 }
    }

    /// The red component of this color.
    pub closed spec fn spec_red(self) -> u8 {
        self.r
    }

    /// The green component of this color.
    pub closed spec fn spec_green(self) -> u8 {
        self.g
    }

    /// The blue component of this color.
    pub closed spec fn spec_blue(self) -> u8 {
        self.b
    }

    /// The alpha component of this color.
    pub closed spec fn spec_alpha(self) -> u8 {
        self.a
    }

    /// Two colors are the same exactly when all four components are the same.
    pub proof fn lemma_components_determine_color(c1: PdfColor, c2: PdfColor)
        requires
            c1.spec_red() == c2.spec_red(),
            c1.spec_green() == c2.spec_green(),
            c1.spec_blue() == c2.spec_blue(),
            c1.spec_alpha() == c2.spec_alpha(),
        ensures
            c1 == c2,
    {
    }

    /// Decoding the 32-bit value of a color, as `from_pdfium` and `from_pdfium_with_alpha`
    /// do, gives back its red, green and blue components.
    pub proof fn lemma_pdfium_color_round_trip(c: PdfColor)
        ensures
            ({
                let v = spec_pdfium_color(c.spec_red(), c.spec_green(), c.spec_blue());
                &&& (v / 0x10000) % 0x100 == c.spec_red()
                &&& (v / 0x100) % 0x100 == c.spec_green()
                &&& v % 0x100 == c.spec_blue()
            }),
    {
        let r = c.r as int;
        let g = c.g as int;
        let b = c.b as int;
        let v = spec_pdfium_color(c.r, c.g, c.b);
        vstd::arithmetic::div_mod::lemma_fundamental_div_mod_converse(
            v,
            0x10000,
            0xFF * 0x100 + r,
            g * 0x100 + b,
        );
        vstd::arithmetic::div_mod::lemma_fundamental_div_mod_converse(
            0xFF * 0x100 + r,
            0x100,
            0xFF,
            r,
        );
        vstd::arithmetic::div_mod::lemma_fundamental_div_mod_converse(
            v,
            0x100,
            0xFF * 0x10000 + r * 0x100 + g,
            b,
        );
        vstd::arithmetic::div_mod::lemma_fundamental_div_mod_converse(
            0xFF * 0x10000 + r * 0x100 + g,
            0x100,
            0xFF * 0x100 + r,
            g,
        );
        vstd::arithmetic::div_mod::lemma_fundamental_div_mod_converse(v, 0x100, v / 0x100, b);
    }

    #[allow(dead_code)]
    pub fn from_pdfium(color: u64) -> (r: Self)
        ensures
            r.spec_red() == (color / 0x10000) % 0x100,
            r.spec_green() == (color / 0x100) % 0x100,
            r.spec_blue() == color % 0x100,
            r.spec_alpha() == 255,
    {
        Self::from_pdfium_with_alpha(color, 255)
    }

    pub fn from_pdfium_with_alpha(color: u64, alpha: u8) -> (r: Self)
        ensures
            r.spec_red() == (color / 0x10000) % 0x100,
            r.spec_green() == (color / 0x100) % 0x100,
            r.spec_blue() == color % 0x100,
            r.spec_alpha() == alpha,
    {
        let red = (color & 0x00FF0000) >> 16;
        let green = (color & 0x0000FF00) >> 8;
        let blue = color & 0x000000FF;
        assert(red == (color / 0x10000) % 0x100) by (bit_vector)
            requires
                red == (color & 0x00FF0000) >> 16,
        ;
        assert(green == (color / 0x100) % 0x100) by (bit_vector)
            requires
                green == (color & 0x0000FF00) >> 8,
        ;
        assert(blue == color % 0x100) by (bit_vector)
            requires
                blue == color & 0x000000FF,
        ;
        Self::new(red as u8, green as u8, blue as u8, alpha)
    }

    /// Returns this color encoded as a 32-bit value, suitable for passing to Pdfium.
    pub fn as_pdfium_color(&self) -> (r: FPDF_DWORD)
        ensures
            r == spec_pdfium_color(self.spec_red(), self.spec_green(), self.spec_blue()),
    {
        self.color()
    }

    /// Returns a tuplet comprising this color encoded as a 32-bit value and this alpha
    /// encoded as an 8-bit value, suitable for passing to Pdfium.
    pub fn as_pdfium_color_with_alpha(&self) -> (r: (FPDF_DWORD, u8))
        ensures
            r.0 == spec_pdfium_color(self.spec_red(), self.spec_green(), self.spec_blue()),
            r.1 == self.spec_alpha(),
    {
        (self.color(), self.alpha())
    }

    /// Constructs a new [PdfColor] object from the given arguments.
    pub fn new(red: u8, green: u8, blue: u8, alpha: u8) -> (r: Self)
        ensures
            r.spec_red() == red,
            r.spec_green() == green,
            r.spec_blue() == blue,
            r.spec_alpha() == alpha,
    {
        Self { r: red, g: green, b: blue, a: alpha }
    }

    /// Constructs a new [PdfColor] by copying the red, green, and blue color components
    /// of this color and applying the given alpha value.
    pub fn with_alpha(&self, alpha: u8) -> (r: Self)
        ensures
            r.spec_red() == self.spec_red(),
            r.spec_green() == self.spec_green(),
            r.spec_blue() == self.spec_blue(),
            r.spec_alpha() == alpha,
    {
        Self { r: self.r, g: self.g, b: self.b, a: alpha }
    }

    /// Returns the red component of this color.
    pub fn red(&self) -> (r: u8)
        ensures
            r == self.spec_red(),
    {
        self.r
    }

    /// Returns the green component of this color.
    pub fn green(&self) -> (r: u8)
        ensures
            r == self.spec_green(),
    {
        self.g
    }

    /// Returns the blue component of this color.
    pub fn blue(&self) -> (r: u8)
        ensures
            r == self.spec_blue(),
    {
        self.b
    }

    /// Returns this color as a decimal value equivalent to 32-bit hexadecimal 0xFFRRGGBB.
    pub fn color(&self) -> (r: FPDF_DWORD)
        ensures
            r == spec_pdfium_color(self.spec_red(), self.spec_green(), self.spec_blue()),
    {
        let (f, r, g, b) = self.color_components();
        let v = (f << 24) | (r << 16) | (g << 8) | b;
        assert(v == 0xFF * 0x1000000 + r * 0x10000 + g * 0x100 + b) by (bit_vector)
            requires
                f == 0xFF,
                r < 0x100,
                g < 0x100,
                b < 0x100,
                v == (f << 24) | (r << 16) | (g << 8) | b,
        ;
        v
    }

    /// Returns the raw color components of this [PdfColor].
    fn color_components(&self) -> (r: (FPDF_DWORD, FPDF_DWORD, FPDF_DWORD, FPDF_DWORD))
        ensures
            r.0 == 0xFF,
            r.1 == self.spec_red(),
            r.2 == self.spec_green(),
            r.3 == self.spec_blue(),
    {
        (0xFF, self.r as FPDF_DWORD, self.g as FPDF_DWORD, self.b as FPDF_DWORD)
    }

    /// Returns the alpha (opacity) component of this color, with 0 = completely transparent
    /// and 255 = completely opaque (solid).
    pub fn alpha(&self) -> (r: u8)
        ensures
            r == self.spec_alpha(),
    {
        self.a
    }
}

} // verus!
