//! Defines the [PdfColorSpace] enum, defining all the color spaces supported by the PDF file format.

use crate::bindgen::{
    FPDF_COLORSPACE_CALGRAY, FPDF_COLORSPACE_CALRGB, FPDF_COLORSPACE_DEVICECMYK,
    FPDF_COLORSPACE_DEVICEGRAY, FPDF_COLORSPACE_DEVICEN, FPDF_COLORSPACE_DEVICERGB,
    FPDF_COLORSPACE_ICCBASED, FPDF_COLORSPACE_INDEXED, FPDF_COLORSPACE_LAB,
    FPDF_COLORSPACE_PATTERN, FPDF_COLORSPACE_SEPARATION, FPDF_COLORSPACE_UNKNOWN,
};
use crate::error::PdfiumError;
use vstd::prelude::*;

verus! {

/// The color space of any displayable object on a `PdfPage`.
///
/// Colors can be described in any of a variety of color systems called _color spaces_.
/// Device color spaces ([PdfColorSpace::DeviceGray], [PdfColorSpace::DeviceRGB],
/// [PdfColorSpace::DeviceCMYK]) directly specify the colors an output device produces;
/// calibrated color spaces ([PdfColorSpace::CalibratedCIEGray], [PdfColorSpace::CalibratedCIERGB],
/// [PdfColorSpace::CalibratedCIELab], [PdfColorSpace::CalibratedICCProfile]) are
/// device-independent; special color spaces ([PdfColorSpace::Pattern], [PdfColorSpace::Indexed],
/// [PdfColorSpace::Separation], [PdfColorSpace::DeviceN]) add features to another color space.
///
/// For more information on color spaces and their utilisation in PDF files, see Section 4.5
/// of the PDF Reference Manual version 1.7, starting on page 235.
#[derive(Copy, Clone, Debug, PartialEq, Eq, Structural)]
pub enum PdfColorSpace {
    /// An unknown or unset color space.
    Unknown,
    /// Black, white, and intermediate shades of gray (non-calibrated).
    DeviceGray,
    /// The additive Red-Green-Blue color model (non-calibrated).
    DeviceRGB,
    /// The subtractive Cyan-Magenta-Yellow-Black color model (non-calibrated).
    DeviceCMYK,
    /// A calibrated gray color space based on the CIE 1931 XYZ color space.
    CalibratedCIEGray,
    /// A calibrated red, green, and blue color space based on the CIE 1931 XYZ color space.
    CalibratedCIERGB,
    /// A CIE 1976 L\*a\*b color space.
    CalibratedCIELab,
    /// A color space based on an International Color Consortium (ICC) color profile.
    CalibratedICCProfile,
    /// A separate, monochromatic rendition for a single colorant.
    Separation,
    /// A color space with an arbitrary number of color components.
    DeviceN,
    /// Colors taken from a lookup table.
    Indexed,
    /// Painting with a pattern rather than a single color.
    Pattern,
}

impl PdfColorSpace {
    /// The `FPDF_COLORSPACE_*` value Pdfium uses for this color space.
    pub open spec fn spec_code(self) -> u32 {
        match self {
            PdfColorSpace::Unknown => FPDF_COLORSPACE_UNKNOWN,
            PdfColorSpace::DeviceGray => FPDF_COLORSPACE_DEVICEGRAY,
            PdfColorSpace::DeviceRGB => FPDF_COLORSPACE_DEVICERGB,
            PdfColorSpace::DeviceCMYK => FPDF_COLORSPACE_DEVICECMYK,
            PdfColorSpace::CalibratedCIEGray => FPDF_COLORSPACE_CALGRAY,
            PdfColorSpace::CalibratedCIERGB => FPDF_COLORSPACE_CALRGB,
            PdfColorSpace::CalibratedCIELab => FPDF_COLORSPACE_LAB,
            PdfColorSpace::CalibratedICCProfile => FPDF_COLORSPACE_ICCBASED,
            PdfColorSpace::Separation => FPDF_COLORSPACE_SEPARATION,
            PdfColorSpace::DeviceN => FPDF_COLORSPACE_DEVICEN,
            PdfColorSpace::Indexed => FPDF_COLORSPACE_INDEXED,
            PdfColorSpace::Pattern => FPDF_COLORSPACE_PATTERN,
        }
    }

    /// Converts a Pdfium `FPDF_COLORSPACE_*` value into a [PdfColorSpace].
    pub fn from_pdfium(value: u32) -> (r: Result<PdfColorSpace, PdfiumError>)
        ensures
            value <= FPDF_COLORSPACE_PATTERN ==> (r matches Ok(s) && s.spec_code() == value),
            value > FPDF_COLORSPACE_PATTERN ==> r == Err::<PdfColorSpace, PdfiumError>(
                PdfiumError::UnknownPdfColorSpace,
            ),
    {
        match value {
            FPDF_COLORSPACE_CALGRAY => Ok(PdfColorSpace::CalibratedCIEGray),
            FPDF_COLORSPACE_CALRGB => Ok(PdfColorSpace::CalibratedCIERGB),
            FPDF_COLORSPACE_DEVICECMYK => Ok(PdfColorSpace::DeviceCMYK),
            FPDF_COLORSPACE_DEVICEGRAY => Ok(PdfColorSpace::DeviceGray),
            FPDF_COLORSPACE_DEVICEN => Ok(PdfColorSpace::DeviceN),
            FPDF_COLORSPACE_DEVICERGB => Ok(PdfColorSpace::DeviceRGB),
            FPDF_COLORSPACE_ICCBASED => Ok(PdfColorSpace::CalibratedICCProfile),
            FPDF_COLORSPACE_INDEXED => Ok(PdfColorSpace::Indexed),
            FPDF_COLORSPACE_LAB => Ok(PdfColorSpace::CalibratedCIELab),
            FPDF_COLORSPACE_PATTERN => Ok(PdfColorSpace::Pattern),
            FPDF_COLORSPACE_SEPARATION => Ok(PdfColorSpace::Separation),
            FPDF_COLORSPACE_UNKNOWN => Ok(PdfColorSpace::Unknown),
            _ => Err(PdfiumError::UnknownPdfColorSpace),
        }
    }

    /// Returns the `FPDF_COLORSPACE_*` value Pdfium uses for this color space.
    pub fn as_pdfium(&self) -> (r: u32)
        ensures
            r == self.spec_code(),
    {
        match self {
            PdfColorSpace::Unknown => FPDF_COLORSPACE_UNKNOWN,
            PdfColorSpace::DeviceGray => FPDF_COLORSPACE_DEVICEGRAY,
            PdfColorSpace::DeviceRGB => FPDF_COLORSPACE_DEVICERGB,
            PdfColorSpace::DeviceCMYK => FPDF_COLORSPACE_DEVICECMYK,
            PdfColorSpace::CalibratedCIEGray => FPDF_COLORSPACE_CALGRAY,
            PdfColorSpace::CalibratedCIERGB => FPDF_COLORSPACE_CALRGB,
            PdfColorSpace::CalibratedCIELab => FPDF_COLORSPACE_LAB,
            PdfColorSpace::CalibratedICCProfile => FPDF_COLORSPACE_ICCBASED,
            PdfColorSpace::Separation => FPDF_COLORSPACE_SEPARATION,
            PdfColorSpace::DeviceN => FPDF_COLORSPACE_DEVICEN,
            PdfColorSpace::Indexed => FPDF_COLORSPACE_INDEXED,
            PdfColorSpace::Pattern => FPDF_COLORSPACE_PATTERN,
        }
    }
}

/// Every color space is recognized again from the code Pdfium uses for it, and no two
/// color spaces share a code.
pub proof fn lemma_color_space_codes_round_trip(s: PdfColorSpace, t: PdfColorSpace)
    ensures
        s.spec_code() <= FPDF_COLORSPACE_PATTERN,
        s.spec_code() == t.spec_code() ==> s == t,
{
}

} // verus!
