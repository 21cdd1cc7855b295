//! Defines the [PdfBitmap] struct, a bitmap image with a specific width and height.

use crate::bindgen::{
    c_int, FPDFBitmap_BGR, FPDFBitmap_BGRA, FPDFBitmap_BGRx, FPDFBitmap_Gray,
    FPDFBitmap_Unknown, FPDF_BITMAP, NULL_HANDLE,
};
use crate::bindings::PdfiumLibraryBindings;
use crate::error::{PdfiumError, PdfiumInternalError};
use vstd::prelude::*;

verus! {

/// The device coordinate system when rendering or displaying an image.
///
/// While Pdfium will accept pixel sizes in either dimension up to the limits of [i32],
/// in practice the maximum size of a bitmap image is limited to approximately 2,320,723,080 bytes
/// (a little over 2 Gb). You can use the [PdfBitmap::bytes_required_for_size()] function
/// to estimate the maximum size of a bitmap image for a given target pixel width and height.
pub type Pixels = i32;

/// The pixel format of the rendered image data in the backing buffer of a [PdfBitmap].
#[derive(Copy, Clone, Debug, PartialEq, Eq, Structural)]
pub enum PdfBitmapFormat {
    Gray,
    BGR,
    BGRx,
    BGRA,
    /// A misspelled name for [PdfBitmapFormat::BGRx], kept for compatibility; it is
    /// deprecated and is treated exactly as [PdfBitmapFormat::BGRx].
    BRGx,
}

impl PdfBitmapFormat {
    /// The `FPDFBitmap_*` value Pdfium uses for this format.
    pub open spec fn spec_code(self) -> u32 {
        match self {
            PdfBitmapFormat::Gray => FPDFBitmap_Gray,
            PdfBitmapFormat::BGR => FPDFBitmap_BGR,
            PdfBitmapFormat::BGRx => FPDFBitmap_BGRx,
            PdfBitmapFormat::BRGx => FPDFBitmap_BGRx,
            PdfBitmapFormat::BGRA => FPDFBitmap_BGRA,
        }
    }

    /// The format Pdfium's `FPDFBitmap_*` value stands for, if it is a known format.
    pub open spec fn spec_from_code(format: u32) -> Option<PdfBitmapFormat> {
        if format == FPDFBitmap_Gray {
            Some(PdfBitmapFormat::Gray)
        } else if format == FPDFBitmap_BGR {
            Some(PdfBitmapFormat::BGR)
        } else if format == FPDFBitmap_BGRx {
            Some(PdfBitmapFormat::BGRx)
        } else if format == FPDFBitmap_BGRA {
            Some(PdfBitmapFormat::BGRA)
        } else {
            None
        }
    }

    /// The result of converting Pdfium's `FPDFBitmap_*` value: the format it stands for, or
    /// [PdfiumError::UnknownBitmapFormat].
    pub open spec fn spec_format_result(format: u32) -> Result<Self, PdfiumError> {
        match Self::spec_from_code(format) {
            Some(f) => Ok(f),
            None => Err(PdfiumError::UnknownBitmapFormat),
        }
    }

    /// Converts a Pdfium `FPDFBitmap_*` value into a [PdfBitmapFormat].
    pub fn from_pdfium(format: u32) -> (r: Result<Self, PdfiumError>)
        ensures
            r == Self::spec_format_result(format),
    {
        match format {
            FPDFBitmap_Unknown => Err(PdfiumError::UnknownBitmapFormat),
            FPDFBitmap_Gray => Ok(PdfBitmapFormat::Gray),
            FPDFBitmap_BGR => Ok(PdfBitmapFormat::BGR),
            FPDFBitmap_BGRx => Ok(PdfBitmapFormat::BGRx),
            FPDFBitmap_BGRA => Ok(PdfBitmapFormat::BGRA),
            _ => Err(PdfiumError::UnknownBitmapFormat),
        }
    }

    /// Returns the `FPDFBitmap_*` value Pdfium uses for this format.
    pub fn as_pdfium(&self) -> (r: u32)
        ensures
            r == self.spec_code(),
    {
        match self {
            PdfBitmapFormat::Gray => FPDFBitmap_Gray,
            PdfBitmapFormat::BGR => FPDFBitmap_BGR,
            PdfBitmapFormat::BRGx | PdfBitmapFormat::BGRx => FPDFBitmap_BGRx,
            PdfBitmapFormat::BGRA => FPDFBitmap_BGRA,
        }
    }
}

/// Every format is recognized again from the code Pdfium uses for it, except the
/// deprecated [PdfBitmapFormat::BRGx], which comes back as [PdfBitmapFormat::BGRx].
pub proof fn lemma_bitmap_format_round_trip(f: PdfBitmapFormat)
    ensures
        f != PdfBitmapFormat::BRGx ==> PdfBitmapFormat::spec_from_code(f.spec_code()) == Some(f),
        f == PdfBitmapFormat::BRGx ==> PdfBitmapFormat::spec_from_code(f.spec_code()) == Some(
            PdfBitmapFormat::BGRx,
        ),
{
}

impl Default for PdfBitmapFormat {
    fn default() -> (r: Self)
        ensures
            r == PdfBitmapFormat::BGRA,
    {
        PdfBitmapFormat::BGRA
    }
}

/// The rotation applied to a page when it is rendered into a bitmap.
#[derive(Copy, Clone, Debug, PartialEq, Eq, Structural)]
pub enum PdfBitmapRotation {
    /// No rotation.
    Degrees0,
    Degrees90,
    Degrees180,
    Degrees270,
}

impl PdfBitmapRotation {
    /// The number of clockwise quarter turns Pdfium uses for this rotation.
    pub open spec fn spec_quarter_turns(self) -> i32 {
        match self {
            PdfBitmapRotation::Degrees0 => 0,
            PdfBitmapRotation::Degrees90 => 1,
            PdfBitmapRotation::Degrees180 => 2,
            PdfBitmapRotation::Degrees270 => 3,
        }
    }

    /// Converts Pdfium's number of clockwise quarter turns into a [PdfBitmapRotation];
    /// any value other than 0 to 3 is the error [PdfiumError::UnknownBitmapRotation].
    pub fn from_pdfium(rotate: i32) -> (r: Result<Self, PdfiumError>)
        ensures
            0 <= rotate <= 3 ==> (r matches Ok(rotation) && rotation.spec_quarter_turns() == rotate),
            !(0 <= rotate <= 3) ==> r == Err::<Self, PdfiumError>(PdfiumError::UnknownBitmapRotation),
    {
        match rotate {
            0 => Ok(PdfBitmapRotation::Degrees0),
            1 => Ok(PdfBitmapRotation::Degrees90),
            2 => Ok(PdfBitmapRotation::Degrees180),
            3 => Ok(PdfBitmapRotation::Degrees270),
            _ => Err(PdfiumError::UnknownBitmapRotation),
        }
    }

    /// Returns the number of clockwise quarter turns Pdfium uses for this rotation.
    pub fn as_pdfium(&self) -> (r: i32)
        ensures
            r == self.spec_quarter_turns(),
    {
        match self {
            PdfBitmapRotation::Degrees0 => 0,
            PdfBitmapRotation::Degrees90 => 1,
            PdfBitmapRotation::Degrees180 => 2,
            PdfBitmapRotation::Degrees270 => 3,
        }
    }
}

/// Every rotation is recognized again from the number Pdfium uses for it, and no two
/// rotations share a number.
pub proof fn lemma_bitmap_rotation_round_trip(r: PdfBitmapRotation, t: PdfBitmapRotation)
    ensures
        0 <= r.spec_quarter_turns() <= 3,
        r.spec_quarter_turns() == t.spec_quarter_turns() ==> r == t,
{
}

/// A bitmap image with a specific width and height.
///
/// The bitmap buffer is owned by Pdfium; [PdfBitmap::destroy()] releases it.
pub struct PdfBitmap<'a, B: PdfiumLibraryBindings> {
    handle: FPDF_BITMAP,
    bindings: &'a B,
}

impl<'a, B: PdfiumLibraryBindings> PdfBitmap<'a, B> {
    /// The Pdfium handle of this bitmap.
    pub closed spec fn spec_handle(&self) -> FPDF_BITMAP {
        self.handle
    }

    /// The bindings this bitmap calls through.
    pub closed spec fn spec_bindings(&self) -> &'a B {
        self.bindings
    }

    /// Wraps an existing `FPDF_BITMAP` handle inside a new [PdfBitmap].
    pub fn from_pdfium(handle: FPDF_BITMAP, bindings: &'a B) -> (r: Self)
        ensures
            r.spec_handle() == handle,
            r.spec_bindings() == bindings,
    {
        PdfBitmap { handle, bindings }
    }

    /// Wraps the `FPDF_BITMAP` handle returned by Pdfium: a null handle signals that Pdfium
    /// could not create the bitmap.
    pub fn from_created_handle(handle: FPDF_BITMAP, bindings: &'a B) -> (r: Result<
        Self,
        PdfiumError,
    >)
        ensures
            handle == NULL_HANDLE ==> r == Err::<Self, PdfiumError>(
                PdfiumError::PdfiumLibraryInternalError(PdfiumInternalError::Unknown),
            ),
            handle != NULL_HANDLE ==> (r matches Ok(b) && b.spec_handle() == handle
                && b.spec_bindings() == bindings),
    {
        if handle == NULL_HANDLE {
            Err(PdfiumError::PdfiumLibraryInternalError(PdfiumInternalError::Unknown))
        } else {
            Ok(Self::from_pdfium(handle, bindings))
        }
    }

    /// Creates an empty [PdfBitmap] with a buffer capable of storing an image of the given
    /// pixel width and height in the given pixel format.
    pub fn empty(width: Pixels, height: Pixels, format: PdfBitmapFormat, bindings: &'a B) -> (r:
        Result<PdfBitmap<'a, B>, PdfiumError>)
        ensures
            r matches Ok(b) ==> b.spec_handle() != NULL_HANDLE && b.spec_bindings() == bindings
                && bindings.spec_bitmap_created(
                width,
                height,
                format.spec_code() as c_int,
                NULL_HANDLE,
                0,
                b.spec_handle(),
            ),
            r matches Err(e) ==> e == PdfiumError::PdfiumLibraryInternalError(
                PdfiumInternalError::Unknown,
            ) && bindings.spec_bitmap_created(
                width,
                height,
                format.spec_code() as c_int,
                NULL_HANDLE,
                0,
                NULL_HANDLE,
            ),
    {
        // Pdfium creates the buffer itself when no buffer is given, so the stride
        // value is not relevant.
        let handle = bindings.FPDFBitmap_CreateEx(
            width,
            height,
            format.as_pdfium() as c_int,
            NULL_HANDLE,
            0,
        );
        Self::from_created_handle(handle, bindings)
    }

    /// Returns the internal `FPDF_BITMAP` handle for this [PdfBitmap].
    pub fn handle(&self) -> (r: &FPDF_BITMAP)
        ensures
            *r == self.spec_handle(),
    {
        &self.handle
    }

    /// Returns the [PdfiumLibraryBindings] used by this [PdfBitmap].
    pub fn bindings(&self) -> (r: &'a B)
        ensures
            r == self.spec_bindings(),
    {
        self.bindings
    }

    /// Returns the width of the image in the bitmap buffer backing this [PdfBitmap],
    /// as Pdfium reports it.
    pub fn width(&self) -> (r: Pixels)
        ensures
            r == self.spec_bindings().spec_bitmap_width(self.spec_handle()),
    {
        self.bindings.FPDFBitmap_GetWidth(self.handle)
    }

    /// Returns the height of the image in the bitmap buffer backing this [PdfBitmap],
    /// as Pdfium reports it.
    pub fn height(&self) -> (r: Pixels)
        ensures
            r == self.spec_bindings().spec_bitmap_height(self.spec_handle()),
    {
        self.bindings.FPDFBitmap_GetHeight(self.handle)
    }

    /// Returns the number of bytes in one row of the bitmap buffer, as Pdfium reports it.
    pub fn stride(&self) -> (r: c_int)
        ensures
            r == self.spec_bindings().spec_bitmap_stride(self.spec_handle()),
    {
        self.bindings.FPDFBitmap_GetStride(self.handle)
    }

    /// Returns the pixel format of the image in the bitmap buffer backing this [PdfBitmap].
    /// Pdfium's answer is one of its known formats, or the error
    /// [PdfiumError::UnknownBitmapFormat].
    pub fn format(&self) -> (r: Result<PdfBitmapFormat, PdfiumError>)
        ensures
            r == PdfBitmapFormat::spec_format_result(
                self.spec_bindings().spec_bitmap_format(self.spec_handle()) as u32,
            ),
    {
        PdfBitmapFormat::from_pdfium(self.bindings.FPDFBitmap_GetFormat(self.handle) as u32)
    }

    /// Prior to 0.7.12, this function rendered the referenced page into a bitmap buffer.
    ///
    /// This is no longer necessary since all page rendering operations are now processed eagerly
    /// rather than lazily. This function is deprecated, does nothing, and will be removed.
    pub fn render(&self) {
    }

    /// Estimates the maximum memory buffer size required for a [PdfBitmap] of the given
    /// dimensions: four bytes for each rendered pixel.
    ///
    /// Certain platforms, architectures, and operating systems may limit the maximum size of a
    /// bitmap buffer that can be created by Pdfium.
    pub fn bytes_required_for_size(width: Pixels, height: Pixels) -> (r: usize)
        requires
            0 <= width,
            0 <= height,
            4 * width <= usize::MAX,
            4 * width * height <= usize::MAX,
        ensures
            r == 4 * width * height,
    {
        let w = width as usize;
        let h = height as usize;
        4 * w * h
    }

    /// Closes this [PdfBitmap], releasing the memory held by the bitmap buffer.
    pub fn destroy(self) {
        self.bindings.FPDFBitmap_Destroy(self.handle);
    }
}

} // verus!
