//! Defines the [PdfFonts] struct, a collection of all the fonts available to a `PdfDocument`.

use crate::bindgen::{c_int, c_uint, FPDF_DOCUMENT, FPDF_FONT_TRUETYPE, FPDF_FONT_TYPE1, NULL_HANDLE};
use crate::bindings::PdfiumLibraryBindings;
use crate::error::{PdfiumError, PdfiumInternalError};
use crate::font::{
    spec_built_in_loaded, spec_font_bytes_loaded, spec_pdfium_bool, PdfFont, PdfFontBuiltin,
};
use vstd::prelude::*;

verus! {

/// The fonts available to a single `PdfDocument`: the 14 built-in fonts, and fonts loaded
/// from Type 1 or TrueType font data.
pub struct PdfFonts<'a, B: PdfiumLibraryBindings> {
    document_handle: FPDF_DOCUMENT,
    bindings: &'a B,
}

impl<'a, B: PdfiumLibraryBindings> PdfFonts<'a, B> {
    /// The Pdfium handle of the document these fonts belong to.
    pub closed spec fn spec_document_handle(&self) -> FPDF_DOCUMENT {
        self.document_handle
    }

    /// The bindings these fonts call through.
    pub closed spec fn spec_bindings(&self) -> &'a B {
        self.bindings
    }

    pub fn from_pdfium(document_handle: FPDF_DOCUMENT, bindings: &'a B) -> (r: Self)
        ensures
            r.spec_document_handle() == document_handle,
            r.spec_bindings() == bindings,
    {
        PdfFonts { document_handle, bindings }
    }

    /// Returns the [PdfiumLibraryBindings] used by this [PdfFonts] collection.
    pub fn bindings(&self) -> (r: &'a B)
        ensures
            r == self.spec_bindings(),
    {
        self.bindings
    }

    /// Creates a new [PdfFont] instance representing the given built-in font.
    pub fn new_built_in(&self, font: PdfFontBuiltin) -> (r: PdfFont<'a, B>)
        ensures
            r.spec_bindings() == self.spec_bindings(),
            spec_built_in_loaded(self.spec_bindings(), self.spec_document_handle(), font, r.spec_handle()),
    {
        let name = font.to_pdf_font_name();
        let handle = self.bindings.FPDFText_LoadStandardFont(self.document_handle, name);
        assert(spec_built_in_loaded(self.spec_bindings(), self.spec_document_handle(), font, handle));
        PdfFont::from_pdfium(handle, self.bindings)
    }

    /// Creates a new [PdfFont] instance representing the built-in "Times-Roman" font.
    pub fn times_roman(&self) -> (r: PdfFont<'a, B>)
        ensures
            r.spec_bindings() == self.spec_bindings(),
            spec_built_in_loaded(
                self.spec_bindings(),
                self.spec_document_handle(),
                PdfFontBuiltin::TimesRoman,
                r.spec_handle(),
            ),
    {
        self.new_built_in(PdfFontBuiltin::TimesRoman)
    }

    /// Creates a new [PdfFont] instance representing the built-in "Times-Bold" font.
    pub fn times_bold(&self) -> (r: PdfFont<'a, B>)
        ensures
            r.spec_bindings() == self.spec_bindings(),
            spec_built_in_loaded(
                self.spec_bindings(),
                self.spec_document_handle(),
                PdfFontBuiltin::TimesBold,
                r.spec_handle(),
            ),
    {
        self.new_built_in(PdfFontBuiltin::TimesBold)
    }

    /// Creates a new [PdfFont] instance representing the built-in "Times-Italic" font.
    pub fn times_italic(&self) -> (r: PdfFont<'a, B>)
        ensures
            r.spec_bindings() == self.spec_bindings(),
            spec_built_in_loaded(
                self.spec_bindings(),
                self.spec_document_handle(),
                PdfFontBuiltin::TimesItalic,
                r.spec_handle(),
            ),
    {
        self.new_built_in(PdfFontBuiltin::TimesItalic)
    }

    /// Creates a new [PdfFont] instance representing the built-in "Times-BoldItalic" font.
    pub fn times_bold_italic(&self) -> (r: PdfFont<'a, B>)
        ensures
            r.spec_bindings() == self.spec_bindings(),
            spec_built_in_loaded(
                self.spec_bindings(),
                self.spec_document_handle(),
                PdfFontBuiltin::TimesBoldItalic,
                r.spec_handle(),
            ),
    {
        self.new_built_in(PdfFontBuiltin::TimesBoldItalic)
    }

    /// Creates a new [PdfFont] instance representing the built-in "Helvetica" font.
    pub fn helvetica(&self) -> (r: PdfFont<'a, B>)
        ensures
            r.spec_bindings() == self.spec_bindings(),
            spec_built_in_loaded(
                self.spec_bindings(),
                self.spec_document_handle(),
                PdfFontBuiltin::Helvetica,
                r.spec_handle(),
            ),
    {
        self.new_built_in(PdfFontBuiltin::Helvetica)
    }

    /// Creates a new [PdfFont] instance representing the built-in "Helvetica-Bold" font.
    pub fn helvetica_bold(&self) -> (r: PdfFont<'a, B>)
        ensures
            r.spec_bindings() == self.spec_bindings(),
            spec_built_in_loaded(
                self.spec_bindings(),
                self.spec_document_handle(),
                PdfFontBuiltin::HelveticaBold,
                r.spec_handle(),
            ),
    {
        self.new_built_in(PdfFontBuiltin::HelveticaBold)
    }

    /// Creates a new [PdfFont] instance representing the built-in "Helvetica-Oblique" font.
    pub fn helvetica_oblique(&self) -> (r: PdfFont<'a, B>)
        ensures
            r.spec_bindings() == self.spec_bindings(),
            spec_built_in_loaded(
                self.spec_bindings(),
                self.spec_document_handle(),
                PdfFontBuiltin::HelveticaOblique,
                r.spec_handle(),
            ),
    {
        self.new_built_in(PdfFontBuiltin::HelveticaOblique)
    }

    /// Creates a new [PdfFont] instance representing the built-in "Helvetica-BoldOblique" font.
    pub fn helvetica_bold_oblique(&self) -> (r: PdfFont<'a, B>)
        ensures
            r.spec_bindings() == self.spec_bindings(),
            spec_built_in_loaded(
                self.spec_bindings(),
                self.spec_document_handle(),
                PdfFontBuiltin::HelveticaBoldOblique,
                r.spec_handle(),
            ),
    {
        self.new_built_in(PdfFontBuiltin::HelveticaBoldOblique)
    }

    /// Creates a new [PdfFont] instance representing the built-in "Courier" font.
    pub fn courier(&self) -> (r: PdfFont<'a, B>)
        ensures
            r.spec_bindings() == self.spec_bindings(),
            spec_built_in_loaded(
                self.spec_bindings(),
                self.spec_document_handle(),
                PdfFontBuiltin::Courier,
                r.spec_handle(),
            ),
    {
        self.new_built_in(PdfFontBuiltin::Courier)
    }

    /// Creates a new [PdfFont] instance representing the built-in "Courier-Bold" font.
    pub fn courier_bold(&self) -> (r: PdfFont<'a, B>)
        ensures
            r.spec_bindings() == self.spec_bindings(),
            spec_built_in_loaded(
                self.spec_bindings(),
                self.spec_document_handle(),
                PdfFontBuiltin::CourierBold,
                r.spec_handle(),
            ),
    {
        self.new_built_in(PdfFontBuiltin::CourierBold)
    }

    /// Creates a new [PdfFont] instance representing the built-in "Courier-Oblique" font.
    pub fn courier_oblique(&self) -> (r: PdfFont<'a, B>)
        ensures
            r.spec_bindings() == self.spec_bindings(),
            spec_built_in_loaded(
                self.spec_bindings(),
                self.spec_document_handle(),
                PdfFontBuiltin::CourierOblique,
                r.spec_handle(),
            ),
    {
        self.new_built_in(PdfFontBuiltin::CourierOblique)
    }

    /// Creates a new [PdfFont] instance representing the built-in "Courier-BoldOblique" font.
    pub fn courier_bold_oblique(&self) -> (r: PdfFont<'a, B>)
        ensures
            r.spec_bindings() == self.spec_bindings(),
            spec_built_in_loaded(
                self.spec_bindings(),
                self.spec_document_handle(),
                PdfFontBuiltin::CourierBoldOblique,
                r.spec_handle(),
            ),
    {
        self.new_built_in(PdfFontBuiltin::CourierBoldOblique)
    }

    /// Creates a new [PdfFont] instance representing the built-in "Symbol" font.
    pub fn symbol(&self) -> (r: PdfFont<'a, B>)
        ensures
            r.spec_bindings() == self.spec_bindings(),
            spec_built_in_loaded(
                self.spec_bindings(),
                self.spec_document_handle(),
                PdfFontBuiltin::Symbol,
                r.spec_handle(),
            ),
    {
        self.new_built_in(PdfFontBuiltin::Symbol)
    }

    /// Creates a new [PdfFont] instance representing the built-in "ZapfDingbats" font.
    pub fn zapf_dingbats(&self) -> (r: PdfFont<'a, B>)
        ensures
            r.spec_bindings() == self.spec_bindings(),
            spec_built_in_loaded(
                self.spec_bindings(),
                self.spec_document_handle(),
                PdfFontBuiltin::ZapfDingbats,
                r.spec_handle(),
            ),
    {
        self.new_built_in(PdfFontBuiltin::ZapfDingbats)
    }

    /// Attempts to load the given byte data as a Type 1 font file.
    ///
    /// Set the `is_cid_font` parameter to `true` if the given font is keyed by
    /// 16-bit character ID (CID), indicating that it supports an extended glyphset of
    /// 65,535 glyphs.
    pub fn load_type1_from_bytes(&self, font_data: &[u8], is_cid_font: bool) -> (r: Result<
        PdfFont<'a, B>,
        PdfiumError,
    >)
        ensures
            r matches Ok(f) ==> f.spec_handle() != NULL_HANDLE && f.spec_bindings()
                == self.spec_bindings(),
            r matches Err(e) ==> e == PdfiumError::PdfiumLibraryInternalError(
                PdfiumInternalError::Unknown,
            ),
            spec_font_bytes_loaded(
                self.spec_bindings(),
                self.spec_document_handle(),
                font_data,
                FPDF_FONT_TYPE1 as c_int,
                is_cid_font,
                r,
            ),
    {
        self.new_font_from_bytes(font_data, FPDF_FONT_TYPE1, is_cid_font)
    }

    /// Attempts to load the given byte data as a TrueType font file.
    ///
    /// Set the `is_cid_font` parameter to `true` if the given font is keyed by
    /// 16-bit character ID (CID), indicating that it supports an extended glyphset of
    /// 65,535 glyphs.
    pub fn load_true_type_from_bytes(&self, font_data: &[u8], is_cid_font: bool) -> (r: Result<
        PdfFont<'a, B>,
        PdfiumError,
    >)
        ensures
            r matches Ok(f) ==> f.spec_handle() != NULL_HANDLE && f.spec_bindings()
                == self.spec_bindings(),
            r matches Err(e) ==> e == PdfiumError::PdfiumLibraryInternalError(
                PdfiumInternalError::Unknown,
            ),
            spec_font_bytes_loaded(
                self.spec_bindings(),
                self.spec_document_handle(),
                font_data,
                FPDF_FONT_TRUETYPE as c_int,
                is_cid_font,
                r,
            ),
    {
        self.new_font_from_bytes(font_data, FPDF_FONT_TRUETYPE, is_cid_font)
    }

    /// Loads a font of the given Pdfium font type; a null handle from Pdfium signals failure.
    pub fn new_font_from_bytes(
        &self,
        font_data: &[u8],
        font_type: c_uint,
        is_cid_font: bool,
    ) -> (r: Result<PdfFont<'a, B>, PdfiumError>)
        ensures
            r matches Ok(f) ==> f.spec_handle() != NULL_HANDLE && f.spec_bindings()
                == self.spec_bindings(),
            r matches Err(e) ==> e == PdfiumError::PdfiumLibraryInternalError(
                PdfiumInternalError::Unknown,
            ),
            spec_font_bytes_loaded(
                self.spec_bindings(),
                self.spec_document_handle(),
                font_data,
                font_type as c_int,
                is_cid_font,
                r,
            ),
    {
        let handle = self.bindings.FPDFText_LoadFont(
            self.document_handle,
            font_data,
            font_type as c_int,
            self.bindings.bool_to_pdfium(is_cid_font),
        );
        assert(self.spec_bindings().spec_font_loaded(
            self.spec_document_handle(),
            font_data,
            font_type as c_int,
            spec_pdfium_bool(is_cid_font),
            handle,
        ));
        if handle == NULL_HANDLE {
            Err(PdfiumError::PdfiumLibraryInternalError(PdfiumInternalError::Unknown))
        } else {
            Ok(PdfFont::from_pdfium(handle, self.bindings))
        }
    }
}

} // verus!
