//! Defines the [PdfFont] struct, exposing functionality related to a single font used to
//! render text in a `PdfDocument`.

use crate::bindgen::{
    c_int, c_uint, FPDF_BOOL, FPDF_DOCUMENT, FPDF_FONT, FPDF_FONT_TRUETYPE, FPDF_FONT_TYPE1, NULL_HANDLE,
};
use crate::bindings::PdfiumLibraryBindings;
use crate::bookmark::create_byte_buffer;
use crate::document::PdfDocument;
use crate::error::{PdfiumError, PdfiumInternalError};
use crate::text::{get_string_from_pdfium_utf8_bytes, spec_pdfium_utf8_result};
use vstd::prelude::*;

verus! {

/// The 14 built-in fonts provided as part of the PDF specification.
#[derive(Copy, Clone, Debug, PartialEq, Eq, Structural)]
pub enum PdfFontBuiltin {
    TimesRoman,
    TimesBold,
    TimesItalic,
    TimesBoldItalic,
    Helvetica,
    HelveticaBold,
    HelveticaOblique,
    HelveticaBoldOblique,
    Courier,
    CourierBold,
    CourierOblique,
    CourierBoldOblique,
    Symbol,
    ZapfDingbats,
}

impl PdfFontBuiltin {
    /// The PostScript name of this built-in PDF font, as listed on page 416
    /// of the PDF 1.7 specification.
    pub open spec fn spec_pdf_font_name(self) -> Seq<char> {
        match self {
            PdfFontBuiltin::TimesRoman => "Times-Roman"@,
            PdfFontBuiltin::TimesBold => "Times-Bold"@,
            PdfFontBuiltin::TimesItalic => "Times-Italic"@,
            PdfFontBuiltin::TimesBoldItalic => "Times-BoldItalic"@,
            PdfFontBuiltin::Helvetica => "Helvetica"@,
            PdfFontBuiltin::HelveticaBold => "Helvetica-Bold"@,
            PdfFontBuiltin::HelveticaOblique => "Helvetica-Oblique"@,
            PdfFontBuiltin::HelveticaBoldOblique => "Helvetica-BoldOblique"@,
            PdfFontBuiltin::Courier => "Courier"@,
            PdfFontBuiltin::CourierBold => "Courier-Bold"@,
            PdfFontBuiltin::CourierOblique => "Courier-Oblique"@,
            PdfFontBuiltin::CourierBoldOblique => "Courier-BoldOblique"@,
            PdfFontBuiltin::Symbol => "Symbol"@,
            PdfFontBuiltin::ZapfDingbats => "ZapfDingbats"@,
        }
    }

    /// Returns the PostScript name of this built-in PDF font, as listed on page 416
    /// of the PDF 1.7 specification.
    pub fn to_pdf_font_name(&self) -> (r: &str)
        ensures
            r@ == self.spec_pdf_font_name(),
    {
        match self {
            PdfFontBuiltin::TimesRoman => "Times-Roman",
            PdfFontBuiltin::TimesBold => "Times-Bold",
            PdfFontBuiltin::TimesItalic => "Times-Italic",
            PdfFontBuiltin::TimesBoldItalic => "Times-BoldItalic",
            PdfFontBuiltin::Helvetica => "Helvetica",
            PdfFontBuiltin::HelveticaBold => "Helvetica-Bold",
            PdfFontBuiltin::HelveticaOblique => "Helvetica-Oblique",
            PdfFontBuiltin::HelveticaBoldOblique => "Helvetica-BoldOblique",
            PdfFontBuiltin::Courier => "Courier",
            PdfFontBuiltin::CourierBold => "Courier-Bold",
            PdfFontBuiltin::CourierOblique => "Courier-Oblique",
            PdfFontBuiltin::CourierBoldOblique => "Courier-BoldOblique",
            PdfFontBuiltin::Symbol => "Symbol",
            PdfFontBuiltin::ZapfDingbats => "ZapfDingbats",
        }
    }
}

/// Each of the 14 built-in fonts is asked for by its own PostScript name, as listed on page
/// 416 of the PDF 1.7 specification: the family name, then the style after a hyphen (Bold,
/// Italic or Oblique, BoldItalic or BoldOblique, Roman for the plain Times face); distinct
/// built-in fonts have distinct names.
pub proof fn lemma_builtin_fonts_have_their_postscript_names(a: PdfFontBuiltin, b: PdfFontBuiltin)
    ensures
        PdfFontBuiltin::TimesRoman.spec_pdf_font_name() == "Times-Roman"@,
        PdfFontBuiltin::TimesBold.spec_pdf_font_name() == "Times-Bold"@,
        PdfFontBuiltin::TimesItalic.spec_pdf_font_name() == "Times-Italic"@,
        PdfFontBuiltin::TimesBoldItalic.spec_pdf_font_name() == "Times-BoldItalic"@,
        PdfFontBuiltin::Helvetica.spec_pdf_font_name() == "Helvetica"@,
        PdfFontBuiltin::HelveticaBold.spec_pdf_font_name() == "Helvetica-Bold"@,
        PdfFontBuiltin::HelveticaOblique.spec_pdf_font_name() == "Helvetica-Oblique"@,
        PdfFontBuiltin::HelveticaBoldOblique.spec_pdf_font_name() == "Helvetica-BoldOblique"@,
        PdfFontBuiltin::Courier.spec_pdf_font_name() == "Courier"@,
        PdfFontBuiltin::CourierBold.spec_pdf_font_name() == "Courier-Bold"@,
        PdfFontBuiltin::CourierOblique.spec_pdf_font_name() == "Courier-Oblique"@,
        PdfFontBuiltin::CourierBoldOblique.spec_pdf_font_name() == "Courier-BoldOblique"@,
        PdfFontBuiltin::Symbol.spec_pdf_font_name() == "Symbol"@,
        PdfFontBuiltin::ZapfDingbats.spec_pdf_font_name() == "ZapfDingbats"@,
        a != b ==> a.spec_pdf_font_name() != b.spec_pdf_font_name(),
{
    reveal_strlit("Times-Roman");
    reveal_strlit("Times-Bold");
    reveal_strlit("Times-Italic");
    reveal_strlit("Times-BoldItalic");
    reveal_strlit("Helvetica");
    reveal_strlit("Helvetica-Bold");
    reveal_strlit("Helvetica-Oblique");
    reveal_strlit("Helvetica-BoldOblique");
    reveal_strlit("Courier");
    reveal_strlit("Courier-Bold");
    reveal_strlit("Courier-Oblique");
    reveal_strlit("Courier-BoldOblique");
    reveal_strlit("Symbol");
    reveal_strlit("ZapfDingbats");
    if a != b && a.spec_pdf_font_name().len() == b.spec_pdf_font_name().len() {
        // Only the three names of twelve characters share a length, and they differ in
        // their first character.
        assert(a.spec_pdf_font_name()[0] != b.spec_pdf_font_name()[0]);
    }
}

/// The weight of a [PdfFont]. Typical values are 400 (normal) and 700 (bold).
#[derive(Copy, Clone, Debug, PartialEq, Eq, Structural)]
pub enum PdfFontWeight {
    Weight100,
    Weight200,
    Weight300,
    Weight400Normal,
    Weight500,
    Weight600,
    Weight700Bold,
    Weight800,
    Weight900,
    /// Any font weight value that falls outside the typical 100 - 900 value range.
    Custom(u32),
}

impl PdfFontWeight {
    /// The weight Pdfium's `FPDFFont_GetWeight()` result stands for: -1 signals failure.
    pub open spec fn spec_from_pdfium(value: c_int) -> Option<PdfFontWeight> {
        if value == -1 {
            None
        } else if value == 100 {
            Some(PdfFontWeight::Weight100)
        } else if value == 200 {
            Some(PdfFontWeight::Weight200)
        } else if value == 300 {
            Some(PdfFontWeight::Weight300)
        } else if value == 400 {
            Some(PdfFontWeight::Weight400Normal)
        } else if value == 500 {
            Some(PdfFontWeight::Weight500)
        } else if value == 600 {
            Some(PdfFontWeight::Weight600)
        } else if value == 700 {
            Some(PdfFontWeight::Weight700Bold)
        } else if value == 800 {
            Some(PdfFontWeight::Weight800)
        } else if value == 900 {
            Some(PdfFontWeight::Weight900)
        } else {
            Some(PdfFontWeight::Custom(value as u32))
        }
    }

    pub fn from_pdfium(value: c_int) -> (r: Option<PdfFontWeight>)
        ensures
            r == Self::spec_from_pdfium(value),
    {
        match value {
            -1 => None,
            100 => Some(PdfFontWeight::Weight100),
            200 => Some(PdfFontWeight::Weight200),
            300 => Some(PdfFontWeight::Weight300),
            400 => Some(PdfFontWeight::Weight400Normal),
            500 => Some(PdfFontWeight::Weight500),
            600 => Some(PdfFontWeight::Weight600),
            700 => Some(PdfFontWeight::Weight700Bold),
            800 => Some(PdfFontWeight::Weight800),
            900 => Some(PdfFontWeight::Weight900),
            other => Some(PdfFontWeight::Custom(other as u32)),
        }
    }
}

/// The weight read back stands for the number Pdfium gives: each of the nine typical
/// weights 100, 200, ..., 900 is read as the variant named after it, any other number but
/// -1 is kept as a custom weight, -1 is a failure, and distinct numbers are read as distinct
/// weights.
pub proof fn lemma_weight_stands_for_pdfium_number(value: c_int, other: c_int)
    ensures
        PdfFontWeight::spec_from_pdfium(100) == Some(PdfFontWeight::Weight100),
        PdfFontWeight::spec_from_pdfium(200) == Some(PdfFontWeight::Weight200),
        PdfFontWeight::spec_from_pdfium(300) == Some(PdfFontWeight::Weight300),
        PdfFontWeight::spec_from_pdfium(400) == Some(PdfFontWeight::Weight400Normal),
        PdfFontWeight::spec_from_pdfium(500) == Some(PdfFontWeight::Weight500),
        PdfFontWeight::spec_from_pdfium(600) == Some(PdfFontWeight::Weight600),
        PdfFontWeight::spec_from_pdfium(700) == Some(PdfFontWeight::Weight700Bold),
        PdfFontWeight::spec_from_pdfium(800) == Some(PdfFontWeight::Weight800),
        PdfFontWeight::spec_from_pdfium(900) == Some(PdfFontWeight::Weight900),
        PdfFontWeight::spec_from_pdfium(value) is None <==> value == -1,
        value != -1 && !(100 <= value <= 900 && value % 100 == 0) ==> PdfFontWeight::spec_from_pdfium(
            value,
        ) == Some(PdfFontWeight::Custom(value as u32)),
        value != -1 && other != -1 && PdfFontWeight::spec_from_pdfium(value)
            == PdfFontWeight::spec_from_pdfium(other) ==> value == other,
{
    if value != -1 && other != -1 && PdfFontWeight::spec_from_pdfium(value)
        == PdfFontWeight::spec_from_pdfium(other) {
        if PdfFontWeight::spec_from_pdfium(value) matches Some(PdfFontWeight::Custom(_)) {
            assert(value as u32 == other as u32);
            assert(value == other) by (bit_vector)
                requires
                    value as u32 == other as u32,
            ;
        }
    }
}

/// The weight a font has, given Pdfium's `FPDFFont_GetWeight()` result and, for a failed
/// call, the error Pdfium reports ([PdfiumInternalError::Unknown] when it reports none).
pub open spec fn spec_weight_result(value: c_int, last_error: Option<PdfiumInternalError>) -> Result<
    PdfFontWeight,
    PdfiumError,
> {
    match PdfFontWeight::spec_from_pdfium(value) {
        Some(w) => Ok(w),
        None => Err(
            PdfiumError::PdfiumLibraryInternalError(
                match last_error {
                    Some(e) => e,
                    None => PdfiumInternalError::Unknown,
                },
            ),
        ),
    }
}

/// Pdfium's C-style boolean for the given Rust bool.
pub open spec fn spec_pdfium_bool(value: bool) -> FPDF_BOOL {
    if value {
        1
    } else {
        0
    }
}

/// `font` is a possible answer of Pdfium's `FPDFText_LoadStandardFont` for the given
/// document and the PostScript name of the given built-in font.
pub open spec fn spec_built_in_loaded<B: PdfiumLibraryBindings>(
    bindings: &B,
    document: FPDF_DOCUMENT,
    builtin: PdfFontBuiltin,
    font: FPDF_FONT,
) -> bool {
    exists|name: &str|
        name@ == builtin.spec_pdf_font_name() && #[trigger] bindings.spec_standard_font_loaded(
            document,
            name,
            font,
        )
}

/// The outcome of loading a font from bytes: Pdfium's `FPDFText_LoadFont` was asked with the
/// given document, bytes, font type and CID flag, and gave an answer from which the result
/// is made: an error exactly when the answer is null, otherwise the font with that handle.
pub open spec fn spec_font_bytes_loaded<'a, B: PdfiumLibraryBindings>(
    bindings: &B,
    document: FPDF_DOCUMENT,
    data: &[u8],
    font_type: c_int,
    is_cid_font: bool,
    r: Result<PdfFont<'a, B>, PdfiumError>,
) -> bool {
    exists|handle: FPDF_FONT|
        #[trigger] bindings.spec_font_loaded(
            document,
            data,
            font_type,
            spec_pdfium_bool(is_cid_font),
            handle,
        ) && (r is Err <==> handle == NULL_HANDLE) && (r matches Ok(f) ==> f.spec_handle()
            == handle)
}

/// A single font used to render text in a [PdfDocument].
///
/// The PDF specification defines 14 built-in fonts that can be used in any PDF file without
/// font embedding. Additionally, custom fonts can be directly embedded into any PDF file as
/// a data stream.
pub struct PdfFont<'a, B: PdfiumLibraryBindings> {
    handle: FPDF_FONT,
    bindings: &'a B,
}

impl<'a, B: PdfiumLibraryBindings> PdfFont<'a, B> {
    /// The Pdfium handle of this font.
    pub closed spec fn spec_handle(&self) -> FPDF_FONT {
        self.handle
    }

    /// The bindings this font calls through.
    pub closed spec fn spec_bindings(&self) -> &'a B {
        self.bindings
    }

    pub fn from_pdfium(handle: FPDF_FONT, bindings: &'a B) -> (r: Self)
        ensures
            r.spec_handle() == handle,
            r.spec_bindings() == bindings,
    {
        PdfFont { handle, bindings }
    }

    /// Creates a new [PdfFont] from the given given built-in font argument.
    pub fn new_built_in(document: &'a PdfDocument<'a, B>, font: PdfFontBuiltin) -> (r: Self)
        requires
            document.wf(),
        ensures
            r.spec_bindings() == document.spec_bindings(),
            spec_built_in_loaded(
                document.spec_bindings(),
                document.spec_handle(),
                font,
                r.spec_handle(),
            ),
    {
        let name = font.to_pdf_font_name();
        let handle = document.bindings().FPDFText_LoadStandardFont(document.handle(), name);
        assert(spec_built_in_loaded(document.spec_bindings(), document.spec_handle(), font, handle));
        Self::from_pdfium(handle, document.bindings())
    }

    /// Creates a new [PdfFont] for the built-in "Times-Roman" font.
    pub fn times_roman(document: &'a PdfDocument<'a, B>) -> (r: Self)
        requires
            document.wf(),
        ensures
            r.spec_bindings() == document.spec_bindings(),
            spec_built_in_loaded(
                document.spec_bindings(),
                document.spec_handle(),
                PdfFontBuiltin::TimesRoman,
                r.spec_handle(),
            ),
    {
        Self::new_built_in(document, PdfFontBuiltin::TimesRoman)
    }

    /// Creates a new [PdfFont] for the built-in "Times-Bold" font.
    pub fn times_bold(document: &'a PdfDocument<'a, B>) -> (r: Self)
        requires
            document.wf(),
        ensures
            r.spec_bindings() == document.spec_bindings(),
            spec_built_in_loaded(
                document.spec_bindings(),
                document.spec_handle(),
                PdfFontBuiltin::TimesBold,
                r.spec_handle(),
            ),
    {
        Self::new_built_in(document, PdfFontBuiltin::TimesBold)
    }

    /// Creates a new [PdfFont] for the built-in "Times-Italic" font.
    pub fn times_italic(document: &'a PdfDocument<'a, B>) -> (r: Self)
        requires
            document.wf(),
        ensures
            r.spec_bindings() == document.spec_bindings(),
            spec_built_in_loaded(
                document.spec_bindings(),
                document.spec_handle(),
                PdfFontBuiltin::TimesItalic,
                r.spec_handle(),
            ),
    {
        Self::new_built_in(document, PdfFontBuiltin::TimesItalic)
    }

    /// Creates a new [PdfFont] for the built-in "Times-BoldItalic" font.
    pub fn times_bold_italic(document: &'a PdfDocument<'a, B>) -> (r: Self)
        requires
            document.wf(),
        ensures
            r.spec_bindings() == document.spec_bindings(),
            spec_built_in_loaded(
                document.spec_bindings(),
                document.spec_handle(),
                PdfFontBuiltin::TimesBoldItalic,
                r.spec_handle(),
            ),
    {
        Self::new_built_in(document, PdfFontBuiltin::TimesBoldItalic)
    }

    /// Creates a new [PdfFont] for the built-in "Helvetica" font.
    pub fn helvetica(document: &'a PdfDocument<'a, B>) -> (r: Self)
        requires
            document.wf(),
        ensures
            r.spec_bindings() == document.spec_bindings(),
            spec_built_in_loaded(
                document.spec_bindings(),
                document.spec_handle(),
                PdfFontBuiltin::Helvetica,
                r.spec_handle(),
            ),
    {
        Self::new_built_in(document, PdfFontBuiltin::Helvetica)
    }

    /// Creates a new [PdfFont] for the built-in "Helvetica-Bold" font.
    pub fn helvetica_bold(document: &'a PdfDocument<'a, B>) -> (r: Self)
        requires
            document.wf(),
        ensures
            r.spec_bindings() == document.spec_bindings(),
            spec_built_in_loaded(
                document.spec_bindings(),
                document.spec_handle(),
                PdfFontBuiltin::HelveticaBold,
                r.spec_handle(),
            ),
    {
        Self::new_built_in(document, PdfFontBuiltin::HelveticaBold)
    }

    /// Creates a new [PdfFont] for the built-in "Helvetica-Oblique" font.
    pub fn helvetica_oblique(document: &'a PdfDocument<'a, B>) -> (r: Self)
        requires
            document.wf(),
        ensures
            r.spec_bindings() == document.spec_bindings(),
            spec_built_in_loaded(
                document.spec_bindings(),
                document.spec_handle(),
                PdfFontBuiltin::HelveticaOblique,
                r.spec_handle(),
            ),
    {
        Self::new_built_in(document, PdfFontBuiltin::HelveticaOblique)
    }

    /// Creates a new [PdfFont] for the built-in "Helvetica-BoldOblique" font.
    pub fn helvetica_bold_oblique(document: &'a PdfDocument<'a, B>) -> (r: Self)
        requires
            document.wf(),
        ensures
            r.spec_bindings() == document.spec_bindings(),
            spec_built_in_loaded(
                document.spec_bindings(),
                document.spec_handle(),
                PdfFontBuiltin::HelveticaBoldOblique,
                r.spec_handle(),
            ),
    {
        Self::new_built_in(document, PdfFontBuiltin::HelveticaBoldOblique)
    }

    /// Creates a new [PdfFont] for the built-in "Courier" font.
    pub fn courier(document: &'a PdfDocument<'a, B>) -> (r: Self)
        requires
            document.wf(),
        ensures
            r.spec_bindings() == document.spec_bindings(),
            spec_built_in_loaded(
                document.spec_bindings(),
                document.spec_handle(),
                PdfFontBuiltin::Courier,
                r.spec_handle(),
            ),
    {
        Self::new_built_in(document, PdfFontBuiltin::Courier)
    }

    /// Creates a new [PdfFont] for the built-in "Courier-Bold" font.
    pub fn courier_bold(document: &'a PdfDocument<'a, B>) -> (r: Self)
        requires
            document.wf(),
        ensures
            r.spec_bindings() == document.spec_bindings(),
            spec_built_in_loaded(
                document.spec_bindings(),
                document.spec_handle(),
                PdfFontBuiltin::CourierBold,
                r.spec_handle(),
            ),
    {
        Self::new_built_in(document, PdfFontBuiltin::CourierBold)
    }

    /// Creates a new [PdfFont] for the built-in "Courier-Oblique" font.
    pub fn courier_oblique(document: &'a PdfDocument<'a, B>) -> (r: Self)
        requires
            document.wf(),
        ensures
            r.spec_bindings() == document.spec_bindings(),
            spec_built_in_loaded(
                document.spec_bindings(),
                document.spec_handle(),
                PdfFontBuiltin::CourierOblique,
                r.spec_handle(),
            ),
    {
        Self::new_built_in(document, PdfFontBuiltin::CourierOblique)
    }

    /// Creates a new [PdfFont] for the built-in "Courier-BoldOblique" font.
    pub fn courier_bold_oblique(document: &'a PdfDocument<'a, B>) -> (r: Self)
        requires
            document.wf(),
        ensures
            r.spec_bindings() == document.spec_bindings(),
            spec_built_in_loaded(
                document.spec_bindings(),
                document.spec_handle(),
                PdfFontBuiltin::CourierBoldOblique,
                r.spec_handle(),
            ),
    {
        Self::new_built_in(document, PdfFontBuiltin::CourierBoldOblique)
    }

    /// Creates a new [PdfFont] for the built-in "Symbol" font.
    pub fn symbol(document: &'a PdfDocument<'a, B>) -> (r: Self)
        requires
            document.wf(),
        ensures
            r.spec_bindings() == document.spec_bindings(),
            spec_built_in_loaded(
                document.spec_bindings(),
                document.spec_handle(),
                PdfFontBuiltin::Symbol,
                r.spec_handle(),
            ),
    {
        Self::new_built_in(document, PdfFontBuiltin::Symbol)
    }

    /// Creates a new [PdfFont] for the built-in "ZapfDingbats" font.
    pub fn zapf_dingbats(document: &'a PdfDocument<'a, B>) -> (r: Self)
        requires
            document.wf(),
        ensures
            r.spec_bindings() == document.spec_bindings(),
            spec_built_in_loaded(
                document.spec_bindings(),
                document.spec_handle(),
                PdfFontBuiltin::ZapfDingbats,
                r.spec_handle(),
            ),
    {
        Self::new_built_in(document, PdfFontBuiltin::ZapfDingbats)
    }

    /// Attempts to load the given byte data as a Type 1 font file.
    ///
    /// Set the `is_cid_font` parameter to `true` if the given font is keyed by
    /// 16-bit character ID (CID), indicating that it supports an extended glyphset of
    /// 65,535 glyphs. This is typically the case with fonts that support Asian character sets
    /// or right-to-left languages.
    pub fn new_type1_from_bytes(
        document: &'a PdfDocument<'a, B>,
        font_data: &[u8],
        is_cid_font: bool,
    ) -> (r: Result<Self, PdfiumError>)
        requires
            document.wf(),
        ensures
            r matches Ok(f) ==> f.spec_handle() != NULL_HANDLE && f.spec_bindings()
                == document.spec_bindings(),
            r matches Err(e) ==> e is PdfiumLibraryInternalError,
            spec_font_bytes_loaded(
                document.spec_bindings(),
                document.spec_handle(),
                font_data,
                FPDF_FONT_TYPE1 as c_int,
                is_cid_font,
                r,
            ),
    {
        Self::new_font_from_bytes(document, font_data, FPDF_FONT_TYPE1, is_cid_font)
    }

    /// Attempts to load the given byte data as a TrueType font file.
    ///
    /// Set the `is_cid_font` parameter to `true` if the given font is keyed by
    /// 16-bit character ID (CID), indicating that it supports an extended glyphset of
    /// 65,535 glyphs.
    pub fn new_true_type_from_bytes(
        document: &'a PdfDocument<'a, B>,
        font_data: &[u8],
        is_cid_font: bool,
    ) -> (r: Result<Self, PdfiumError>)
        requires
            document.wf(),
        ensures
            r matches Ok(f) ==> f.spec_handle() != NULL_HANDLE && f.spec_bindings()
                == document.spec_bindings(),
            r matches Err(e) ==> e is PdfiumLibraryInternalError,
            spec_font_bytes_loaded(
                document.spec_bindings(),
                document.spec_handle(),
                font_data,
                FPDF_FONT_TRUETYPE as c_int,
                is_cid_font,
                r,
            ),
    {
        Self::new_font_from_bytes(document, font_data, FPDF_FONT_TRUETYPE, is_cid_font)
    }

    /// Loads a font of the given Pdfium font type. A null handle from Pdfium signals
    /// failure; the error is the one Pdfium reports, or [PdfiumInternalError::Unknown]
    /// when Pdfium reports none.
    pub fn new_font_from_bytes(
        document: &'a PdfDocument<'a, B>,
        font_data: &[u8],
        font_type: c_uint,
        is_cid_font: bool,
    ) -> (r: Result<Self, PdfiumError>)
        requires
            document.wf(),
        ensures
            r matches Ok(f) ==> f.spec_handle() != NULL_HANDLE && f.spec_bindings()
                == document.spec_bindings(),
            r matches Err(e) ==> e is PdfiumLibraryInternalError,
            spec_font_bytes_loaded(
                document.spec_bindings(),
                document.spec_handle(),
                font_data,
                font_type as c_int,
                is_cid_font,
                r,
            ),
    {
        let bindings = document.bindings();
        let handle = bindings.FPDFText_LoadFont(
            document.handle(),
            font_data,
            font_type as c_int,
            bindings.bool_to_pdfium(is_cid_font),
        );
        assert(document.spec_bindings().spec_font_loaded(
            document.spec_handle(),
            font_data,
            font_type as c_int,
            spec_pdfium_bool(is_cid_font),
            handle,
        ));
        if handle == NULL_HANDLE {
            match bindings.get_pdfium_last_error() {
                Some(error) => Err(PdfiumError::PdfiumLibraryInternalError(error)),
                // A null handle indicating failure, yet Pdfium's error code indicates success.
                None => Err(PdfiumError::PdfiumLibraryInternalError(PdfiumInternalError::Unknown)),
            }
        } else {
            Ok(PdfFont::from_pdfium(handle, bindings))
        }
    }

    /// Returns the internal FPDF_FONT handle for this [PdfFont].
    pub fn get_handle(&self) -> (r: &FPDF_FONT)
        ensures
            *r == self.spec_handle(),
    {
        &self.handle
    }

    /// Returns the name of this [PdfFont].
    ///
    /// Pdfium first reports the length in bytes of the name; a length of zero means no name
    /// is present. Otherwise Pdfium writes the name in UTF-8 into a buffer of that length.
    /// The empty string is also returned when Pdfium writes a different number of bytes than
    /// it reported. Trailing null characters are trimmed, and a buffer that is not valid
    /// UTF-8 gives the empty string.
    pub fn name(&self) -> (r: String)
        ensures
            r@ == spec_pdfium_utf8_result(self.spec_bindings().spec_font_name(self.spec_handle())@),
    {
        let mut no_buffer: Vec<u8> = Vec::new();
        let buffer_length = self.bindings.FPDFFont_GetFontName(self.handle, no_buffer.as_mut_slice());
        if buffer_length == 0 || buffer_length > usize::MAX as u64 {
            // The font name is not present.
            return String::new();
        }
        let mut buffer = create_byte_buffer(buffer_length as usize);
        let result = self.bindings.FPDFFont_GetFontName(self.handle, buffer.as_mut_slice());
        if result != buffer_length {
            return String::new();
        }
        assert(buffer@ =~= buffer@.subrange(0, buffer_length as int));
        get_string_from_pdfium_utf8_bytes(buffer)
    }

    /// Returns the weight of this [PdfFont].
    pub fn weight(&self) -> (r: Result<PdfFontWeight, PdfiumError>)
        ensures
            exists|last_error: Option<PdfiumInternalError>|
                r == #[trigger] spec_weight_result(
                    self.spec_bindings().spec_font_weight(self.spec_handle()),
                    last_error,
                ),
    {
        let value = self.bindings.FPDFFont_GetWeight(self.handle);
        assert(value == self.spec_bindings().spec_font_weight(self.spec_handle()));
        match PdfFontWeight::from_pdfium(value) {
            Some(weight) => {
                assert(Ok::<PdfFontWeight, PdfiumError>(weight) == spec_weight_result(value, None));
                Ok(weight)
            },
            None => {
                let last_error = self.bindings.get_pdfium_last_error();
                let r = weight_error(last_error);
                assert(r == spec_weight_result(value, last_error));
                r
            },
        }
    }
}

/// The error for a failed font weight query: the error Pdfium reports, or
/// [PdfiumInternalError::Unknown] when it reports none.
pub fn weight_error(last_error: Option<PdfiumInternalError>) -> (r: Result<PdfFontWeight, PdfiumError>)
    ensures
        r == spec_weight_result(-1i32, last_error),
{
    match last_error {
        Some(e) => Err(PdfiumError::PdfiumLibraryInternalError(e)),
        None => Err(PdfiumError::PdfiumLibraryInternalError(PdfiumInternalError::Unknown)),
    }
}

} // verus!
