#![allow(non_snake_case)]

use pdfium_render::bitmap::{PdfBitmap, PdfBitmapFormat, PdfBitmapRotation};
use pdfium_render::bitmap_config::{rendered_rotation, PdfBitmapSizing, PdfPageOrientation};
use pdfium_render::bookmark::PdfBookmark;
use pdfium_render::color::PdfColor;
use pdfium_render::color_space::PdfColorSpace;
use pdfium_render::destination::page_index_from_pdfium;
use pdfium_render::document::PdfDocumentVersion;
use pdfium_render::error::{PdfiumError, PdfiumInternalError};
use pdfium_render::font::{weight_error, PdfFontBuiltin, PdfFontWeight};
use pdfium_render::pixels::{aligned_bgr_to_rgba, bgra_to_rgba, bitmap_pixels_to_image};
use pdfium_render::text::{
    get_pdfium_utf16le_bytes_from_str, get_string_from_pdfium_utf16le_bytes,
    get_string_from_pdfium_utf8_bytes, trim_trailing_nul, utf16_units, utf16le_units,
};
use pdfium_render::thread_safe::{destroy_action, init_action, LibraryLockAction};
use pdfium_render::version::PdfiumApiVersion;

#[test]
fn solid_colors_have_documented_components() {
    let white = PdfColor::solid_white();
    assert_eq!((white.red(), white.green(), white.blue(), white.alpha()), (255, 255, 255, 255));
    let red = PdfColor::solid_red();
    assert_eq!((red.red(), red.green(), red.blue(), red.alpha()), (255, 0, 0, 255));
    let green = PdfColor::solid_green();
    assert_eq!((green.red(), green.green(), green.blue()), (0, 255, 0));
    let blue = PdfColor::solid_blue();
    assert_eq!((blue.red(), blue.green(), blue.blue()), (0, 0, 255));
    let cyan = PdfColor::solid_cyan();
    assert_eq!((cyan.red(), cyan.green(), cyan.blue()), (0, 255, 255));
    let yellow = PdfColor::solid_yellow();
    assert_eq!((yellow.red(), yellow.green(), yellow.blue()), (255, 255, 0));
}

#[test]
fn with_alpha_keeps_the_color_components() {
    let c = PdfColor::new(10, 20, 30, 40).with_alpha(128);
    assert_eq!((c.red(), c.green(), c.blue(), c.alpha()), (10, 20, 30, 128));
}

#[test]
fn pdfium_color_is_ffrrggbb() {
    let c = PdfColor::new(0x12, 0x34, 0x56, 0x78);
    assert_eq!(c.as_pdfium_color(), 0xFF123456);
    assert_eq!(c.as_pdfium_color_with_alpha(), (0xFF123456, 0x78));
}

#[test]
fn pdfium_color_round_trip() {
    let c = PdfColor::new(0x12, 0x34, 0x56, 0x78);
    let back = PdfColor::from_pdfium_with_alpha(c.as_pdfium_color(), c.alpha());
    assert_eq!(back, c);
    let opaque = PdfColor::from_pdfium(0x00ABCDEF);
    assert_eq!(opaque, PdfColor::new(0xAB, 0xCD, 0xEF, 255));
}

#[test]
fn error_codes_round_trip() {
    let all = [
        PdfiumInternalError::FileError,
        PdfiumInternalError::FormatError,
        PdfiumInternalError::PasswordError,
        PdfiumInternalError::SecurityError,
        PdfiumInternalError::PageError,
        PdfiumInternalError::Unknown,
    ];
    for e in all {
        assert_eq!(PdfiumInternalError::from_pdfium_error_code(e.as_pdfium()), Some(e));
    }
    assert_eq!(PdfiumInternalError::from_pdfium_error_code(0), None);
    assert_eq!(PdfiumInternalError::from_pdfium_error_code(4), Some(PdfiumInternalError::PasswordError));
    assert_eq!(PdfiumInternalError::from_pdfium_error_code(99), Some(PdfiumInternalError::Unknown));
}

#[test]
fn color_space_codes_round_trip() {
    for code in 0u32..=11 {
        let space = PdfColorSpace::from_pdfium(code).unwrap();
        assert_eq!(space.as_pdfium(), code);
    }
    assert_eq!(PdfColorSpace::from_pdfium(6).unwrap(), PdfColorSpace::CalibratedCIELab);
    assert_eq!(PdfColorSpace::from_pdfium(12), Err(PdfiumError::UnknownPdfColorSpace));
}

#[test]
fn bitmap_format_codes() {
    assert_eq!(PdfBitmapFormat::from_pdfium(1), Ok(PdfBitmapFormat::Gray));
    assert_eq!(PdfBitmapFormat::from_pdfium(2), Ok(PdfBitmapFormat::BGR));
    assert_eq!(PdfBitmapFormat::from_pdfium(3), Ok(PdfBitmapFormat::BGRx));
    assert_eq!(PdfBitmapFormat::from_pdfium(4), Ok(PdfBitmapFormat::BGRA));
    assert_eq!(PdfBitmapFormat::from_pdfium(0), Err(PdfiumError::UnknownBitmapFormat));
    assert_eq!(PdfBitmapFormat::from_pdfium(5), Err(PdfiumError::UnknownBitmapFormat));
    assert_eq!(PdfBitmapFormat::BRGx.as_pdfium(), PdfBitmapFormat::BGRx.as_pdfium());
    assert_eq!(
        PdfBitmapFormat::from_pdfium(PdfBitmapFormat::BRGx.as_pdfium()),
        Ok(PdfBitmapFormat::BGRx)
    );
    assert_eq!(PdfBitmapFormat::default(), PdfBitmapFormat::BGRA);
}

#[test]
fn bytes_required_for_size_is_four_bytes_per_pixel() {
    assert_eq!(PdfBitmap::<StubBindings>::bytes_required_for_size(2000, 4000), 32_000_000);
    assert_eq!(PdfBitmap::<StubBindings>::bytes_required_for_size(0, 4000), 0);
    assert_eq!(PdfBitmap::<StubBindings>::bytes_required_for_size(3, 5), 60);
}

#[test]
fn document_versions() {
    assert_eq!(PdfDocumentVersion::from_pdfium(14), PdfDocumentVersion::Pdf1_4);
    assert_eq!(PdfDocumentVersion::from_pdfium(20), PdfDocumentVersion::Pdf2_0);
    assert_eq!(PdfDocumentVersion::from_pdfium(21), PdfDocumentVersion::Other(21));
    assert_eq!(PdfDocumentVersion::Pdf1_7.as_pdfium(), Some(17));
    assert_eq!(PdfDocumentVersion::Unset.as_pdfium(), None);
    assert_eq!(PdfDocumentVersion::DEFAULT_VERSION, PdfDocumentVersion::Pdf1_7);
    for n in [10, 11, 12, 13, 14, 15, 16, 17, 20, 21, 0, -3] {
        assert_eq!(PdfDocumentVersion::from_pdfium(n).as_pdfium(), Some(n));
    }
    assert_eq!(
        PdfDocumentVersion::from_pdfium(PdfDocumentVersion::Other(15).as_pdfium().unwrap()),
        PdfDocumentVersion::Pdf1_5
    );
}

#[test]
fn built_in_font_names() {
    assert_eq!(PdfFontBuiltin::TimesRoman.to_pdf_font_name(), "Times-Roman");
    assert_eq!(PdfFontBuiltin::TimesBoldItalic.to_pdf_font_name(), "Times-BoldItalic");
    assert_eq!(PdfFontBuiltin::HelveticaBoldOblique.to_pdf_font_name(), "Helvetica-BoldOblique");
    assert_eq!(PdfFontBuiltin::Courier.to_pdf_font_name(), "Courier");
    assert_eq!(PdfFontBuiltin::ZapfDingbats.to_pdf_font_name(), "ZapfDingbats");
}

#[test]
fn font_weights() {
    assert_eq!(PdfFontWeight::from_pdfium(400), Some(PdfFontWeight::Weight400Normal));
    assert_eq!(PdfFontWeight::from_pdfium(700), Some(PdfFontWeight::Weight700Bold));
    assert_eq!(PdfFontWeight::from_pdfium(950), Some(PdfFontWeight::Custom(950)));
    assert_eq!(PdfFontWeight::from_pdfium(-1), None);
    assert_eq!(
        weight_error(None),
        Err(PdfiumError::PdfiumLibraryInternalError(PdfiumInternalError::Unknown))
    );
    assert_eq!(
        weight_error(Some(PdfiumInternalError::FileError)),
        Err(PdfiumError::PdfiumLibraryInternalError(PdfiumInternalError::FileError))
    );
}

#[test]
fn page_index_not_available() {
    assert_eq!(page_index_from_pdfium(3), Ok(3));
    assert_eq!(page_index_from_pdfium(0), Ok(0));
    assert_eq!(page_index_from_pdfium(-1), Err(PdfiumError::DestinationPageIndexNotAvailable));
}

#[test]
fn api_version_is_current() {
    assert_eq!(PdfiumApiVersion::current(), PdfiumApiVersion::V6721);
}

#[test]
fn lock_actions() {
    assert_eq!(init_action(false), LibraryLockAction::AcquireThenInitialize);
    assert_eq!(init_action(true), LibraryLockAction::Nothing);
    assert_eq!(destroy_action(true), LibraryLockAction::DestroyThenRelease);
    assert_eq!(destroy_action(false), LibraryLockAction::Nothing);
}

#[test]
fn utf16le_decoding() {
    // "Hi" followed by a null terminator.
    let bytes = [b'H', 0, b'i', 0, 0, 0];
    assert_eq!(utf16le_units(&bytes), vec![0x48, 0x69, 0]);
    assert_eq!(get_string_from_pdfium_utf16le_bytes(&bytes), Some("Hi".to_string()));
    // "é" (U+00E9) and a code point outside the basic plane, U+1F600.
    let bytes = [0xE9, 0x00, 0x3D, 0xD8, 0x00, 0xDE];
    assert_eq!(get_string_from_pdfium_utf16le_bytes(&bytes), Some("é😀".to_string()));
    // A lone surrogate is not valid UTF-16.
    let bytes = [0x3D, 0xD8];
    assert_eq!(get_string_from_pdfium_utf16le_bytes(&bytes), None);
    // A trailing odd byte is ignored.
    assert_eq!(get_string_from_pdfium_utf16le_bytes(&[b'A', 0, 7]), Some("A".to_string()));
}

#[test]
fn utf8_decoding() {
    assert_eq!(get_string_from_pdfium_utf8_bytes(b"Arial\0".to_vec()), "Arial");
    assert_eq!(get_string_from_pdfium_utf8_bytes(vec![0xFF, 0xFE]), "");
    assert_eq!(trim_trailing_nul("ab\0\0"), "ab");
    assert_eq!(trim_trailing_nul("a\0b"), "a\0b");
}

#[test]
fn bgra_pixels_become_rgba() {
    let bgra = [1, 2, 3, 4, 10, 20, 30, 40, 99];
    assert_eq!(bgra_to_rgba(&bgra), vec![3, 2, 1, 4, 30, 20, 10, 40]);
}

#[test]
fn aligned_bgr_rows_become_opaque_rgba() {
    // Two rows of one pixel each, with a stride of four bytes.
    let bgr = [1, 2, 3, 0, 4, 5, 6, 0];
    assert_eq!(aligned_bgr_to_rgba(&bgr, 1, 4), vec![3, 2, 1, 255, 6, 5, 4, 255]);
    // Two pixels in one row of eight bytes, followed by an incomplete row.
    let bgr = [1, 2, 3, 4, 5, 6, 0, 0, 9];
    assert_eq!(aligned_bgr_to_rgba(&bgr, 2, 8), vec![3, 2, 1, 255, 6, 5, 4, 255]);
}

#[test]
fn bitmap_pixels_become_images() {
    let bgra = [1, 2, 3, 4, 5, 6, 7, 8];
    let image = bitmap_pixels_to_image(PdfBitmapFormat::BGRA, 2, 1, &bgra).unwrap();
    assert_eq!(image.as_bytes(), &[3, 2, 1, 4, 7, 6, 5, 8]);

    let bgr = [1, 2, 3, 0, 4, 5, 6, 0];
    let image = bitmap_pixels_to_image(PdfBitmapFormat::BGR, 1, 2, &bgr).unwrap();
    assert_eq!(image.as_bytes(), &[3, 2, 1, 255, 6, 5, 4, 255]);

    let gray = [7, 8, 9];
    let image = bitmap_pixels_to_image(PdfBitmapFormat::Gray, 3, 1, &gray).unwrap();
    assert_eq!(image.as_bytes(), &[7, 8, 9]);
    assert_eq!(image.width(), 3);

    // Too few bytes for the requested size.
    assert!(bitmap_pixels_to_image(PdfBitmapFormat::BGRx, 3, 1, &bgra).is_none());
    assert!(bitmap_pixels_to_image(PdfBitmapFormat::Gray, 2, 2, &gray).is_none());
}

pub struct StubBindings;

impl pdfium_render::bindings::PdfiumLibraryBindings for StubBindings {
    fn spec_file_version_ok(&self, _document: usize) -> i32 {
        0
    }

    fn spec_file_version_number(&self, _document: usize) -> i32 {
        0
    }

    fn spec_saved_as_copy(&self, _document: usize, _file_write: usize, _flags: u64, _result: i32) -> bool {
        true
    }

    fn spec_saved_with_version(&self, _document: usize, _file_write: usize, _flags: u64, _version: i32, _result: i32) -> bool {
        true
    }

    fn spec_bitmap_created(&self, _width: i32, _height: i32, _format: i32, _first_scan: usize, _stride: i32, _bitmap: usize) -> bool {
        true
    }

    fn spec_bitmap_format(&self, _bitmap: usize) -> i32 {
        0
    }

    fn spec_bitmap_width(&self, _bitmap: usize) -> i32 {
        0
    }

    fn spec_bitmap_height(&self, _bitmap: usize) -> i32 {
        0
    }

    fn spec_bitmap_stride(&self, _bitmap: usize) -> i32 {
        0
    }

    fn spec_first_child(&self, _document: usize, _bookmark: usize) -> usize {
        0
    }

    fn spec_next_sibling(&self, _document: usize, _bookmark: usize) -> usize {
        0
    }

    fn spec_title(&self, _bookmark: usize) -> Vec<u8> {
        Vec::new()
    }

    fn spec_dest(&self, _document: usize, _bookmark: usize) -> usize {
        0
    }

    fn spec_dest_page_index(&self, _document: usize, _dest: usize) -> i32 {
        -1
    }

    fn spec_find(&self, _document: usize, _title: &[u8]) -> usize {
        0
    }

    fn spec_standard_font_loaded(&self, _document: usize, _name: &str, _font: usize) -> bool {
        true
    }

    fn spec_font_loaded(&self, _document: usize, _data: &[u8], _font_type: i32, _cid: i32, _font: usize) -> bool {
        true
    }

    fn spec_font_name(&self, _font: usize) -> Vec<u8> {
        Vec::new()
    }

    fn spec_font_weight(&self, _font: usize) -> i32 {
        -1
    }

    fn spec_is_checked(&self, _form: usize, _annot: usize) -> i32 {
        0
    }

    fn spec_field_name(&self, _form: usize, _annot: usize) -> Vec<u8> {
        Vec::new()
    }

    fn spec_field_value(&self, _form: usize, _annot: usize) -> Vec<u8> {
        Vec::new()
    }

    fn FPDF_InitLibrary(&self) {}
    fn FPDF_DestroyLibrary(&self) {}
    fn FPDF_GetLastError(&self) -> u64 {
        0
    }
    fn FPDF_CloseDocument(&self, _document: usize) {}
    fn FPDF_GetFileVersion(&self, _doc: usize, _file_version: &mut i32) -> i32 {
        0
    }
    fn FPDF_SaveAsCopy(&self, _document: usize, _file_write: usize, _flags: u64) -> i32 {
        0
    }
    fn FPDF_SaveWithVersion(
        &self,
        _document: usize,
        _file_write: usize,
        _flags: u64,
        _file_version: i32,
    ) -> i32 {
        0
    }
    fn FPDFBitmap_CreateEx(&self, _w: i32, _h: i32, _f: i32, _first_scan: usize, _stride: i32) -> usize {
        0
    }
    fn FPDFBitmap_Destroy(&self, _bitmap: usize) {}
    fn FPDFBitmap_GetFormat(&self, _bitmap: usize) -> i32 {
        0
    }
    fn FPDFBitmap_GetWidth(&self, _bitmap: usize) -> i32 {
        0
    }
    fn FPDFBitmap_GetHeight(&self, _bitmap: usize) -> i32 {
        0
    }
    fn FPDFBitmap_GetStride(&self, _bitmap: usize) -> i32 {
        0
    }
    fn FPDFBookmark_GetFirstChild(&self, _document: usize, _bookmark: usize) -> usize {
        0
    }
    fn FPDFBookmark_GetNextSibling(&self, _document: usize, _bookmark: usize) -> usize {
        0
    }
    fn FPDFBookmark_GetTitle(&self, _bookmark: usize, _buffer: &mut [u8]) -> u64 {
        0
    }
    fn FPDFBookmark_GetDest(&self, _document: usize, _bookmark: usize) -> usize {
        0
    }
    fn FPDFBookmark_Find(&self, _document: usize, _title: &[u8]) -> usize {
        0
    }
    fn FPDFDest_GetDestPageIndex(&self, _document: usize, _dest: usize) -> i32 {
        -1
    }
    fn FPDFText_LoadStandardFont(&self, _document: usize, _font: &str) -> usize {
        0
    }
    fn FPDFText_LoadFont(&self, _document: usize, _data: &[u8], _font_type: i32, _cid: i32) -> usize {
        0
    }
    fn FPDFFont_GetFontName(&self, _font: usize, _buffer: &mut [u8]) -> u64 {
        0
    }
    fn FPDFFont_GetWeight(&self, _font: usize) -> i32 {
        -1
    }
    fn FPDFAnnot_IsChecked(&self, _form: usize, _annot: usize) -> i32 {
        0
    }
    fn FPDFAnnot_GetFormFieldName(&self, _form: usize, _annot: usize, _buffer: &mut [u8]) -> u64 {
        0
    }
    fn FPDFAnnot_GetFormFieldValue(&self, _form: usize, _annot: usize, _buffer: &mut [u8]) -> u64 {
        0
    }
}

#[test]
fn bookmark_handles_are_kept() {
    let stub = StubBindings;
    let b = PdfBookmark::from_pdfium(5, Some(1), 9, &stub);
    assert_eq!(b.bookmark_handle(), 5);
    assert_eq!(b.document_handle(), 9);
    assert!(PdfBookmark::from_nullable(0, None, 9, &stub).is_none());
}

#[test]
fn bitmap_rotation_codes() {
    for (code, rotation) in [
        (0, PdfBitmapRotation::Degrees0),
        (1, PdfBitmapRotation::Degrees90),
        (2, PdfBitmapRotation::Degrees180),
        (3, PdfBitmapRotation::Degrees270),
    ] {
        assert_eq!(PdfBitmapRotation::from_pdfium(code), Ok(rotation));
        assert_eq!(rotation.as_pdfium(), code);
    }
    assert_eq!(PdfBitmapRotation::from_pdfium(4), Err(PdfiumError::UnknownBitmapRotation));
    assert_eq!(PdfBitmapRotation::from_pdfium(-1), Err(PdfiumError::UnknownBitmapRotation));
}

#[test]
fn bitmap_sizing_settings() {

    let sizing = PdfBitmapSizing::new().set_target_size(2000, 1000).set_maximum_height(2000);
    assert_eq!(sizing.target_width, Some(2000));
    assert_eq!(sizing.target_height, Some(1000));
    assert_eq!(sizing.maximum_width, None);
    assert_eq!(sizing.constraints(false), (None, Some(2000)));
    assert_eq!(sizing.constraints(true), (Some(2000), None));
    assert_eq!(
        sizing.rotation_for(PdfPageOrientation::Landscape),
        (PdfBitmapRotation::Degrees0, false)
    );

    let rotated = sizing.rotate_if_landscape(PdfBitmapRotation::Degrees90, true);
    assert_eq!(
        rotated.rotation_for(PdfPageOrientation::Landscape),
        (PdfBitmapRotation::Degrees90, true)
    );
    assert_eq!(
        rotated.rotation_for(PdfPageOrientation::Portrait),
        (PdfBitmapRotation::Degrees0, false)
    );

    // A half turn does not swap the maximum sizes, so the earlier choice is kept.
    let half = rotated.rotate(PdfBitmapRotation::Degrees180, false);
    assert_eq!(
        half.rotation_for(PdfPageOrientation::Landscape),
        (PdfBitmapRotation::Degrees180, true)
    );
    assert_eq!(
        half.rotation_for(PdfPageOrientation::Portrait),
        (PdfBitmapRotation::Degrees180, false)
    );

    let display = PdfBitmapSizing::new().scale_page_to_display_size(800, 600);
    assert_eq!(display.target_width, Some(800));
    assert_eq!(display.maximum_width, Some(800));
    assert_eq!(display.maximum_height, Some(600));
    assert_eq!(display.landscape_rotation, PdfBitmapRotation::Degrees90);
    assert!(display.landscape_rotation_do_rotate_constraints);

    assert_eq!(rendered_rotation(PdfBitmapRotation::Degrees0), None);
    assert_eq!(
        rendered_rotation(PdfBitmapRotation::Degrees270),
        Some(PdfBitmapRotation::Degrees270)
    );
}

#[test]
fn utf16le_encoding() {
    assert_eq!(utf16_units("Hi"), vec![0x48, 0x69]);
    assert_eq!(utf16_units("é😀"), vec![0xE9, 0xD83D, 0xDE00]);
    assert_eq!(get_pdfium_utf16le_bytes_from_str("A😀"), vec![0x41, 0, 0x3D, 0xD8, 0x00, 0xDE, 0, 0]);
    assert_eq!(get_pdfium_utf16le_bytes_from_str(""), vec![0, 0]);
    let bytes = get_pdfium_utf16le_bytes_from_str("Über 😀");
    assert_eq!(get_string_from_pdfium_utf16le_bytes(&bytes), Some("Über 😀".to_string()));
}
