//! Defines the [PdfiumLibraryBindings] trait, the platform-independent function bindings to an
//! external Pdfium library that every other part of this crate calls through.
//!
//! Each query of Pdfium is named by a spec function of the trait: the answer Pdfium gives
//! about a document, bookmark, bitmap, font or form field. These answers are taken to stay
//! fixed while the bindings are borrowed: nothing in this crate changes the document
//! structure they describe. Calls that create or change something (loading a font, creating
//! a bitmap, saving) are named by a relation instead: which answers are possible for the
//! arguments given, each call possibly giving another one. The last error Pdfium reports
//! changes from call to call and is not named. An implementation of the trait defines each
//! spec function as what its Pdfium answers.

#![allow(non_snake_case)]

use crate::bindgen::{
    c_int, c_ulong, FPDF_ANNOTATION, FPDF_BITMAP, FPDF_BOOKMARK, FPDF_BOOL, FPDF_DEST,
    FPDF_DOCUMENT, FPDF_DWORD, FPDF_FILEWRITE, FPDF_FONT, FPDF_FORMHANDLE, PdfiumHandle,
};
use crate::error::PdfiumInternalError;
use crate::text::{get_pdfium_utf16le_bytes_from_str, spec_utf16_encode, spec_utf16le_bytes};
use vstd::prelude::*;

verus! {

/// Platform-independent function bindings to an external Pdfium library.
///
/// Each method forwards to the Pdfium C function of the same name. Handles are passed as
/// the addresses they carry, zero being the null handle. A caller-supplied output buffer is
/// passed as a mutable byte slice; an empty slice stands for Pdfium's null buffer, with
/// which Pdfium reports the buffer length it needs.
pub trait PdfiumLibraryBindings {
    /// Whether Pdfium reports the file version of the given document (`FPDF_GetFileVersion`'s
    /// result).
    spec fn spec_file_version_ok(&self, document: FPDF_DOCUMENT) -> FPDF_BOOL;

    /// The two-digit file version number Pdfium reports for the given document.
    spec fn spec_file_version_number(&self, document: FPDF_DOCUMENT) -> c_int;

    /// `result` is a possible answer of `FPDF_SaveAsCopy` for these arguments.
    spec fn spec_saved_as_copy(
        &self,
        document: FPDF_DOCUMENT,
        file_write: FPDF_FILEWRITE,
        flags: FPDF_DWORD,
        result: FPDF_BOOL,
    ) -> bool;

    /// `result` is a possible answer of `FPDF_SaveWithVersion` for these arguments.
    spec fn spec_saved_with_version(
        &self,
        document: FPDF_DOCUMENT,
        file_write: FPDF_FILEWRITE,
        flags: FPDF_DWORD,
        version: c_int,
        result: FPDF_BOOL,
    ) -> bool;

    /// `bitmap` is a possible answer of `FPDFBitmap_CreateEx` for these arguments (each call
    /// may create a new bitmap).
    spec fn spec_bitmap_created(
        &self,
        width: c_int,
        height: c_int,
        format: c_int,
        first_scan: PdfiumHandle,
        stride: c_int,
        bitmap: FPDF_BITMAP,
    ) -> bool;

    /// The `FPDFBitmap_*` format code Pdfium reports for the given bitmap.
    spec fn spec_bitmap_format(&self, bitmap: FPDF_BITMAP) -> c_int;

    /// The width in pixels Pdfium reports for the given bitmap.
    spec fn spec_bitmap_width(&self, bitmap: FPDF_BITMAP) -> c_int;

    /// The height in pixels Pdfium reports for the given bitmap.
    spec fn spec_bitmap_height(&self, bitmap: FPDF_BITMAP) -> c_int;

    /// The length in bytes of one row Pdfium reports for the given bitmap.
    spec fn spec_bitmap_stride(&self, bitmap: FPDF_BITMAP) -> c_int;

    /// The first child of the given bookmark in the document's outline (of the outline's
    /// top level for the null bookmark); null when there is none.
    spec fn spec_first_child(&self, document: FPDF_DOCUMENT, bookmark: FPDF_BOOKMARK) -> FPDF_BOOKMARK;

    /// The bookmark following the given one at the same level of the outline; null when
    /// there is none.
    spec fn spec_next_sibling(&self, document: FPDF_DOCUMENT, bookmark: FPDF_BOOKMARK) -> FPDF_BOOKMARK;

    /// The title of the given bookmark as Pdfium writes it: null-terminated UTF-16LE bytes,
    /// empty when there is no title.
    spec fn spec_title(&self, bookmark: FPDF_BOOKMARK) -> Vec<u8>;

    /// The destination of the given bookmark; null when there is none.
    spec fn spec_dest(&self, document: FPDF_DOCUMENT, bookmark: FPDF_BOOKMARK) -> FPDF_DEST;

    /// The page index of the given destination; -1 when it is not available.
    spec fn spec_dest_page_index(&self, document: FPDF_DOCUMENT, dest: FPDF_DEST) -> c_int;

    /// The first bookmark whose title is the given null-terminated UTF-16LE title; null
    /// when there is none.
    spec fn spec_find(&self, document: FPDF_DOCUMENT, title: &[u8]) -> FPDF_BOOKMARK;

    /// `font` is a possible answer of `FPDFText_LoadStandardFont` for these arguments.
    spec fn spec_standard_font_loaded(&self, document: FPDF_DOCUMENT, name: &str, font: FPDF_FONT) -> bool;

    /// `font` is a possible answer of `FPDFText_LoadFont` for these arguments (each call may
    /// load a new font).
    spec fn spec_font_loaded(
        &self,
        document: FPDF_DOCUMENT,
        data: &[u8],
        font_type: c_int,
        cid: FPDF_BOOL,
        font: FPDF_FONT,
    ) -> bool;

    /// The name of the given font as Pdfium writes it: null-terminated UTF-8 bytes, empty
    /// when there is no name.
    spec fn spec_font_name(&self, font: FPDF_FONT) -> Vec<u8>;

    /// The weight Pdfium reports for the given font; -1 on failure.
    spec fn spec_font_weight(&self, font: FPDF_FONT) -> c_int;

    /// Whether Pdfium reports the given form field as checked.
    spec fn spec_is_checked(&self, form: FPDF_FORMHANDLE, annot: FPDF_ANNOTATION) -> FPDF_BOOL;

    /// The name of the given form field as Pdfium writes it: null-terminated UTF-16LE bytes,
    /// empty when there is no name.
    spec fn spec_field_name(&self, form: FPDF_FORMHANDLE, annot: FPDF_ANNOTATION) -> Vec<u8>;

    /// The value of the given form field as Pdfium writes it: null-terminated UTF-16LE
    /// bytes, empty when there is no value.
    spec fn spec_field_value(&self, form: FPDF_FORMHANDLE, annot: FPDF_ANNOTATION) -> Vec<u8>;

    fn FPDF_InitLibrary(&self);

    fn FPDF_DestroyLibrary(&self);

    fn FPDF_GetLastError(&self) -> c_ulong;

    fn FPDF_CloseDocument(&self, document: FPDF_DOCUMENT);

    fn FPDF_GetFileVersion(&self, doc: FPDF_DOCUMENT, fileVersion: &mut c_int) -> (r: FPDF_BOOL)
        ensures
            r == self.spec_file_version_ok(doc),
            r != 0 ==> *final(fileVersion) == self.spec_file_version_number(doc),
    ;

    fn FPDF_SaveAsCopy(
        &self,
        document: FPDF_DOCUMENT,
        pFileWrite: FPDF_FILEWRITE,
        flags: FPDF_DWORD,
    ) -> (r: FPDF_BOOL)
        ensures
            self.spec_saved_as_copy(document, pFileWrite, flags, r),
    ;

    fn FPDF_SaveWithVersion(
        &self,
        document: FPDF_DOCUMENT,
        pFileWrite: FPDF_FILEWRITE,
        flags: FPDF_DWORD,
        fileVersion: c_int,
    ) -> (r: FPDF_BOOL)
        ensures
            self.spec_saved_with_version(document, pFileWrite, flags, fileVersion, r),
    ;

    fn FPDFBitmap_CreateEx(
        &self,
        width: c_int,
        height: c_int,
        format: c_int,
        first_scan: PdfiumHandle,
        stride: c_int,
    ) -> (r: FPDF_BITMAP)
        ensures
            self.spec_bitmap_created(width, height, format, first_scan, stride, r),
    ;

    fn FPDFBitmap_Destroy(&self, bitmap: FPDF_BITMAP);

    fn FPDFBitmap_GetFormat(&self, bitmap: FPDF_BITMAP) -> (r: c_int)
        ensures
            r == self.spec_bitmap_format(bitmap),
    ;

    fn FPDFBitmap_GetWidth(&self, bitmap: FPDF_BITMAP) -> (r: c_int)
        ensures
            r == self.spec_bitmap_width(bitmap),
    ;

    fn FPDFBitmap_GetHeight(&self, bitmap: FPDF_BITMAP) -> (r: c_int)
        ensures
            r == self.spec_bitmap_height(bitmap),
    ;

    fn FPDFBitmap_GetStride(&self, bitmap: FPDF_BITMAP) -> (r: c_int)
        ensures
            r == self.spec_bitmap_stride(bitmap),
    ;

    fn FPDFBookmark_GetFirstChild(
        &self,
        document: FPDF_DOCUMENT,
        bookmark: FPDF_BOOKMARK,
    ) -> (r: FPDF_BOOKMARK)
        ensures
            r == self.spec_first_child(document, bookmark),
    ;

    fn FPDFBookmark_GetNextSibling(
        &self,
        document: FPDF_DOCUMENT,
        bookmark: FPDF_BOOKMARK,
    ) -> (r: FPDF_BOOKMARK)
        ensures
            r == self.spec_next_sibling(document, bookmark),
    ;

    /// Returns the length of the title; writes it into the buffer when the buffer is long
    /// enough.
    fn FPDFBookmark_GetTitle(&self, bookmark: FPDF_BOOKMARK, buffer: &mut [u8]) -> (r: c_ulong)
        ensures
            r == self.spec_title(bookmark)@.len(),
            final(buffer)@.len() == old(buffer)@.len(),
            old(buffer)@.len() >= r ==> final(buffer)@.subrange(0, r as int) == self.spec_title(
                bookmark,
            )@,
    ;

    fn FPDFBookmark_GetDest(&self, document: FPDF_DOCUMENT, bookmark: FPDF_BOOKMARK) -> (r:
        FPDF_DEST)
        ensures
            r == self.spec_dest(document, bookmark),
    ;

    /// `title` is Pdfium's null-terminated UTF-16LE byte buffer.
    fn FPDFBookmark_Find(&self, document: FPDF_DOCUMENT, title: &[u8]) -> (r: FPDF_BOOKMARK)
        ensures
            r == self.spec_find(document, title),
    ;

    fn FPDFDest_GetDestPageIndex(&self, document: FPDF_DOCUMENT, dest: FPDF_DEST) -> (r: c_int)
        ensures
            r == self.spec_dest_page_index(document, dest),
    ;

    fn FPDFText_LoadStandardFont(&self, document: FPDF_DOCUMENT, font: &str) -> (r: FPDF_FONT)
        ensures
            self.spec_standard_font_loaded(document, font, r),
    ;

    fn FPDFText_LoadFont(
        &self,
        document: FPDF_DOCUMENT,
        data: &[u8],
        font_type: c_int,
        cid: FPDF_BOOL,
    ) -> (r: FPDF_FONT)
        ensures
            self.spec_font_loaded(document, data, font_type, cid, r),
    ;

    /// Returns the length of the name; writes it into the buffer when the buffer is long
    /// enough.
    fn FPDFFont_GetFontName(&self, font: FPDF_FONT, buffer: &mut [u8]) -> (r: c_ulong)
        ensures
            r == self.spec_font_name(font)@.len(),
            final(buffer)@.len() == old(buffer)@.len(),
            old(buffer)@.len() >= r ==> final(buffer)@.subrange(0, r as int) == self.spec_font_name(
                font,
            )@,
    ;

    fn FPDFFont_GetWeight(&self, font: FPDF_FONT) -> (r: c_int)
        ensures
            r == self.spec_font_weight(font),
    ;

    fn FPDFAnnot_IsChecked(&self, hHandle: FPDF_FORMHANDLE, annot: FPDF_ANNOTATION) -> (r:
        FPDF_BOOL)
        ensures
            r == self.spec_is_checked(hHandle, annot),
    ;

    /// Returns the length of the name; writes it into the buffer when the buffer is long
    /// enough.
    fn FPDFAnnot_GetFormFieldName(
        &self,
        hHandle: FPDF_FORMHANDLE,
        annot: FPDF_ANNOTATION,
        buffer: &mut [u8],
    ) -> (r: c_ulong)
        ensures
            r == self.spec_field_name(hHandle, annot)@.len(),
            final(buffer)@.len() == old(buffer)@.len(),
            old(buffer)@.len() >= r ==> final(buffer)@.subrange(0, r as int) == self.spec_field_name(
                hHandle,
                annot,
            )@,
    ;

    /// Returns the length of the value; writes it into the buffer when the buffer is long
    /// enough.
    fn FPDFAnnot_GetFormFieldValue(
        &self,
        hHandle: FPDF_FORMHANDLE,
        annot: FPDF_ANNOTATION,
        buffer: &mut [u8],
    ) -> (r: c_ulong)
        ensures
            r == self.spec_field_value(hHandle, annot)@.len(),
            final(buffer)@.len() == old(buffer)@.len(),
            old(buffer)@.len() >= r ==> final(buffer)@.subrange(0, r as int)
                == self.spec_field_value(hHandle, annot)@,
    ;

    /// Finds the first bookmark with the given title, converting the title into the
    /// null-terminated UTF-16LE buffer Pdfium expects.
    fn FPDFBookmark_Find_str(&self, document: FPDF_DOCUMENT, title: &str) -> (r: FPDF_BOOKMARK)
        ensures
            exists|bytes: &[u8]|
                bytes@ == spec_utf16le_bytes(spec_utf16_encode(title@).push(0)) && r
                    == #[trigger] self.spec_find(document, bytes),
    {
        let bytes = get_pdfium_utf16le_bytes_from_str(title);
        self.FPDFBookmark_Find(document, bytes.as_slice())
    }

    /// Pdfium's C-style boolean value for "true".
    fn TRUE(&self) -> (r: FPDF_BOOL)
        ensures
            r == 1,
    {
        1
    }

    /// Pdfium's C-style boolean value for "false".
    fn FALSE(&self) -> (r: FPDF_BOOL)
        ensures
            r == 0,
    {
        0
    }

    /// Converts the given Rust bool into a Pdfium `FPDF_BOOL`.
    fn bool_to_pdfium(&self, value: bool) -> (r: FPDF_BOOL)
        ensures
            r == (if value {
                1i32
            } else {
                0i32
            }),
    {
        if value {
            self.TRUE()
        } else {
            self.FALSE()
        }
    }

    /// Converts the given Pdfium `FPDF_BOOL` into a Rust bool: any value other than
    /// Pdfium's "false" counts as true.
    fn is_true(&self, value: FPDF_BOOL) -> (r: bool)
        ensures
            r == (value != 0),
    {
        value != self.FALSE()
    }

    /// Returns the error Pdfium reports for the most recent failed call, if any: the error
    /// that the (truncated) code Pdfium reports stands for.
    fn get_pdfium_last_error(&self) -> (r: Option<PdfiumInternalError>)
        ensures
            exists|code: u32| r == #[trigger] PdfiumInternalError::spec_from_error_code(code),
    {
        let code = self.FPDF_GetLastError() as u32;
        let r = PdfiumInternalError::from_pdfium_error_code(code);
        assert(r == PdfiumInternalError::spec_from_error_code(code));
        r
    }
}

} // verus!
