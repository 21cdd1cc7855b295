//! Plain-value forms of the Pdfium C types, handles and constants that the library logic uses.
//!
//! Pdfium hands out opaque handles to its internal objects. The library never looks inside a
//! handle: it only tests whether a handle is null, passes it back to Pdfium, and compares two
//! handles for identity. A handle is therefore held here as the address it carries, with the
//! address zero standing for the null handle.

#![allow(non_camel_case_types)]
#![allow(non_upper_case_globals)]

use vstd::prelude::*;

verus! {

pub type c_int = i32;

pub type c_uint = u32;

pub type c_ulong = u64;

pub type FPDF_BOOL = c_int;

pub type FPDF_DWORD = c_ulong;

/// The address of an opaque Pdfium object; zero is the null handle.
pub type PdfiumHandle = usize;

pub type FPDF_DOCUMENT = PdfiumHandle;

pub type FPDF_BITMAP = PdfiumHandle;

pub type FPDF_BOOKMARK = PdfiumHandle;

pub type FPDF_DEST = PdfiumHandle;

pub type FPDF_FONT = PdfiumHandle;

pub type FPDF_FORMHANDLE = PdfiumHandle;

pub type FPDF_ANNOTATION = PdfiumHandle;

pub type FPDF_FILEWRITE = PdfiumHandle;

/// The null handle.
pub const NULL_HANDLE: PdfiumHandle = 0;

pub const FPDF_ERR_SUCCESS: u32 = 0;

pub const FPDF_ERR_UNKNOWN: u32 = 1;

pub const FPDF_ERR_FILE: u32 = 2;

pub const FPDF_ERR_FORMAT: u32 = 3;

pub const FPDF_ERR_PASSWORD: u32 = 4;

pub const FPDF_ERR_SECURITY: u32 = 5;

pub const FPDF_ERR_PAGE: u32 = 6;

pub const FPDFBitmap_Unknown: u32 = 0;

pub const FPDFBitmap_Gray: u32 = 1;

pub const FPDFBitmap_BGR: u32 = 2;

pub const FPDFBitmap_BGRx: u32 = 3;

pub const FPDFBitmap_BGRA: u32 = 4;

pub const FPDF_COLORSPACE_UNKNOWN: u32 = 0;

pub const FPDF_COLORSPACE_DEVICEGRAY: u32 = 1;

pub const FPDF_COLORSPACE_DEVICERGB: u32 = 2;

pub const FPDF_COLORSPACE_DEVICECMYK: u32 = 3;

pub const FPDF_COLORSPACE_CALGRAY: u32 = 4;

pub const FPDF_COLORSPACE_CALRGB: u32 = 5;

pub const FPDF_COLORSPACE_LAB: u32 = 6;

pub const FPDF_COLORSPACE_ICCBASED: u32 = 7;

pub const FPDF_COLORSPACE_SEPARATION: u32 = 8;

pub const FPDF_COLORSPACE_DEVICEN: u32 = 9;

pub const FPDF_COLORSPACE_INDEXED: u32 = 10;

pub const FPDF_COLORSPACE_PATTERN: u32 = 11;

pub const FPDF_FONT_TYPE1: c_uint = 1;

pub const FPDF_FONT_TRUETYPE: c_uint = 2;

} // verus!
