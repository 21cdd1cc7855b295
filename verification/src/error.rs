//! Defines the [PdfiumError] enum, used to wrap Pdfium errors as `Err` values.

use crate::bindgen::{
    FPDF_ERR_FILE, FPDF_ERR_FORMAT, FPDF_ERR_PAGE, FPDF_ERR_PASSWORD, FPDF_ERR_SECURITY,
    FPDF_ERR_SUCCESS, FPDF_ERR_UNKNOWN,
};
use vstd::prelude::*;

verus! {

/// A wrapped internal library error from Pdfium's `FPDF_ERR_*` constant values.
///
/// Pdfium only provides detailed internal error information for document loading functions.
/// All other functions in the Pdfium API return a value indicating success or failure,
/// but otherwise detailed error information for failed API calls is not available. In these
/// cases, an error value of [PdfiumInternalError::Unknown] will be returned.
#[derive(Debug, Clone, Copy, PartialEq, Eq, Structural)]
pub enum PdfiumInternalError {
    /// The document could not be loaded due to a file system error.
    FileError,
    /// The document could not be loaded due to a format parsing error.
    FormatError,
    /// The document could not be loaded because the wrong password was supplied.
    PasswordError,
    /// The document could not be loaded because of the document's security settings.
    SecurityError,
    /// The page could not be loaded due to an internal error.
    PageError,
    /// A generic error value returned in all other unhandled situations.
    Unknown,
}

impl PdfiumInternalError {
    /// The `FPDF_ERR_*` code that Pdfium uses for this error.
    pub open spec fn spec_code(self) -> u32 {
        match self {
            PdfiumInternalError::FileError => FPDF_ERR_FILE,
            PdfiumInternalError::FormatError => FPDF_ERR_FORMAT,
            PdfiumInternalError::PasswordError => FPDF_ERR_PASSWORD,
            PdfiumInternalError::SecurityError => FPDF_ERR_SECURITY,
            PdfiumInternalError::PageError => FPDF_ERR_PAGE,
            PdfiumInternalError::Unknown => FPDF_ERR_UNKNOWN,
        }
    }

    /// The error that Pdfium's `FPDF_ERR_*` code stands for, if the code signals an error.
    pub open spec fn spec_from_error_code(code: u32) -> Option<PdfiumInternalError> {
        if code == FPDF_ERR_SUCCESS {
            None
        } else if code == FPDF_ERR_FILE {
            Some(PdfiumInternalError::FileError)
        } else if code == FPDF_ERR_FORMAT {
            Some(PdfiumInternalError::FormatError)
        } else if code == FPDF_ERR_PASSWORD {
            Some(PdfiumInternalError::PasswordError)
        } else if code == FPDF_ERR_SECURITY {
            Some(PdfiumInternalError::SecurityError)
        } else if code == FPDF_ERR_PAGE {
            Some(PdfiumInternalError::PageError)
        } else {
            Some(PdfiumInternalError::Unknown)
        }
    }

    /// Converts a Pdfium `FPDF_ERR_*` code into the error it stands for: `None` for
    /// `FPDF_ERR_SUCCESS`, and [PdfiumInternalError::Unknown] for any unrecognized code.
    pub fn from_pdfium_error_code(code: u32) -> (r: Option<PdfiumInternalError>)
        ensures
            r == Self::spec_from_error_code(code),
    {
        match code {
            FPDF_ERR_SUCCESS => None,
            FPDF_ERR_UNKNOWN => Some(PdfiumInternalError::Unknown),
            FPDF_ERR_FILE => Some(PdfiumInternalError::FileError),
            FPDF_ERR_FORMAT => Some(PdfiumInternalError::FormatError),
            FPDF_ERR_PASSWORD => Some(PdfiumInternalError::PasswordError),
            FPDF_ERR_SECURITY => Some(PdfiumInternalError::SecurityError),
            FPDF_ERR_PAGE => Some(PdfiumInternalError::PageError),
            _ => Some(PdfiumInternalError::Unknown),
        }
    }

    /// Returns the `FPDF_ERR_*` code that Pdfium uses for this error.
    pub fn as_pdfium(&self) -> (r: u32)
        ensures
            r == self.spec_code(),
    {
        match self {
            PdfiumInternalError::FileError => FPDF_ERR_FILE,
            PdfiumInternalError::FormatError => FPDF_ERR_FORMAT,
            PdfiumInternalError::PasswordError => FPDF_ERR_PASSWORD,
            PdfiumInternalError::SecurityError => FPDF_ERR_SECURITY,
            PdfiumInternalError::PageError => FPDF_ERR_PAGE,
            PdfiumInternalError::Unknown => FPDF_ERR_UNKNOWN,
        }
    }
}

/// Every error is recognized again from the code Pdfium uses for it.
pub proof fn lemma_error_codes_round_trip(e: PdfiumInternalError)
    ensures
        PdfiumInternalError::spec_from_error_code(e.spec_code()) == Some(e),
{
}

/// A wrapper enum for handling Pdfium errors as standard Rust `Err` values.
///
/// Errors that wrap values of other crates or of the operating system (I/O errors,
/// dynamic loading errors) are raised by the application layer that performs that work.
#[derive(Debug, Clone, PartialEq, Eq)]
pub enum PdfiumError {
    UnrecognizedPath,
    PageIndexOutOfBounds,
    LinkIndexOutOfBounds,
    UnknownBitmapFormat,
    UnknownBitmapRotation,
    UnknownFormType,
    UnknownFormFieldType,
    UnknownActionType,
    UnknownAppearanceMode,
    PageObjectIndexOutOfBounds,
    PageObjectNotAttachedToPage,
    PageObjectAlreadyAttachedToDifferentPage,
    PageAnnotationIndexOutOfBounds,
    PageObjectNotAttachedToAnnotation,
    FormFieldOptionIndexOutOfBounds,
    FormFieldAppearanceStreamUndefined,
    PageFlattenFailure,
    PageMissingEmbeddedThumbnail,
    UnknownPdfPageObjectType,
    UnknownPdfPageTextRenderMode,
    UnknownPdfPagePathFillMode,
    UnknownPdfAnnotationType,
    UnknownPdfDestinationViewType,
    UnknownPdfSecurityHandlerRevision,
    UnknownPdfSignatureModificationDetectionPermissionLevel,
    UnsupportedPdfPageObjectType,
    TextSegmentIndexOutOfBounds,
    CharIndexOutOfBounds,
    NoCharsInPageObject,
    NoCharsInAnnotation,
    NoCharsInRect,
    ImageObjectFilterIndexOutOfBounds,
    ImageObjectFilterIndexInBoundsButFilterUndefined,
    UnknownPdfColorSpace,
    InvalidTransformationMatrix,
    SignatureIndexOutOfBounds,
    AttachmentIndexOutOfBounds,
    NoDataInAttachment,
    FontGlyphIndexOutOfBounds,
    UnknownPathSegmentType,
    NoPagesInDocument,
    NoPageObjectsInCollection,
    NoPageLinksInCollection,
    NoAnnotationsInCollection,
    PageObjectNotCopyable,
    ImageObjectFiltersNotCopyable,
    PathObjectBezierControlPointsNotCopyable,
    PathObjectUnknownSegmentTypeNotCopyable,
    GroupContainsNonCopyablePageObjects,
    SourcePageIndexNotInCache,
    NoUriForAction,
    DestinationPageIndexNotAvailable,
    DestinationPageLocationNotAvailable,
    PageAnnotationAttachmentPointIndexOutOfBounds,
    NoAttachmentPointsInPageAnnotation,
    CoordinateConversionFunctionIndicatedError,
    /// A call to `FPDFDest_GetView()` returned a valid `FPDFDEST_VIEW_*` value, but the number
    /// of view parameters returned does not match the PDF specification.
    PdfDestinationViewInvalidParameters,
    /// The hexadecimal string given to `PdfColor::from_hex()` was not either exactly 7 or 9
    /// characters long.
    ParseHexadecimalColorUnexpectedLength,
    /// The leading `#` character was not found while attempting to parse a `PdfColor` from
    /// a hexadecimal string in `PdfColor::from_hex()`.
    ParseHexadecimalColorMissingLeadingHash,
    /// Two data buffers are expected to have the same size, but they do not.
    DataBufferLengthMismatch,
    /// The setting cannot be returned because this `PdfPageGroupObject` is empty.
    EmptyPageObjectGroup,
    /// A call to a internal Pdfium `FPDF_*` function returned a value indicating failure.
    PdfiumFunctionReturnValueIndicatedFailure,
    /// The browser's built-in `Window` object could not be retrieved.
    WebSysWindowObjectNotAvailable,
    /// An error occurred during an image processing operation.
    ImageError,
    /// An `Image::Image` had a width or height larger than the maximum `u16` size allowed.
    ImageSizeOutOfBounds,
    /// A user font path given to `PdfiumLibraryConfig::set_user_font_paths()` holds a nul
    /// byte, so it cannot be handed to Pdfium as a C string. The wrapped values are the
    /// position of the first nul byte in the path and the bytes of the path.
    InvalidUserFontPath(usize, Vec<u8>),
    /// An error occurred during dynamic binding while converting an FPDF_* function name
    /// to a C string. The wrapped string value contains more information.
    LoadLibraryFunctionNameError(String),
    /// A wrapped internal library error from Pdfium's `FPDF_ERR_*` constant values.
    PdfiumLibraryInternalError(PdfiumInternalError),
}

} // verus!
