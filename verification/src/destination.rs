//! Defines the [PdfDestination] struct, exposing functionality related to the target destination
//! of a link contained within a single `PdfPage`.

use crate::bindgen::{c_int, FPDF_DEST, FPDF_DOCUMENT};
use crate::bindings::PdfiumLibraryBindings;
use crate::error::PdfiumError;
use vstd::prelude::*;

verus! {

/// The zero-based index of a single page inside a document.
pub type PdfPageIndex = c_int;

/// The page index Pdfium's `FPDFDest_GetDestPageIndex()` result stands for: Pdfium returns
/// -1 when the destination's page index is not available.
pub open spec fn spec_page_index_from_pdfium(raw: c_int) -> Result<PdfPageIndex, PdfiumError> {
    if raw == -1 {
        Err(PdfiumError::DestinationPageIndexNotAvailable)
    } else {
        Ok(raw)
    }
}

/// Converts Pdfium's `FPDFDest_GetDestPageIndex()` result into a page index.
pub fn page_index_from_pdfium(raw: c_int) -> (r: Result<PdfPageIndex, PdfiumError>)
    ensures
        r == spec_page_index_from_pdfium(raw),
        raw == -1 ==> r == Err::<PdfPageIndex, PdfiumError>(
            PdfiumError::DestinationPageIndexNotAvailable,
        ),
        raw != -1 ==> r == Ok::<PdfPageIndex, PdfiumError>(raw),
{
    match raw {
        -1 => Err(PdfiumError::DestinationPageIndexNotAvailable),
        index => Ok(index),
    }
}

/// Pdfium's answer is the page index itself: every answer other than -1 is taken as the
/// zero-based index it gives, unchanged, and only -1 means that no index is available. Two
/// answers that give a page index give the same one only if they are the same answer.
pub proof fn lemma_page_index_is_pdfium_answer(raw: c_int, other: c_int)
    ensures
        spec_page_index_from_pdfium(raw) is Err <==> raw == -1,
        raw != -1 ==> spec_page_index_from_pdfium(raw) == Ok::<PdfPageIndex, PdfiumError>(raw),
        raw == -1 ==> spec_page_index_from_pdfium(raw) == Err::<PdfPageIndex, PdfiumError>(
            PdfiumError::DestinationPageIndexNotAvailable,
        ),
        raw >= 0 ==> (spec_page_index_from_pdfium(raw) matches Ok(index) && index == raw),
        spec_page_index_from_pdfium(raw) is Ok && spec_page_index_from_pdfium(raw)
            == spec_page_index_from_pdfium(other) ==> raw == other,
{
}

/// The page and region, if any, that will be the target of any behaviour that will occur
/// when the user interacts with a link in a PDF viewer.
pub struct PdfDestination<'a, B: PdfiumLibraryBindings> {
    document_handle: FPDF_DOCUMENT,
    destination_handle: FPDF_DEST,
    bindings: &'a B,
}

impl<'a, B: PdfiumLibraryBindings> PdfDestination<'a, B> {
    /// The Pdfium handle of this destination.
    pub closed spec fn spec_destination_handle(&self) -> FPDF_DEST {
        self.destination_handle
    }

    /// The Pdfium handle of the document containing this destination.
    pub closed spec fn spec_document_handle(&self) -> FPDF_DOCUMENT {
        self.document_handle
    }

    /// The bindings this destination calls through.
    pub closed spec fn spec_bindings(&self) -> &'a B {
        self.bindings
    }

    pub fn from_pdfium(
        document_handle: FPDF_DOCUMENT,
        destination_handle: FPDF_DEST,
        bindings: &'a B,
    ) -> (r: Self)
        ensures
            r.spec_document_handle() == document_handle,
            r.spec_destination_handle() == destination_handle,
            r.spec_bindings() == bindings,
    {
        PdfDestination { document_handle, destination_handle, bindings }
    }

    /// Returns the internal `FPDF_DEST` handle for this [PdfDestination].
    pub fn destination_handle(&self) -> (r: FPDF_DEST)
        ensures
            r == self.spec_destination_handle(),
    {
        self.destination_handle
    }

    /// Returns the internal `FPDF_DOCUMENT` handle for this [PdfDestination].
    pub fn document_handle(&self) -> (r: FPDF_DOCUMENT)
        ensures
            r == self.spec_document_handle(),
    {
        self.document_handle
    }

    /// Returns the zero-based index of the `PdfPage` containing this [PdfDestination],
    /// or [PdfiumError::DestinationPageIndexNotAvailable] when Pdfium cannot tell.
    pub fn page_index(&self) -> (r: Result<PdfPageIndex, PdfiumError>)
        ensures
            r == spec_page_index_from_pdfium(
                self.spec_bindings().spec_dest_page_index(
                    self.spec_document_handle(),
                    self.spec_destination_handle(),
                ),
            ),
    {
        page_index_from_pdfium(
            self.bindings.FPDFDest_GetDestPageIndex(self.document_handle, self.destination_handle),
        )
    }

    /// Returns the [PdfiumLibraryBindings] used by this [PdfDestination].
    pub fn bindings(&self) -> (r: &'a B)
        ensures
            r == self.spec_bindings(),
    {
        self.bindings
    }
}

} // verus!
