//! Defines the [PdfDocument] struct, the entry point to all Pdfium functionality
//! related to a single PDF file.

use crate::bindgen::{c_int, FPDF_BOOL, FPDF_DOCUMENT, FPDF_DWORD, FPDF_FILEWRITE, NULL_HANDLE};
use crate::bindings::PdfiumLibraryBindings;
use crate::bookmarks::PdfBookmarks;
use crate::error::{PdfiumError, PdfiumInternalError};
use crate::fonts::PdfFonts;
use vstd::prelude::*;

verus! {

/// The file version of a [PdfDocument].
///
/// A list of PDF file versions is available at <https://en.wikipedia.org/wiki/History_of_PDF>.
#[derive(Debug, Copy, Clone, PartialEq, Eq, Structural)]
pub enum PdfDocumentVersion {
    /// No version information is available. This is the case if the [PdfDocument]
    /// was created rather than loaded from a file.
    Unset,
    /// PDF 1.0, first published in 1993, supported by Acrobat Reader Carousel (1.0) onwards.
    Pdf1_0,
    /// PDF 1.1, first published in 1994, supported by Acrobat Reader 2.0 onwards.
    Pdf1_1,
    /// PDF 1.2, first published in 1996, supported by Acrobat Reader 3.0 onwards.
    Pdf1_2,
    /// PDF 1.3, first published in 2000, supported by Acrobat Reader 4.0 onwards.
    Pdf1_3,
    /// PDF 1.4, first published in 2001, supported by Acrobat Reader 5.0 onwards.
    Pdf1_4,
    /// PDF 1.5, first published in 2003, supported by Acrobat Reader 6.0 onwards.
    Pdf1_5,
    /// PDF 1.6, first published in 2004, supported by Acrobat Reader 7.0 onwards.
    Pdf1_6,
    /// PDF 1.7, first published in 2006, supported by Acrobat Reader 8.0 onwards,
    /// adopted as ISO open standard 32000-1 in 2008.
    Pdf1_7,
    /// PDF 2.0, first published in 2017, ISO open standard 32000-2.
    Pdf2_0,
    /// A two-digit raw file version number. For instance, a value of 21 would indicate
    /// PDF version 2.1. Only used when the file version number is not directly recognized.
    Other(i32),
}

impl PdfDocumentVersion {
    /// The default [PdfDocumentVersion] applied to new documents.
    pub const DEFAULT_VERSION: PdfDocumentVersion = PdfDocumentVersion::Pdf1_7;

    /// The version Pdfium's two-digit file version number stands for.
    pub open spec fn spec_from_pdfium(version: i32) -> PdfDocumentVersion {
        if version == 10 {
            PdfDocumentVersion::Pdf1_0
        } else if version == 11 {
            PdfDocumentVersion::Pdf1_1
        } else if version == 12 {
            PdfDocumentVersion::Pdf1_2
        } else if version == 13 {
            PdfDocumentVersion::Pdf1_3
        } else if version == 14 {
            PdfDocumentVersion::Pdf1_4
        } else if version == 15 {
            PdfDocumentVersion::Pdf1_5
        } else if version == 16 {
            PdfDocumentVersion::Pdf1_6
        } else if version == 17 {
            PdfDocumentVersion::Pdf1_7
        } else if version == 20 {
            PdfDocumentVersion::Pdf2_0
        } else {
            PdfDocumentVersion::Other(version)
        }
    }

    /// Pdfium's two-digit file version number for this version, if it has one.
    pub open spec fn spec_as_pdfium(self) -> Option<i32> {
        match self {
            PdfDocumentVersion::Pdf1_0 => Some(10),
            PdfDocumentVersion::Pdf1_1 => Some(11),
            PdfDocumentVersion::Pdf1_2 => Some(12),
            PdfDocumentVersion::Pdf1_3 => Some(13),
            PdfDocumentVersion::Pdf1_4 => Some(14),
            PdfDocumentVersion::Pdf1_5 => Some(15),
            PdfDocumentVersion::Pdf1_6 => Some(16),
            PdfDocumentVersion::Pdf1_7 => Some(17),
            PdfDocumentVersion::Pdf2_0 => Some(20),
            PdfDocumentVersion::Other(value) => Some(value),
            PdfDocumentVersion::Unset => None,
        }
    }

    pub fn from_pdfium(version: i32) -> (r: Self)
        ensures
            r == Self::spec_from_pdfium(version),
    {
        match version {
            10 => PdfDocumentVersion::Pdf1_0,
            11 => PdfDocumentVersion::Pdf1_1,
            12 => PdfDocumentVersion::Pdf1_2,
            13 => PdfDocumentVersion::Pdf1_3,
            14 => PdfDocumentVersion::Pdf1_4,
            15 => PdfDocumentVersion::Pdf1_5,
            16 => PdfDocumentVersion::Pdf1_6,
            17 => PdfDocumentVersion::Pdf1_7,
            20 => PdfDocumentVersion::Pdf2_0,
            _ => PdfDocumentVersion::Other(version),
        }
    }

    pub fn as_pdfium(&self) -> (r: Option<i32>)
        ensures
            r == self.spec_as_pdfium(),
    {
        match self {
            PdfDocumentVersion::Pdf1_0 => Some(10),
            PdfDocumentVersion::Pdf1_1 => Some(11),
            PdfDocumentVersion::Pdf1_2 => Some(12),
            PdfDocumentVersion::Pdf1_3 => Some(13),
            PdfDocumentVersion::Pdf1_4 => Some(14),
            PdfDocumentVersion::Pdf1_5 => Some(15),
            PdfDocumentVersion::Pdf1_6 => Some(16),
            PdfDocumentVersion::Pdf1_7 => Some(17),
            PdfDocumentVersion::Pdf2_0 => Some(20),
            PdfDocumentVersion::Other(value) => Some(*value),
            PdfDocumentVersion::Unset => None,
        }
    }
}

/// PDF version `M.N` is written as the two-digit file version number `10 * M + N`, as the
/// [PdfDocumentVersion::Other] variant documents: each named version has its own number,
/// that number is read back as that version (an [PdfDocumentVersion::Other] holding a named
/// version's number is read back as the named version), and distinct numbers are read as distinct
/// versions.
pub proof fn lemma_file_version_numbers_are_major_and_minor(version: i32, other: i32)
    ensures
        PdfDocumentVersion::Pdf1_0.spec_as_pdfium() == Some((10 * 1 + 0) as i32),
        PdfDocumentVersion::Pdf1_1.spec_as_pdfium() == Some((10 * 1 + 1) as i32),
        PdfDocumentVersion::Pdf1_2.spec_as_pdfium() == Some((10 * 1 + 2) as i32),
        PdfDocumentVersion::Pdf1_3.spec_as_pdfium() == Some((10 * 1 + 3) as i32),
        PdfDocumentVersion::Pdf1_4.spec_as_pdfium() == Some((10 * 1 + 4) as i32),
        PdfDocumentVersion::Pdf1_5.spec_as_pdfium() == Some((10 * 1 + 5) as i32),
        PdfDocumentVersion::Pdf1_6.spec_as_pdfium() == Some((10 * 1 + 6) as i32),
        PdfDocumentVersion::Pdf1_7.spec_as_pdfium() == Some((10 * 1 + 7) as i32),
        PdfDocumentVersion::Pdf2_0.spec_as_pdfium() == Some((10 * 2 + 0) as i32),
        PdfDocumentVersion::Unset.spec_as_pdfium() is None,
        forall|v: PdfDocumentVersion|
            #![trigger v.spec_as_pdfium()]
            !(v is Other) ==> (v.spec_as_pdfium() matches Some(n) ==> PdfDocumentVersion::spec_from_pdfium(n) == v),
        PdfDocumentVersion::spec_from_pdfium(version) == PdfDocumentVersion::spec_from_pdfium(
            other,
        ) ==> version == other,
        (PdfDocumentVersion::spec_from_pdfium(version) is Other) <==> !(10 <= version <= 17
            || version == 20),
{
}

/// Every file version number Pdfium reports comes back unchanged when the version it
/// stands for is written out again.
pub proof fn lemma_file_version_number_round_trip(version: i32)
    ensures
        PdfDocumentVersion::spec_from_pdfium(version).spec_as_pdfium() == Some(version),
{
}

/// Every version other than [PdfDocumentVersion::Unset] is read back as itself from the
/// number it is written out as, except an [PdfDocumentVersion::Other] holding a number that
/// has a named version, which is read back as that named version.
pub proof fn lemma_document_version_round_trip(v: PdfDocumentVersion)
    requires
        v != PdfDocumentVersion::Unset,
    ensures
        v.spec_as_pdfium() is Some,
        (v matches PdfDocumentVersion::Other(n) && (10 <= n <= 17 || n == 20)) || PdfDocumentVersion::spec_from_pdfium(
            v.spec_as_pdfium().unwrap(),
        ) == v,
{
}

/// The file version number a document is saved with: `None` when no output version was set
/// (Pdfium then keeps the document's own version), otherwise the number of the chosen
/// version, with [PdfDocumentVersion::DEFAULT_VERSION] standing in for
/// [PdfDocumentVersion::Unset].
pub open spec fn spec_save_file_version(output_version: Option<PdfDocumentVersion>) -> Option<c_int> {
    match output_version {
        Some(version) => match version.spec_as_pdfium() {
            Some(n) => Some(n),
            None => Some(17),
        },
        None => None,
    }
}

/// A document is saved with the file version last set on it: the number of that version,
/// or the number of [PdfDocumentVersion::DEFAULT_VERSION] when [PdfDocumentVersion::Unset]
/// was set.
pub proof fn lemma_saved_with_the_version_set(version: PdfDocumentVersion)
    ensures
        spec_save_file_version(Some(version)) == (if version == PdfDocumentVersion::Unset {
            PdfDocumentVersion::Pdf1_7.spec_as_pdfium()
        } else {
            version.spec_as_pdfium()
        }),
        spec_save_file_version(Some(version)) is Some,
{
}

/// `result` is a possible answer of the save call made for a document with the given output
/// version: `FPDF_SaveWithVersion` with the number [spec_save_file_version] gives when an
/// output version was set, otherwise `FPDF_SaveAsCopy`, in both cases with no flags.
pub open spec fn spec_save_call<B: PdfiumLibraryBindings>(
    bindings: &B,
    document: FPDF_DOCUMENT,
    file_write: FPDF_FILEWRITE,
    output_version: Option<PdfDocumentVersion>,
    result: FPDF_BOOL,
) -> bool {
    match spec_save_file_version(output_version) {
        Some(version) => bindings.spec_saved_with_version(document, file_write, 0, version, result),
        None => bindings.spec_saved_as_copy(document, file_write, 0, result),
    }
}

/// An entry point to the object collections contained in a single PDF file, such as the
/// document's bookmarks and fonts.
///
/// The document stays open until [PdfDocument::close()] is called.
pub struct PdfDocument<'a, B: PdfiumLibraryBindings> {
    handle: FPDF_DOCUMENT,
    output_version: Option<PdfDocumentVersion>,
    bookmarks: PdfBookmarks<'a, B>,
    fonts: PdfFonts<'a, B>,
    bindings: &'a B,
    source_byte_buffer: Option<Vec<u8>>,
}

impl<'a, B: PdfiumLibraryBindings> PdfDocument<'a, B> {
    /// The Pdfium handle of this document.
    pub closed spec fn spec_handle(&self) -> FPDF_DOCUMENT {
        self.handle
    }

    /// The bindings this document calls through.
    pub closed spec fn spec_bindings(&self) -> &'a B {
        self.bindings
    }

    /// The file version this document will be saved with, if one was set.
    pub closed spec fn spec_output_version(&self) -> Option<PdfDocumentVersion> {
        self.output_version
    }

    /// The byte buffer holding this document's data, if it was loaded from memory.
    pub closed spec fn spec_source_byte_buffer(&self) -> Option<Seq<u8>> {
        match self.source_byte_buffer {
            Some(b) => Some(b@),
            None => None,
        }
    }

    /// The collections of this document belong to this document and reach Pdfium through
    /// the same bindings.
    pub closed spec fn wf(&self) -> bool {
        &&& self.bookmarks.spec_document_handle() == self.handle
        &&& self.bookmarks.spec_bindings() == self.bindings
        &&& self.fonts.spec_document_handle() == self.handle
        &&& self.fonts.spec_bindings() == self.bindings
    }

    pub fn from_pdfium(handle: FPDF_DOCUMENT, bindings: &'a B) -> (r: Self)
        ensures
            r.wf(),
            r.spec_handle() == handle,
            r.spec_bindings() == bindings,
            r.spec_output_version() is None,
            r.spec_source_byte_buffer() is None,
    {
        PdfDocument {
            handle,
            output_version: None,
            bookmarks: PdfBookmarks::from_pdfium(handle, bindings),
            fonts: PdfFonts::from_pdfium(handle, bindings),
            bindings,
            source_byte_buffer: None,
        }
    }

    /// Wraps the handle Pdfium returned when asked to open a document. A null handle signals
    /// that the document could not be opened; the error is the one Pdfium reports, or
    /// [PdfiumInternalError::Unknown] when it reports none.
    pub fn from_loaded_handle(handle: FPDF_DOCUMENT, bindings: &'a B) -> (r: Result<Self, PdfiumError>)
        ensures
            handle != NULL_HANDLE ==> (r matches Ok(d) && d.wf() && d.spec_handle() == handle
                && d.spec_bindings() == bindings && d.spec_output_version() is None
                && d.spec_source_byte_buffer() is None),
            handle == NULL_HANDLE ==> (r matches Err(e) && e is PdfiumLibraryInternalError),
    {
        if handle == NULL_HANDLE {
            match bindings.get_pdfium_last_error() {
                Some(error) => Err(PdfiumError::PdfiumLibraryInternalError(error)),
                None => Err(PdfiumError::PdfiumLibraryInternalError(PdfiumInternalError::Unknown)),
            }
        } else {
            Ok(Self::from_pdfium(handle, bindings))
        }
    }

    /// Returns the internal `FPDF_DOCUMENT` handle for this [PdfDocument].
    pub fn handle(&self) -> (r: FPDF_DOCUMENT)
        ensures
            r == self.spec_handle(),
    {
        self.handle
    }

    /// Returns the [PdfiumLibraryBindings] used by this [PdfDocument].
    pub fn bindings(&self) -> (r: &'a B)
        ensures
            r == self.spec_bindings(),
    {
        self.bindings
    }

    /// Transfers ownership of the byte buffer containing the binary data of this [PdfDocument],
    /// so that it will always be available for Pdfium to read data from as needed.
    pub fn set_source_byte_buffer(&mut self, bytes: Vec<u8>)
        requires
            old(self).wf(),
        ensures
            final(self).wf(),
            final(self).spec_source_byte_buffer() == Some(bytes@),
            final(self).spec_handle() == old(self).spec_handle(),
            final(self).spec_bindings() == old(self).spec_bindings(),
            final(self).spec_output_version() == old(self).spec_output_version(),
    {
        self.source_byte_buffer = Some(bytes);
    }

    /// Returns the file version of this [PdfDocument], or [PdfDocumentVersion::Unset] when
    /// Pdfium reports no version information.
    pub fn version(&self) -> (r: PdfDocumentVersion)
        ensures
            r == (if self.spec_bindings().spec_file_version_ok(self.spec_handle()) != 0 {
                PdfDocumentVersion::spec_from_pdfium(
                    self.spec_bindings().spec_file_version_number(self.spec_handle()),
                )
            } else {
                PdfDocumentVersion::Unset
            }),
    {
        let mut version: c_int = 0;
        if self.bindings.FPDF_GetFileVersion(self.handle, &mut version) != 0 {
            PdfDocumentVersion::from_pdfium(version)
        } else {
            PdfDocumentVersion::Unset
        }
    }

    /// Sets the file version that will be used the next time this [PdfDocument] is saved.
    pub fn set_version(&mut self, version: PdfDocumentVersion)
        requires
            old(self).wf(),
        ensures
            final(self).wf(),
            final(self).spec_output_version() == Some(version),
            final(self).spec_handle() == old(self).spec_handle(),
            final(self).spec_bindings() == old(self).spec_bindings(),
            final(self).spec_source_byte_buffer() == old(self).spec_source_byte_buffer(),
    {
        self.output_version = Some(version);
    }

    /// Returns an immutable collection of all the [PdfBookmarks] in this [PdfDocument].
    pub fn bookmarks(&self) -> (r: &PdfBookmarks<'a, B>)
        requires
            self.wf(),
        ensures
            r.spec_document_handle() == self.spec_handle(),
            r.spec_bindings() == self.spec_bindings(),
    {
        &self.bookmarks
    }

    /// Returns an immutable collection of all the [PdfFonts] in this [PdfDocument].
    pub fn fonts(&self) -> (r: &PdfFonts<'a, B>)
        requires
            self.wf(),
        ensures
            r.spec_document_handle() == self.spec_handle(),
            r.spec_bindings() == self.spec_bindings(),
    {
        &self.fonts
    }

    /// Returns a mutable collection of all the [PdfFonts] in this [PdfDocument].
    pub fn fonts_mut(&mut self) -> (r: &mut PdfFonts<'a, B>)
        requires
            old(self).wf(),
        ensures
            r.spec_document_handle() == old(self).spec_handle(),
            r.spec_bindings() == old(self).spec_bindings(),
    {
        &mut self.fonts
    }

    /// The file version number this document will be saved with: `None` when no output
    /// version was set.
    pub fn save_file_version(&self) -> (r: Option<c_int>)
        ensures
            r == spec_save_file_version(self.spec_output_version()),
    {
        match self.output_version {
            Some(version) => match version.as_pdfium() {
                Some(n) => Some(n),
                None => PdfDocumentVersion::DEFAULT_VERSION.as_pdfium(),
            },
            None => None,
        }
    }

    /// Writes this [PdfDocument] through the given Pdfium file writer: with the chosen file
    /// version when one was set ([PdfDocument::save_file_version()]), otherwise as a copy.
    /// Fails with [PdfiumInternalError::Unknown] when Pdfium reports that saving failed.
    pub fn save_to_file_write(&self, file_write: FPDF_FILEWRITE) -> (r: Result<(), PdfiumError>)
        ensures
            exists|result: FPDF_BOOL|
                #[trigger] spec_save_call(
                    self.spec_bindings(),
                    self.spec_handle(),
                    file_write,
                    self.spec_output_version(),
                    result,
                ) && (r is Ok <==> result != 0),
            r matches Err(e) ==> e == PdfiumError::PdfiumLibraryInternalError(
                PdfiumInternalError::Unknown,
            ),
    {
        let flags: FPDF_DWORD = 0;
        let result = match self.save_file_version() {
            Some(version) => self.bindings.FPDF_SaveWithVersion(
                self.handle,
                file_write,
                flags,
                version,
            ),
            None => self.bindings.FPDF_SaveAsCopy(self.handle, file_write, flags),
        };
        assert(spec_save_call(
            self.spec_bindings(),
            self.spec_handle(),
            file_write,
            self.spec_output_version(),
            result,
        ));
        if self.bindings.is_true(result) {
            Ok(())
        } else {
            Err(PdfiumError::PdfiumLibraryInternalError(PdfiumInternalError::Unknown))
        }
    }

    /// Closes this [PdfDocument], releasing held memory and, if the document was loaded
    /// from a file, the file handle on the document.
    pub fn close(self) {
        self.bindings.FPDF_CloseDocument(self.handle);
    }
}

} // verus!
