//! Defines the [PdfBookmark] struct, exposing functionality related to a single bookmark
//! in a `PdfBookmarks` collection.

use crate::bindgen::{FPDF_BOOKMARK, FPDF_DOCUMENT, NULL_HANDLE};
use crate::bindings::PdfiumLibraryBindings;
use crate::bookmarks::{
    spec_cursor_at, spec_cursor_of, spec_parent_cursor, spec_walk_start, BookmarkCursor, PdfBookmarksIterator,
};
use crate::destination::PdfDestination;
use crate::text::{get_string_from_pdfium_utf16le_bytes, spec_pdfium_utf16le_result};
use vstd::prelude::*;

verus! {

/// Returns a zero-filled byte buffer of the given length.
pub(crate) fn create_byte_buffer(length: usize) -> (r: Vec<u8>)
    ensures
        r@.len() == length,
        forall|i: int| 0 <= i < length ==> r@[i] == 0,
{
    let mut buffer: Vec<u8> = Vec::new();
    let mut i: usize = 0;
    while i < length
        invariant
            i <= length,
            buffer@.len() == i,
            forall|j: int| 0 <= j < i ==> buffer@[j] == 0,
        decreases length - i,
    {
        buffer.push(0);
        i = i + 1;
    }
    buffer
}

/// Where [PdfBookmark::iter_siblings] starts for the bookmark `handle` of the given document:
/// with a known parent, at the parent's first child, passing over the bookmark itself when it
/// is that first child; without one, at the bookmark's next sibling.
pub open spec fn spec_siblings_start<B: PdfiumLibraryBindings>(
    bindings: &B,
    document: FPDF_DOCUMENT,
    handle: FPDF_BOOKMARK,
    parent: Option<FPDF_BOOKMARK>,
) -> Option<BookmarkCursor> {
    match parent {
        Some(p) => {
            let first = bindings.spec_first_child(document, p);
            if first != NULL_HANDLE && first == handle {
                spec_cursor_at(bindings.spec_next_sibling(document, first), Some(p))
            } else {
                spec_cursor_at(first, Some(p))
            }
        },
        None => spec_cursor_at(bindings.spec_next_sibling(document, handle), None),
    }
}

/// A single bookmark in the bookmark tree of a `PdfDocument`.
pub struct PdfBookmark<'a, B: PdfiumLibraryBindings> {
    pub(crate) bookmark_handle: FPDF_BOOKMARK,
    pub(crate) parent: Option<FPDF_BOOKMARK>,
    pub(crate) document_handle: FPDF_DOCUMENT,
    pub(crate) bindings: &'a B,
}

impl<'a, B: PdfiumLibraryBindings> PdfBookmark<'a, B> {
    /// The Pdfium handle of this bookmark.
    pub closed spec fn spec_handle(&self) -> FPDF_BOOKMARK {
        self.bookmark_handle
    }

    /// The Pdfium handle of this bookmark's parent, if it is known.
    pub closed spec fn spec_parent(&self) -> Option<FPDF_BOOKMARK> {
        self.parent
    }

    /// The Pdfium handle of the document containing this bookmark.
    pub closed spec fn spec_document_handle(&self) -> FPDF_DOCUMENT {
        self.document_handle
    }

    /// The bindings this bookmark calls through.
    pub closed spec fn spec_bindings(&self) -> &'a B {
        self.bindings
    }

    /// This bookmark as a position in the bookmark tree: its handle and its parent's handle.
    pub open spec fn spec_cursor(&self) -> (FPDF_BOOKMARK, Option<FPDF_BOOKMARK>) {
        (self.spec_handle(), self.spec_parent())
    }

    /// `other` is a bookmark of the same document, reached through the same bindings.
    pub open spec fn spec_same_document(&self, other: &Self) -> bool {
        &&& other.spec_document_handle() == self.spec_document_handle()
        &&& other.spec_bindings() == self.spec_bindings()
    }

    pub fn from_pdfium(
        bookmark_handle: FPDF_BOOKMARK,
        parent: Option<FPDF_BOOKMARK>,
        document_handle: FPDF_DOCUMENT,
        bindings: &'a B,
    ) -> (r: Self)
        ensures
            r.spec_handle() == bookmark_handle,
            r.spec_parent() == parent,
            r.spec_document_handle() == document_handle,
            r.spec_bindings() == bindings,
    {
        PdfBookmark { bookmark_handle, parent, document_handle, bindings }
    }

    /// Wraps a bookmark handle returned by Pdfium; a null handle means there is no bookmark.
    pub fn from_nullable(
        bookmark_handle: FPDF_BOOKMARK,
        parent: Option<FPDF_BOOKMARK>,
        document_handle: FPDF_DOCUMENT,
        bindings: &'a B,
    ) -> (r: Option<Self>)
        ensures
            r is None <==> bookmark_handle == NULL_HANDLE,
            r matches Some(b) ==> b.spec_handle() == bookmark_handle && b.spec_parent() == parent
                && b.spec_document_handle() == document_handle && b.spec_bindings() == bindings,
    {
        if bookmark_handle == NULL_HANDLE {
            None
        } else {
            Some(Self::from_pdfium(bookmark_handle, parent, document_handle, bindings))
        }
    }

    /// Returns the internal `FPDF_BOOKMARK` handle for this [PdfBookmark].
    pub fn bookmark_handle(&self) -> (r: FPDF_BOOKMARK)
        ensures
            r == self.spec_handle(),
    {
        self.bookmark_handle
    }

    /// Returns the internal `FPDF_DOCUMENT` handle of the `PdfDocument` containing this [PdfBookmark].
    pub fn document_handle(&self) -> (r: FPDF_DOCUMENT)
        ensures
            r == self.spec_document_handle(),
    {
        self.document_handle
    }

    /// Returns the [PdfiumLibraryBindings] used by this [PdfBookmark].
    pub fn bindings(&self) -> (r: &'a B)
        ensures
            r == self.spec_bindings(),
    {
        self.bindings
    }

    /// Creates a clone of this [PdfBookmark] that points to the same internal `FPDF_BOOKMARK` handle.
    pub fn clone(&self) -> (r: PdfBookmark<'a, B>)
        ensures
            r.spec_cursor() == self.spec_cursor(),
            self.spec_same_document(&r),
    {
        Self::from_pdfium(self.bookmark_handle, self.parent, self.document_handle, self.bindings)
    }

    /// Returns the title of this [PdfBookmark], if any.
    ///
    /// Pdfium first reports the length in bytes of the title; a length of zero means no title
    /// is defined. Otherwise Pdfium writes the title in UTF-16LE into a buffer of that length.
    /// `None` is also returned when Pdfium writes a different number of bytes than it reported,
    /// or when the bytes are not valid UTF-16.
    pub fn title(&self) -> (r: Option<String>)
        ensures
            match r {
                Some(s) => spec_pdfium_utf16le_result(
                    self.spec_bindings().spec_title(self.spec_handle())@,
                ) == Some(s@),
                None => spec_pdfium_utf16le_result(
                    self.spec_bindings().spec_title(self.spec_handle())@,
                ) is None,
            },
    {
        let mut no_buffer: Vec<u8> = Vec::new();
        let buffer_length = self.bindings.FPDFBookmark_GetTitle(
            self.bookmark_handle,
            no_buffer.as_mut_slice(),
        );
        if buffer_length == 0 || buffer_length > usize::MAX as u64 {
            // No title is defined.
            return None;
        }
        let mut buffer = create_byte_buffer(buffer_length as usize);
        let result = self.bindings.FPDFBookmark_GetTitle(
            self.bookmark_handle,
            buffer.as_mut_slice(),
        );
        if result != buffer_length {
            return None;
        }
        assert(buffer@ =~= buffer@.subrange(0, buffer_length as int));
        get_string_from_pdfium_utf16le_bytes(buffer.as_slice())
    }

    /// Returns the [PdfDestination] associated with this [PdfBookmark], if any.
    ///
    /// The destination specifies the page and region, if any, that will be the target
    /// of the bookmark's action.
    pub fn destination(&self) -> (r: Option<PdfDestination<'a, B>>)
        ensures
            r is None <==> self.spec_bindings().spec_dest(
                self.spec_document_handle(),
                self.spec_handle(),
            ) == NULL_HANDLE,
            r matches Some(d) ==> d.spec_destination_handle() == self.spec_bindings().spec_dest(
                self.spec_document_handle(),
                self.spec_handle(),
            ) && d.spec_document_handle() == self.spec_document_handle() && d.spec_bindings()
                == self.spec_bindings(),
    {
        let handle = self.bindings.FPDFBookmark_GetDest(self.document_handle, self.bookmark_handle);
        if handle == NULL_HANDLE {
            None
        } else {
            Some(PdfDestination::from_pdfium(self.document_handle, handle, self.bindings))
        }
    }

    /// Returns this [PdfBookmark] object's direct parent, if available.
    pub fn parent(&self) -> (r: Option<PdfBookmark<'a, B>>)
        ensures
            spec_cursor_of(r) == spec_parent_cursor(self.spec_cursor()),
            r is Some <==> self.spec_parent() is Some,
            r matches Some(p) ==> p.spec_cursor() == (self.spec_parent().unwrap(), None::<
                FPDF_BOOKMARK,
            >) && self.spec_same_document(&p),
    {
        match self.parent {
            Some(parent_handle) => Some(
                PdfBookmark::from_pdfium(parent_handle, None, self.document_handle, self.bindings),
            ),
            None => None,
        }
    }

    /// Returns the first child [PdfBookmark] of this [PdfBookmark] in the containing
    /// `PdfDocument`, if any.
    pub fn first_child(&self) -> (r: Option<PdfBookmark<'a, B>>)
        ensures
            spec_cursor_of(r) == spec_cursor_at(
                self.spec_bindings().spec_first_child(self.spec_document_handle(), self.spec_handle()),
                Some(self.spec_handle()),
            ),
            r matches Some(c) ==> c.spec_handle() != NULL_HANDLE && c.spec_parent() == Some(
                self.spec_handle(),
            ) && self.spec_same_document(&c),
    {
        let handle = self.bindings.FPDFBookmark_GetFirstChild(
            self.document_handle,
            self.bookmark_handle,
        );
        PdfBookmark::from_nullable(
            handle,
            Some(self.bookmark_handle),
            self.document_handle,
            self.bindings,
        )
    }

    /// Returns the next [PdfBookmark] at the same tree level as this [PdfBookmark] in
    /// the containing `PdfDocument`, if any.
    pub fn next_sibling(&self) -> (r: Option<PdfBookmark<'a, B>>)
        ensures
            spec_cursor_of(r) == spec_cursor_at(
                self.spec_bindings().spec_next_sibling(self.spec_document_handle(), self.spec_handle()),
                self.spec_parent(),
            ),
            r matches Some(s) ==> s.spec_handle() != NULL_HANDLE && s.spec_parent()
                == self.spec_parent() && self.spec_same_document(&s),
    {
        let handle = self.bindings.FPDFBookmark_GetNextSibling(
            self.document_handle,
            self.bookmark_handle,
        );
        PdfBookmark::from_nullable(handle, self.parent, self.document_handle, self.bindings)
    }

    /// Returns an iterator over all [PdfBookmark] sibling nodes of this [PdfBookmark],
    /// this bookmark itself excluded.
    ///
    /// When the parent is known, the iterator walks the chain of the parent's children,
    /// passing over this bookmark, so the result does not depend on which sibling started the
    /// traversal. Otherwise it walks the chain of next siblings after this bookmark.
    pub fn iter_siblings(&self) -> (r: PdfBookmarksIterator<'a, B>)
        ensures
            r.wf(),
            r.spec_inv(self.spec_document_handle(), self.spec_bindings()),
            r.spec_state() == spec_walk_start(
                spec_siblings_start(
                    self.spec_bindings(),
                    self.spec_document_handle(),
                    self.spec_handle(),
                    self.spec_parent(),
                ),
                false,
                Some(self.spec_handle()),
            ),
    {
        let first = match self.parent {
            Some(parent_handle) => {
                // Siblings by definition all share the same parent. Walking all the parent's
                // children gives a consistent result irrespective of whether we are the
                // parent's first direct child or not.
                let parent = PdfBookmark::from_pdfium(
                    parent_handle,
                    None,
                    self.document_handle,
                    self.bindings,
                );
                match parent.first_child() {
                    Some(c) => if c.bookmark_handle() == self.bookmark_handle {
                        c.next_sibling()
                    } else {
                        Some(c)
                    },
                    None => None,
                }
            },
            None => {
                // Without the parent, the best we can do is follow the next siblings. If we
                // are not the first direct child of a parent node, this may not include all
                // the parent's children.
                self.next_sibling()
            },
        };
        PdfBookmarksIterator::new(first, false, Some(self.bookmark_handle))
    }

    /// Returns an iterator over all [PdfBookmark] child nodes of this [PdfBookmark].
    /// Only direct children of this [PdfBookmark] will be traversed by the iterator;
    /// grandchildren, great-grandchildren and other descendant nodes will be ignored.
    /// To visit all child nodes, including children of children, use [PdfBookmark::iter_all_descendants()].
    pub fn iter_direct_children(&self) -> (r: PdfBookmarksIterator<'a, B>)
        ensures
            r.wf(),
            r.spec_inv(self.spec_document_handle(), self.spec_bindings()),
            r.spec_state() == spec_walk_start(
                spec_cursor_at(
                    self.spec_bindings().spec_first_child(self.spec_document_handle(), self.spec_handle()),
                    Some(self.spec_handle()),
                ),
                false,
                None,
            ),
    {
        PdfBookmarksIterator::new(self.first_child(), false, None)
    }

    /// Returns a breadth-first iterator over all [PdfBookmark] child nodes of this
    /// [PdfBookmark], including any children of those nodes, level by level. To visit only
    /// direct children of this [PdfBookmark], use [PdfBookmark::iter_direct_children()].
    pub fn iter_all_descendants(&self) -> (r: PdfBookmarksIterator<'a, B>)
        ensures
            r.wf(),
            r.spec_inv(self.spec_document_handle(), self.spec_bindings()),
            r.spec_state() == spec_walk_start(
                spec_cursor_at(
                    self.spec_bindings().spec_first_child(self.spec_document_handle(), self.spec_handle()),
                    Some(self.spec_handle()),
                ),
                true,
                None,
            ),
    {
        PdfBookmarksIterator::new(self.first_child(), true, None)
    }
}

} // verus!
