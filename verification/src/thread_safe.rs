//! Wraps a single-threaded implementation of the [PdfiumLibraryBindings] trait behind a
//! process-wide lock to create a thread-safe trait implementation.
//!
//! Pdfium itself is not thread-safe, so acquiring an exclusive lock on access to Pdfium is the
//! only way to guarantee thread safety. The lock is acquired on the first call to
//! `FPDF_InitLibrary()` and released on the last call to `FPDF_DestroyLibrary()`.

#![allow(non_snake_case)]

use crate::bindgen::{
    c_int, c_ulong, FPDF_ANNOTATION, FPDF_BITMAP, FPDF_BOOKMARK, FPDF_BOOL, FPDF_DEST,
    FPDF_DOCUMENT, FPDF_DWORD, FPDF_FILEWRITE, FPDF_FONT, FPDF_FORMHANDLE, PdfiumHandle,
};
use crate::bindings::PdfiumLibraryBindings;
use vstd::prelude::*;

verus! {

/// A slot for the process-wide Pdfium lock, owned by one set of thread-safe bindings.
///
/// The slot either holds the lock or does not. Acquiring blocks until no other slot holds
/// the lock; releasing lets one waiting thread continue.
pub trait PdfiumThreadLock: Sized {
    /// Returns a slot that does not hold the lock.
    fn unlocked() -> Self;

    /// Returns `true` if this slot currently holds the lock.
    fn is_held(&self) -> bool;

    /// Blocks until the lock is acquired, then keeps it in this slot.
    fn acquire(&self);

    /// Releases the lock kept in this slot.
    fn release(&self);
}

/// What the thread-safe bindings do with the lock and the library on a lifecycle call.
#[derive(Copy, Clone, Debug, PartialEq, Eq, Structural)]
pub enum LibraryLockAction {
    /// Take the lock, then initialize the library.
    AcquireThenInitialize,
    /// Destroy the library, then give up the lock.
    DestroyThenRelease,
    /// Leave both the lock and the library as they are.
    Nothing,
}

/// The action taken on `FPDF_InitLibrary()`: only a slot that does not hold the lock takes it.
pub open spec fn spec_init_action(held: bool) -> LibraryLockAction {
    if held {
        LibraryLockAction::Nothing
    } else {
        LibraryLockAction::AcquireThenInitialize
    }
}

/// The action taken on `FPDF_DestroyLibrary()`: only a slot that holds the lock gives it up.
pub open spec fn spec_destroy_action(held: bool) -> LibraryLockAction {
    if held {
        LibraryLockAction::DestroyThenRelease
    } else {
        LibraryLockAction::Nothing
    }
}

/// Whether the slot holds the lock after the given action.
pub open spec fn spec_held_after(held: bool, action: LibraryLockAction) -> bool {
    match action {
        LibraryLockAction::AcquireThenInitialize => true,
        LibraryLockAction::DestroyThenRelease => false,
        LibraryLockAction::Nothing => held,
    }
}

/// Decides what `FPDF_InitLibrary()` does, given whether the slot holds the lock.
pub fn init_action(held: bool) -> (r: LibraryLockAction)
    ensures
        r == spec_init_action(held),
{
    if held {
        LibraryLockAction::Nothing
    } else {
        LibraryLockAction::AcquireThenInitialize
    }
}

/// Decides what `FPDF_DestroyLibrary()` does, given whether the slot holds the lock.
pub fn destroy_action(held: bool) -> (r: LibraryLockAction)
    ensures
        r == spec_destroy_action(held),
{
    if held {
        LibraryLockAction::DestroyThenRelease
    } else {
        LibraryLockAction::Nothing
    }
}

/// After any initialization the slot holds the lock, and a second initialization does
/// nothing: the library is initialized at most once per slot.
pub proof fn lemma_init_is_idempotent(held: bool)
    ensures
        spec_held_after(held, spec_init_action(held)),
        spec_init_action(spec_held_after(held, spec_init_action(held)))
            == LibraryLockAction::Nothing,
{
}

/// Destroying the library undoes initializing it: starting from a slot without the lock,
/// initialization takes the lock and initializes, and the following destruction destroys the
/// library and gives the lock back, leaving the slot as it was.
pub proof fn lemma_destroy_undoes_init()
    ensures
        spec_init_action(false) == LibraryLockAction::AcquireThenInitialize,
        spec_destroy_action(spec_held_after(false, spec_init_action(false)))
            == LibraryLockAction::DestroyThenRelease,
        spec_held_after(
            spec_held_after(false, spec_init_action(false)),
            spec_destroy_action(spec_held_after(false, spec_init_action(false))),
        ) == false,
{
}

/// Destroying the library without holding the lock does nothing, and the lock is never held
/// after a destruction.
pub proof fn lemma_destroy_releases(held: bool)
    ensures
        !held ==> spec_destroy_action(held) == LibraryLockAction::Nothing,
        !spec_held_after(held, spec_destroy_action(held)),
{
}

/// Thread-safe Pdfium bindings: a single-threaded set of bindings together with a slot
/// for the process-wide Pdfium lock.
pub struct ThreadSafePdfiumBindings<T: PdfiumLibraryBindings, L: PdfiumThreadLock> {
    bindings: T,
    lock: L,
}

impl<T: PdfiumLibraryBindings, L: PdfiumThreadLock> ThreadSafePdfiumBindings<T, L> {
    /// The single-threaded bindings being wrapped.
    pub closed spec fn spec_inner(&self) -> T {
        self.bindings
    }

    /// Wraps the given single-threaded bindings; the new wrapper does not hold the lock.
    pub fn new(single_threaded_bindings: T) -> (r: Self)
        ensures
            r.spec_inner() == single_threaded_bindings,
    {
        ThreadSafePdfiumBindings { bindings: single_threaded_bindings, lock: L::unlocked() }
    }
}

impl<T: PdfiumLibraryBindings, L: PdfiumThreadLock> PdfiumLibraryBindings for ThreadSafePdfiumBindings<
    T,
    L,
> {
    closed spec fn spec_file_version_ok(&self, document: FPDF_DOCUMENT) -> FPDF_BOOL {
        self.bindings.spec_file_version_ok(document)
    }

    closed spec fn spec_file_version_number(&self, document: FPDF_DOCUMENT) -> c_int {
        self.bindings.spec_file_version_number(document)
    }

    closed spec fn spec_saved_as_copy(
        &self,
        document: FPDF_DOCUMENT,
        file_write: FPDF_FILEWRITE,
        flags: FPDF_DWORD,
        result: FPDF_BOOL,
    ) -> bool {
        self.bindings.spec_saved_as_copy(document, file_write, flags, result)
    }

    closed spec fn spec_saved_with_version(
        &self,
        document: FPDF_DOCUMENT,
        file_write: FPDF_FILEWRITE,
        flags: FPDF_DWORD,
        version: c_int,
        result: FPDF_BOOL,
    ) -> bool {
        self.bindings.spec_saved_with_version(document, file_write, flags, version, result)
    }

    closed spec fn spec_bitmap_created(
        &self,
        width: c_int,
        height: c_int,
        format: c_int,
        first_scan: PdfiumHandle,
        stride: c_int,
        bitmap: FPDF_BITMAP,
    ) -> bool {
        self.bindings.spec_bitmap_created(width, height, format, first_scan, stride, bitmap)
    }

    closed spec fn spec_bitmap_format(&self, bitmap: FPDF_BITMAP) -> c_int {
        self.bindings.spec_bitmap_format(bitmap)
    }

    closed spec fn spec_bitmap_width(&self, bitmap: FPDF_BITMAP) -> c_int {
        self.bindings.spec_bitmap_width(bitmap)
    }

    closed spec fn spec_bitmap_height(&self, bitmap: FPDF_BITMAP) -> c_int {
        self.bindings.spec_bitmap_height(bitmap)
    }

    closed spec fn spec_bitmap_stride(&self, bitmap: FPDF_BITMAP) -> c_int {
        self.bindings.spec_bitmap_stride(bitmap)
    }

    closed spec fn spec_first_child(&self, document: FPDF_DOCUMENT, bookmark: FPDF_BOOKMARK) -> FPDF_BOOKMARK {
        self.bindings.spec_first_child(document, bookmark)
    }

    closed spec fn spec_next_sibling(&self, document: FPDF_DOCUMENT, bookmark: FPDF_BOOKMARK) -> FPDF_BOOKMARK {
        self.bindings.spec_next_sibling(document, bookmark)
    }

    closed spec fn spec_title(&self, bookmark: FPDF_BOOKMARK) -> Vec<u8> {
        self.bindings.spec_title(bookmark)
    }

    closed spec fn spec_dest(&self, document: FPDF_DOCUMENT, bookmark: FPDF_BOOKMARK) -> FPDF_DEST {
        self.bindings.spec_dest(document, bookmark)
    }

    closed spec fn spec_dest_page_index(&self, document: FPDF_DOCUMENT, dest: FPDF_DEST) -> c_int {
        self.bindings.spec_dest_page_index(document, dest)
    }

    closed spec fn spec_find(&self, document: FPDF_DOCUMENT, title: &[u8]) -> FPDF_BOOKMARK {
        self.bindings.spec_find(document, title)
    }

    closed spec fn spec_standard_font_loaded(&self, document: FPDF_DOCUMENT, name: &str, font: FPDF_FONT) -> bool {
        self.bindings.spec_standard_font_loaded(document, name, font)
    }

    closed spec fn spec_font_loaded(
        &self,
        document: FPDF_DOCUMENT,
        data: &[u8],
        font_type: c_int,
        cid: FPDF_BOOL,
        font: FPDF_FONT,
    ) -> bool {
        self.bindings.spec_font_loaded(document, data, font_type, cid, font)
    }

    closed spec fn spec_font_name(&self, font: FPDF_FONT) -> Vec<u8> {
        self.bindings.spec_font_name(font)
    }

    closed spec fn spec_font_weight(&self, font: FPDF_FONT) -> c_int {
        self.bindings.spec_font_weight(font)
    }

    closed spec fn spec_is_checked(&self, form: FPDF_FORMHANDLE, annot: FPDF_ANNOTATION) -> FPDF_BOOL {
        self.bindings.spec_is_checked(form, annot)
    }

    closed spec fn spec_field_name(&self, form: FPDF_FORMHANDLE, annot: FPDF_ANNOTATION) -> Vec<u8> {
        self.bindings.spec_field_name(form, annot)
    }

    closed spec fn spec_field_value(&self, form: FPDF_FORMHANDLE, annot: FPDF_ANNOTATION) -> Vec<u8> {
        self.bindings.spec_field_value(form, annot)
    }

    fn FPDF_InitLibrary(&self) {
        // Take an exclusive lock over access to Pdfium. Any other thread attempting to
        // use Pdfium will block.
        match init_action(self.lock.is_held()) {
            LibraryLockAction::AcquireThenInitialize => {
                self.lock.acquire();
                self.bindings.FPDF_InitLibrary();
            },
            _ => {},
        }
    }

    fn FPDF_DestroyLibrary(&self) {
        // Release the exclusive lock we hold over access to Pdfium. Any other thread waiting
        // to use Pdfium will be able to continue.
        match destroy_action(self.lock.is_held()) {
            LibraryLockAction::DestroyThenRelease => {
                self.bindings.FPDF_DestroyLibrary();
                self.lock.release();
            },
            _ => {},
        }
    }

    fn FPDF_GetLastError(&self) -> c_ulong {
        self.bindings.FPDF_GetLastError()
    }

    fn FPDF_CloseDocument(&self, document: FPDF_DOCUMENT) {
        self.bindings.FPDF_CloseDocument(document)
    }

    fn FPDF_GetFileVersion(&self, doc: FPDF_DOCUMENT, fileVersion: &mut c_int) -> FPDF_BOOL {
        self.bindings.FPDF_GetFileVersion(doc, fileVersion)
    }

    fn FPDF_SaveAsCopy(
        &self,
        document: FPDF_DOCUMENT,
        pFileWrite: FPDF_FILEWRITE,
        flags: FPDF_DWORD,
    ) -> FPDF_BOOL {
        self.bindings.FPDF_SaveAsCopy(document, pFileWrite, flags)
    }

    fn FPDF_SaveWithVersion(
        &self,
        document: FPDF_DOCUMENT,
        pFileWrite: FPDF_FILEWRITE,
        flags: FPDF_DWORD,
        fileVersion: c_int,
    ) -> FPDF_BOOL {
        self.bindings.FPDF_SaveWithVersion(document, pFileWrite, flags, fileVersion)
    }

    fn FPDFBitmap_CreateEx(
        &self,
        width: c_int,
        height: c_int,
        format: c_int,
        first_scan: PdfiumHandle,
        stride: c_int,
    ) -> FPDF_BITMAP {
        self.bindings.FPDFBitmap_CreateEx(width, height, format, first_scan, stride)
    }

    fn FPDFBitmap_Destroy(&self, bitmap: FPDF_BITMAP) {
        self.bindings.FPDFBitmap_Destroy(bitmap)
    }

    fn FPDFBitmap_GetFormat(&self, bitmap: FPDF_BITMAP) -> c_int {
        self.bindings.FPDFBitmap_GetFormat(bitmap)
    }

    fn FPDFBitmap_GetWidth(&self, bitmap: FPDF_BITMAP) -> c_int {
        self.bindings.FPDFBitmap_GetWidth(bitmap)
    }

    fn FPDFBitmap_GetHeight(&self, bitmap: FPDF_BITMAP) -> c_int {
        self.bindings.FPDFBitmap_GetHeight(bitmap)
    }

    fn FPDFBitmap_GetStride(&self, bitmap: FPDF_BITMAP) -> c_int {
        self.bindings.FPDFBitmap_GetStride(bitmap)
    }

    fn FPDFBookmark_GetFirstChild(
        &self,
        document: FPDF_DOCUMENT,
        bookmark: FPDF_BOOKMARK,
    ) -> FPDF_BOOKMARK {
        self.bindings.FPDFBookmark_GetFirstChild(document, bookmark)
    }

    fn FPDFBookmark_GetNextSibling(
        &self,
        document: FPDF_DOCUMENT,
        bookmark: FPDF_BOOKMARK,
    ) -> FPDF_BOOKMARK {
        self.bindings.FPDFBookmark_GetNextSibling(document, bookmark)
    }

    fn FPDFBookmark_GetTitle(&self, bookmark: FPDF_BOOKMARK, buffer: &mut [u8]) -> c_ulong {
        self.bindings.FPDFBookmark_GetTitle(bookmark, buffer)
    }

    fn FPDFBookmark_Find(&self, document: FPDF_DOCUMENT, title: &[u8]) -> FPDF_BOOKMARK {
        self.bindings.FPDFBookmark_Find(document, title)
    }

    fn FPDFBookmark_GetDest(&self, document: FPDF_DOCUMENT, bookmark: FPDF_BOOKMARK) -> FPDF_DEST {
        self.bindings.FPDFBookmark_GetDest(document, bookmark)
    }

    fn FPDFDest_GetDestPageIndex(&self, document: FPDF_DOCUMENT, dest: FPDF_DEST) -> c_int {
        self.bindings.FPDFDest_GetDestPageIndex(document, dest)
    }

    fn FPDFText_LoadStandardFont(&self, document: FPDF_DOCUMENT, font: &str) -> FPDF_FONT {
        self.bindings.FPDFText_LoadStandardFont(document, font)
    }

    fn FPDFText_LoadFont(
        &self,
        document: FPDF_DOCUMENT,
        data: &[u8],
        font_type: c_int,
        cid: FPDF_BOOL,
    ) -> FPDF_FONT {
        self.bindings.FPDFText_LoadFont(document, data, font_type, cid)
    }

    fn FPDFFont_GetFontName(&self, font: FPDF_FONT, buffer: &mut [u8]) -> c_ulong {
        self.bindings.FPDFFont_GetFontName(font, buffer)
    }

    fn FPDFFont_GetWeight(&self, font: FPDF_FONT) -> c_int {
        self.bindings.FPDFFont_GetWeight(font)
    }

    fn FPDFAnnot_IsChecked(&self, hHandle: FPDF_FORMHANDLE, annot: FPDF_ANNOTATION) -> FPDF_BOOL {
        self.bindings.FPDFAnnot_IsChecked(hHandle, annot)
    }

    fn FPDFAnnot_GetFormFieldName(
        &self,
        hHandle: FPDF_FORMHANDLE,
        annot: FPDF_ANNOTATION,
        buffer: &mut [u8],
    ) -> c_ulong {
        self.bindings.FPDFAnnot_GetFormFieldName(hHandle, annot, buffer)
    }

    fn FPDFAnnot_GetFormFieldValue(
        &self,
        hHandle: FPDF_FORMHANDLE,
        annot: FPDF_ANNOTATION,
        buffer: &mut [u8],
    ) -> c_ulong {
        self.bindings.FPDFAnnot_GetFormFieldValue(hHandle, annot, buffer)
    }
}

} // verus!
