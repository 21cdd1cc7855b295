#![allow(non_snake_case)]

use std::cell::{Cell, RefCell};
use std::collections::HashMap;
use std::rc::Rc;

use pdfium_render::bindings::PdfiumLibraryBindings;
use pdfium_render::bitmap::{PdfBitmap, PdfBitmapFormat};
use pdfium_render::bookmark::PdfBookmark;
use pdfium_render::document::{PdfDocument, PdfDocumentVersion};
use pdfium_render::error::{PdfiumError, PdfiumInternalError};
use pdfium_render::font::{PdfFont, PdfFontWeight};
use pdfium_render::form_field_checkbox::PdfFormCheckboxField;
use pdfium_render::form_field_combo::PdfFormComboBoxField;
use pdfium_render::form_field_private::PdfFormFieldPrivate;
use pdfium_render::thread_safe::{PdfiumThreadLock, ThreadSafePdfiumBindings};

/// An in-memory stand-in for the Pdfium library: a bookmark tree, a few canned answers,
/// and counters of what was asked.
#[derive(Default)]
struct MockPdfium {
    first_child: HashMap<usize, usize>,
    next_sibling: HashMap<usize, usize>,
    titles: HashMap<usize, String>,
    destinations: HashMap<usize, usize>,
    destination_pages: HashMap<usize, i32>,
    file_version: Option<i32>,
    save_succeeds: bool,
    saves: RefCell<Vec<Option<i32>>>,
    last_error: u64,
    bitmap_format: i32,
    created_bitmaps: RefCell<Vec<(i32, i32, i32)>>,
    destroyed_bitmaps: Cell<u32>,
    standard_fonts: RefCell<Vec<String>>,
    loaded_fonts: RefCell<Vec<(usize, i32, i32)>>,
    font_loads_succeed: bool,
    font_name: Option<Vec<u8>>,
    font_weight: i32,
    checked: bool,
    field_name: Option<String>,
    field_value: Option<String>,
    inits: Rc<Cell<u32>>,
    destroys: Rc<Cell<u32>>,
    closed: Cell<u32>,
}

fn utf16le_with_nul(s: &str) -> Vec<u8> {
    let mut bytes = Vec::new();
    for unit in s.encode_utf16().chain(std::iter::once(0)) {
        bytes.extend_from_slice(&unit.to_le_bytes());
    }
    bytes
}

impl MockPdfium {
    /// The lowest-numbered bookmark with the given UTF-16LE title, or the null handle.
    fn find_title(&self, title: &[u8]) -> usize {
        let mut handles: Vec<&usize> = self
            .titles
            .iter()
            .filter(|(_, t)| utf16le_with_nul(t) == title)
            .map(|(h, _)| h)
            .collect();
        handles.sort();
        handles.first().map(|h| **h).unwrap_or(0)
    }
}

/// Answers a Pdfium-style buffer query: the needed length, with the bytes written only when
/// the buffer is large enough.
fn fill(bytes: Option<Vec<u8>>, buffer: &mut [u8]) -> u64 {
    match bytes {
        None => 0,
        Some(bytes) => {
            if buffer.len() >= bytes.len() {
                buffer[..bytes.len()].copy_from_slice(&bytes);
            }
            bytes.len() as u64
        }
    }
}

impl PdfiumLibraryBindings for MockPdfium {
    fn spec_file_version_ok(&self, _document: usize) -> i32 {
        self.file_version.is_some() as i32
    }

    fn spec_file_version_number(&self, _document: usize) -> i32 {
        self.file_version.unwrap_or(0)
    }

    fn spec_saved_as_copy(&self, _document: usize, _file_write: usize, _flags: u64, _result: i32) -> bool {
        true
    }

    fn spec_saved_with_version(&self, _document: usize, _file_write: usize, _flags: u64, _version: i32, _result: i32) -> bool {
        true
    }

    fn spec_bitmap_created(&self, _width: i32, _height: i32, _format: i32, _first_scan: usize, _stride: i32, _bitmap: usize) -> bool {
        true
    }

    fn spec_bitmap_format(&self, bitmap: usize) -> i32 {
        self.bitmap_format
    }

    fn spec_bitmap_width(&self, _bitmap: usize) -> i32 {
        2000
    }

    fn spec_bitmap_height(&self, _bitmap: usize) -> i32 {
        4000
    }

    fn spec_bitmap_stride(&self, _bitmap: usize) -> i32 {
        8000
    }

    fn spec_first_child(&self, _document: usize, bookmark: usize) -> usize {
        *self.first_child.get(&bookmark).unwrap_or(&0)
    }

    fn spec_next_sibling(&self, _document: usize, bookmark: usize) -> usize {
        *self.next_sibling.get(&bookmark).unwrap_or(&0)
    }

    fn spec_title(&self, bookmark: usize) -> Vec<u8> {
        self.titles.get(&bookmark).map(|t| utf16le_with_nul(t)).unwrap_or_default()
    }

    fn spec_dest(&self, _document: usize, bookmark: usize) -> usize {
        *self.destinations.get(&bookmark).unwrap_or(&0)
    }

    fn spec_dest_page_index(&self, _document: usize, dest: usize) -> i32 {
        *self.destination_pages.get(&dest).unwrap_or(&-1)
    }

    fn spec_find(&self, _document: usize, title: &[u8]) -> usize {
        self.find_title(title)
    }

    fn spec_standard_font_loaded(&self, _document: usize, _name: &str, _font: usize) -> bool {
        true
    }

    fn spec_font_loaded(&self, _document: usize, _data: &[u8], _font_type: i32, _cid: i32, _font: usize) -> bool {
        true
    }

    fn spec_font_name(&self, font: usize) -> Vec<u8> {
        self.font_name.clone().unwrap_or_default()
    }

    fn spec_font_weight(&self, font: usize) -> i32 {
        self.font_weight
    }

    fn spec_is_checked(&self, _form: usize, _annot: usize) -> i32 {
        self.checked as i32
    }

    fn spec_field_name(&self, _form: usize, _annot: usize) -> Vec<u8> {
        self.field_name.as_ref().map(|t| utf16le_with_nul(t)).unwrap_or_default()
    }

    fn spec_field_value(&self, _form: usize, _annot: usize) -> Vec<u8> {
        self.field_value.as_ref().map(|t| utf16le_with_nul(t)).unwrap_or_default()
    }

    fn FPDF_InitLibrary(&self) {
        self.inits.set(self.inits.get() + 1);
    }
    fn FPDF_DestroyLibrary(&self) {
        self.destroys.set(self.destroys.get() + 1);
    }
    fn FPDF_GetLastError(&self) -> u64 {
        self.last_error
    }
    fn FPDF_CloseDocument(&self, _document: usize) {
        self.closed.set(self.closed.get() + 1);
    }
    fn FPDF_GetFileVersion(&self, _doc: usize, file_version: &mut i32) -> i32 {
        match self.file_version {
            Some(v) => {
                *file_version = v;
                1
            }
            None => 0,
        }
    }
    fn FPDF_SaveAsCopy(&self, _document: usize, _file_write: usize, _flags: u64) -> i32 {
        self.saves.borrow_mut().push(None);
        self.save_succeeds as i32
    }
    fn FPDF_SaveWithVersion(
        &self,
        _document: usize,
        _file_write: usize,
        _flags: u64,
        file_version: i32,
    ) -> i32 {
        self.saves.borrow_mut().push(Some(file_version));
        self.save_succeeds as i32
    }
    fn FPDFBitmap_CreateEx(&self, w: i32, h: i32, f: i32, _first_scan: usize, _stride: i32) -> usize {
        self.created_bitmaps.borrow_mut().push((w, h, f));
        if w > 0 && h > 0 {
            77
        } else {
            0
        }
    }
    fn FPDFBitmap_Destroy(&self, _bitmap: usize) {
        self.destroyed_bitmaps.set(self.destroyed_bitmaps.get() + 1);
    }
    fn FPDFBitmap_GetFormat(&self, _bitmap: usize) -> i32 {
        self.bitmap_format
    }
    fn FPDFBitmap_GetWidth(&self, _bitmap: usize) -> i32 {
        2000
    }
    fn FPDFBitmap_GetHeight(&self, _bitmap: usize) -> i32 {
        4000
    }
    fn FPDFBitmap_GetStride(&self, _bitmap: usize) -> i32 {
        8000
    }
    fn FPDFBookmark_GetFirstChild(&self, _document: usize, bookmark: usize) -> usize {
        *self.first_child.get(&bookmark).unwrap_or(&0)
    }
    fn FPDFBookmark_GetNextSibling(&self, _document: usize, bookmark: usize) -> usize {
        *self.next_sibling.get(&bookmark).unwrap_or(&0)
    }
    fn FPDFBookmark_GetTitle(&self, bookmark: usize, buffer: &mut [u8]) -> u64 {
        fill(self.titles.get(&bookmark).map(|t| utf16le_with_nul(t)), buffer)
    }
    fn FPDFBookmark_Find(&self, _document: usize, title: &[u8]) -> usize {
        self.find_title(title)
    }
    fn FPDFBookmark_GetDest(&self, _document: usize, bookmark: usize) -> usize {
        *self.destinations.get(&bookmark).unwrap_or(&0)
    }
    fn FPDFDest_GetDestPageIndex(&self, _document: usize, dest: usize) -> i32 {
        *self.destination_pages.get(&dest).unwrap_or(&-1)
    }
    fn FPDFText_LoadStandardFont(&self, _document: usize, font: &str) -> usize {
        self.standard_fonts.borrow_mut().push(font.to_string());
        500 + self.standard_fonts.borrow().len()
    }
    fn FPDFText_LoadFont(&self, _document: usize, data: &[u8], font_type: i32, cid: i32) -> usize {
        self.loaded_fonts.borrow_mut().push((data.len(), font_type, cid));
        if self.font_loads_succeed {
            600
        } else {
            0
        }
    }
    fn FPDFFont_GetFontName(&self, _font: usize, buffer: &mut [u8]) -> u64 {
        fill(self.font_name.clone(), buffer)
    }
    fn FPDFFont_GetWeight(&self, _font: usize) -> i32 {
        self.font_weight
    }
    fn FPDFAnnot_IsChecked(&self, _form: usize, _annot: usize) -> i32 {
        self.checked as i32
    }
    fn FPDFAnnot_GetFormFieldName(&self, _form: usize, _annot: usize, buffer: &mut [u8]) -> u64 {
        fill(self.field_name.as_ref().map(|t| utf16le_with_nul(t)), buffer)
    }
    fn FPDFAnnot_GetFormFieldValue(&self, _form: usize, _annot: usize, buffer: &mut [u8]) -> u64 {
        fill(self.field_value.as_ref().map(|t| utf16le_with_nul(t)), buffer)
    }
}

/// A lock slot that only records whether it is held.
struct FlagLock {
    held: Cell<bool>,
}

impl PdfiumThreadLock for FlagLock {
    fn unlocked() -> Self {
        FlagLock { held: Cell::new(false) }
    }
    fn is_held(&self) -> bool {
        self.held.get()
    }
    fn acquire(&self) {
        self.held.set(true);
    }
    fn release(&self) {
        self.held.set(false);
    }
}

/// The bookmark tree:
///
/// ```text
/// 1 "Chapter 1"            4 "Chapter 2"
/// ├── 2 "Section 1.1"      └── 5 "Section 1.1"
/// │   └── 6 "Detail"
/// └── 3 "Section 1.2"
/// ```
fn bookmark_tree() -> MockPdfium {
    let mut mock = MockPdfium::default();
    mock.first_child.insert(0, 1);
    mock.next_sibling.insert(1, 4);
    mock.first_child.insert(1, 2);
    mock.next_sibling.insert(2, 3);
    mock.first_child.insert(2, 6);
    mock.first_child.insert(4, 5);
    for (handle, title) in [
        (1, "Chapter 1"),
        (2, "Section 1.1"),
        (3, "Section 1.2"),
        (4, "Chapter 2"),
        (5, "Section 1.1"),
        (6, "Detail"),
    ] {
        mock.titles.insert(handle, title.to_string());
    }
    mock.destinations.insert(2, 100);
    mock.destinations.insert(3, 101);
    mock.destination_pages.insert(100, 7);
    mock
}

fn handles<'a>(
    mut iter: pdfium_render::bookmarks::PdfBookmarksIterator<'a, MockPdfium>,
) -> Vec<usize> {
    let mut out = Vec::new();
    while let Some(b) = iter.next() {
        out.push(b.bookmark_handle());
    }
    out
}

#[test]
fn test_static_bindings() {
    // Checks that bindings fixed at compile time can be wrapped for thread safety, and that
    // the wrapper initializes and tears down the library once per lock.
    let inner = MockPdfium::default();
    let inits = inner.inits.clone();
    let destroys = inner.destroys.clone();
    let bindings = ThreadSafePdfiumBindings::<MockPdfium, FlagLock>::new(inner);
    bindings.FPDF_InitLibrary();
    bindings.FPDF_InitLibrary();
    assert_eq!(inits.get(), 1);
    bindings.FPDF_DestroyLibrary();
    bindings.FPDF_DestroyLibrary();
    assert_eq!(destroys.get(), 1);
    bindings.FPDF_InitLibrary();
    assert_eq!(inits.get(), 2);
}

#[test]
fn thread_safe_bindings_forward_calls() {
    let inner = bookmark_tree();
    let bindings = ThreadSafePdfiumBindings::<MockPdfium, FlagLock>::new(inner);
    assert_eq!(bindings.FPDFBookmark_GetFirstChild(9, 0), 1);
    assert_eq!(bindings.FPDFBookmark_GetNextSibling(9, 1), 4);
    assert_eq!(bindings.FPDFDest_GetDestPageIndex(9, 100), 7);
}

#[test]
fn bookmarks_are_visited_breadth_first() {
    let mock = bookmark_tree();
    let document = PdfDocument::from_pdfium(9, &mock);
    let bookmarks = document.bookmarks();
    assert_eq!(bookmarks.root().unwrap().bookmark_handle(), 1);
    assert_eq!(handles(bookmarks.iter()), vec![1, 4, 2, 3, 5, 6]);
}

#[test]
fn find_all_by_title_returns_every_match() {
    let mock = bookmark_tree();
    let document = PdfDocument::from_pdfium(9, &mock);
    let found: Vec<usize> = document
        .bookmarks()
        .find_all_by_title("Section 1.1")
        .iter()
        .map(|b| b.bookmark_handle())
        .collect();
    assert_eq!(found, vec![2, 5]);
    assert!(document.bookmarks().find_all_by_title("Appendix").is_empty());
}

#[test]
fn bookmark_titles_and_navigation() {
    let mock = bookmark_tree();
    let document = PdfDocument::from_pdfium(9, &mock);
    let root = document.bookmarks().root().unwrap();
    assert_eq!(root.title(), Some("Chapter 1".to_string()));
    assert!(root.parent().is_none());
    let child = root.first_child().unwrap();
    assert_eq!(child.title(), Some("Section 1.1".to_string()));
    assert_eq!(child.parent().unwrap().bookmark_handle(), 1);
    let sibling = child.next_sibling().unwrap();
    assert_eq!(sibling.bookmark_handle(), 3);
    assert!(sibling.next_sibling().is_none());
    assert!(sibling.first_child().is_none());
    let untitled = PdfBookmark::from_pdfium(42, None, 9, &mock);
    assert_eq!(untitled.title(), None);
}

#[test]
fn bookmark_child_and_sibling_iterators() {
    let mock = bookmark_tree();
    let document = PdfDocument::from_pdfium(9, &mock);
    let root = document.bookmarks().root().unwrap();
    assert_eq!(handles(root.iter_direct_children()), vec![2, 3]);
    assert_eq!(handles(root.iter_all_descendants()), vec![2, 3, 6]);
    assert_eq!(handles(root.iter_siblings()), vec![4]);
    let first = root.first_child().unwrap();
    let second = first.next_sibling().unwrap();
    assert_eq!(handles(first.iter_siblings()), vec![3]);
    assert_eq!(handles(second.iter_siblings()), vec![2]);
    let leaf = first.first_child().unwrap();
    assert!(handles(leaf.iter_direct_children()).is_empty());
}

#[test]
fn exhausted_iterator_stays_exhausted() {
    let mock = bookmark_tree();
    let document = PdfDocument::from_pdfium(9, &mock);
    let mut iter = document.bookmarks().iter();
    for _ in 0..6 {
        assert!(iter.next().is_some());
    }
    assert!(iter.next().is_none());
    assert!(iter.next().is_none());
}

#[test]
fn bookmark_destinations() {
    let mock = bookmark_tree();
    let document = PdfDocument::from_pdfium(9, &mock);
    let root = document.bookmarks().root().unwrap();
    assert!(root.destination().is_none());
    let first = root.first_child().unwrap();
    assert_eq!(first.destination().unwrap().page_index(), Ok(7));
    let second = first.next_sibling().unwrap();
    assert_eq!(
        second.destination().unwrap().page_index(),
        Err(PdfiumError::DestinationPageIndexNotAvailable)
    );
}

#[test]
fn empty_document_has_no_bookmarks() {
    let mock = MockPdfium::default();
    let document = PdfDocument::from_pdfium(9, &mock);
    assert!(document.bookmarks().root().is_none());
    assert!(document.bookmarks().iter().next().is_none());
}

#[test]
fn document_versions_and_saving() {
    let mut mock = MockPdfium::default();
    mock.file_version = Some(16);
    mock.save_succeeds = true;
    let mut document = PdfDocument::from_pdfium(9, &mock);
    assert_eq!(document.version(), PdfDocumentVersion::Pdf1_6);
    assert_eq!(document.save_file_version(), None);
    assert_eq!(document.save_to_file_write(1), Ok(()));
    document.set_version(PdfDocumentVersion::Pdf2_0);
    assert_eq!(document.save_file_version(), Some(20));
    assert_eq!(document.save_to_file_write(1), Ok(()));
    document.set_version(PdfDocumentVersion::Unset);
    assert_eq!(document.save_file_version(), Some(17));
    assert_eq!(*mock.saves.borrow(), vec![None, Some(20)]);
    document.close();
    assert_eq!(mock.closed.get(), 1);
}

#[test]
fn document_without_version_and_failed_save() {
    let mock = MockPdfium::default();
    let document = PdfDocument::from_pdfium(9, &mock);
    assert_eq!(document.version(), PdfDocumentVersion::Unset);
    assert_eq!(
        document.save_to_file_write(1),
        Err(PdfiumError::PdfiumLibraryInternalError(PdfiumInternalError::Unknown))
    );
}

#[test]
fn bitmaps() {
    let mut mock = MockPdfium::default();
    mock.bitmap_format = 3;
    let bitmap = PdfBitmap::empty(2000, 4000, PdfBitmapFormat::BGRx, &mock).unwrap();
    assert_eq!(*mock.created_bitmaps.borrow(), vec![(2000, 4000, 3)]);
    assert_eq!(bitmap.width(), 2000);
    assert_eq!(bitmap.height(), 4000);
    assert_eq!(bitmap.stride(), 2000 * 4);
    assert_eq!(bitmap.format(), Ok(PdfBitmapFormat::BGRx));
    bitmap.render();
    bitmap.destroy();
    assert_eq!(mock.destroyed_bitmaps.get(), 1);
    assert!(matches!(
        PdfBitmap::empty(0, 10, PdfBitmapFormat::Gray, &mock),
        Err(PdfiumError::PdfiumLibraryInternalError(PdfiumInternalError::Unknown))
    ));
    let mut odd = MockPdfium::default();
    odd.bitmap_format = 9;
    let bitmap = PdfBitmap::from_pdfium(5, &odd);
    assert_eq!(bitmap.format(), Err(PdfiumError::UnknownBitmapFormat));
}

#[test]
fn built_in_fonts_are_loaded_by_name() {
    let mock = MockPdfium::default();
    let document = PdfDocument::from_pdfium(9, &mock);
    let _ = document.fonts().helvetica_bold();
    let _ = document.fonts().courier_oblique();
    let _ = PdfFont::times_roman(&document);
    let _ = PdfFont::zapf_dingbats(&document);
    assert_eq!(
        *mock.standard_fonts.borrow(),
        vec!["Helvetica-Bold", "Courier-Oblique", "Times-Roman", "ZapfDingbats"]
    );
}

#[test]
fn font_loading_from_bytes() {
    let mut mock = MockPdfium::default();
    mock.font_loads_succeed = true;
    let document = PdfDocument::from_pdfium(9, &mock);
    assert!(document.fonts().load_true_type_from_bytes(&[1, 2, 3], true).is_ok());
    assert!(PdfFont::new_type1_from_bytes(&document, &[4, 5], false).is_ok());
    assert_eq!(*mock.loaded_fonts.borrow(), vec![(3, 2, 1), (2, 1, 0)]);

    let mut failing = MockPdfium::default();
    failing.last_error = 3;
    let document = PdfDocument::from_pdfium(9, &failing);
    // The document's font collection reports a failed load as an unknown error, while
    // PdfFont's own loaders pass on the error Pdfium reports.
    assert!(matches!(
        document.fonts().load_type1_from_bytes(&[1], false),
        Err(PdfiumError::PdfiumLibraryInternalError(PdfiumInternalError::Unknown))
    ));
    assert!(matches!(
        PdfFont::new_type1_from_bytes(&document, &[1], false),
        Err(PdfiumError::PdfiumLibraryInternalError(PdfiumInternalError::FormatError))
    ));
    let silent = MockPdfium::default();
    let document = PdfDocument::from_pdfium(9, &silent);
    assert!(matches!(
        PdfFont::new_true_type_from_bytes(&document, &[1], false),
        Err(PdfiumError::PdfiumLibraryInternalError(PdfiumInternalError::Unknown))
    ));
}

#[test]
fn font_name_and_weight() {
    let mut mock = MockPdfium::default();
    mock.font_name = Some(b"Helvetica\0".to_vec());
    mock.font_weight = 700;
    let font = PdfFont::from_pdfium(600, &mock);
    assert_eq!(font.name(), "Helvetica");
    assert_eq!(font.weight(), Ok(PdfFontWeight::Weight700Bold));

    let mut unnamed = MockPdfium::default();
    unnamed.font_weight = -1;
    unnamed.last_error = 1;
    let font = PdfFont::from_pdfium(600, &unnamed);
    assert_eq!(font.name(), "");
    assert_eq!(
        font.weight(),
        Err(PdfiumError::PdfiumLibraryInternalError(PdfiumInternalError::Unknown))
    );
}

#[test]
fn form_fields() {
    let mut mock = MockPdfium::default();
    mock.checked = true;
    mock.field_name = Some("agree".to_string());
    let checkbox = PdfFormCheckboxField::from_pdfium(3, 4, &mock);
    assert_eq!(checkbox.is_checked(), Ok(true));
    assert_eq!(checkbox.name_impl(), Some("agree".to_string()));
    assert_eq!(checkbox.value_impl(), None);

    let mut other = MockPdfium::default();
    other.field_value = Some("Blue".to_string());
    let combo = PdfFormComboBoxField::from_pdfium(3, 4, &other);
    assert_eq!(combo.name_impl(), None);
    assert_eq!(combo.value_impl(), Some("Blue".to_string()));
    assert_eq!(combo.is_checked_impl(), Ok(false));
}

#[test]
fn last_error_is_decoded() {
    let mut mock = MockPdfium::default();
    assert_eq!(mock.get_pdfium_last_error(), None);
    mock.last_error = 4;
    assert_eq!(mock.get_pdfium_last_error(), Some(PdfiumInternalError::PasswordError));
    mock.last_error = 1234;
    assert_eq!(mock.get_pdfium_last_error(), Some(PdfiumInternalError::Unknown));
    assert!(mock.is_true(mock.bool_to_pdfium(true)));
    assert!(!mock.is_true(mock.bool_to_pdfium(false)));
}

#[test]
fn opening_a_document_reports_pdfium_errors() {
    let mut mock = MockPdfium::default();
    assert!(PdfDocument::from_loaded_handle(9, &mock).is_ok());
    assert!(matches!(
        PdfDocument::from_loaded_handle(0, &mock),
        Err(PdfiumError::PdfiumLibraryInternalError(PdfiumInternalError::Unknown))
    ));
    mock.last_error = 4;
    assert!(matches!(
        PdfDocument::from_loaded_handle(0, &mock),
        Err(PdfiumError::PdfiumLibraryInternalError(PdfiumInternalError::PasswordError))
    ));
}

#[test]
fn find_first_by_title_asks_pdfium() {
    let mock = bookmark_tree();
    let document = PdfDocument::from_pdfium(9, &mock);
    let found = document.bookmarks().find_first_by_title("Section 1.1").unwrap();
    assert_eq!(found.bookmark_handle(), 2);
    assert!(found.parent().is_none());
    assert!(document.bookmarks().find_first_by_title("Appendix").is_none());
}

#[test]
fn children_have_their_parent() {
    let mock = bookmark_tree();
    let document = PdfDocument::from_pdfium(9, &mock);
    let bookmarks = document.bookmarks();
    let root = bookmarks.root().unwrap();
    assert!(root.parent().is_none());
    let mut child = root.first_child();
    let mut seen = 0;
    while let Some(c) = child {
        let parent = c.parent().unwrap();
        assert_eq!(parent.bookmark_handle(), root.bookmark_handle());
        assert!(parent.parent().is_none());
        seen += 1;
        child = c.next_sibling();
    }
    assert_eq!(seen, 2);
    let top = root.next_sibling().unwrap();
    assert!(top.parent().is_none());
}

#[test]
fn descendants_are_walked_breadth_first() {
    // Below bookmark 1, both children have a child of their own: level by level, the
    // grandchildren 6 and 7 come after both children.
    let mut mock = bookmark_tree();
    mock.first_child.insert(3, 7);
    let document = PdfDocument::from_pdfium(9, &mock);
    let root = document.bookmarks().root().unwrap();
    let mut iter = root.iter_all_descendants();
    let mut visited = Vec::new();
    while let Some(b) = iter.next() {
        visited.push((b.bookmark_handle(), b.parent().map(|p| p.bookmark_handle())));
    }
    assert_eq!(visited, vec![(2, Some(1)), (3, Some(1)), (6, Some(2)), (7, Some(3))]);
    let second = root.next_sibling().unwrap();
    assert_eq!(handles(second.iter_all_descendants()), vec![5]);
    let leaf = root.first_child().unwrap().first_child().unwrap();
    assert!(handles(leaf.iter_all_descendants()).is_empty());
}
