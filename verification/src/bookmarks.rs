//! Defines the [PdfBookmarks] struct, exposing functionality related to the
//! bookmarks contained within a single `PdfDocument`.

use crate::bindgen::{FPDF_BOOKMARK, FPDF_DOCUMENT, NULL_HANDLE};
use crate::bindings::PdfiumLibraryBindings;
use crate::bookmark::{spec_siblings_start, PdfBookmark};
use crate::text::{spec_pdfium_utf16le_result, spec_utf16_encode, spec_utf16le_bytes};
use vstd::prelude::*;

verus! {

/// The bookmarks contained within a single `PdfDocument`.
///
/// Bookmarks in PDF files form a tree structure, branching out from a top-level root bookmark.
/// [PdfBookmarks::root()] returns the root bookmark in the containing document, if any;
/// use the root's [PdfBookmark::first_child()] and [PdfBookmark::next_sibling()] functions to
/// traverse the bookmark tree.
///
/// To search the tree for bookmarks with a specific title, use [PdfBookmarks::find_first_by_title()]
/// and [PdfBookmarks::find_all_by_title()].
/// To traverse the tree, create an iterator using the [PdfBookmarks::iter()] function.
pub struct PdfBookmarks<'a, B: PdfiumLibraryBindings> {
    document_handle: FPDF_DOCUMENT,
    bindings: &'a B,
}

impl<'a, B: PdfiumLibraryBindings> PdfBookmarks<'a, B> {
    /// The Pdfium handle of the document containing these bookmarks.
    pub closed spec fn spec_document_handle(&self) -> FPDF_DOCUMENT {
        self.document_handle
    }

    /// The bindings these bookmarks call through.
    pub closed spec fn spec_bindings(&self) -> &'a B {
        self.bindings
    }

    pub fn from_pdfium(document_handle: FPDF_DOCUMENT, bindings: &'a B) -> (r: Self)
        ensures
            r.spec_document_handle() == document_handle,
            r.spec_bindings() == bindings,
    {
        Self { document_handle, bindings }
    }

    /// Returns the root [PdfBookmark] in the containing `PdfDocument`, if any.
    pub fn root(&self) -> (r: Option<PdfBookmark<'a, B>>)
        ensures
            spec_cursor_of(r) == spec_cursor_at(
                self.spec_bindings().spec_first_child(self.spec_document_handle(), NULL_HANDLE),
                None,
            ),
            r matches Some(b) ==> b.spec_handle() != NULL_HANDLE && b.spec_parent() is None
                && b.spec_document_handle() == self.spec_document_handle() && b.spec_bindings()
                == self.spec_bindings(),
    {
        let handle = self.bindings.FPDFBookmark_GetFirstChild(self.document_handle, NULL_HANDLE);
        PdfBookmark::from_nullable(handle, None, self.document_handle, self.bindings)
    }

    /// Returns the first [PdfBookmark] in the containing `PdfDocument` that has a title
    /// matching the given string, as Pdfium finds it, if any.
    ///
    /// Note that bookmarks are not required to have unique titles, so in theory any number of
    /// bookmarks could match a given title. This function only ever returns the first. To return
    /// all matches, use [PdfBookmarks::find_all_by_title()].
    pub fn find_first_by_title(&self, title: &str) -> (r: Option<PdfBookmark<'a, B>>)
        ensures
            exists|bytes: &[u8]|
                bytes@ == spec_utf16le_bytes(spec_utf16_encode(title@).push(0))
                    && spec_cursor_of(r) == spec_cursor_at(
                    #[trigger] self.spec_bindings().spec_find(self.spec_document_handle(), bytes),
                    None,
                ),
            r matches Some(b) ==> b.spec_handle() != NULL_HANDLE && b.spec_parent() is None
                && b.spec_document_handle() == self.spec_document_handle() && b.spec_bindings()
                == self.spec_bindings(),
    {
        let handle = self.bindings.FPDFBookmark_Find_str(self.document_handle, title);
        PdfBookmark::from_nullable(handle, None, self.document_handle, self.bindings)
    }

    /// Returns all [PdfBookmark] objects in the containing `PdfDocument` that have a title
    /// matching the given string, found by a complete breadth-first traversal of the
    /// bookmark tree with [PdfBookmarks::iter()], in the order it visits them.
    ///
    /// Note that bookmarks are not required to have unique titles, so in theory any number of
    /// bookmarks could match a given title.
    pub fn find_all_by_title(&self, title: &str) -> (r: Vec<PdfBookmark<'a, B>>)
        ensures
            r@.map_values(|b: PdfBookmark<'a, B>| b.spec_cursor()) == spec_titled(
                self.spec_bindings(),
                spec_walk(
                    self.spec_bindings(),
                    self.spec_document_handle(),
                    spec_walk_start(
                        spec_cursor_at(
                            self.spec_bindings().spec_first_child(
                                self.spec_document_handle(),
                                NULL_HANDLE,
                            ),
                            None,
                        ),
                        true,
                        None,
                    ),
                    u64::MAX as nat,
                ),
                title@,
            ),
            forall|i: int|
                0 <= i < r@.len() ==> (#[trigger] r@[i]).spec_handle() != NULL_HANDLE
                    && r@[i].spec_document_handle() == self.spec_document_handle()
                    && r@[i].spec_bindings() == self.spec_bindings(),
    {
        let wanted = title.to_owned();
        let mut matches: Vec<PdfBookmark<'a, B>> = Vec::new();
        let mut iter = self.iter();
        let ghost bindings = self.spec_bindings();
        let ghost document = self.spec_document_handle();
        let ghost full = spec_walk(bindings, document, iter.spec_state(), u64::MAX as nat);
        let ghost mut visited: Seq<BookmarkCursor> = Seq::empty();
        assert(visited + full =~= full);
        // Every loop here carries a bound; no bookmark tree comes anywhere near this one.
        let mut steps: u64 = 0;
        while steps < u64::MAX
            invariant
                iter.wf(),
                iter.spec_inv(document, bindings),
                bindings == self.spec_bindings(),
                document == self.spec_document_handle(),
                wanted@ == title@,
                visited + spec_walk(bindings, document, iter.spec_state(), (u64::MAX - steps) as nat)
                    == full,
                matches@.map_values(|b: PdfBookmark<'a, B>| b.spec_cursor()) == spec_titled(
                    bindings,
                    visited,
                    title@,
                ),
                forall|i: int|
                    0 <= i < matches@.len() ==> (#[trigger] matches@[i]).spec_handle()
                        != NULL_HANDLE && matches@[i].spec_document_handle()
                        == self.spec_document_handle() && matches@[i].spec_bindings()
                        == self.spec_bindings(),
            ensures
                matches@.map_values(|b: PdfBookmark<'a, B>| b.spec_cursor()) == spec_titled(
                    bindings,
                    full,
                    title@,
                ),
                forall|i: int|
                    0 <= i < matches@.len() ==> (#[trigger] matches@[i]).spec_handle()
                        != NULL_HANDLE && matches@[i].spec_document_handle()
                        == self.spec_document_handle() && matches@[i].spec_bindings()
                        == self.spec_bindings(),
            decreases u64::MAX - steps,
        {
            let ghost before = iter.spec_state();
            let ghost left = (u64::MAX - steps) as nat;
            match iter.next() {
                Some(bookmark) => {
                    let ghost c = bookmark.spec_cursor();
                    let is_match = match bookmark.title() {
                        Some(bookmark_title) => bookmark_title == wanted,
                        None => false,
                    };
                    proof {
                        assert(spec_walk(bindings, document, before, left) == seq![c] + spec_walk(
                            bindings,
                            document,
                            iter.spec_state(),
                            (left - 1) as nat,
                        ));
                        assert(visited.push(c) + spec_walk(
                            bindings,
                            document,
                            iter.spec_state(),
                            (left - 1) as nat,
                        ) =~= visited + (seq![c] + spec_walk(
                            bindings,
                            document,
                            iter.spec_state(),
                            (left - 1) as nat,
                        )));
                        visited.lemma_filter_push(c, spec_title_matcher(bindings, title@));
                        assert(is_match == spec_title_matcher(bindings, title@)(c));
                    }
                    let ghost old_matches = matches@;
                    if is_match {
                        matches.push(bookmark);
                        assert(matches@.map_values(|b: PdfBookmark<'a, B>| b.spec_cursor())
                            =~= old_matches.map_values(|b: PdfBookmark<'a, B>| b.spec_cursor()).push(c));
                    }
                    proof {
                        visited = visited.push(c);
                    }
                },
                None => {
                    proof {
                        assert(spec_walk(bindings, document, before, left) =~= Seq::<
                            BookmarkCursor,
                        >::empty());
                        assert(visited =~= full);
                    }
                    break ;
                },
            }
            steps = steps + 1;
        }
        proof {
            if steps == u64::MAX {
                assert(visited + Seq::<BookmarkCursor>::empty() =~= visited);
            }
        }
        matches
    }

    /// Returns a breadth-first iterator over all the [PdfBookmark] objects in the containing
    /// `PdfDocument`, starting from the top-level root bookmark: first the root and the
    /// bookmarks following it at the top level, then their children, level by level.
    pub fn iter(&self) -> (r: PdfBookmarksIterator<'a, B>)
        ensures
            r.wf(),
            r.spec_inv(self.spec_document_handle(), self.spec_bindings()),
            r.spec_state() == spec_walk_start(
                spec_cursor_at(
                    self.spec_bindings().spec_first_child(self.spec_document_handle(), NULL_HANDLE),
                    None,
                ),
                true,
                None,
            ),
    {
        PdfBookmarksIterator::new(self.root(), true, None)
    }
}

/// A bookmark as a position in the bookmark tree: its handle together with its parent's
/// handle, if known.
pub type BookmarkCursor = (FPDF_BOOKMARK, Option<FPDF_BOOKMARK>);

/// The state of a [PdfBookmarksIterator]:
/// - `.0`, the bookmark the next step yields, if the walk along a chain of siblings goes on;
/// - `.1`, the first bookmarks of the sibling chains still to be walked, in the order they
///   were found;
/// - `.2`, whether the first child of each yielded bookmark is queued as a chain to walk;
/// - `.3`, the bookmark that the walk along a chain passes over, if any.
pub type BookmarksIteratorState = (Option<BookmarkCursor>, Seq<BookmarkCursor>, bool, Option<
    FPDF_BOOKMARK,
>);

/// The bookmark the next step yields, and the pending chains left after taking it: the
/// current bookmark if there is one, otherwise the first pending chain.
pub open spec fn spec_take_next(s: BookmarksIteratorState) -> (Option<BookmarkCursor>, Seq<
    BookmarkCursor,
>) {
    match s.0 {
        Some(c) => (Some(c), s.1),
        None => if s.1.len() > 0 {
            (Some(s.1[0]), s.1.drop_first())
        } else {
            (None, s.1)
        },
    }
}

/// One step of a [PdfBookmarksIterator], given what Pdfium answers about the bookmark it
/// yields: `sibling` is that bookmark's next sibling, `sibling_after_skipped` the next
/// sibling of `sibling`, and `child` its first child (each null if absent). Returns the
/// bookmark yielded, if any, and the state after the step.
///
/// The walk goes on along the sibling chain, passing over the skipped bookmark; the first
/// child of the yielded bookmark is queued behind the pending chains when descendants are
/// included. Once a chain ends, the next pending chain is taken up. The bookmarks are
/// thereby visited breadth-first.
pub open spec fn spec_advance(
    s: BookmarksIteratorState,
    sibling: FPDF_BOOKMARK,
    sibling_after_skipped: FPDF_BOOKMARK,
    child: FPDF_BOOKMARK,
) -> (Option<BookmarkCursor>, BookmarksIteratorState) {
    let (node, rest) = spec_take_next(s);
    match node {
        None => (None, s),
        Some(c) => {
            let next: Option<BookmarkCursor> = if sibling == NULL_HANDLE {
                None
            } else if s.3 == Some(sibling) {
                if sibling_after_skipped == NULL_HANDLE {
                    None
                } else {
                    Some((sibling_after_skipped, c.1))
                }
            } else {
                Some((sibling, c.1))
            };
            let queued = if s.2 && child != NULL_HANDLE {
                rest.push((child, Some(c.0)))
            } else {
                rest
            };
            (node, (next, queued, s.2, s.3))
        },
    }
}

/// The bookmarks an iterator over the given document yields from state `s` on, in order, in
/// at most `steps` steps: it stops early once a step yields nothing.
pub open spec fn spec_walk<B: PdfiumLibraryBindings>(
    bindings: &B,
    document: FPDF_DOCUMENT,
    s: BookmarksIteratorState,
    steps: nat,
) -> Seq<BookmarkCursor>
    decreases steps,
{
    if steps == 0 {
        Seq::empty()
    } else {
        match spec_step(bindings, document, s).0 {
            None => Seq::empty(),
            Some(c) => seq![c] + spec_walk(bindings, document, spec_step(bindings, document, s).1, (steps - 1) as nat),
        }
    }
}

/// Whether the title Pdfium gives for a bookmark is the given title.
pub open spec fn spec_title_matcher<B: PdfiumLibraryBindings>(bindings: &B, title: Seq<char>) -> spec_fn(
    BookmarkCursor,
) -> bool {
    |c: BookmarkCursor| spec_pdfium_utf16le_result(bindings.spec_title(c.0)@) == Some(title)
}

/// The bookmarks among `visited` whose title Pdfium gives as the given title, in order.
pub open spec fn spec_titled<B: PdfiumLibraryBindings>(
    bindings: &B,
    visited: Seq<BookmarkCursor>,
    title: Seq<char>,
) -> Seq<BookmarkCursor> {
    visited.filter(spec_title_matcher(bindings, title))
}

/// The state of an iterator that starts at `first`, before any step.
pub open spec fn spec_walk_start(
    first: Option<BookmarkCursor>,
    include_descendants: bool,
    skip: Option<FPDF_BOOKMARK>,
) -> BookmarksIteratorState {
    (first, Seq::empty(), include_descendants, skip)
}

/// The position of the bookmark with the given handle and parent, or none for the null
/// handle.
pub open spec fn spec_cursor_at(handle: FPDF_BOOKMARK, parent: Option<FPDF_BOOKMARK>) -> Option<
    BookmarkCursor,
> {
    if handle == NULL_HANDLE {
        None
    } else {
        Some((handle, parent))
    }
}

/// The position of the parent of the bookmark at `c`, as [PdfBookmark::parent] gives it: the
/// parent's handle with no known parent of its own, or none when no parent is known.
pub open spec fn spec_parent_cursor(c: BookmarkCursor) -> Option<BookmarkCursor> {
    match c.1 {
        Some(p) => Some((p, None)),
        None => None,
    }
}

/// One step of a [PdfBookmarksIterator] over the bookmarks of the given document, as Pdfium
/// answers through the given bindings: [spec_advance], given the next sibling of the bookmark
/// yielded, the sibling after that, and the bookmark's first child.
pub open spec fn spec_step<B: PdfiumLibraryBindings>(
    bindings: &B,
    document: FPDF_DOCUMENT,
    s: BookmarksIteratorState,
) -> (Option<BookmarkCursor>, BookmarksIteratorState) {
    match spec_take_next(s).0 {
        Some(c) => {
            let sibling = bindings.spec_next_sibling(document, c.0);
            spec_advance(
                s,
                sibling,
                bindings.spec_next_sibling(document, sibling),
                bindings.spec_first_child(document, c.0),
            )
        },
        None => spec_advance(s, NULL_HANDLE, NULL_HANDLE, NULL_HANDLE),
    }
}

/// The position in the bookmark tree of an optional bookmark.
pub open spec fn spec_cursor_of<'a, B: PdfiumLibraryBindings>(b: Option<PdfBookmark<'a, B>>) -> Option<
    BookmarkCursor,
> {
    match b {
        Some(n) => Some(n.spec_cursor()),
        None => None,
    }
}

/// An iterator over bookmarks in a bookmark tree.
pub struct PdfBookmarksIterator<'a, B: PdfiumLibraryBindings> {
    current: Option<PdfBookmark<'a, B>>,
    pending: Vec<PdfBookmark<'a, B>>,
    next_pending: usize,
    include_descendants: bool,
    skip: Option<FPDF_BOOKMARK>,
}

impl<'a, B: PdfiumLibraryBindings> PdfBookmarksIterator<'a, B> {
    /// The iterator's bookkeeping of the pending chains is consistent.
    pub closed spec fn wf(&self) -> bool {
        self.next_pending <= self.pending@.len()
    }

    /// The state of this iterator.
    pub closed spec fn spec_state(&self) -> BookmarksIteratorState {
        (
            spec_cursor_of(self.current),
            self.pending@.subrange(self.next_pending as int, self.pending@.len() as int).map_values(
                |b: PdfBookmark<'a, B>| b.spec_cursor(),
            ),
            self.include_descendants,
            self.skip,
        )
    }

    /// Every bookmark held by this iterator has a non-null handle and belongs to the given
    /// document, reached through the given bindings.
    pub closed spec fn spec_inv(&self, document: FPDF_DOCUMENT, bindings: &'a B) -> bool {
        &&& match self.current {
            Some(n) => n.spec_handle() != NULL_HANDLE && n.spec_document_handle() == document
                && n.spec_bindings() == bindings,
            None => true,
        }
        &&& forall|i: int|
            0 <= i < self.pending@.len() ==> (#[trigger] self.pending@[i]).spec_handle()
                != NULL_HANDLE && self.pending@[i].spec_document_handle() == document
                && self.pending@[i].spec_bindings() == bindings
    }

    /// Creates an iterator that walks the sibling chain starting at `first`, passing over the
    /// bookmark `skip`, and, when `include_descendants` is set, then walks the chains of
    /// children of every bookmark it yields, breadth-first.
    pub fn new(
        first: Option<PdfBookmark<'a, B>>,
        include_descendants: bool,
        skip: Option<FPDF_BOOKMARK>,
    ) -> (r: Self)
        ensures
            r.wf(),
            r.spec_state() == (spec_cursor_of(first), Seq::<BookmarkCursor>::empty(), include_descendants, skip),
            forall|d: FPDF_DOCUMENT, b: &'a B|
                #![trigger r.spec_inv(d, b)]
                (match first {
                    Some(n) => n.spec_handle() != NULL_HANDLE && n.spec_document_handle() == d
                        && n.spec_bindings() == b,
                    None => true,
                }) ==> r.spec_inv(d, b),
    {
        let r = PdfBookmarksIterator {
            current: first,
            pending: Vec::new(),
            next_pending: 0,
            include_descendants,
            skip,
        };
        assert(r.spec_state().1 =~= Seq::<BookmarkCursor>::empty());
        r
    }

    /// Moves to the next bookmark and returns it, or returns `None` once the iteration
    /// has ended. Each step follows [spec_advance] on what Pdfium answers.
    pub fn next(&mut self) -> (r: Option<PdfBookmark<'a, B>>)
        requires
            old(self).wf(),
        ensures
            final(self).wf(),
            forall|d: FPDF_DOCUMENT, b: &'a B|
                #![trigger old(self).spec_inv(d, b)]
                old(self).spec_inv(d, b) ==> spec_step(b, d, old(self).spec_state()) == (
                    spec_cursor_of(r),
                    final(self).spec_state(),
                ),
            forall|d: FPDF_DOCUMENT, b: &'a B|
                #![trigger final(self).spec_inv(d, b)]
                old(self).spec_inv(d, b) ==> final(self).spec_inv(d, b),
            forall|d: FPDF_DOCUMENT, b: &'a B|
                old(self).spec_inv(d, b) ==> (r matches Some(n) ==> n.spec_handle() != NULL_HANDLE
                    && n.spec_document_handle() == d && n.spec_bindings() == b),
    {
        let ghost old_state = self.spec_state();
        let ghost mut sibling: FPDF_BOOKMARK = NULL_HANDLE;
        let ghost mut sibling_after_skipped: FPDF_BOOKMARK = NULL_HANDLE;
        let ghost mut child: FPDF_BOOKMARK = NULL_HANDLE;
        let has_current = self.current.is_some();
        let node: Option<PdfBookmark<'a, B>> = if has_current {
            match &self.current {
                Some(c) => Some(c.clone()),
                None => None,
            }
        } else if self.next_pending < self.pending.len() {
            let c = self.pending[self.next_pending].clone();
            self.next_pending = self.next_pending + 1;
            proof {
                assert(self.spec_state().1 =~= old_state.1.drop_first());
            }
            Some(c)
        } else {
            None
        };
        let ghost rest = self.spec_state().1;
        assert(spec_take_next(old_state) == (spec_cursor_of(node), rest));
        match node {
            None => {
                assert(spec_advance(old_state, sibling, sibling_after_skipped, child) == (
                    None::<BookmarkCursor>,
                    self.spec_state(),
                ));
                None
            },
            Some(n) => {
                let candidate = n.next_sibling();
                proof {
                    if candidate is Some {
                        sibling = candidate->0.spec_handle();
                    }
                }
                let next = match candidate {
                    Some(s) => match self.skip {
                        Some(k) => if k == s.bookmark_handle() {
                            let after = s.next_sibling();
                            proof {
                                if after is Some {
                                    sibling_after_skipped = after->0.spec_handle();
                                }
                            }
                            after
                        } else {
                            Some(s)
                        },
                        None => Some(s),
                    },
                    None => None,
                };
                if self.include_descendants {
                    match n.first_child() {
                        Some(c) => {
                            proof {
                                child = c.spec_handle();
                            }
                            self.pending.push(c);
                            proof {
                                assert(self.spec_state().1 =~= rest.push((child, Some(n.spec_handle()))));
                            }
                        },
                        None => {},
                    }
                }
                self.current = next;
                assert(spec_advance(old_state, sibling, sibling_after_skipped, child) == (
                    spec_cursor_of(Some(n)),
                    self.spec_state(),
                ));
                proof {
                    let d = n.spec_document_handle();
                    let b = n.spec_bindings();
                    let real_sibling = b.spec_next_sibling(d, n.spec_handle());
                    assert(sibling == real_sibling);
                    assert(spec_advance(old_state, sibling, sibling_after_skipped, child)
                        == spec_advance(
                        old_state,
                        real_sibling,
                        b.spec_next_sibling(d, real_sibling),
                        b.spec_first_child(d, n.spec_handle()),
                    ));
                }
                Some(n)
            },
        }
    }
}

/// An iterator that has ended stays ended: once no bookmark is current and no chain is
/// pending, every further step yields nothing and leaves the iterator unchanged.
pub proof fn lemma_exhausted_iterator_stays_exhausted(
    s: BookmarksIteratorState,
    sibling: FPDF_BOOKMARK,
    sibling_after_skipped: FPDF_BOOKMARK,
    child: FPDF_BOOKMARK,
)
    requires
        s.0 is None,
        s.1.len() == 0,
    ensures
        spec_advance(s, sibling, sibling_after_skipped, child) == (None::<BookmarkCursor>, s),
{
}

/// Every bookmark the iterator reaches has a non-null handle: if every bookmark held has
/// one, so do the bookmark yielded and every bookmark held after the step.
pub proof fn lemma_reached_bookmarks_are_not_null(
    s: BookmarksIteratorState,
    sibling: FPDF_BOOKMARK,
    sibling_after_skipped: FPDF_BOOKMARK,
    child: FPDF_BOOKMARK,
)
    requires
        s.0 matches Some(c) ==> c.0 != NULL_HANDLE,
        forall|i: int| 0 <= i < s.1.len() ==> (#[trigger] s.1[i]).0 != NULL_HANDLE,
    ensures
        ({
            let (y, t) = spec_advance(s, sibling, sibling_after_skipped, child);
            &&& y matches Some(c) ==> c.0 != NULL_HANDLE
            &&& t.0 matches Some(c) ==> c.0 != NULL_HANDLE
            &&& forall|i: int| 0 <= i < t.1.len() ==> (#[trigger] t.1[i]).0 != NULL_HANDLE
        }),
{
    let (node, rest) = spec_take_next(s);
    if s.0 is None && s.1.len() > 0 {
        assert forall|i: int| 0 <= i < rest.len() implies (#[trigger] rest[i]).0 != NULL_HANDLE by {
            assert(rest[i] == s.1[i + 1]);
        }
    }
}

/// The iteration is breadth-first: while a chain of siblings is being walked it goes on,
/// and only when it ends is the earliest pending chain taken up; chains found later are
/// queued behind those found earlier, at most one per step.
pub proof fn lemma_chains_are_walked_in_discovery_order(
    s: BookmarksIteratorState,
    sibling: FPDF_BOOKMARK,
    sibling_after_skipped: FPDF_BOOKMARK,
    child: FPDF_BOOKMARK,
)
    requires
        s.0 is Some || s.1.len() > 0,
    ensures
        ({
            let (y, t) = spec_advance(s, sibling, sibling_after_skipped, child);
            let rest = if s.0 is Some {
                s.1
            } else {
                s.1.drop_first()
            };
            &&& y == (if s.0 is Some {
                s.0
            } else {
                Some(s.1[0])
            })
            &&& t.1.len() <= rest.len() + 1
            &&& t.1.subrange(0, rest.len() as int) == rest
        }),
{
    let (y, t) = spec_advance(s, sibling, sibling_after_skipped, child);
    let rest = if s.0 is Some {
        s.1
    } else {
        s.1.drop_first()
    };
    if t.1.len() == rest.len() {
        assert(t.1.subrange(0, rest.len() as int) =~= rest);
    } else {
        assert(t.1.subrange(0, rest.len() as int) =~= rest);
    }
}

/// Children are queued only when descendants are included, and then the first child of the
/// yielded bookmark, with that bookmark as its parent, is queued last.
pub proof fn lemma_children_are_queued_only_with_descendants(
    s: BookmarksIteratorState,
    sibling: FPDF_BOOKMARK,
    sibling_after_skipped: FPDF_BOOKMARK,
    child: FPDF_BOOKMARK,
)
    ensures
        ({
            let (y, t) = spec_advance(s, sibling, sibling_after_skipped, child);
            &&& !s.2 ==> t.1.len() <= s.1.len()
            &&& (s.2 && child != NULL_HANDLE && y is Some) ==> t.1.last() == (
                child,
                Some((y->0).0),
            )
        }),
{
}

/// The bookmark to be passed over is never the next one reached along a chain, unless it
/// directly follows itself in the sibling chain.
pub proof fn lemma_skipped_sibling_is_passed_over(
    s: BookmarksIteratorState,
    sibling: FPDF_BOOKMARK,
    sibling_after_skipped: FPDF_BOOKMARK,
    child: FPDF_BOOKMARK,
    skipped: FPDF_BOOKMARK,
)
    requires
        s.3 == Some(skipped),
        sibling_after_skipped != skipped,
    ensures
        spec_advance(s, sibling, sibling_after_skipped, child).1.0 matches Some(c) ==> c.0
            != skipped,
{
}

/// `chain` is the chain of bookmarks that starts at `first` and follows Pdfium's next-sibling
/// answers until there is none: non-null bookmarks, each followed by the next, the last
/// followed by none, no bookmark twice; empty when `first` is null.
pub open spec fn spec_sibling_chain<B: PdfiumLibraryBindings>(
    bindings: &B,
    document: FPDF_DOCUMENT,
    first: FPDF_BOOKMARK,
    chain: Seq<FPDF_BOOKMARK>,
) -> bool {
    &&& chain.len() == 0 ==> first == NULL_HANDLE
    &&& chain.len() > 0 ==> chain[0] == first && bindings.spec_next_sibling(document, chain.last())
        == NULL_HANDLE
    &&& forall|i: int| 0 <= i < chain.len() ==> #[trigger] chain[i] != NULL_HANDLE
    &&& forall|i: int|
        0 <= i < chain.len() - 1 ==> bindings.spec_next_sibling(document, #[trigger] chain[i])
            == chain[i + 1]
    &&& chain.no_duplicates()
}

/// The bookmarks of a chain, in order, with the given parent, leaving out the skipped one.
pub open spec fn spec_chain_cursors(
    chain: Seq<FPDF_BOOKMARK>,
    parent: Option<FPDF_BOOKMARK>,
    skip: Option<FPDF_BOOKMARK>,
) -> Seq<BookmarkCursor>
    decreases chain.len(),
{
    if chain.len() == 0 {
        Seq::empty()
    } else if skip == Some(chain[0]) {
        spec_chain_cursors(chain.drop_first(), parent, skip)
    } else {
        seq![(chain[0], parent)] + spec_chain_cursors(chain.drop_first(), parent, skip)
    }
}

/// The rest of a chain after its first bookmark is the chain that starts at that bookmark's
/// next sibling.
proof fn lemma_chain_rest<B: PdfiumLibraryBindings>(
    bindings: &B,
    document: FPDF_DOCUMENT,
    first: FPDF_BOOKMARK,
    chain: Seq<FPDF_BOOKMARK>,
)
    requires
        spec_sibling_chain(bindings, document, first, chain),
        chain.len() > 0,
    ensures
        spec_sibling_chain(
            bindings,
            document,
            bindings.spec_next_sibling(document, chain[0]),
            chain.drop_first(),
        ),
{
    let rest = chain.drop_first();
    if chain.len() > 1 {
        assert(rest.last() == chain.last());
        assert forall|i: int| 0 <= i < rest.len() - 1 implies bindings.spec_next_sibling(
            document,
            #[trigger] rest[i],
        ) == rest[i + 1] by {
            assert(rest[i] == chain[i + 1]);
        }
        assert(rest.no_duplicates()) by {
            assert forall|i: int, j: int|
                0 <= i < rest.len() && 0 <= j < rest.len() && i != j implies rest[i] != rest[j] by {
                assert(rest[i] == chain[i + 1] && rest[j] == chain[j + 1]);
            }
        }
    }
}

/// Walking a chain of siblings without queueing children visits the chain in order, passing
/// over the skipped bookmark, and then ends.
proof fn lemma_walk_sibling_chain<B: PdfiumLibraryBindings>(
    bindings: &B,
    document: FPDF_DOCUMENT,
    first: FPDF_BOOKMARK,
    chain: Seq<FPDF_BOOKMARK>,
    parent: Option<FPDF_BOOKMARK>,
    skip: Option<FPDF_BOOKMARK>,
    steps: nat,
)
    requires
        spec_sibling_chain(bindings, document, first, chain),
        chain.len() < steps,
        chain.len() > 0 ==> skip != Some(chain[0]),
    ensures
        spec_walk(
            bindings,
            document,
            spec_walk_start(spec_cursor_at(first, parent), false, skip),
            steps,
        ) == spec_chain_cursors(chain, parent, skip),
    decreases chain.len(),
{
    let s = spec_walk_start(spec_cursor_at(first, parent), false, skip);
    if chain.len() == 0 {
        assert(spec_step(bindings, document, s).0 is None);
    } else {
        let sibling = bindings.spec_next_sibling(document, first);
        let rest = chain.drop_first();
        lemma_chain_rest(bindings, document, first, chain);
        let (y, t) = spec_step(bindings, document, s);
        assert(y == Some((first, parent)));
        if sibling != NULL_HANDLE && skip == Some(sibling) {
            let after = bindings.spec_next_sibling(document, sibling);
            let rest2 = rest.drop_first();
            assert(rest.len() > 0);
            assert(rest[0] == sibling);
            lemma_chain_rest(bindings, document, sibling, rest);
            assert(t =~= spec_walk_start(spec_cursor_at(after, parent), false, skip));
            if rest2.len() > 0 {
                assert(rest2[0] == chain[2] && chain[1] == sibling);
            }
            lemma_walk_sibling_chain(bindings, document, after, rest2, parent, skip, (steps - 1) as nat);
            assert(spec_chain_cursors(rest, parent, skip) == spec_chain_cursors(rest2, parent, skip));
        } else {
            assert(t =~= spec_walk_start(spec_cursor_at(sibling, parent), false, skip));
            if rest.len() > 0 {
                assert(rest[0] == sibling);
            }
            lemma_walk_sibling_chain(bindings, document, sibling, rest, parent, skip, (steps - 1) as nat);
        }
    }
}

/// Without a skipped bookmark, the cursors of a chain are its bookmarks in order.
proof fn lemma_chain_cursors_unskipped(chain: Seq<FPDF_BOOKMARK>, parent: Option<FPDF_BOOKMARK>)
    requires
        forall|i: int| 0 <= i < chain.len() ==> #[trigger] chain[i] != NULL_HANDLE,
    ensures
        spec_chain_cursors(chain, parent, None) == chain.map_values(
            |c: FPDF_BOOKMARK| (c, parent),
        ),
    decreases chain.len(),
{
    if chain.len() > 0 {
        let rest = chain.drop_first();
        assert forall|i: int| 0 <= i < rest.len() implies #[trigger] rest[i] != NULL_HANDLE by {
            assert(rest[i] == chain[i + 1]);
        }
        lemma_chain_cursors_unskipped(rest, parent);
        assert(chain.map_values(|c: FPDF_BOOKMARK| (c, parent)) =~= seq![(chain[0], parent)]
            + rest.map_values(|c: FPDF_BOOKMARK| (c, parent)));
    }
}

/// The direct children of a bookmark are visited in order, and nothing else: iterating
/// over them from Pdfium's first-child answer yields each bookmark of the chain of
/// children, with the bookmark as parent, and then ends.
pub proof fn lemma_direct_children_in_order<B: PdfiumLibraryBindings>(
    bindings: &B,
    document: FPDF_DOCUMENT,
    bookmark: FPDF_BOOKMARK,
    children: Seq<FPDF_BOOKMARK>,
    steps: nat,
)
    requires
        spec_sibling_chain(
            bindings,
            document,
            bindings.spec_first_child(document, bookmark),
            children,
        ),
        children.len() < steps,
    ensures
        spec_walk(
            bindings,
            document,
            spec_walk_start(
                spec_cursor_at(bindings.spec_first_child(document, bookmark), Some(bookmark)),
                false,
                None,
            ),
            steps,
        ) == children.map_values(|c: FPDF_BOOKMARK| (c, Some(bookmark))),
{
    lemma_walk_sibling_chain(
        bindings,
        document,
        bindings.spec_first_child(document, bookmark),
        children,
        Some(bookmark),
        None,
        steps,
    );
    lemma_chain_cursors_unskipped(children, Some(bookmark));
}

/// The siblings of a bookmark are its parent's other children: iterating over them visits
/// the chain of the parent's children in order, leaving out the bookmark itself, and then
/// ends.
pub proof fn lemma_siblings_are_the_other_children<B: PdfiumLibraryBindings>(
    bindings: &B,
    document: FPDF_DOCUMENT,
    bookmark: FPDF_BOOKMARK,
    parent: FPDF_BOOKMARK,
    children: Seq<FPDF_BOOKMARK>,
    steps: nat,
)
    requires
        spec_sibling_chain(bindings, document, bindings.spec_first_child(document, parent), children),
        children.len() < steps,
    ensures
        spec_walk(
            bindings,
            document,
            spec_walk_start(
                spec_siblings_start(bindings, document, bookmark, Some(parent)),
                false,
                Some(bookmark),
            ),
            steps,
        ) == spec_chain_cursors(children, Some(parent), Some(bookmark)),
{
    let first = bindings.spec_first_child(document, parent);
    if children.len() > 0 && children[0] == bookmark {
        lemma_chain_rest(bindings, document, first, children);
        let rest = children.drop_first();
        if rest.len() > 0 {
            assert(rest[0] == children[1]);
        }
        lemma_walk_sibling_chain(
            bindings,
            document,
            bindings.spec_next_sibling(document, first),
            rest,
            Some(parent),
            Some(bookmark),
            steps,
        );
    } else {
        lemma_walk_sibling_chain(bindings, document, first, children, Some(parent), Some(bookmark), steps);
    }
}

/// The chain of bookmarks that starts at `first` and follows Pdfium's next-sibling answers,
/// for at most `fuel` bookmarks.
pub open spec fn spec_chain_from<B: PdfiumLibraryBindings>(
    bindings: &B,
    document: FPDF_DOCUMENT,
    first: FPDF_BOOKMARK,
    fuel: nat,
) -> Seq<FPDF_BOOKMARK>
    decreases fuel,
{
    if fuel == 0 || first == NULL_HANDLE {
        Seq::empty()
    } else {
        seq![first] + spec_chain_from(
            bindings,
            document,
            bindings.spec_next_sibling(document, first),
            (fuel - 1) as nat,
        )
    }
}

/// The first children of the given bookmarks, in order, each with its parent, for those
/// bookmarks that have children.
pub open spec fn spec_child_heads<B: PdfiumLibraryBindings>(
    bindings: &B,
    document: FPDF_DOCUMENT,
    chain: Seq<FPDF_BOOKMARK>,
) -> Seq<BookmarkCursor>
    decreases chain.len(),
{
    if chain.len() == 0 {
        Seq::empty()
    } else {
        let child = bindings.spec_first_child(document, chain[0]);
        (if child != NULL_HANDLE {
            seq![(child, Some(chain[0]))]
        } else {
            Seq::empty()
        }) + spec_child_heads(bindings, document, chain.drop_first())
    }
}

/// The breadth-first order of the outline below a queue of sibling chains: the first chain
/// of the queue, in order, followed by the breadth-first order of the rest of the queue with
/// the chains of children of that chain's bookmarks queued behind it. `fuel` bounds the
/// number of chains taken up, and the length of each.
pub open spec fn spec_breadth_first<B: PdfiumLibraryBindings>(
    bindings: &B,
    document: FPDF_DOCUMENT,
    queue: Seq<BookmarkCursor>,
    fuel: nat,
) -> Seq<BookmarkCursor>
    decreases fuel,
{
    if fuel == 0 || queue.len() == 0 {
        Seq::empty()
    } else {
        let chain = spec_chain_from(bindings, document, queue[0].0, fuel);
        chain.map_values(|c: FPDF_BOOKMARK| (c, queue[0].1)) + spec_breadth_first(
            bindings,
            document,
            queue.drop_first() + spec_child_heads(bindings, document, chain),
            (fuel - 1) as nat,
        )
    }
}

/// The outline below a queue of sibling chains is finite and well formed within `fuel`: every
/// chain taken up by [spec_breadth_first] ends, with no bookmark twice, and the queue runs
/// out before the fuel does.
pub open spec fn spec_outline_ends<B: PdfiumLibraryBindings>(
    bindings: &B,
    document: FPDF_DOCUMENT,
    queue: Seq<BookmarkCursor>,
    fuel: nat,
) -> bool
    decreases fuel,
{
    if fuel == 0 {
        false
    } else if queue.len() == 0 {
        true
    } else {
        let chain = spec_chain_from(bindings, document, queue[0].0, fuel);
        &&& spec_sibling_chain(bindings, document, queue[0].0, chain)
        &&& spec_outline_ends(
            bindings,
            document,
            queue.drop_first() + spec_child_heads(bindings, document, chain),
            (fuel - 1) as nat,
        )
    }
}

/// Walking a chain of siblings while queueing children visits the chain in order, queueing
/// the first child of each of its bookmarks behind the pending chains, and then takes up
/// the pending chains.
proof fn lemma_walk_chain_queueing_children<B: PdfiumLibraryBindings>(
    bindings: &B,
    document: FPDF_DOCUMENT,
    first: FPDF_BOOKMARK,
    chain: Seq<FPDF_BOOKMARK>,
    parent: Option<FPDF_BOOKMARK>,
    pending: Seq<BookmarkCursor>,
    steps: nat,
)
    requires
        spec_sibling_chain(bindings, document, first, chain),
        chain.len() < steps,
    ensures
        spec_walk(bindings, document, (spec_cursor_at(first, parent), pending, true, None), steps)
            == chain.map_values(|c: FPDF_BOOKMARK| (c, parent)) + spec_walk(
            bindings,
            document,
            (None, pending + spec_child_heads(bindings, document, chain), true, None),
            (steps - chain.len()) as nat,
        ),
    decreases chain.len(),
{
    let s: BookmarksIteratorState = (spec_cursor_at(first, parent), pending, true, None);
    if chain.len() == 0 {
        assert(pending + spec_child_heads(bindings, document, chain) =~= pending);
        assert(chain.map_values(|c: FPDF_BOOKMARK| (c, parent)) =~= Seq::<BookmarkCursor>::empty());
        assert(s =~= (None::<BookmarkCursor>, pending, true, None::<FPDF_BOOKMARK>));
    } else {
        let sibling = bindings.spec_next_sibling(document, first);
        let child = bindings.spec_first_child(document, first);
        let rest = chain.drop_first();
        lemma_chain_rest(bindings, document, first, chain);
        let head: Seq<BookmarkCursor> = if child != NULL_HANDLE {
            seq![(child, Some(first))]
        } else {
            Seq::empty()
        };
        let (y, t) = spec_step(bindings, document, s);
        assert(y == Some((first, parent)));
        assert(t =~= (spec_cursor_at(sibling, parent), pending + head, true, None::<FPDF_BOOKMARK>));
        if rest.len() > 0 {
            assert(rest[0] == sibling);
        }
        lemma_walk_chain_queueing_children(
            bindings,
            document,
            sibling,
            rest,
            parent,
            pending + head,
            (steps - 1) as nat,
        );
        assert(spec_child_heads(bindings, document, chain) == head + spec_child_heads(
            bindings,
            document,
            rest,
        ));
        assert(pending + head + spec_child_heads(bindings, document, rest) =~= pending
            + spec_child_heads(bindings, document, chain));
        assert(chain.map_values(|c: FPDF_BOOKMARK| (c, parent)) =~= seq![(first, parent)]
            + rest.map_values(|c: FPDF_BOOKMARK| (c, parent)));
        assert(seq![(first, parent)] + (rest.map_values(|c: FPDF_BOOKMARK| (c, parent))
            + spec_walk(
            bindings,
            document,
            (None, pending + spec_child_heads(bindings, document, chain), true, None),
            (steps - chain.len()) as nat,
        )) =~= chain.map_values(|c: FPDF_BOOKMARK| (c, parent)) + spec_walk(
            bindings,
            document,
            (None, pending + spec_child_heads(bindings, document, chain), true, None),
            (steps - chain.len()) as nat,
        ));
    }
}

/// A chain taken up from the pending queue is walked as if it had been the current chain.
proof fn lemma_take_up_pending<B: PdfiumLibraryBindings>(
    bindings: &B,
    document: FPDF_DOCUMENT,
    queue: Seq<BookmarkCursor>,
    steps: nat,
)
    requires
        queue.len() > 0,
        queue[0].0 != NULL_HANDLE,
    ensures
        spec_walk(bindings, document, (None, queue, true, None), steps) == spec_walk(
            bindings,
            document,
            (spec_cursor_at(queue[0].0, queue[0].1), queue.drop_first(), true, None),
            steps,
        ),
{
    let s1: BookmarksIteratorState = (None, queue, true, None);
    let s2: BookmarksIteratorState = (
        spec_cursor_at(queue[0].0, queue[0].1),
        queue.drop_first(),
        true,
        None,
    );
    assert(spec_take_next(s1) == spec_take_next(s2));
    assert(spec_step(bindings, document, s1) == spec_step(bindings, document, s2));
}

/// Every queued chain head is a non-null bookmark.
proof fn lemma_child_heads_not_null<B: PdfiumLibraryBindings>(
    bindings: &B,
    document: FPDF_DOCUMENT,
    chain: Seq<FPDF_BOOKMARK>,
)
    ensures
        forall|i: int|
            0 <= i < spec_child_heads(bindings, document, chain).len() ==> (#[trigger] spec_child_heads(
                bindings,
                document,
                chain,
            )[i]).0 != NULL_HANDLE,
    decreases chain.len(),
{
    if chain.len() > 0 {
        lemma_child_heads_not_null(bindings, document, chain.drop_first());
        let child = bindings.spec_first_child(document, chain[0]);
        let head: Seq<BookmarkCursor> = if child != NULL_HANDLE {
            seq![(child, Some(chain[0]))]
        } else {
            Seq::empty()
        };
        let tail = spec_child_heads(bindings, document, chain.drop_first());
        assert forall|i: int| 0 <= i < (head + tail).len() implies (#[trigger] (head + tail)[i]).0
            != NULL_HANDLE by {
            if i >= head.len() {
                assert((head + tail)[i] == tail[i - head.len()]);
            }
        }
    }
}

/// Walking the outline below a queue of non-null chain heads gives its breadth-first order,
/// when the outline ends within the fuel and the walk has steps enough.
proof fn lemma_walk_is_breadth_first<B: PdfiumLibraryBindings>(
    bindings: &B,
    document: FPDF_DOCUMENT,
    queue: Seq<BookmarkCursor>,
    fuel: nat,
    steps: nat,
)
    requires
        spec_outline_ends(bindings, document, queue, fuel),
        forall|i: int| 0 <= i < queue.len() ==> (#[trigger] queue[i]).0 != NULL_HANDLE,
        spec_breadth_first(bindings, document, queue, fuel).len() < steps,
    ensures
        spec_walk(bindings, document, (None, queue, true, None), steps) == spec_breadth_first(
            bindings,
            document,
            queue,
            fuel,
        ),
    decreases fuel,
{
    if queue.len() == 0 {
        let s: BookmarksIteratorState = (None, queue, true, None);
        assert(spec_step(bindings, document, s).0 is None);
    } else {
        let head = queue[0];
        let chain = spec_chain_from(bindings, document, head.0, fuel);
        let next_queue = queue.drop_first() + spec_child_heads(bindings, document, chain);
        let rest = spec_breadth_first(bindings, document, next_queue, (fuel - 1) as nat);
        assert(spec_breadth_first(bindings, document, queue, fuel) == chain.map_values(
            |c: FPDF_BOOKMARK| (c, head.1),
        ) + rest);
        lemma_take_up_pending(bindings, document, queue, steps);
        lemma_walk_chain_queueing_children(
            bindings,
            document,
            head.0,
            chain,
            head.1,
            queue.drop_first(),
            steps,
        );
        lemma_child_heads_not_null(bindings, document, chain);
        assert forall|i: int| 0 <= i < next_queue.len() implies (#[trigger] next_queue[i]).0
            != NULL_HANDLE by {
            if i < queue.len() - 1 {
                assert(next_queue[i] == queue[i + 1]);
            } else {
                assert(next_queue[i] == spec_child_heads(bindings, document, chain)[i - (queue.len()
                    - 1)]);
            }
        }
        lemma_walk_is_breadth_first(
            bindings,
            document,
            next_queue,
            (fuel - 1) as nat,
            (steps - chain.len()) as nat,
        );
    }
}

/// The walk that starts at the chain of siblings headed by `first`, whose parent is `parent`,
/// and includes descendants, is breadth-first: when the outline below that chain ends within
/// the fuel (each chain of siblings ends, with no bookmark twice) and the walk has steps
/// enough, the bookmarks visited are that chain, in order, then, chain by chain, the children
/// of the bookmarks already visited, in the order their parents were visited; then the walk
/// ends. Nothing outside the chain and the bookmarks below it is visited.
pub proof fn lemma_chain_is_walked_breadth_first<B: PdfiumLibraryBindings>(
    bindings: &B,
    document: FPDF_DOCUMENT,
    first: FPDF_BOOKMARK,
    parent: Option<FPDF_BOOKMARK>,
    fuel: nat,
    steps: nat,
)
    requires
        spec_outline_ends(bindings, document, seq![(first, parent)], fuel),
        spec_breadth_first(bindings, document, seq![(first, parent)], fuel).len() < steps,
    ensures
        spec_walk(
            bindings,
            document,
            spec_walk_start(spec_cursor_at(first, parent), true, None),
            steps,
        ) == spec_breadth_first(bindings, document, seq![(first, parent)], fuel),
{
    let queue = seq![(first, parent)];
    let chain = spec_chain_from(bindings, document, first, fuel);
    let next_queue = queue.drop_first() + spec_child_heads(bindings, document, chain);
    let rest = spec_breadth_first(bindings, document, next_queue, (fuel - 1) as nat);
    assert(spec_breadth_first(bindings, document, queue, fuel) == chain.map_values(
        |c: FPDF_BOOKMARK| (c, parent),
    ) + rest);
    lemma_walk_chain_queueing_children(
        bindings,
        document,
        first,
        chain,
        parent,
        Seq::empty(),
        steps,
    );
    assert(Seq::<BookmarkCursor>::empty() + spec_child_heads(bindings, document, chain)
        =~= next_queue);
    lemma_child_heads_not_null(bindings, document, chain);
    lemma_walk_is_breadth_first(
        bindings,
        document,
        next_queue,
        (fuel - 1) as nat,
        (steps - chain.len()) as nat,
    );
}

/// `chain` is what is reached from the bookmark `parent` by [PdfBookmark::first_child] and then
/// [PdfBookmark::next_sibling], step by step: its first position is Pdfium's first child of
/// `parent`, with `parent` as its parent, and each further one is the next sibling of the one
/// before it, with the same parent.
pub open spec fn spec_reached_from_parent<B: PdfiumLibraryBindings>(
    bindings: &B,
    document: FPDF_DOCUMENT,
    parent: FPDF_BOOKMARK,
    chain: Seq<BookmarkCursor>,
) -> bool {
    &&& chain.len() > 0 ==> chain[0] == (bindings.spec_first_child(document, parent), Some(parent))
    &&& forall|i: int|
        0 <= i < chain.len() - 1 ==> #[trigger] chain[i + 1] == (
            bindings.spec_next_sibling(document, chain[i].0),
            chain[i].1,
        )
}

/// A child reached through a bookmark's first child and any number of next-sibling steps has
/// that bookmark as its parent: [PdfBookmark::parent] gives the bookmark back, with no parent
/// known of its own, and asking that one for its parent gives none.
pub proof fn lemma_children_have_their_parent<B: PdfiumLibraryBindings>(
    bindings: &B,
    document: FPDF_DOCUMENT,
    parent: FPDF_BOOKMARK,
    chain: Seq<BookmarkCursor>,
)
    requires
        spec_reached_from_parent(bindings, document, parent, chain),
    ensures
        forall|i: int|
            0 <= i < chain.len() ==> #[trigger] spec_parent_cursor(chain[i]) == Some(
                (parent, None::<FPDF_BOOKMARK>),
            ),
        spec_parent_cursor((parent, None)) is None,
    decreases chain.len(),
{
    if chain.len() > 0 {
        let shorter = chain.drop_last();
        assert forall|i: int| 0 <= i < shorter.len() - 1 implies #[trigger] shorter[i + 1] == (
            bindings.spec_next_sibling(document, shorter[i].0),
            shorter[i].1,
        ) by {
            assert(chain[i + 1] == (bindings.spec_next_sibling(document, chain[i].0), chain[i].1));
        }
        lemma_children_have_their_parent(bindings, document, parent, shorter);
        let last = chain.len() - 1;
        if last > 0 {
            let before = last - 1;
            assert(chain[before + 1] == (
                bindings.spec_next_sibling(document, chain[before].0),
                chain[before].1,
            ));
            assert(chain[before] == shorter[before]);
            assert(spec_parent_cursor(shorter[before]) == Some((parent, None::<FPDF_BOOKMARK>)));
        }
        assert forall|i: int| 0 <= i < chain.len() implies #[trigger] spec_parent_cursor(chain[i])
            == Some((parent, None::<FPDF_BOOKMARK>)) by {
            if i < last {
                assert(chain[i] == shorter[i]);
            }
        }
    }
}

/// The root bookmark of a document has no known parent: the position at which
/// [PdfBookmarks::root] finds it has none.
pub proof fn lemma_root_has_no_parent<B: PdfiumLibraryBindings>(
    bindings: &B,
    document: FPDF_DOCUMENT,
)
    ensures
        spec_cursor_at(bindings.spec_first_child(document, NULL_HANDLE), None) matches Some(c)
            ==> spec_parent_cursor(c) is None,
{
}

/// The iteration over a document's bookmarks is breadth-first: when the outline ends within
/// the fuel (each chain of siblings ends, with no bookmark twice) and the walk has steps
/// enough, the bookmarks visited are the top-level chain starting at Pdfium's first root
/// bookmark, in order, then, chain by chain, the children of the bookmarks already visited,
/// in the order their parents were visited; then the iteration ends.
pub proof fn lemma_outline_is_walked_breadth_first<B: PdfiumLibraryBindings>(
    bindings: &B,
    document: FPDF_DOCUMENT,
    fuel: nat,
    steps: nat,
)
    requires
        spec_outline_ends(
            bindings,
            document,
            seq![(bindings.spec_first_child(document, NULL_HANDLE), None::<FPDF_BOOKMARK>)],
            fuel,
        ),
        spec_breadth_first(
            bindings,
            document,
            seq![(bindings.spec_first_child(document, NULL_HANDLE), None::<FPDF_BOOKMARK>)],
            fuel,
        ).len() < steps,
    ensures
        spec_walk(
            bindings,
            document,
            spec_walk_start(
                spec_cursor_at(bindings.spec_first_child(document, NULL_HANDLE), None),
                true,
                None,
            ),
            steps,
        ) == spec_breadth_first(
            bindings,
            document,
            seq![(bindings.spec_first_child(document, NULL_HANDLE), None::<FPDF_BOOKMARK>)],
            fuel,
        ),
{
    lemma_chain_is_walked_breadth_first(
        bindings,
        document,
        bindings.spec_first_child(document, NULL_HANDLE),
        None,
        fuel,
        steps,
    );
}

/// The iteration over all descendants of a bookmark is breadth-first: when the outline below
/// the bookmark ends within the fuel and the walk has steps enough, the bookmarks visited are
/// the chain of its children, starting at Pdfium's first child of it and each with the
/// bookmark as parent, then, chain by chain, the children of the bookmarks already visited,
/// in the order their parents were visited; then the iteration ends. Neither the bookmark
/// itself nor its siblings are visited.
pub proof fn lemma_descendants_are_walked_breadth_first<B: PdfiumLibraryBindings>(
    bindings: &B,
    document: FPDF_DOCUMENT,
    bookmark: FPDF_BOOKMARK,
    fuel: nat,
    steps: nat,
)
    requires
        spec_outline_ends(
            bindings,
            document,
            seq![(bindings.spec_first_child(document, bookmark), Some(bookmark))],
            fuel,
        ),
        spec_breadth_first(
            bindings,
            document,
            seq![(bindings.spec_first_child(document, bookmark), Some(bookmark))],
            fuel,
        ).len() < steps,
    ensures
        spec_walk(
            bindings,
            document,
            spec_walk_start(
                spec_cursor_at(bindings.spec_first_child(document, bookmark), Some(bookmark)),
                true,
                None,
            ),
            steps,
        ) == spec_breadth_first(
            bindings,
            document,
            seq![(bindings.spec_first_child(document, bookmark), Some(bookmark))],
            fuel,
        ),
{
    lemma_chain_is_walked_breadth_first(
        bindings,
        document,
        bindings.spec_first_child(document, bookmark),
        Some(bookmark),
        fuel,
        steps,
    );
}

} // verus!
