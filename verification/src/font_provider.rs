//! Memory-based font provider for Pdfium.
//!
//! The provider keeps a collection of pre-loaded fonts and answers Pdfium's font requests
//! from it, without requiring system font installation: it maps a requested font to an
//! available one, and hands out a font's data.
//!
//! Fonts are keyed by family name, weight, italic flag and character set. Family names are
//! matched case-insensitively: they are kept in lowercase, and requested names are lowercased
//! before lookup.

use crate::bindgen::c_ulong;
use std::sync::Arc;
use vstd::prelude::*;

verus! {

/// The lowercase form of a string, as std's `str::to_lowercase` computes it.
pub uninterp spec fn spec_to_lowercase(s: Seq<char>) -> Seq<char>;

/// Returns the lowercase form of the given string, with std's `str::to_lowercase`. The result
/// is named by [spec_to_lowercase]; nothing more is claimed of it.
#[verifier::external_body]
fn to_lowercase(s: &str) -> (r: String)
    ensures
        r@ == spec_to_lowercase(s@),
{
    s.to_lowercase()
}

/// A font descriptor containing pre-loaded font data.
///
/// Use `Arc<[u8]>` for zero-copy sharing when caching fonts in memory.
#[derive(Clone, Debug)]
pub struct FontDescriptor {
    /// Font family name (e.g., "Arial", "Roboto")
    pub family: String,
    /// Font weight (400 = normal, 700 = bold)
    pub weight: i32,
    /// Whether the font is italic
    pub is_italic: bool,
    /// Character set for the font. Common values: 0 = ANSI charset (Western),
    /// 128 = Shift-JIS charset (Japanese), 134 = GB2312 charset (Simplified Chinese),
    /// 136 = Hangeul charset (Korean).
    pub charset: i32,
    /// Raw font file bytes (TrueType or OpenType).
    pub data: Arc<[u8]>,
}

/// A font key as plain values: lowercase family name, weight, italic flag, character set.
pub type FontKeyView = (Seq<char>, i32, bool, i32);

impl FontDescriptor {
    /// The key under which this descriptor's font is kept.
    pub open spec fn spec_key(&self) -> FontKeyView {
        (spec_to_lowercase(self.family@), self.weight, self.is_italic, self.charset)
    }

    /// This descriptor's font data.
    pub open spec fn spec_data(&self) -> Seq<u8> {
        (*self.data)@
    }
}

/// The font data the last of the given descriptors with the given key holds, if any.
pub open spec fn spec_descriptor_lookup(ds: Seq<FontDescriptor>, k: FontKeyView) -> Option<
    Seq<u8>,
>
    decreases ds.len(),
{
    if ds.len() == 0 {
        None
    } else if ds.last().spec_key() == k {
        Some(ds.last().spec_data())
    } else {
        spec_descriptor_lookup(ds.drop_last(), k)
    }
}

/// Font key for lookups with case-insensitive family name matching.
#[derive(Hash, Eq, PartialEq, Clone, Debug)]
pub struct FontKey {
    /// Lowercase family name.
    pub family: String,
    pub weight: i32,
    pub is_italic: bool,
    pub charset: i32,
}

impl View for FontKey {
    type V = FontKeyView;

    open spec fn view(&self) -> FontKeyView {
        (self.family@, self.weight, self.is_italic, self.charset)
    }
}

impl FontKey {
    /// Returns a copy of this key.
    pub fn copy_key(&self) -> (r: FontKey)
        ensures
            r@ == self@,
    {
        FontKey {
            family: self.family.clone(),
            weight: self.weight,
            is_italic: self.is_italic,
            charset: self.charset,
        }
    }

    /// Returns `true` if the two keys are the same.
    pub fn same_key(&self, other: &FontKey) -> (r: bool)
        ensures
            r == (self@ == other@),
    {
        self.weight == other.weight && self.is_italic == other.is_italic && self.charset
            == other.charset && self.family == other.family
    }
}

/// The data of the last entry with the given key, if any.
pub open spec fn spec_entries_lookup(s: Seq<(FontKeyView, Seq<u8>)>, k: FontKeyView) -> Option<
    Seq<u8>,
>
    decreases s.len(),
{
    if s.len() == 0 {
        None
    } else if s.last().0 == k {
        Some(s.last().1)
    } else {
        spec_entries_lookup(s.drop_last(), k)
    }
}

/// No two entries share a key.
pub open spec fn spec_distinct_keys(s: Seq<(FontKeyView, Seq<u8>)>) -> bool {
    forall|i: int, j: int| 0 <= i < s.len() && 0 <= j < s.len() && i != j ==> s[i].0 != s[j].0
}

proof fn lemma_lookup_finds_entry(s: Seq<(FontKeyView, Seq<u8>)>, k: FontKeyView)
    requires
        spec_distinct_keys(s),
    ensures
        spec_entries_lookup(s, k) is Some <==> exists|i: int| 0 <= i < s.len() && s[i].0 == k,
        forall|i: int|
            0 <= i < s.len() && s[i].0 == k ==> spec_entries_lookup(s, k) == Some(s[i].1),
    decreases s.len(),
{
    if s.len() > 0 {
        let t = s.drop_last();
        assert(spec_distinct_keys(t));
        lemma_lookup_finds_entry(t, k);
        if s.last().0 != k {
            assert forall|i: int| 0 <= i < t.len() && t[i].0 == k implies s[i].0 == k by {}
            assert((exists|i: int| 0 <= i < s.len() && s[i].0 == k) ==> exists|i: int|
                0 <= i < t.len() && t[i].0 == k) by {
                if exists|i: int| 0 <= i < s.len() && s[i].0 == k {
                    let i = choose|i: int| 0 <= i < s.len() && s[i].0 == k;
                    assert(t[i].0 == k);
                }
            }
        } else {
            assert(s[s.len() - 1].0 == k);
        }
    }
}

proof fn lemma_lookup_after_update(
    s: Seq<(FontKeyView, Seq<u8>)>,
    j: int,
    v: Seq<u8>,
    k2: FontKeyView,
)
    requires
        spec_distinct_keys(s),
        0 <= j < s.len(),
    ensures
        spec_distinct_keys(s.update(j, (s[j].0, v))),
        spec_entries_lookup(s.update(j, (s[j].0, v)), k2) == if k2 == s[j].0 {
            Some(v)
        } else {
            spec_entries_lookup(s, k2)
        },
    decreases s.len(),
{
    let u = s.update(j, (s[j].0, v));
    assert(spec_distinct_keys(u)) by {
        assert forall|a: int, b: int| 0 <= a < u.len() && 0 <= b < u.len() && a != b implies u[a].0
            != u[b].0 by {
            assert(u[a].0 == s[a].0);
            assert(u[b].0 == s[b].0);
        }
    }
    if j == s.len() - 1 {
        assert(u.drop_last() =~= s.drop_last());
        if k2 != s[j].0 {
        }
    } else {
        let t = s.drop_last();
        assert(spec_distinct_keys(t));
        lemma_lookup_after_update(t, j, v, k2);
        assert(u.drop_last() =~= t.update(j, (t[j].0, v)));
        assert(u.last() == s.last());
        if s.last().0 == k2 {
            assert(k2 != s[j].0);
        }
    }
}

/// Memory-based font provider for Pdfium.
///
/// The provider holds a collection of pre-loaded fonts, at most one per key, and answers
/// Pdfium's font requests from it.
pub struct MemoryFontProvider {
    fonts: Vec<(FontKey, Arc<[u8]>)>,
}

impl MemoryFontProvider {
    /// The fonts held, as key and data.
    pub closed spec fn spec_entries(&self) -> Seq<(FontKeyView, Seq<u8>)> {
        self.fonts@.map_values(|e: (FontKey, Arc<[u8]>)| (e.0@, (*e.1)@))
    }

    proof fn lemma_entries_index(&self, j: int)
        requires
            0 <= j < self.fonts@.len(),
        ensures
            self.spec_entries().len() == self.fonts@.len(),
            self.spec_entries()[j] == (self.fonts@[j].0@, (*self.fonts@[j].1)@),
    {
    }

    /// The font data held under the given key, if any.
    pub open spec fn spec_lookup(&self, k: FontKeyView) -> Option<Seq<u8>> {
        spec_entries_lookup(self.spec_entries(), k)
    }

    /// The provider holds at most one font per key.
    pub open spec fn wf(&self) -> bool {
        spec_distinct_keys(self.spec_entries())
    }

    /// Some font is held for the given lowercase family name and italic flag.
    pub open spec fn spec_has_family(&self, family: Seq<char>, is_italic: bool) -> bool {
        exists|k: FontKeyView| #[trigger] self.spec_lookup(k) is Some && k.0 == family && k.2 == is_italic
    }

    /// Some font is held for the given lowercase family name.
    pub open spec fn spec_has_any_family(&self, family: Seq<char>) -> bool {
        exists|k: FontKeyView| #[trigger] self.spec_lookup(k) is Some && k.0 == family
    }

    /// The keys under which a font is held.
    pub open spec fn spec_keys(&self) -> Set<FontKeyView> {
        Set::new(|k: FontKeyView| self.spec_lookup(k) is Some)
    }

    /// The provider holds one entry per key, so its entries are as many as its keys.
    proof fn lemma_entries_count_keys(&self)
        requires
            self.wf(),
        ensures
            self.fonts@.len() == self.spec_keys().len(),
    {
        let entries = self.spec_entries();
        let keys = entries.map_values(|e: (FontKeyView, Seq<u8>)| e.0);
        assert(keys.no_duplicates()) by {
            assert forall|a: int, b: int|
                0 <= a < keys.len() && 0 <= b < keys.len() && a != b implies keys[a] != keys[b] by {
                assert(keys[a] == entries[a].0);
                assert(keys[b] == entries[b].0);
            }
        }
        keys.unique_seq_to_set();
        assert forall|k: FontKeyView| keys.to_set().contains(k) <==> self.spec_keys().contains(k) by {
            lemma_lookup_finds_entry(entries, k);
            if keys.contains(k) {
                let i = choose|i: int| 0 <= i < keys.len() && keys[i] == k;
                assert(entries[i].0 == k);
            }
            if self.spec_lookup(k) is Some {
                let i = choose|i: int| 0 <= i < entries.len() && entries[i].0 == k;
                assert(keys[i] == k);
            }
        }
        assert(keys.to_set() =~= self.spec_keys());
    }

    /// Creates a new memory font provider from a list of font descriptors.
    ///
    /// Each descriptor's font is kept under its lowercased family name, weight, italic flag
    /// and character set; a later descriptor with the same key replaces an earlier one.
    pub fn new(descriptors: Vec<FontDescriptor>) -> (r: Self)
        ensures
            r.wf(),
            forall|k: FontKeyView| #[trigger] r.spec_lookup(k) == spec_descriptor_lookup(descriptors@, k),
    {
        let mut provider = MemoryFontProvider { fonts: Vec::new() };
        let n = descriptors.len();
        let mut i: usize = 0;
        while i < n
            invariant
                n == descriptors@.len(),
                i <= n,
                provider.wf(),
                forall|k: FontKeyView|
                    #[trigger] provider.spec_lookup(k) == spec_descriptor_lookup(
                        descriptors@.subrange(0, i as int),
                        k,
                    ),
            decreases n - i,
        {
            let descriptor = &descriptors[i];
            let key = FontKey {
                family: to_lowercase(descriptor.family.as_str()),
                weight: descriptor.weight,
                is_italic: descriptor.is_italic,
                charset: descriptor.charset,
            };
            proof {
                assert(descriptors@.subrange(0, i + 1).drop_last() =~= descriptors@.subrange(
                    0,
                    i as int,
                ));
                assert(key@ == descriptor.spec_key());
            }
            provider.insert(key, descriptor.data.clone());
            i = i + 1;
        }
        assert(descriptors@.subrange(0, n as int) =~= descriptors@);
        provider
    }

    /// Keeps the given data under the given key, replacing any data already kept under it.
    fn insert(&mut self, key: FontKey, data: Arc<[u8]>)
        requires
            old(self).wf(),
        ensures
            final(self).wf(),
            forall|k: FontKeyView| #[trigger] final(self).spec_lookup(k) == if k == key@ {
                Some((*data)@)
            } else {
                old(self).spec_lookup(k)
            },
    {
        let ghost old_entries = self.spec_entries();
        let n = self.fonts.len();
        let mut j: usize = 0;
        while j < n
            invariant
                n == self.fonts@.len(),
                j <= n,
                self.spec_entries() == old_entries,
                old(self).spec_entries() == old_entries,
                spec_distinct_keys(old_entries),
                forall|m: int| 0 <= m < j ==> old_entries[m].0 != key@,
            decreases n - j,
        {
            proof {
                self.lemma_entries_index(j as int);
            }
            if self.fonts[j].0.same_key(&key) {
                self.fonts.set(j, (key, data));
                assert(self.spec_entries() =~= old_entries.update(
                    j as int,
                    (old_entries[j as int].0, (*data)@),
                ));
                proof {
                    lemma_lookup_after_update(old_entries, j as int, (*data)@, key@);
                    assert forall|k: FontKeyView| #[trigger] self.spec_lookup(k) == if k == key@ {
                        Some((*data)@)
                    } else {
                        spec_entries_lookup(old_entries, k)
                    } by {
                        lemma_lookup_after_update(old_entries, j as int, (*data)@, k);
                    }
                }
                return ;
            }
            j = j + 1;
        }
        self.fonts.push((key, data));
        assert(self.spec_entries().drop_last() =~= old_entries);
        assert(spec_distinct_keys(self.spec_entries())) by {
            let s = self.spec_entries();
            assert forall|a: int, b: int| 0 <= a < s.len() && 0 <= b < s.len() && a != b implies s[a].0
                != s[b].0 by {
                if a < n && b < n {
                    assert(s[a] == old_entries[a]);
                    assert(s[b] == old_entries[b]);
                } else if a < n {
                    assert(s[a] == old_entries[a]);
                } else {
                    assert(s[b] == old_entries[b]);
                }
            }
        }
    }

    /// Returns the number of fonts held, one per distinct key.
    pub fn len(&self) -> (r: usize)
        requires
            self.wf(),
        ensures
            r == self.spec_keys().len(),
    {
        proof {
            self.lemma_entries_count_keys();
        }
        self.fonts.len()
    }

    /// Returns `true` if the key is held.
    fn contains_key(&self, key: &FontKey) -> (r: bool)
        requires
            self.wf(),
        ensures
            r == self.spec_lookup(key@) is Some,
    {
        proof {
            lemma_lookup_finds_entry(self.spec_entries(), key@);
        }
        let n = self.fonts.len();
        let mut j: usize = 0;
        while j < n
            invariant
                n == self.fonts@.len(),
                j <= n,
                self.wf(),
                forall|m: int| 0 <= m < j ==> self.spec_entries()[m].0 != key@,
            decreases n - j,
        {
            proof {
                self.lemma_entries_index(j as int);
            }
            if self.fonts[j].0.same_key(key) {
                proof {
                    lemma_lookup_finds_entry(self.spec_entries(), key@);
                }
                assert(self.spec_entries()[j as int].0 == key@);
                return true;
            }
            j = j + 1;
        }
        false
    }

    /// Maps a font request to an available font, with a three-tier fallback:
    /// 1. the exact match (family, weight, italic, charset);
    /// 2. otherwise the same family, italic flag and charset with normal weight 400;
    /// 3. otherwise any font of the family with the same italic flag.
    ///
    /// Returns the key of the font found, and whether it is the exact match; `None` when
    /// no font of the family with the same italic flag is held.
    pub fn map_font(&self, weight: i32, is_italic: bool, charset: i32, face: &str) -> (r: Option<
        (FontKey, bool),
    >)
        requires
            self.wf(),
        ensures
            ({
                let lower = spec_to_lowercase(face@);
                let exact: FontKeyView = (lower, weight, is_italic, charset);
                let normal: FontKeyView = (lower, 400i32, is_italic, charset);
                &&& self.spec_lookup(exact) is Some ==> (r matches Some(found) && found.0@ == exact
                    && found.1)
                &&& (self.spec_lookup(exact) is None && self.spec_lookup(normal) is Some) ==> (
                r matches Some(found) && found.0@ == normal && !found.1)
                &&& r is None <==> !self.spec_has_family(lower, is_italic)
                &&& r matches Some(found) ==> (self.spec_lookup(found.0@) is Some && found.0@.0
                    == lower && found.0@.2 == is_italic && (found.1 ==> found.0@ == exact))
            }),
    {
        let face_lower = to_lowercase(face);
        let ghost lower = face_lower@;
        // Tier 1: the exact match.
        let exact_key = FontKey { family: face_lower.clone(), weight, is_italic, charset };
        if self.contains_key(&exact_key) {
            return Some((exact_key, true));
        }
        // Tier 2: normal weight.
        let normal_weight_key = FontKey { family: face_lower.clone(), weight: 400, is_italic, charset };
        if self.contains_key(&normal_weight_key) {
            return Some((normal_weight_key, false));
        }
        // Tier 3: any font in the family with the same italic flag.
        proof {
            assert forall|k: FontKeyView| #[trigger] self.spec_lookup(k) is Some implies exists|m: int|
                0 <= m < self.spec_entries().len() && self.spec_entries()[m].0 == k by {
                lemma_lookup_finds_entry(self.spec_entries(), k);
            }
        }
        let n = self.fonts.len();
        let mut j: usize = 0;
        while j < n
            invariant
                n == self.fonts@.len(),
                j <= n,
                self.wf(),
                lower == face_lower@,
                lower == spec_to_lowercase(face@),
                self.spec_lookup((lower, weight, is_italic, charset)) is None,
                self.spec_lookup((lower, 400i32, is_italic, charset)) is None,
                forall|m: int|
                    0 <= m < j ==> !(self.spec_entries()[m].0.0 == lower
                        && self.spec_entries()[m].0.2 == is_italic),
            decreases n - j,
        {
            proof {
                self.lemma_entries_index(j as int);
            }
            let key = &self.fonts[j].0;
            if key.family == face_lower && key.is_italic == is_italic {
                proof {
                    lemma_lookup_finds_entry(self.spec_entries(), key@);
                    assert(self.spec_entries()[j as int].0 == key@);
                    assert(self.spec_lookup(key@) is Some);
                }
                return Some((key.copy_key(), false));
            }
            j = j + 1;
        }
        proof {
            assert forall|k: FontKeyView|
                #[trigger] self.spec_lookup(k) is Some implies !(k.0 == lower && k.2 == is_italic) by {
                lemma_lookup_finds_entry(self.spec_entries(), k);
            }
        }
        None
    }

    /// Returns the key of a font of the requested family, if any is held.
    pub fn get_font(&self, face: &str) -> (r: Option<FontKey>)
        requires
            self.wf(),
        ensures
            r is None <==> !self.spec_has_any_family(spec_to_lowercase(face@)),
            r matches Some(k) ==> self.spec_lookup(k@) is Some && k@.0 == spec_to_lowercase(face@),
    {
        let face_lower = to_lowercase(face);
        let n = self.fonts.len();
        let mut j: usize = 0;
        while j < n
            invariant
                n == self.fonts@.len(),
                j <= n,
                self.wf(),
                face_lower@ == spec_to_lowercase(face@),
                forall|m: int| 0 <= m < j ==> self.spec_entries()[m].0.0 != face_lower@,
            decreases n - j,
        {
            proof {
                self.lemma_entries_index(j as int);
            }
            let key = &self.fonts[j].0;
            if key.family == face_lower {
                proof {
                    lemma_lookup_finds_entry(self.spec_entries(), key@);
                    assert(self.spec_entries()[j as int].0 == key@);
                    assert(self.spec_lookup(key@) is Some);
                }
                return Some(key.copy_key());
            }
            j = j + 1;
        }
        proof {
            assert forall|k: FontKeyView| #[trigger] self.spec_lookup(k) is Some implies k.0 != face_lower@ by {
                lemma_lookup_finds_entry(self.spec_entries(), k);
            }
        }
        None
    }

    /// Returns the index of the font kept under the given key, if any.
    fn find(&self, key: &FontKey) -> (r: Option<usize>)
        requires
            self.wf(),
        ensures
            r is None <==> self.spec_lookup(key@) is None,
            r matches Some(j) ==> j < self.spec_entries().len() && self.spec_lookup(key@) == Some(
                self.spec_entries()[j as int].1,
            ) && self.spec_entries()[j as int].1 == (*self.fonts@[j as int].1)@,
    {
        proof {
            lemma_lookup_finds_entry(self.spec_entries(), key@);
        }
        let n = self.fonts.len();
        let mut j: usize = 0;
        while j < n
            invariant
                n == self.fonts@.len(),
                j <= n,
                self.wf(),
                forall|m: int| 0 <= m < j ==> self.spec_entries()[m].0 != key@,
            decreases n - j,
        {
            proof {
                self.lemma_entries_index(j as int);
            }
            if self.fonts[j].0.same_key(key) {
                proof {
                    lemma_lookup_finds_entry(self.spec_entries(), key@);
                }
                assert(self.spec_entries()[j as int].0 == key@);
                return Some(j);
            }
            j = j + 1;
        }
        None
    }

    /// Returns the size in bytes of the font data kept under the given key, for a request of
    /// the whole font file (`table` 0); 0 for a request of a single table, or for an unknown key.
    pub fn get_font_data_size(&self, key: &FontKey, table: u32) -> (r: c_ulong)
        requires
            self.wf(),
        ensures
            r == if table != 0 {
                0
            } else {
                match self.spec_lookup(key@) {
                    Some(data) => data.len(),
                    None => 0,
                }
            },
    {
        // Only the full font file is supported.
        if table != 0 {
            return 0;
        }
        match self.find(key) {
            Some(j) => {
                let data: &[u8] = &self.fonts[j].1;
                data.len() as c_ulong
            },
            None => 0,
        }
    }

    /// Copies the font data kept under the given key into the buffer, up to the buffer's
    /// length, for a request of the whole font file (`table` 0). Returns the number of bytes
    /// copied; a request of a single table, or an unknown key, copies nothing.
    pub fn get_font_data(&self, key: &FontKey, table: u32, buffer: &mut [u8]) -> (r: c_ulong)
        requires
            self.wf(),
        ensures
            ({
                let copied: int = if table != 0 {
                    0
                } else {
                    match self.spec_lookup(key@) {
                        Some(data) => if data.len() < old(buffer)@.len() {
                            data.len() as int
                        } else {
                            old(buffer)@.len() as int
                        },
                        None => 0,
                    }
                };
                &&& r == copied
                &&& final(buffer)@.len() == old(buffer)@.len()
                &&& forall|i: int|
                    0 <= i < old(buffer)@.len() ==> #[trigger] final(buffer)@[i] == if i < copied {
                        self.spec_lookup(key@).unwrap()[i]
                    } else {
                        old(buffer)@[i]
                    }
            }),
    {
        // Only the full font file is supported.
        if table != 0 {
            return 0;
        }
        match self.find(key) {
            Some(j) => {
                let data: &[u8] = &self.fonts[j].1;
                let copy_size = if data.len() < buffer.len() {
                    data.len()
                } else {
                    buffer.len()
                };
                let ghost old_buffer = buffer@;
                let mut i: usize = 0;
                while i < copy_size
                    invariant
                        i <= copy_size,
                        copy_size <= data@.len(),
                        copy_size <= buffer@.len(),
                        buffer@.len() == old_buffer.len(),
                        forall|m: int|
                            0 <= m < old_buffer.len() ==> #[trigger] buffer@[m] == if m < i {
                                data@[m]
                            } else {
                                old_buffer[m]
                            },
                    decreases copy_size - i,
                {
                    buffer[i] = data[i];
                    i = i + 1;
                }
                copy_size as c_ulong
            },
            None => 0,
        }
    }
}

/// The case of a requested family name does not matter: two names with the same lowercase
/// form are mapped the same way, since every clause of [MemoryFontProvider::map_font]
/// depends on the name only through its lowercase form.
pub proof fn lemma_family_match_is_case_insensitive(
    provider: MemoryFontProvider,
    face1: Seq<char>,
    face2: Seq<char>,
    is_italic: bool,
)
    requires
        spec_to_lowercase(face1) == spec_to_lowercase(face2),
    ensures
        provider.spec_has_family(spec_to_lowercase(face1), is_italic) == provider.spec_has_family(
            spec_to_lowercase(face2),
            is_italic,
        ),
        provider.spec_has_any_family(spec_to_lowercase(face1)) == provider.spec_has_any_family(
            spec_to_lowercase(face2),
        ),
{
}

/// A provider built from descriptors holds, under each descriptor's key, the data of the last
/// descriptor with that key: a later descriptor replaces an earlier one.
pub proof fn lemma_later_descriptor_wins(ds: Seq<FontDescriptor>, d: FontDescriptor)
    ensures
        spec_descriptor_lookup(ds.push(d), d.spec_key()) == Some(d.spec_data()),
{
    assert(ds.push(d).last() == d);
}

/// Every font handed to the provider can be found again: the key of each descriptor holds
/// some font, whatever the case of its family name, and only keys of descriptors hold one.
pub proof fn lemma_registered_fonts_are_found(ds: Seq<FontDescriptor>, k: FontKeyView)
    ensures
        spec_descriptor_lookup(ds, k) is Some <==> exists|i: int|
            0 <= i < ds.len() && (#[trigger] ds[i]).spec_key() == k,
    decreases ds.len(),
{
    if ds.len() > 0 {
        let t = ds.drop_last();
        lemma_registered_fonts_are_found(t, k);
        if ds.last().spec_key() != k {
            if exists|i: int| 0 <= i < ds.len() && (#[trigger] ds[i]).spec_key() == k {
                let i = choose|i: int| 0 <= i < ds.len() && (#[trigger] ds[i]).spec_key() == k;
                assert(i < ds.len() - 1);
                assert(t[i] == ds[i]);
            }
            assert forall|i: int| 0 <= i < t.len() && (#[trigger] t[i]).spec_key() == k implies ds[i].spec_key() == k by {
                assert(t[i] == ds[i]);
            }
        } else {
            assert(ds[ds.len() - 1].spec_key() == k);
        }
    }
}

} // verus!
