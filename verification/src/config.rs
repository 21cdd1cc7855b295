//! Defines the [PdfiumLibraryConfig] struct, used to pass custom initialization configuration
//! to a new Pdfium library instance.
//!
//! The configuration is held as plain values. Turning it into Pdfium's `FPDF_LIBRARY_CONFIG`
//! (null-terminated C strings, the pointer array Pdfium reads, and the optional V8 pointers)
//! is done where the library is loaded.

use crate::bindgen::c_uint;
use crate::error::PdfiumError;
use vstd::prelude::*;
use vstd::string::StringSliceAdditionalSpecFns;

verus! {

/// Pdfium's `FPDF_RENDERERTYPE_AGG` renderer: the Anti-Grain Geometry library.
pub const FPDF_RENDERER_TYPE_FPDF_RENDERERTYPE_AGG: c_uint = 0;

/// Pdfium's `FPDF_RENDERERTYPE_SKIA` renderer: the Skia library.
pub const FPDF_RENDERER_TYPE_FPDF_RENDERERTYPE_SKIA: c_uint = 1;

/// Pdfium's `FPDF_FONTBACKENDTYPE_FREETYPE` font handler.
pub const FPDF_FONT_BACKEND_TYPE_FPDF_FONTBACKENDTYPE_FREETYPE: c_uint = 0;

/// Pdfium's `FPDF_FONTBACKENDTYPE_FONTATIONS` font handler.
pub const FPDF_FONT_BACKEND_TYPE_FPDF_FONTBACKENDTYPE_FONTATIONS: c_uint = 1;

/// A path can be handed to Pdfium as a C string exactly when its bytes hold no nul byte.
pub open spec fn spec_is_c_string(bytes: Seq<u8>) -> bool {
    !bytes.contains(0u8)
}

/// `position` is where the first nul byte of `bytes` stands.
pub open spec fn spec_first_nul(bytes: Seq<u8>, position: usize) -> bool {
    &&& position < bytes.len()
    &&& bytes[position as int] == 0
    &&& forall|k: int| 0 <= k < position ==> bytes[k] != 0
}

/// Initialization settings for a new Pdfium library instance.
#[derive(Clone)]
pub struct PdfiumLibraryConfig {
    user_font_paths: Vec<String>,
    v8_embedder_slot_idx: c_uint,
    renderer_type: c_uint,
    font_library_type: c_uint,
}

impl PdfiumLibraryConfig {
    /// The user font paths Pdfium will search.
    pub closed spec fn spec_user_font_paths(&self) -> Seq<Seq<char>> {
        self.user_font_paths@.map_values(|p: String| p@)
    }

    /// The V8 embedder data slot.
    pub closed spec fn spec_v8_embedder_slot(&self) -> c_uint {
        self.v8_embedder_slot_idx
    }

    /// The `FPDF_RENDERERTYPE_*` renderer Pdfium will use.
    pub closed spec fn spec_renderer_type(&self) -> c_uint {
        self.renderer_type
    }

    /// The `FPDF_FONTBACKENDTYPE_*` font handler Pdfium will use.
    pub closed spec fn spec_font_library_type(&self) -> c_uint {
        self.font_library_type
    }

    /// Creates a new [PdfiumLibraryConfig] object with all settings initialized to
    /// their default values: no user font paths, embedder slot 0, the Skia renderer and
    /// the FreeType font handler.
    pub fn new() -> (r: Self)
        ensures
            r.spec_user_font_paths().len() == 0,
            r.spec_v8_embedder_slot() == 0,
            r.spec_renderer_type() == FPDF_RENDERER_TYPE_FPDF_RENDERERTYPE_SKIA,
            r.spec_font_library_type() == FPDF_FONT_BACKEND_TYPE_FPDF_FONTBACKENDTYPE_FREETYPE,
    {
        PdfiumLibraryConfig {
            user_font_paths: Vec::new(),
            v8_embedder_slot_idx: 0,
            renderer_type: FPDF_RENDERER_TYPE_FPDF_RENDERERTYPE_SKIA,
            font_library_type: FPDF_FONT_BACKEND_TYPE_FPDF_FONTBACKENDTYPE_FREETYPE,
        }
    }

    /// Clears any user-specified paths that should be interrogated by Pdfium when
    /// attempting to load any custom fonts referenced in a PDF document.
    pub fn clear_user_font_paths(self) -> (r: Self)
        ensures
            r.spec_user_font_paths().len() == 0,
            r.spec_v8_embedder_slot() == self.spec_v8_embedder_slot(),
            r.spec_renderer_type() == self.spec_renderer_type(),
            r.spec_font_library_type() == self.spec_font_library_type(),
    {
        let mut config = self;
        config.user_font_paths = Vec::new();
        proof {
            assert(config.spec_user_font_paths() =~= Seq::<Seq<char>>::empty());
        }
        config
    }

    /// Sets the list of user-specified paths that should be interrogated by Pdfium when
    /// attempting to load any custom fonts referenced in a PDF document.
    ///
    /// Fails with [PdfiumError::InvalidUserFontPath], leaving nothing set, when a path holds
    /// a nul byte and so cannot be handed to Pdfium as a C string. The error names the first
    /// such path: the position of its first nul byte, and its bytes.
    pub fn set_user_font_paths(self, paths: &[&str]) -> (r: Result<Self, PdfiumError>)
        ensures
            (forall|i: int| 0 <= i < paths@.len() ==> spec_is_c_string(
                #[trigger] paths@[i].spec_bytes(),
            )) ==> (r matches Ok(c) && c.spec_user_font_paths() == paths@.map_values(
                |p: &str| p@,
            ) && c.spec_v8_embedder_slot() == self.spec_v8_embedder_slot()
                && c.spec_renderer_type() == self.spec_renderer_type()
                && c.spec_font_library_type() == self.spec_font_library_type()),
            !(forall|i: int| 0 <= i < paths@.len() ==> spec_is_c_string(
                #[trigger] paths@[i].spec_bytes(),
            )) ==> r matches Err(PdfiumError::InvalidUserFontPath(_, _)),
            r matches Err(PdfiumError::InvalidUserFontPath(position, bytes)) ==> exists|i: int|
                0 <= i < paths@.len() && (forall|j: int|
                    0 <= j < i ==> spec_is_c_string(#[trigger] paths@[j].spec_bytes()))
                    && bytes@ == #[trigger] paths@[i].spec_bytes() && spec_first_nul(
                    bytes@,
                    position,
                ),
    {
        let mut kept: Vec<String> = Vec::new();
        let n = paths.len();
        let mut i: usize = 0;
        while i < n
            invariant
                n == paths@.len(),
                i <= n,
                kept@.len() == i,
                forall|j: int| 0 <= j < i ==> spec_is_c_string(#[trigger] paths@[j].spec_bytes()),
                forall|j: int| 0 <= j < i ==> (#[trigger] kept@[j])@ == paths@[j]@,
            decreases n - i,
        {
            let path: &str = paths[i];
            match first_nul(path.as_bytes()) {
                Some(position) => {
                    return Err(PdfiumError::InvalidUserFontPath(position, path.as_bytes_vec()));
                },
                None => {},
            }
            kept.push(path.to_owned());
            i = i + 1;
        }
        let mut config = self;
        config.user_font_paths = kept;
        proof {
            assert(config.spec_user_font_paths() =~= paths@.map_values(|p: &str| p@));
        }
        Ok(config)
    }

    /// Sets the embedder data slot to use in the `v8::Isolate` to store Pdfium's per-isolate
    /// data. The value needs to be in the range `[0, v8::Internals::kNumIsolateDataLots)`.
    /// Note that `0` is fine for most embedders.
    pub fn set_v8_embedder_slot(self, idx: c_uint) -> (r: Self)
        ensures
            r.spec_v8_embedder_slot() == idx,
            r.spec_user_font_paths() == self.spec_user_font_paths(),
            r.spec_renderer_type() == self.spec_renderer_type(),
            r.spec_font_library_type() == self.spec_font_library_type(),
    {
        let mut config = self;
        config.v8_embedder_slot_idx = idx;
        config
    }

    /// Sets Pdfium's graphics renderer to the Anti-Grain Geometry library, <https://sourceforge.net/projects/agg/>.
    pub fn set_renderer_anti_grain_geometry(self) -> (r: Self)
        ensures
            r.spec_renderer_type() == FPDF_RENDERER_TYPE_FPDF_RENDERERTYPE_AGG,
            r.spec_user_font_paths() == self.spec_user_font_paths(),
            r.spec_v8_embedder_slot() == self.spec_v8_embedder_slot(),
            r.spec_font_library_type() == self.spec_font_library_type(),
    {
        let mut config = self;
        config.renderer_type = FPDF_RENDERER_TYPE_FPDF_RENDERERTYPE_AGG;
        config
    }

    /// Sets Pdfium's graphics renderer to Skia, <https://skia.org/>.
    pub fn set_renderer_skia(self) -> (r: Self)
        ensures
            r.spec_renderer_type() == FPDF_RENDERER_TYPE_FPDF_RENDERERTYPE_SKIA,
            r.spec_user_font_paths() == self.spec_user_font_paths(),
            r.spec_v8_embedder_slot() == self.spec_v8_embedder_slot(),
            r.spec_font_library_type() == self.spec_font_library_type(),
    {
        let mut config = self;
        config.renderer_type = FPDF_RENDERER_TYPE_FPDF_RENDERERTYPE_SKIA;
        config
    }

    /// Sets Pdfium's font handler to FreeType, <https://freetype.org/>.
    pub fn set_font_backend_freetype(self) -> (r: Self)
        ensures
            r.spec_font_library_type() == FPDF_FONT_BACKEND_TYPE_FPDF_FONTBACKENDTYPE_FREETYPE,
            r.spec_user_font_paths() == self.spec_user_font_paths(),
            r.spec_v8_embedder_slot() == self.spec_v8_embedder_slot(),
            r.spec_renderer_type() == self.spec_renderer_type(),
    {
        let mut config = self;
        config.font_library_type = FPDF_FONT_BACKEND_TYPE_FPDF_FONTBACKENDTYPE_FREETYPE;
        config
    }

    /// Sets Pdfium's font handler to Fontations, <https://github.com/googlefonts/fontations/>.
    pub fn set_font_backend_fontations(self) -> (r: Self)
        ensures
            r.spec_font_library_type() == FPDF_FONT_BACKEND_TYPE_FPDF_FONTBACKENDTYPE_FONTATIONS,
            r.spec_user_font_paths() == self.spec_user_font_paths(),
            r.spec_v8_embedder_slot() == self.spec_v8_embedder_slot(),
            r.spec_renderer_type() == self.spec_renderer_type(),
    {
        let mut config = self;
        config.font_library_type = FPDF_FONT_BACKEND_TYPE_FPDF_FONTBACKENDTYPE_FONTATIONS;
        config
    }

    /// Returns the user font paths Pdfium will search.
    pub fn user_font_paths(&self) -> (r: &Vec<String>)
        ensures
            r@.map_values(|p: String| p@) == self.spec_user_font_paths(),
    {
        &self.user_font_paths
    }

    /// Returns the V8 embedder data slot.
    pub fn v8_embedder_slot(&self) -> (r: c_uint)
        ensures
            r == self.spec_v8_embedder_slot(),
    {
        self.v8_embedder_slot_idx
    }

    /// Returns the `FPDF_RENDERERTYPE_*` renderer Pdfium will use.
    pub fn renderer_type(&self) -> (r: c_uint)
        ensures
            r == self.spec_renderer_type(),
    {
        self.renderer_type
    }

    /// Returns the `FPDF_FONTBACKENDTYPE_*` font handler Pdfium will use.
    pub fn font_library_type(&self) -> (r: c_uint)
        ensures
            r == self.spec_font_library_type(),
    {
        self.font_library_type
    }

    /// The number of entries in the array of font path pointers handed to Pdfium: none when
    /// no path is set (Pdfium is then given a null pointer), otherwise one per path followed
    /// by a terminating null entry.
    pub fn user_font_path_slots(&self) -> (r: usize)
        requires
            self.spec_user_font_paths().len() < usize::MAX,
        ensures
            r == (if self.spec_user_font_paths().len() == 0 {
                0
            } else {
                self.spec_user_font_paths().len() + 1
            }),
    {
        let n = self.user_font_paths.len();
        if n == 0 {
            0
        } else {
            n + 1
        }
    }
}

/// The position of the first nul byte of `bytes`, or none if there is none.
fn first_nul(bytes: &[u8]) -> (r: Option<usize>)
    ensures
        r is None <==> spec_is_c_string(bytes@),
        r matches Some(position) ==> spec_first_nul(bytes@, position),
{
    let n = bytes.len();
    let mut i: usize = 0;
    while i < n
        invariant
            n == bytes@.len(),
            i <= n,
            forall|k: int| 0 <= k < i ==> bytes@[k] != 0,
        decreases n - i,
    {
        if bytes[i] == 0 {
            assert(bytes@.contains(0u8)) by {
                assert(bytes@[i as int] == 0);
            }
            return Some(i);
        }
        i = i + 1;
    }
    None
}

} // verus!
