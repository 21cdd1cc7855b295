//! Safe, idiomatic access to the Pdfium PDF library: colors, bitmaps, bookmarks, documents,
//! fonts and form fields, built on a bindings trait that forwards to the Pdfium C API.

pub mod bindgen;
pub mod config;
pub mod color;
pub mod error;
pub mod color_space;
pub mod version;
pub mod bindings;
pub mod thread_safe;
pub mod bitmap;
pub mod bitmap_config;
pub mod text;
pub mod destination;
pub mod bookmark;
pub mod bookmarks;
pub mod document;
pub mod font;
pub mod fonts;
pub mod form_field_private;
pub mod form_field_checkbox;
pub mod form_field_combo;
pub mod form_field_list;
pub mod form_field_signature;
pub mod font_provider;
pub mod pixels;
