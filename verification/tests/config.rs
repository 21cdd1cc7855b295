use pdfium_render::config::{
    PdfiumLibraryConfig, FPDF_FONT_BACKEND_TYPE_FPDF_FONTBACKENDTYPE_FONTATIONS,
    FPDF_FONT_BACKEND_TYPE_FPDF_FONTBACKENDTYPE_FREETYPE, FPDF_RENDERER_TYPE_FPDF_RENDERERTYPE_AGG,
    FPDF_RENDERER_TYPE_FPDF_RENDERERTYPE_SKIA,
};
use pdfium_render::error::PdfiumError;

#[test]
fn user_font_paths_are_kept_alive_and_null_terminated() {
    let config = PdfiumLibraryConfig::new()
        .set_user_font_paths(&["/first/font/path", "/second/font/path"])
        .unwrap();

    assert_eq!(config.user_font_paths().len(), 2); // The number of paths submitted by the user
    assert_eq!(config.user_font_path_slots(), 3); // Always one extra for the trailing null entry
    assert_eq!(config.user_font_paths()[0], "/first/font/path");
    assert_eq!(config.user_font_paths()[1], "/second/font/path");
}

#[test]
fn empty_user_font_paths_use_a_null_pointer() {
    let config = PdfiumLibraryConfig::new();

    assert_eq!(config.user_font_path_slots(), 0);
    assert!(config.user_font_paths().is_empty());
}

#[test]
fn default_settings() {
    let config = PdfiumLibraryConfig::new();
    assert_eq!(config.renderer_type(), FPDF_RENDERER_TYPE_FPDF_RENDERERTYPE_SKIA);
    assert_eq!(config.font_library_type(), FPDF_FONT_BACKEND_TYPE_FPDF_FONTBACKENDTYPE_FREETYPE);
    assert_eq!(config.v8_embedder_slot(), 0);
}

#[test]
fn settings_are_independent() {
    let config = PdfiumLibraryConfig::new()
        .set_user_font_paths(&["/fonts"])
        .unwrap()
        .set_renderer_anti_grain_geometry()
        .set_font_backend_fontations()
        .set_v8_embedder_slot(3);
    assert_eq!(config.renderer_type(), FPDF_RENDERER_TYPE_FPDF_RENDERERTYPE_AGG);
    assert_eq!(config.font_library_type(), FPDF_FONT_BACKEND_TYPE_FPDF_FONTBACKENDTYPE_FONTATIONS);
    assert_eq!(config.v8_embedder_slot(), 3);
    assert_eq!(config.user_font_paths(), &vec!["/fonts".to_string()]);
    let config = config.set_renderer_skia().set_font_backend_freetype().clear_user_font_paths();
    assert_eq!(config.renderer_type(), FPDF_RENDERER_TYPE_FPDF_RENDERERTYPE_SKIA);
    assert_eq!(config.font_library_type(), FPDF_FONT_BACKEND_TYPE_FPDF_FONTBACKENDTYPE_FREETYPE);
    assert_eq!(config.v8_embedder_slot(), 3);
    assert_eq!(config.user_font_path_slots(), 0);
}

#[test]
fn font_paths_with_a_null_character_are_refused() {
    let result = PdfiumLibraryConfig::new().set_user_font_paths(&["/ok", "/bad\0path"]);
    match result {
        Err(PdfiumError::InvalidUserFontPath(position, bytes)) => {
            assert_eq!(position, 4);
            assert_eq!(bytes, b"/bad\0path".to_vec());
        }
        _ => panic!("expected an invalid user font path"),
    }
}

#[test]
fn the_first_path_with_a_nul_byte_is_reported() {
    // "é" takes two bytes, so the nul byte of the first bad path stands at byte 3.
    let result = PdfiumLibraryConfig::new().set_user_font_paths(&["/ok", "/é\0a", "\0"]);
    match result {
        Err(PdfiumError::InvalidUserFontPath(position, bytes)) => {
            assert_eq!(position, 3);
            assert_eq!(bytes, "/é\0a".as_bytes().to_vec());
        }
        _ => panic!("expected an invalid user font path"),
    }
}
