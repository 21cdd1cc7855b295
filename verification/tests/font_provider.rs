use std::sync::Arc;

use pdfium_render::font_provider::{FontDescriptor, FontKey, MemoryFontProvider};

fn descriptor(family: &str, weight: i32, is_italic: bool, data: &[u8]) -> FontDescriptor {
    FontDescriptor {
        family: family.to_string(),
        weight,
        is_italic,
        charset: 0,
        data: Arc::from(data.to_vec().into_boxed_slice()),
    }
}

#[test]
fn test_font_key_case_insensitive() {
    let key1 = FontKey {
        family: "Arial".to_lowercase(),
        weight: 400,
        is_italic: false,
        charset: 0,
    };

    let key2 = FontKey {
        family: "arial".to_lowercase(),
        weight: 400,
        is_italic: false,
        charset: 0,
    };

    assert_eq!(key1, key2);
}

#[test]
fn test_font_descriptor_creation() {
    let data: Arc<[u8]> = Arc::from(vec![0u8, 1u8, 2u8].into_boxed_slice());
    let descriptor = FontDescriptor {
        family: "TestFont".to_string(),
        weight: 400,
        is_italic: false,
        charset: 0,
        data,
    };

    assert_eq!(descriptor.family, "TestFont");
    assert_eq!(descriptor.weight, 400);
    assert!(!descriptor.is_italic);
    assert_eq!(descriptor.charset, 0);
}

#[test]
fn test_memory_font_provider_empty() {
    let provider = MemoryFontProvider::new(vec![]);
    assert_eq!(provider.len(), 0);
}

#[test]
fn test_memory_font_provider_with_fonts() {
    let data: Arc<[u8]> = Arc::from(vec![0u8; 100].into_boxed_slice());
    let descriptors = vec![
        FontDescriptor {
            family: "Arial".to_string(),
            weight: 400,
            is_italic: false,
            charset: 0,
            data: data.clone(),
        },
        FontDescriptor {
            family: "Arial".to_string(),
            weight: 700,
            is_italic: false,
            charset: 0,
            data: data.clone(),
        },
    ];

    let provider = MemoryFontProvider::new(descriptors);
    assert_eq!(provider.len(), 2);
}

#[test]
fn later_descriptor_replaces_earlier_one() {
    let provider = MemoryFontProvider::new(vec![
        descriptor("Roboto", 400, false, &[1, 2, 3]),
        descriptor("ROBOTO", 400, false, &[9, 9]),
    ]);
    assert_eq!(provider.len(), 1);
    let key = provider.get_font("roboto").unwrap();
    assert_eq!(provider.get_font_data_size(&key, 0), 2);
}

#[test]
fn map_font_prefers_exact_then_normal_weight_then_any_weight() {
    let provider = MemoryFontProvider::new(vec![
        descriptor("Arial", 400, false, &[1]),
        descriptor("Arial", 700, false, &[2, 2]),
        descriptor("Arial", 300, true, &[3, 3, 3]),
    ]);

    let (key, exact) = provider.map_font(700, false, 0, "ARIAL").unwrap();
    assert!(exact);
    assert_eq!(key.weight, 700);
    assert_eq!(key.family, "arial");

    let (key, exact) = provider.map_font(900, false, 0, "Arial").unwrap();
    assert!(!exact);
    assert_eq!(key.weight, 400);

    let (key, exact) = provider.map_font(700, true, 0, "arial").unwrap();
    assert!(!exact);
    assert_eq!(key.weight, 300);
    assert!(key.is_italic);

    assert!(provider.map_font(400, false, 0, "Courier").is_none());
    assert!(provider.map_font(400, false, 128, "Arial").is_some());
}

#[test]
fn get_font_finds_any_font_of_the_family() {
    let provider = MemoryFontProvider::new(vec![descriptor("Noto Sans", 700, true, &[5])]);
    let key = provider.get_font("noto sans").unwrap();
    assert_eq!(key.family, "noto sans");
    assert_eq!(key.weight, 700);
    assert!(provider.get_font("Noto Serif").is_none());
}

#[test]
fn font_data_is_copied_up_to_the_buffer_length() {
    let provider = MemoryFontProvider::new(vec![descriptor("Mono", 400, false, &[10, 20, 30, 40])]);
    let key = provider.get_font("mono").unwrap();
    assert_eq!(provider.get_font_data_size(&key, 0), 4);
    assert_eq!(provider.get_font_data_size(&key, 0x676c7966), 0);

    let mut small = [0u8; 3];
    assert_eq!(provider.get_font_data(&key, 0, &mut small), 3);
    assert_eq!(small, [10, 20, 30]);

    let mut large = [7u8; 6];
    assert_eq!(provider.get_font_data(&key, 0, &mut large), 4);
    assert_eq!(large, [10, 20, 30, 40, 7, 7]);

    let mut untouched = [1u8; 2];
    assert_eq!(provider.get_font_data(&key, 5, &mut untouched), 0);
    assert_eq!(untouched, [1, 1]);

    let unknown = FontKey { family: "none".to_string(), weight: 400, is_italic: false, charset: 0 };
    assert_eq!(provider.get_font_data_size(&unknown, 0), 0);
    assert_eq!(provider.get_font_data(&unknown, 0, &mut untouched), 0);
}

#[test]
fn font_keys_compare_by_all_fields() {
    let a = FontKey { family: "arial".to_string(), weight: 400, is_italic: false, charset: 0 };
    let b = a.copy_key();
    assert!(a.same_key(&b));
    let c = FontKey { family: "arial".to_string(), weight: 400, is_italic: true, charset: 0 };
    assert!(!a.same_key(&c));
}
