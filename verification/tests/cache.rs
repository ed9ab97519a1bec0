use mime_icons::custom_icons::CustomIcons;
use mime_icons::handle::IconHandle;
use mime_icons::mime_icon::{self, MimeIconCache, MimeIconKey};

fn png_bytes(w: u32, h: u32) -> Vec<u8> {
    let img = image::RgbaImage::from_pixel(w, h, image::Rgba([10, 20, 30, 255]));
    let mut buf = std::io::Cursor::new(Vec::new());
    image::DynamicImage::ImageRgba8(img)
        .write_to(&mut buf, image::ImageFormat::Png)
        .unwrap();
    buf.into_inner()
}

fn handles_equal(a: &IconHandle, b: &IconHandle) -> bool {
    match (a, b) {
        (
            IconHandle::Named { name: na, size: sa, fallbacks: fa },
            IconHandle::Named { name: nb, size: sb, fallbacks: fb },
        ) => na == nb && sa == sb && fa == fb,
        (
            IconHandle::Pixels { width: wa, height: ha, rgba: ra },
            IconHandle::Pixels { width: wb, height: hb, rgba: rb },
        ) => wa == wb && ha == hb && ra == rb,
        (IconHandle::Raw { data: da }, IconHandle::Raw { data: db }) => da == db,
        _ => false,
    }
}

#[test]
fn markdown_scenario_resolves_and_memoizes() {
    let guessed = mime_icon::resolve_guess(
        "text/markdown".to_string(),
        false,
        "application/octet-stream".to_string(),
        false,
    );
    assert_eq!(guessed, "text/markdown");

    let mut store = CustomIcons::new();
    store.insert("mimetypes/text-markdown.png".to_string(), png_bytes(48, 48));
    let mut cache = MimeIconCache::new(store, xdg_mime::SharedMimeInfo::new());

    let first = cache
        .get(MimeIconKey { mime: guessed.clone(), size: 32 })
        .unwrap();
    match &first {
        IconHandle::Pixels { width, height, rgba } => {
            assert_eq!(*width, 32);
            assert_eq!(*height, 32);
            assert_eq!(rgba.len(), 4 * 32 * 32);
        }
        _ => panic!("bundled markdown asset must be resized to 32x32"),
    }

    let second = cache
        .get(MimeIconKey { mime: guessed, size: 32 })
        .unwrap();
    assert!(handles_equal(&first, &second));
}

#[test]
fn distinct_sizes_are_distinct_keys() {
    let mut store = CustomIcons::new();
    store.insert("mimetypes/text-markdown.png".to_string(), png_bytes(48, 48));
    let mut cache = MimeIconCache::new(store, xdg_mime::SharedMimeInfo::new());
    let at_48 = cache
        .get(MimeIconKey { mime: "text/markdown".to_string(), size: 48 })
        .unwrap();
    let at_24 = cache
        .get(MimeIconKey { mime: "text/markdown".to_string(), size: 24 })
        .unwrap();
    assert!(matches!(at_48, IconHandle::Raw { .. }));
    assert!(matches!(at_24, IconHandle::Pixels { width: 24, .. }));
}

#[test]
fn unregistered_mime_still_yields_a_handle() {
    let mut cache = MimeIconCache::new(CustomIcons::new(), xdg_mime::SharedMimeInfo::new());
    let h1 = mime_icon::mime_icon(&mut cache, "application/x-made-up".to_string(), 48);
    let h2 = mime_icon::mime_icon(&mut cache, "application/x-made-up".to_string(), 48);
    assert!(handles_equal(&h1, &h2));
    if let IconHandle::Named { name, size, .. } = &h1 {
        assert!(!name.is_empty());
        assert_eq!(*size, 48);
    }
}

#[test]
fn empty_candidate_list_falls_to_category_icon() {
    let store = CustomIcons::new();
    let r = mime_icon::fresh_icon(&store, "application/x-made-up", 48, Vec::new()).unwrap();
    match r {
        IconHandle::Named { name, size, fallbacks } => {
            assert_eq!(name, "application-x-executable");
            assert_eq!(size, 48);
            assert_eq!(
                fallbacks,
                vec![
                    "text-x-generic".to_string(),
                    "application-octet-stream".to_string(),
                    "unknown".to_string(),
                ]
            );
        }
        _ => panic!("empty candidate list must use the category's generic icon name"),
    }
}

#[test]
fn empty_candidate_list_prefers_bundled_generic_icon() {
    let mut store = CustomIcons::new();
    store.insert("ui/folder-48x48.png".to_string(), png_bytes(48, 48));
    let r = mime_icon::fresh_icon(&store, "inode/x-whatever", 48, Vec::new()).unwrap();
    match r {
        IconHandle::Raw { data } => assert_eq!(data, png_bytes(48, 48)),
        _ => panic!("the bundled generic asset must win over the theme"),
    }
}

#[test]
fn candidate_list_builds_fallback_chain() {
    let store = CustomIcons::new();
    let names = vec!["text-x-rust".to_string(), "text-x-generic-template".to_string()];
    let r = mime_icon::fresh_icon(&store, "text/rust", 32, names).unwrap();
    match r {
        IconHandle::Named { name, size, fallbacks } => {
            assert_eq!(name, "text-x-rust");
            assert_eq!(size, 32);
            assert_eq!(
                fallbacks,
                vec![
                    "text-x-generic-template".to_string(),
                    "text-x-generic".to_string(),
                    "application-octet-stream".to_string(),
                ]
            );
        }
        _ => panic!("candidates must become primary plus fallback chain"),
    }
}

#[test]
fn custom_icon_wins_over_candidates() {
    let mut store = CustomIcons::new();
    store.insert("mimetypes/text-markdown.png".to_string(), png_bytes(16, 16));
    let names = vec!["text-markdown".to_string()];
    let r = mime_icon::fresh_icon(&store, "text/markdown", 16, names).unwrap();
    match r {
        IconHandle::Raw { data } => assert_eq!(data, png_bytes(16, 16)),
        _ => panic!("the bundled asset must take precedence over the theme chain"),
    }
}

#[test]
fn generic_icon_name_per_category() {
    let store = CustomIcons::new();
    let cases = [
        ("text/x-odd", "text-x-generic"),
        ("image/x-odd", "image-x-generic"),
        ("audio/x-odd", "audio-x-generic"),
        ("video/x-odd", "video-x-generic"),
        ("application/x-odd", "application-x-executable"),
        ("inode/x-odd", "folder"),
        ("chemical/x-odd", "text-x-generic"),
    ];
    for (mime, expected) in cases {
        match mime_icon::fresh_icon(&store, mime, 20, Vec::new()).unwrap() {
            IconHandle::Named { name, .. } => assert_eq!(name, expected),
            _ => panic!("category fallback must be a themed name"),
        }
    }
}

#[test]
fn degenerate_mime_strings_still_yield_handles() {
    let mut cache = MimeIconCache::new(CustomIcons::new(), xdg_mime::SharedMimeInfo::new());
    for mime in ["", "no-slash", "inode/x-odd", "x/y/z"] {
        let h = mime_icon::mime_icon(&mut cache, mime.to_string(), 16);
        assert!(matches!(
            h,
            IconHandle::Named { .. } | IconHandle::Pixels { .. } | IconHandle::Raw { .. }
        ));
    }
}
