use mime_icons::custom_icons::{self, ui, CustomIcons};
use mime_icons::handle::IconHandle;

fn png_bytes(w: u32, h: u32) -> Vec<u8> {
    let img = image::RgbaImage::from_pixel(w, h, image::Rgba([10, 20, 30, 255]));
    let mut buf = std::io::Cursor::new(Vec::new());
    image::DynamicImage::ImageRgba8(img)
        .write_to(&mut buf, image::ImageFormat::Png)
        .unwrap();
    buf.into_inner()
}

fn store_with(path: &str, data: Vec<u8>) -> CustomIcons {
    let mut s = CustomIcons::new();
    s.insert(path.to_string(), data);
    s
}

#[test]
fn store_get_and_contains() {
    let mut s = CustomIcons::new();
    assert!(!s.contains("ui/x.png"));
    assert!(s.get("ui/x.png").is_none());
    s.insert("ui/x.png".to_string(), vec![1, 2, 3]);
    s.insert("ui/y.png".to_string(), vec![4]);
    assert!(s.contains("ui/x.png"));
    assert_eq!(s.get("ui/x.png").unwrap(), &vec![1, 2, 3]);
    assert_eq!(s.get("ui/y.png").unwrap(), &vec![4]);
    assert!(s.get("ui/z.png").is_none());
}

#[test]
fn native_size_skips_resize() {
    let store = store_with("mimetypes/text-markdown.png", png_bytes(48, 48));
    let h = custom_icons::get_custom_icon(&store, "text/markdown", 48).unwrap();
    match h {
        IconHandle::Raw { data } => assert_eq!(data, png_bytes(48, 48)),
        _ => panic!("native-size asset must stay raw encoded bytes"),
    }
}

#[test]
fn differing_size_resizes_to_rgba() {
    let store = store_with("mimetypes/text-markdown.png", png_bytes(48, 48));
    let h = custom_icons::get_custom_icon(&store, "text/markdown", 24).unwrap();
    match h {
        IconHandle::Pixels { width, height, rgba } => {
            assert_eq!(width, 24);
            assert_eq!(height, 24);
            assert_eq!(rgba.len(), 4 * 24 * 24);
        }
        _ => panic!("differing size must decode and resample"),
    }
}

#[test]
fn unknown_mime_has_no_custom_icon() {
    let store = store_with("mimetypes/text-markdown.png", png_bytes(48, 48));
    assert!(custom_icons::get_custom_icon(&store, "application/x-no-such-type", 32).is_none());
}

#[test]
fn missing_asset_yields_none() {
    let store = CustomIcons::new();
    assert!(custom_icons::get_custom_icon(&store, "text/markdown", 32).is_none());
}

#[test]
fn symbolic_aliases_share_one_asset() {
    let store = store_with("ui/arrow-up-48x48.png", png_bytes(48, 48));
    for name in ["go-up-symbolic", "go-up", "up"] {
        match ui::get_icon(&store, name, 48).unwrap() {
            IconHandle::Raw { data } => assert_eq!(data, png_bytes(48, 48)),
            _ => panic!("all up-arrow aliases must resolve to the same asset"),
        }
    }
}

#[test]
fn unknown_ui_name_yields_none() {
    let store = store_with("ui/arrow-up-48x48.png", png_bytes(48, 48));
    assert!(ui::get_icon(&store, "no-such-ui-name", 48).is_none());
}

#[test]
fn decode_failure_falls_back_to_raw_bytes() {
    let store = store_with("ui/settings.png", vec![9, 9, 9]);
    match ui::get_icon(&store, "settings", 64).unwrap() {
        IconHandle::Raw { data } => assert_eq!(data, vec![9, 9, 9]),
        _ => panic!("undecodable bytes must be handed to the renderer raw"),
    }
}

#[test]
fn handle_or_default_falls_back_to_theme_name() {
    let store = CustomIcons::new();
    match custom_icons::handle_or_default(&store, "go-up-symbolic", 24) {
        IconHandle::Named { name, size, fallbacks } => {
            assert_eq!(name, "go-up-symbolic");
            assert_eq!(size, 24);
            assert!(fallbacks.is_empty());
        }
        _ => panic!("missing asset must fall back to the theme name"),
    }
}

#[test]
fn icon_or_default_matches_handle_or_default() {
    let store = store_with("ui/arrow-up-48x48.png", png_bytes(48, 48));
    let a = custom_icons::handle_or_default(&store, "up", 48);
    let b = custom_icons::icon_or_default(&store, "up", 48);
    match (a, b) {
        (IconHandle::Raw { data: da }, IconHandle::Raw { data: db }) => assert_eq!(da, db),
        _ => panic!("both entry points must resolve the same asset"),
    }
}
