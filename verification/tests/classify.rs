use mime_icons::custom_icons::CustomIcons;
use mime_icons::mime_icon::{self, MimeIconCache};

#[test]
fn empty_file_sentinels_force_extension_guess() {
    for sentinel in ["application/x-zerosize", "inode/x-empty"] {
        let r = mime_icon::resolve_guess(
            sentinel.to_string(),
            false,
            "text/markdown".to_string(),
            false,
        );
        assert_eq!(r, "text/markdown");
        let r = mime_icon::resolve_guess(
            sentinel.to_string(),
            true,
            "text/markdown".to_string(),
            true,
        );
        assert_eq!(r, "text/markdown");
    }
}

#[test]
fn uncertain_regular_guess_falls_back_remote_and_local() {
    for remote in [true, false] {
        let r = mime_icon::resolve_guess(
            "text/plain".to_string(),
            true,
            "application/x-tar".to_string(),
            remote,
        );
        assert_eq!(r, "application/x-tar");
    }
}

#[test]
fn uncertain_local_directory_guess_is_kept() {
    let r = mime_icon::resolve_guess(
        "inode/directory".to_string(),
        true,
        "application/octet-stream".to_string(),
        false,
    );
    assert_eq!(r, "inode/directory");
}

#[test]
fn uncertain_remote_directory_guess_is_discarded() {
    let r = mime_icon::resolve_guess(
        "inode/directory".to_string(),
        true,
        "application/octet-stream".to_string(),
        true,
    );
    assert_eq!(r, "application/octet-stream");
}

#[test]
fn certain_guess_is_kept_as_is() {
    let r = mime_icon::resolve_guess(
        "text/markdown".to_string(),
        false,
        "application/octet-stream".to_string(),
        false,
    );
    assert_eq!(r, "text/markdown");
}

#[test]
fn base_name_takes_text_after_last_slash() {
    assert_eq!(mime_icon::base_name("a/b/c.txt"), "c.txt");
    assert_eq!(mime_icon::base_name("notes.md"), "notes.md");
    assert_eq!(mime_icon::base_name("dir/"), "");
    assert_eq!(mime_icon::base_name(""), "");
}

#[test]
fn classify_missing_local_path_uses_extension() {
    let cache = MimeIconCache::new(CustomIcons::new(), xdg_mime::SharedMimeInfo::new());
    let r = mime_icon::mime_for_path(&cache, "/no-such-dir-for-tests/notes.md", false);
    assert_eq!(r, "text/markdown");
    let r = mime_icon::mime_for_path(&cache, "/no-such-dir-for-tests/bundle.tar", false);
    assert_eq!(r, "application/x-tar");
}

#[test]
fn classify_remote_path_uses_base_name_only() {
    let cache = MimeIconCache::new(CustomIcons::new(), xdg_mime::SharedMimeInfo::new());
    let r = mime_icon::mime_for_path(&cache, "share/folder/notes.md", true);
    assert_eq!(r, "text/markdown");
}

#[test]
fn parents_absent_when_database_records_no_chain() {
    let cache = MimeIconCache::new(CustomIcons::new(), xdg_mime::SharedMimeInfo::new());
    // No database lists a made-up type, or a malformed one, as an alias.
    assert!(mime_icon::parent_mime_types(&cache, "application/x-unknown-custom").is_none());
    assert!(mime_icon::parent_mime_types(&cache, "not a mime type").is_none());
}

#[test]
fn parents_chain_when_present_is_never_empty() {
    let cache = MimeIconCache::new(CustomIcons::new(), xdg_mime::SharedMimeInfo::new());
    // Whether a chain exists depends on the machine's database; when one
    // comes back it starts with the unaliased type.
    for mime in ["application/x-gzip", "text/x-markdown", "text/markdown"] {
        if let Some(v) = mime_icon::parent_mime_types(&cache, mime) {
            assert!(!v.is_empty());
        }
    }
}

#[test]
fn remote_path_without_base_name_degrades_to_octet_stream() {
    let cache = MimeIconCache::new(CustomIcons::new(), xdg_mime::SharedMimeInfo::new());
    let r = mime_icon::mime_for_path(&cache, "share/folder/", true);
    assert_eq!(r, "application/octet-stream");
}
