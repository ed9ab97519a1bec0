use vstd::prelude::*;
use vstd::string::StringExecFns;

use crate::codec::{scaled_handle, scaled_handle_spec};
use crate::custom_icons::CustomIcons;
use crate::handle::{opt_handle_view, HandleView, IconHandle};

verus! {

/// A symbolic theme name normalized to its base name: one trailing
/// `-symbolic` suffix stripped, case-sensitively; any other name unchanged.
pub open spec fn normalize_name_spec(n: Seq<char>) -> Seq<char> {
    if n.len() >= 9 && n.subrange(n.len() as int - 9, n.len() as int) == "-symbolic"@ {
        n.subrange(0, n.len() as int - 9)
    } else {
        n
    }
}

/// Strip one trailing `-symbolic` from a theme icon name.
pub fn normalize_name<'a>(name: &'a str) -> (r: &'a str)
    ensures
        r@ == normalize_name_spec(name@),
{
    let n = name.unicode_len();
    if n >= 9 {
        let tail = name.substring_char(n - 9, n);
        if crate::strutil::str_eq(tail, "-symbolic") {
            return name.substring_char(0, n - 9);
        }
    }
    name
}

/// The static table from a normalized UI icon name to the bundled asset's
/// file name; many aliases share one asset.
pub open spec fn ui_icon_filename_spec(b: Seq<char>) -> Option<Seq<char>> {
    if b == "go-up"@ || b == "up"@ {
        Some("arrow-up-48x48.png"@)
    } else if b == "go-down"@ || b == "down"@ {
        Some("arrow-down-48x48.png"@)
    } else if b == "go-previous"@ || b == "back"@ {
        Some("back-32x32.png"@)
    } else if b == "go-next"@ || b == "forward"@ {
        Some("forward-32x32.png"@)
    } else if b == "edit-copy"@ || b == "copy"@ {
        Some("copy-64x64.png"@)
    } else if b == "edit-cut"@ || b == "cut"@ {
        Some("cut-64x64.png"@)
    } else if b == "edit-paste"@ || b == "paste"@ {
        Some("paste-32x32-64x64.png"@)
    } else if b == "edit-delete"@ || b == "delete"@ {
        Some("dark-edit-delete-32x32.png"@)
    } else if b == "user-trash"@ {
        Some("dark-edit-delete-32x32.png"@)
    } else if b == "user-trash-full"@ {
        Some("dark-edit-delete-32x32.png"@)
    } else if b == "document-open"@ || b == "open"@ {
        Some("open-file-48x48-64x64.png"@)
    } else if b == "edit"@ || b == "document-edit"@ {
        Some("edit-24x24.png"@)
    } else if b == "edit-clear"@ {
        Some("close-24x24.png"@)
    } else if b == "view-grid"@ || b == "grid"@ {
        Some("table-64x64.png"@)
    } else if b == "view-list"@ || b == "list"@ {
        Some("list-24x24.png"@)
    } else if b == "search"@ || b == "edit-find"@ || b == "system-search"@ {
        Some("search-24x24.png"@)
    } else if b == "view-refresh"@ || b == "refresh"@ {
        Some("update-30-30x30.png"@)
    } else if b == "sidebar-show"@ || b == "sidebar-hide"@ || b == "view-sidebar"@ || b == "pane-show"@ || b == "pane-hide"@ || b == "panel-show"@ || b == "panel-hide"@ {
        Some("burger-menu-64x64.png"@)
    } else if b == "go-home"@ || b == "user-home"@ {
        Some("house-32x32.png"@)
    } else if b == "emblem-favorite"@ || b == "favorite"@ {
        Some("favourites-64x64.png"@)
    } else if b == "preferences-system"@ || b == "settings"@ {
        Some("settings.png"@)
    } else if b == "dialog-information"@ || b == "info"@ {
        Some("info-64x64.png"@)
    } else if b == "dialog-warning"@ || b == "warning"@ {
        Some("warning-24x24.png"@)
    } else if b == "dialog-error"@ || b == "error"@ {
        Some("error-64x64.png"@)
    } else if b == "emblem-ok"@ || b == "ok"@ || b == "apply"@ {
        Some("apply-24x24.png"@)
    } else if b == "dialog-question"@ {
        Some("question-24x24.png"@)
    } else if b == "vcs-branch"@ {
        Some("hierarchy-24x24.png"@)
    } else if b == "text-x-generic"@ {
        Some("text-plain.png"@)
    } else if b == "window-close"@ {
        Some("close-64x64.png"@)
    } else if b == "view-fullscreen"@ {
        Some("sizes-32x32.png"@)
    } else if b == "folder-new"@ {
        Some("add-folder-32x32.png"@)
    } else if b == "document-new"@ {
        Some("new-file-64x64.png"@)
    } else if b == "utilities-terminal"@ {
        Some("dark-utilities-terminal-32x32.png"@)
    } else if b == "edit-select-all"@ {
        Some("checkbox-64x64.png"@)
    } else if b == "mark-location"@ {
        Some("kensicons-emblem-favorite-48x48.png"@)
    } else if b == "starred"@ {
        Some("kensicons-emblem-favorite-48x48.png"@)
    } else if b == "view-more"@ {
        Some("burger-menu-64x64.png"@)
    } else if b == "format-text-direction-ltr"@ {
        Some("unordered-list-64x64.png"@)
    } else if b == "view-sort-descending"@ {
        Some("arrow-down-48x48.png"@)
    } else if b == "view-sort-ascending"@ {
        Some("arrow-up-48x48.png"@)
    } else if b == "pan-down"@ {
        Some("arrow-down-48x48.png"@)
    } else if b == "pan-up"@ {
        Some("arrow-up-48x48.png"@)
    } else if b == "network-workgroup"@ {
        Some("wireless-connection-64x64.png"@)
    } else if b == "media-eject"@ {
        Some("eject-24x24.png"@)
    } else if b == "checkbox-checked"@ {
        Some("checkbox-64x64.png"@)
    } else if b == "document-open-recent"@ {
        Some("clock-history-16x16.png"@)
    } else if b == "folder-documents"@ {
        Some("documents-48x48.png"@)
    } else if b == "folder-download"@ {
        Some("folder-downloads-64x64.png"@)
    } else if b == "folder-music"@ {
        Some("music-folder-64x64.png"@)
    } else if b == "folder-pictures"@ {
        Some("camera-camera-capture-64x64.png"@)
    } else if b == "folder-videos"@ {
        Some("movies-64x64.png"@)
    } else if b == "folder-templates"@ {
        Some("documents-48x48.png"@)
    } else if b == "folder-publicshare"@ {
        Some("wireless-connection-64x64.png"@)
    } else if b == "user-desktop"@ {
        Some("monitor-24x24-64x64.png"@)
    } else if b == "folder"@ {
        Some("folder-48x48.png"@)
    } else if b == "emblem-important"@ {
        Some("warning-24x24.png"@)
    } else if b == "emblem-default"@ {
        Some("apply-24x24.png"@)
    } else if b == "media-playback-start"@ {
        Some("play-24x24-64x64.png"@)
    } else if b == "media-playback-pause"@ {
        Some("pause-24x24.png"@)
    } else if b == "document-properties"@ {
        Some("settings.png"@)
    } else {
        None
    }
}

/// Table lookup for [`ui_icon_filename_spec`].
#[verifier::rlimit(50)]
pub fn ui_icon_filename(base: &str) -> (r: Option<&'static str>)
    ensures
        r is Some <==> ui_icon_filename_spec(base@) is Some,
        r matches Some(f) ==> ui_icon_filename_spec(base@) == Some(f@),
{
    if crate::strutil::str_eq(base, "go-up") || crate::strutil::str_eq(base, "up") {
        Some("arrow-up-48x48.png")
    } else if crate::strutil::str_eq(base, "go-down") || crate::strutil::str_eq(base, "down") {
        Some("arrow-down-48x48.png")
    } else if crate::strutil::str_eq(base, "go-previous") || crate::strutil::str_eq(base, "back") {
        Some("back-32x32.png")
    } else if crate::strutil::str_eq(base, "go-next") || crate::strutil::str_eq(base, "forward") {
        Some("forward-32x32.png")
    } else if crate::strutil::str_eq(base, "edit-copy") || crate::strutil::str_eq(base, "copy") {
        Some("copy-64x64.png")
    } else if crate::strutil::str_eq(base, "edit-cut") || crate::strutil::str_eq(base, "cut") {
        Some("cut-64x64.png")
    } else if crate::strutil::str_eq(base, "edit-paste") || crate::strutil::str_eq(base, "paste") {
        Some("paste-32x32-64x64.png")
    } else if crate::strutil::str_eq(base, "edit-delete") || crate::strutil::str_eq(base, "delete") {
        Some("dark-edit-delete-32x32.png")
    } else if crate::strutil::str_eq(base, "user-trash") {
        Some("dark-edit-delete-32x32.png")
    } else if crate::strutil::str_eq(base, "user-trash-full") {
        Some("dark-edit-delete-32x32.png")
    } else if crate::strutil::str_eq(base, "document-open") || crate::strutil::str_eq(base, "open") {
        Some("open-file-48x48-64x64.png")
    } else if crate::strutil::str_eq(base, "edit") || crate::strutil::str_eq(base, "document-edit") {
        Some("edit-24x24.png")
    } else if crate::strutil::str_eq(base, "edit-clear") {
        Some("close-24x24.png")
    } else if crate::strutil::str_eq(base, "view-grid") || crate::strutil::str_eq(base, "grid") {
        Some("table-64x64.png")
    } else if crate::strutil::str_eq(base, "view-list") || crate::strutil::str_eq(base, "list") {
        Some("list-24x24.png")
    } else if crate::strutil::str_eq(base, "search") || crate::strutil::str_eq(base, "edit-find") || crate::strutil::str_eq(base, "system-search") {
        Some("search-24x24.png")
    } else if crate::strutil::str_eq(base, "view-refresh") || crate::strutil::str_eq(base, "refresh") {
        Some("update-30-30x30.png")
    } else if crate::strutil::str_eq(base, "sidebar-show") || crate::strutil::str_eq(base, "sidebar-hide") || crate::strutil::str_eq(base, "view-sidebar") || crate::strutil::str_eq(base, "pane-show") || crate::strutil::str_eq(base, "pane-hide") || crate::strutil::str_eq(base, "panel-show") || crate::strutil::str_eq(base, "panel-hide") {
        Some("burger-menu-64x64.png")
    } else if crate::strutil::str_eq(base, "go-home") || crate::strutil::str_eq(base, "user-home") {
        Some("house-32x32.png")
    } else if crate::strutil::str_eq(base, "emblem-favorite") || crate::strutil::str_eq(base, "favorite") {
        Some("favourites-64x64.png")
    } else if crate::strutil::str_eq(base, "preferences-system") || crate::strutil::str_eq(base, "settings") {
        Some("settings.png")
    } else if crate::strutil::str_eq(base, "dialog-information") || crate::strutil::str_eq(base, "info") {
        Some("info-64x64.png")
    } else if crate::strutil::str_eq(base, "dialog-warning") || crate::strutil::str_eq(base, "warning") {
        Some("warning-24x24.png")
    } else if crate::strutil::str_eq(base, "dialog-error") || crate::strutil::str_eq(base, "error") {
        Some("error-64x64.png")
    } else if crate::strutil::str_eq(base, "emblem-ok") || crate::strutil::str_eq(base, "ok") || crate::strutil::str_eq(base, "apply") {
        Some("apply-24x24.png")
    } else if crate::strutil::str_eq(base, "dialog-question") {
        Some("question-24x24.png")
    } else if crate::strutil::str_eq(base, "vcs-branch") {
        Some("hierarchy-24x24.png")
    } else if crate::strutil::str_eq(base, "text-x-generic") {
        Some("text-plain.png")
    } else if crate::strutil::str_eq(base, "window-close") {
        Some("close-64x64.png")
    } else if crate::strutil::str_eq(base, "view-fullscreen") {
        Some("sizes-32x32.png")
    } else if crate::strutil::str_eq(base, "folder-new") {
        Some("add-folder-32x32.png")
    } else if crate::strutil::str_eq(base, "document-new") {
        Some("new-file-64x64.png")
    } else if crate::strutil::str_eq(base, "utilities-terminal") {
        Some("dark-utilities-terminal-32x32.png")
    } else if crate::strutil::str_eq(base, "edit-select-all") {
        Some("checkbox-64x64.png")
    } else if crate::strutil::str_eq(base, "mark-location") {
        Some("kensicons-emblem-favorite-48x48.png")
    } else if crate::strutil::str_eq(base, "starred") {
        Some("kensicons-emblem-favorite-48x48.png")
    } else if crate::strutil::str_eq(base, "view-more") {
        Some("burger-menu-64x64.png")
    } else if crate::strutil::str_eq(base, "format-text-direction-ltr") {
        Some("unordered-list-64x64.png")
    } else if crate::strutil::str_eq(base, "view-sort-descending") {
        Some("arrow-down-48x48.png")
    } else if crate::strutil::str_eq(base, "view-sort-ascending") {
        Some("arrow-up-48x48.png")
    } else if crate::strutil::str_eq(base, "pan-down") {
        Some("arrow-down-48x48.png")
    } else if crate::strutil::str_eq(base, "pan-up") {
        Some("arrow-up-48x48.png")
    } else if crate::strutil::str_eq(base, "network-workgroup") {
        Some("wireless-connection-64x64.png")
    } else if crate::strutil::str_eq(base, "media-eject") {
        Some("eject-24x24.png")
    } else if crate::strutil::str_eq(base, "checkbox-checked") {
        Some("checkbox-64x64.png")
    } else if crate::strutil::str_eq(base, "document-open-recent") {
        Some("clock-history-16x16.png")
    } else if crate::strutil::str_eq(base, "folder-documents") {
        Some("documents-48x48.png")
    } else if crate::strutil::str_eq(base, "folder-download") {
        Some("folder-downloads-64x64.png")
    } else if crate::strutil::str_eq(base, "folder-music") {
        Some("music-folder-64x64.png")
    } else if crate::strutil::str_eq(base, "folder-pictures") {
        Some("camera-camera-capture-64x64.png")
    } else if crate::strutil::str_eq(base, "folder-videos") {
        Some("movies-64x64.png")
    } else if crate::strutil::str_eq(base, "folder-templates") {
        Some("documents-48x48.png")
    } else if crate::strutil::str_eq(base, "folder-publicshare") {
        Some("wireless-connection-64x64.png")
    } else if crate::strutil::str_eq(base, "user-desktop") {
        Some("monitor-24x24-64x64.png")
    } else if crate::strutil::str_eq(base, "folder") {
        Some("folder-48x48.png")
    } else if crate::strutil::str_eq(base, "emblem-important") {
        Some("warning-24x24.png")
    } else if crate::strutil::str_eq(base, "emblem-default") {
        Some("apply-24x24.png")
    } else if crate::strutil::str_eq(base, "media-playback-start") {
        Some("play-24x24-64x64.png")
    } else if crate::strutil::str_eq(base, "media-playback-pause") {
        Some("pause-24x24.png")
    } else if crate::strutil::str_eq(base, "document-properties") {
        Some("settings.png")
    } else {
        None
    }
}

/// The bundled UI icon a normalized name resolves to: the table names an
/// asset, the store holds it under `ui/`, and the bytes are scaled to the
/// requested size; `None` when the table or the store has no entry.
pub open spec fn ui_icon_spec(
    store: Map<Seq<char>, Seq<u8>>,
    base: Seq<char>,
    size: u16,
) -> Option<HandleView> {
    match ui_icon_filename_spec(base) {
        Some(f) => {
            let path = "ui/"@ + f;
            if store.contains_key(path) {
                Some(scaled_handle_spec(store[path], size))
            } else {
                None
            }
        },
        None => None,
    }
}

/// Bundled icon for a UI element name, `-symbolic` variants included. A
/// resampled result carries four bytes per pixel of the size x size square.
pub fn get_icon(store: &CustomIcons, name: &str, size: u16) -> (r: Option<IconHandle>)
    requires
        store.wf(),
    ensures
        opt_handle_view(r) == ui_icon_spec(store@, normalize_name_spec(name@), size),
        (r matches Some(h) ==> (h@ matches HandleView::Pixels { rgba, .. } ==> rgba.len() == 4 * (
        size as int) * (size as int))),
{
    let base = normalize_name(name);
    get_icon_base(store, base, size)
}

/// Bundled icon for an already-normalized UI name. A resampled result
/// carries four bytes per pixel of the size x size square.
pub fn get_icon_base(store: &CustomIcons, base: &str, size: u16) -> (r: Option<IconHandle>)
    requires
        store.wf(),
    ensures
        opt_handle_view(r) == ui_icon_spec(store@, base@, size),
        (r matches Some(h) ==> (h@ matches HandleView::Pixels { rgba, .. } ==> rgba.len() == 4 * (
        size as int) * (size as int))),
{
    match ui_icon_filename(base) {
        Some(f) => {
            let path = "ui/".to_owned().concat(f);
            match store.get(path.as_str()) {
                Some(data) => Some(scaled_handle(data, size)),
                None => None,
            }
        },
        None => None,
    }
}

/// Law: a `-symbolic` name, its base name, and any alias of the base name
/// all resolve to the same underlying asset; shown here for the up-arrow
/// aliases `go-up-symbolic`, `go-up` and `up`.
pub proof fn lemma_symbolic_alias(store: Map<Seq<char>, Seq<u8>>, size: u16)
    ensures
        ui_icon_spec(store, normalize_name_spec("go-up-symbolic"@), size) == ui_icon_spec(
            store,
            normalize_name_spec("go-up"@),
            size,
        ),
        ui_icon_spec(store, normalize_name_spec("go-up"@), size) == ui_icon_spec(
            store,
            normalize_name_spec("up"@),
            size,
        ),
{
    reveal_strlit("go-up-symbolic");
    reveal_strlit("-symbolic");
    reveal_strlit("go-up");
    reveal_strlit("up");
    assert(normalize_name_spec("go-up"@) == "go-up"@);
    assert(normalize_name_spec("up"@) == "up"@);
    assert("go-up-symbolic"@.subrange("go-up-symbolic"@.len() as int - 9, "go-up-symbolic"@.len() as int) =~= "-symbolic"@);
    assert(normalize_name_spec("go-up-symbolic"@) =~= "go-up"@);
    assert(ui_icon_filename_spec("go-up"@) == ui_icon_filename_spec("up"@));
}

} // verus!
