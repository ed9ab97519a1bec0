use vstd::prelude::*;
use vstd::string::StringExecFns;

use crate::codec::{scaled_handle, scaled_handle_spec};
use crate::handle::{opt_handle_view, HandleView, IconHandle};

pub mod ui;

verus! {

/// The bundled icon store: a read-only map from a POSIX-style relative path
/// (under the logical prefixes `mimetypes/` and `ui/`) to the raw bytes of
/// the asset, loaded once at startup and never changed afterwards.
pub struct CustomIcons {
    entries: Vec<(String, Vec<u8>)>,
}

/// The map an entry list denotes, later entries shadowing earlier ones.
pub open spec fn store_map(s: Seq<(String, Vec<u8>)>) -> Map<Seq<char>, Seq<u8>>
    decreases s.len(),
{
    if s.len() == 0 {
        Map::empty()
    } else {
        store_map(s.drop_last()).insert(s.last().0@, s.last().1@)
    }
}

proof fn lemma_store_map_contains(s: Seq<(String, Vec<u8>)>, k: Seq<char>)
    ensures
        store_map(s).contains_key(k) <==> exists|i: int| 0 <= i < s.len() && s[i].0@ == k,
    decreases s.len(),
{
    if s.len() > 0 {
        lemma_store_map_contains(s.drop_last(), k);
        if store_map(s).contains_key(k) {
            if s.last().0@ == k {
                assert(s[s.len() - 1].0@ == k);
            } else {
                let i = choose|i: int| 0 <= i < s.drop_last().len() && s.drop_last()[i].0@ == k;
                assert(s[i].0@ == k);
            }
        }
        if exists|i: int| 0 <= i < s.len() && s[i].0@ == k {
            let i = choose|i: int| 0 <= i < s.len() && s[i].0@ == k;
            if i < s.len() - 1 {
                assert(s.drop_last()[i].0@ == k);
            }
        }
    }
}

proof fn lemma_store_map_at(s: Seq<(String, Vec<u8>)>, i: int)
    requires
        0 <= i < s.len(),
        forall|j: int, k: int| 0 <= j < k < s.len() ==> s[j].0@ != s[k].0@,
    ensures
        store_map(s).contains_key(s[i].0@),
        store_map(s)[s[i].0@] == s[i].1@,
    decreases s.len(),
{
    if i < s.len() - 1 {
        lemma_store_map_at(s.drop_last(), i);
        assert(s.drop_last()[i] == s[i]);
        assert(s[i].0@ != s.last().0@);
    }
}

impl View for CustomIcons {
    type V = Map<Seq<char>, Seq<u8>>;

    closed spec fn view(&self) -> Map<Seq<char>, Seq<u8>> {
        store_map(self.entries@)
    }
}

impl CustomIcons {
    /// Well-formed: no path occurs twice.
    pub closed spec fn wf(&self) -> bool {
        forall|j: int, k: int|
            0 <= j < k < self.entries@.len() ==> self.entries@[j].0@ != self.entries@[k].0@
    }

    /// An empty store.
    pub fn new() -> (r: Self)
        ensures
            r.wf(),
            r@ == Map::<Seq<char>, Seq<u8>>::empty(),
    {
        CustomIcons { entries: Vec::new() }
    }

    /// Whether the store holds an asset at `path`.
    pub fn contains(&self, path: &str) -> (r: bool)
        requires
            self.wf(),
        ensures
            r == self@.contains_key(path@),
    {
        self.get(path).is_some()
    }

    /// Add the asset at `path`; each path is loaded once.
    pub fn insert(&mut self, path: String, data: Vec<u8>)
        requires
            old(self).wf(),
            !old(self)@.contains_key(path@),
        ensures
            final(self).wf(),
            final(self)@ == old(self)@.insert(path@, data@),
    {
        proof {
            lemma_store_map_contains(self.entries@, path@);
        }
        self.entries.push((path, data));
        proof {
            assert(self.entries@.drop_last() =~= old(self).entries@);
        }
    }

    /// The raw bytes of the asset at `path`, if the store holds one.
    pub fn get(&self, path: &str) -> (r: Option<&Vec<u8>>)
        requires
            self.wf(),
        ensures
            r is Some <==> self@.contains_key(path@),
            r matches Some(d) ==> d@ == self@[path@],
    {
        let n = self.entries.len();
        let mut i: usize = 0;
        while i < n
            invariant
                self.wf(),
                n == self.entries@.len(),
                i <= n,
                forall|j: int| 0 <= j < i ==> self.entries@[j].0@ != path@,
            decreases n - i,
        {
            if crate::strutil::str_eq(self.entries[i].0.as_str(), path) {
                proof {
                    lemma_store_map_at(self.entries@, i as int);
                }
                return Some(&self.entries[i].1);
            }
            i += 1;
        }
        proof {
            lemma_store_map_contains(self.entries@, path@);
        }
        None
    }
}

/// The static table from MIME type to the bundled asset's file name; exact
/// string match only, no wildcard or type-only matching.
pub open spec fn mime_icon_filename_spec(m: Seq<char>) -> Option<Seq<char>> {
    if m == "application/javascript"@ {
        Some("application-javascript.png"@)
    } else if m == "application/x-javascript"@ {
        Some("application-x-javascript.png"@)
    } else if m == "text/javascript"@ {
        Some("text-javascript.png"@)
    } else if m == "application/typescript"@ {
        Some("application-typescript.png"@)
    } else if m == "text/typescript"@ {
        Some("text-typescript.png"@)
    } else if m == "text/x-typescript"@ {
        Some("text-x-typescript.png"@)
    } else if m == "application/x-python"@ {
        Some("application-x-python.png"@)
    } else if m == "text/x-python"@ {
        Some("text-x-python.png"@)
    } else if m == "application/x-shellscript"@ {
        Some("application-x-shellscript.png"@)
    } else if m == "text/x-shellscript"@ {
        Some("text-x-shellscript.png"@)
    } else if m == "application/sql"@ {
        Some("application-sql.png"@)
    } else if m == "text/x-sql"@ {
        Some("text-x-sql.png"@)
    } else if m == "text/rust"@ {
        Some("text-rust.png"@)
    } else if m == "text/x-rust"@ {
        Some("text-x-rust.png"@)
    } else if m == "text/x-c"@ {
        Some("blue-document-attribute-c-16x16.png"@)
    } else if m == "text/x-c++"@ {
        Some("blue-document-attribute-c-16x16.png"@)
    } else if m == "text/x-java"@ {
        Some("coffee-ilny-emoji-cup-48x48.png"@)
    } else if m == "text/x-go"@ {
        Some("script-48x48.png"@)
    } else if m == "application/x-ruby"@ {
        Some("script-48x48.png"@)
    } else if m == "text/x-php"@ {
        Some("script-48x48.png"@)
    } else if m == "text/html"@ {
        Some("text-html.png"@)
    } else if m == "application/xhtml+xml"@ {
        Some("application-xhtml+xml.png"@)
    } else if m == "text/css"@ {
        Some("text-css.png"@)
    } else if m == "text/markdown"@ {
        Some("text-markdown.png"@)
    } else if m == "text/x-markdown"@ {
        Some("text-x-markdown.png"@)
    } else if m == "application/json"@ {
        Some("application-json.png"@)
    } else if m == "text/yaml"@ {
        Some("text-yaml.png"@)
    } else if m == "text/x-yaml"@ {
        Some("text-x-yaml.png"@)
    } else if m == "application/x-yaml"@ {
        Some("application-x-yaml.png"@)
    } else if m == "application/toml"@ {
        Some("options-64x64.png"@)
    } else if m == "text/x-ini"@ {
        Some("time-settings-64x64.png"@)
    } else if m == "text/csv"@ {
        Some("text-csv.png"@)
    } else if m == "text/x-config"@ {
        Some("text-x-config.png"@)
    } else if m == "application/x-config"@ {
        Some("application-x-config.png"@)
    } else if m == "application/xml"@ {
        Some("blue-document-code-16x16.png"@)
    } else if m == "text/xml"@ {
        Some("script-48x48.png"@)
    } else if m == "application/pdf"@ {
        Some("application-pdf.png"@)
    } else if m == "application/msword"@ {
        Some("application-msword.png"@)
    } else if m == "application/vnd.openxmlformats-officedocument.wordprocessingml.document"@ {
        Some("application-vnd.openxmlformats-officedocument.wordprocessingml.document.png"@)
    } else if m == "application/rtf"@ {
        Some("application-rtf.png"@)
    } else if m == "text/rtf"@ {
        Some("text-rtf.png"@)
    } else if m == "application/epub+zip"@ {
        Some("book-48x48.png"@)
    } else if m == "application/vnd.ms-excel"@ {
        Some("application-vnd.ms-excel.png"@)
    } else if m == "application/vnd.openxmlformats-officedocument.spreadsheetml.sheet"@ {
        Some("application-vnd.openxmlformats-officedocument.spreadsheetml.sheet.png"@)
    } else if m == "application/vnd.ms-powerpoint"@ {
        Some("application-vnd.ms-powerpoint.png"@)
    } else if m == "application/vnd.openxmlformats-officedocument.presentationml.presentation"@ {
        Some("application-vnd.openxmlformats-officedocument.presentationml.presentation.png"@)
    } else if m == "image/png"@ {
        Some("picture-48x48.png"@)
    } else if m == "image/jpeg"@ {
        Some("picture-48x48.png"@)
    } else if m == "image/gif"@ {
        Some("picture-48x48.png"@)
    } else if m == "image/webp"@ {
        Some("picture-48x48.png"@)
    } else if m == "image/bmp"@ {
        Some("picture-48x48.png"@)
    } else if m == "image/tiff"@ {
        Some("picture-48x48.png"@)
    } else if m == "image/svg+xml"@ {
        Some("colour-picker-48x48.png"@)
    } else if m == "video/mp4"@ {
        Some("video-32x32.png"@)
    } else if m == "video/mpeg"@ {
        Some("video-32x32.png"@)
    } else if m == "video/webm"@ {
        Some("video-32x32.png"@)
    } else if m == "video/x-matroska"@ {
        Some("video-32x32.png"@)
    } else if m == "video/quicktime"@ {
        Some("video-32x32.png"@)
    } else if m == "audio/mpeg"@ {
        Some("audio-mpeg.png"@)
    } else if m == "audio/mp3"@ {
        Some("audio-mp3.png"@)
    } else if m == "audio/flac"@ {
        Some("audio-flac.png"@)
    } else if m == "audio/x-flac"@ {
        Some("audio-x-flac.png"@)
    } else if m == "audio/wav"@ {
        Some("audio-wav.png"@)
    } else if m == "audio/x-wav"@ {
        Some("audio-x-wav.png"@)
    } else if m == "application/zip"@ {
        Some("box-48x48.png"@)
    } else if m == "application/x-tar"@ {
        Some("box-48x48.png"@)
    } else if m == "application/gzip"@ {
        Some("box-48x48.png"@)
    } else if m == "application/x-bzip"@ {
        Some("box-48x48.png"@)
    } else if m == "application/x-bzip2"@ {
        Some("box-48x48.png"@)
    } else if m == "application/x-7z-compressed"@ {
        Some("box-48x48.png"@)
    } else if m == "application/x-rar"@ {
        Some("box-48x48.png"@)
    } else if m == "application/x-rar-compressed"@ {
        Some("box-48x48.png"@)
    } else if m == "application/zstd"@ {
        Some("box-48x48.png"@)
    } else if m == "application/x-zstd-compressed-tar"@ {
        Some("box-48x48.png"@)
    } else if m == "application/x-lz4"@ {
        Some("box-48x48.png"@)
    } else if m == "application/x-lz4-compressed-tar"@ {
        Some("box-48x48.png"@)
    } else if m == "application/x-brotli"@ {
        Some("box-48x48.png"@)
    } else if m == "application/x-brotli-compressed-tar"@ {
        Some("box-48x48.png"@)
    } else if m == "application/x-executable"@ {
        Some("application-x-executable.png"@)
    } else if m == "application/x-ms-dos-executable"@ {
        Some("application-x-ms-dos-executable.png"@)
    } else if m == "application/x-pem-file"@ {
        Some("application-x-pem-file.png"@)
    } else if m == "application/x-x509-ca-cert"@ {
        Some("application-x-x509-ca-cert.png"@)
    } else if m == "text/plain"@ {
        Some("text-plain.png"@)
    } else if m == "text/x-log"@ {
        Some("text-x-log.png"@)
    } else if m == "inode/directory"@ {
        Some("folder-48x48.png"@)
    } else if m == "application/octet-stream"@ {
        Some("documents-48x48.png"@)
    } else {
        None
    }
}

/// Table lookup for [`mime_icon_filename_spec`].
#[verifier::rlimit(50)]
pub fn mime_icon_filename(mime: &str) -> (r: Option<&'static str>)
    ensures
        r is Some <==> mime_icon_filename_spec(mime@) is Some,
        r matches Some(f) ==> mime_icon_filename_spec(mime@) == Some(f@),
{
    if crate::strutil::str_eq(mime, "application/javascript") {
        Some("application-javascript.png")
    } else if crate::strutil::str_eq(mime, "application/x-javascript") {
        Some("application-x-javascript.png")
    } else if crate::strutil::str_eq(mime, "text/javascript") {
        Some("text-javascript.png")
    } else if crate::strutil::str_eq(mime, "application/typescript") {
        Some("application-typescript.png")
    } else if crate::strutil::str_eq(mime, "text/typescript") {
        Some("text-typescript.png")
    } else if crate::strutil::str_eq(mime, "text/x-typescript") {
        Some("text-x-typescript.png")
    } else if crate::strutil::str_eq(mime, "application/x-python") {
        Some("application-x-python.png")
    } else if crate::strutil::str_eq(mime, "text/x-python") {
        Some("text-x-python.png")
    } else if crate::strutil::str_eq(mime, "application/x-shellscript") {
        Some("application-x-shellscript.png")
    } else if crate::strutil::str_eq(mime, "text/x-shellscript") {
        Some("text-x-shellscript.png")
    } else if crate::strutil::str_eq(mime, "application/sql") {
        Some("application-sql.png")
    } else if crate::strutil::str_eq(mime, "text/x-sql") {
        Some("text-x-sql.png")
    } else if crate::strutil::str_eq(mime, "text/rust") {
        Some("text-rust.png")
    } else if crate::strutil::str_eq(mime, "text/x-rust") {
        Some("text-x-rust.png")
    } else if crate::strutil::str_eq(mime, "text/x-c") {
        Some("blue-document-attribute-c-16x16.png")
    } else if crate::strutil::str_eq(mime, "text/x-c++") {
        Some("blue-document-attribute-c-16x16.png")
    } else if crate::strutil::str_eq(mime, "text/x-java") {
        Some("coffee-ilny-emoji-cup-48x48.png")
    } else if crate::strutil::str_eq(mime, "text/x-go") {
        Some("script-48x48.png")
    } else if crate::strutil::str_eq(mime, "application/x-ruby") {
        Some("script-48x48.png")
    } else if crate::strutil::str_eq(mime, "text/x-php") {
        Some("script-48x48.png")
    } else if crate::strutil::str_eq(mime, "text/html") {
        Some("text-html.png")
    } else if crate::strutil::str_eq(mime, "application/xhtml+xml") {
        Some("application-xhtml+xml.png")
    } else if crate::strutil::str_eq(mime, "text/css") {
        Some("text-css.png")
    } else if crate::strutil::str_eq(mime, "text/markdown") {
        Some("text-markdown.png")
    } else if crate::strutil::str_eq(mime, "text/x-markdown") {
        Some("text-x-markdown.png")
    } else if crate::strutil::str_eq(mime, "application/json") {
        Some("application-json.png")
    } else if crate::strutil::str_eq(mime, "text/yaml") {
        Some("text-yaml.png")
    } else if crate::strutil::str_eq(mime, "text/x-yaml") {
        Some("text-x-yaml.png")
    } else if crate::strutil::str_eq(mime, "application/x-yaml") {
        Some("application-x-yaml.png")
    } else if crate::strutil::str_eq(mime, "application/toml") {
        Some("options-64x64.png")
    } else if crate::strutil::str_eq(mime, "text/x-ini") {
        Some("time-settings-64x64.png")
    } else if crate::strutil::str_eq(mime, "text/csv") {
        Some("text-csv.png")
    } else if crate::strutil::str_eq(mime, "text/x-config") {
        Some("text-x-config.png")
    } else if crate::strutil::str_eq(mime, "application/x-config") {
        Some("application-x-config.png")
    } else if crate::strutil::str_eq(mime, "application/xml") {
        Some("blue-document-code-16x16.png")
    } else if crate::strutil::str_eq(mime, "text/xml") {
        Some("script-48x48.png")
    } else if crate::strutil::str_eq(mime, "application/pdf") {
        Some("application-pdf.png")
    } else if crate::strutil::str_eq(mime, "application/msword") {
        Some("application-msword.png")
    } else if crate::strutil::str_eq(mime, "application/vnd.openxmlformats-officedocument.wordprocessingml.document") {
        Some("application-vnd.openxmlformats-officedocument.wordprocessingml.document.png")
    } else if crate::strutil::str_eq(mime, "application/rtf") {
        Some("application-rtf.png")
    } else if crate::strutil::str_eq(mime, "text/rtf") {
        Some("text-rtf.png")
    } else if crate::strutil::str_eq(mime, "application/epub+zip") {
        Some("book-48x48.png")
    } else if crate::strutil::str_eq(mime, "application/vnd.ms-excel") {
        Some("application-vnd.ms-excel.png")
    } else if crate::strutil::str_eq(mime, "application/vnd.openxmlformats-officedocument.spreadsheetml.sheet") {
        Some("application-vnd.openxmlformats-officedocument.spreadsheetml.sheet.png")
    } else if crate::strutil::str_eq(mime, "application/vnd.ms-powerpoint") {
        Some("application-vnd.ms-powerpoint.png")
    } else if crate::strutil::str_eq(mime, "application/vnd.openxmlformats-officedocument.presentationml.presentation") {
        Some("application-vnd.openxmlformats-officedocument.presentationml.presentation.png")
    } else if crate::strutil::str_eq(mime, "image/png") {
        Some("picture-48x48.png")
    } else if crate::strutil::str_eq(mime, "image/jpeg") {
        Some("picture-48x48.png")
    } else if crate::strutil::str_eq(mime, "image/gif") {
        Some("picture-48x48.png")
    } else if crate::strutil::str_eq(mime, "image/webp") {
        Some("picture-48x48.png")
    } else if crate::strutil::str_eq(mime, "image/bmp") {
        Some("picture-48x48.png")
    } else if crate::strutil::str_eq(mime, "image/tiff") {
        Some("picture-48x48.png")
    } else if crate::strutil::str_eq(mime, "image/svg+xml") {
        Some("colour-picker-48x48.png")
    } else if crate::strutil::str_eq(mime, "video/mp4") {
        Some("video-32x32.png")
    } else if crate::strutil::str_eq(mime, "video/mpeg") {
        Some("video-32x32.png")
    } else if crate::strutil::str_eq(mime, "video/webm") {
        Some("video-32x32.png")
    } else if crate::strutil::str_eq(mime, "video/x-matroska") {
        Some("video-32x32.png")
    } else if crate::strutil::str_eq(mime, "video/quicktime") {
        Some("video-32x32.png")
    } else if crate::strutil::str_eq(mime, "audio/mpeg") {
        Some("audio-mpeg.png")
    } else if crate::strutil::str_eq(mime, "audio/mp3") {
        Some("audio-mp3.png")
    } else if crate::strutil::str_eq(mime, "audio/flac") {
        Some("audio-flac.png")
    } else if crate::strutil::str_eq(mime, "audio/x-flac") {
        Some("audio-x-flac.png")
    } else if crate::strutil::str_eq(mime, "audio/wav") {
        Some("audio-wav.png")
    } else if crate::strutil::str_eq(mime, "audio/x-wav") {
        Some("audio-x-wav.png")
    } else if crate::strutil::str_eq(mime, "application/zip") {
        Some("box-48x48.png")
    } else if crate::strutil::str_eq(mime, "application/x-tar") {
        Some("box-48x48.png")
    } else if crate::strutil::str_eq(mime, "application/gzip") {
        Some("box-48x48.png")
    } else if crate::strutil::str_eq(mime, "application/x-bzip") {
        Some("box-48x48.png")
    } else if crate::strutil::str_eq(mime, "application/x-bzip2") {
        Some("box-48x48.png")
    } else if crate::strutil::str_eq(mime, "application/x-7z-compressed") {
        Some("box-48x48.png")
    } else if crate::strutil::str_eq(mime, "application/x-rar") {
        Some("box-48x48.png")
    } else if crate::strutil::str_eq(mime, "application/x-rar-compressed") {
        Some("box-48x48.png")
    } else if crate::strutil::str_eq(mime, "application/zstd") {
        Some("box-48x48.png")
    } else if crate::strutil::str_eq(mime, "application/x-zstd-compressed-tar") {
        Some("box-48x48.png")
    } else if crate::strutil::str_eq(mime, "application/x-lz4") {
        Some("box-48x48.png")
    } else if crate::strutil::str_eq(mime, "application/x-lz4-compressed-tar") {
        Some("box-48x48.png")
    } else if crate::strutil::str_eq(mime, "application/x-brotli") {
        Some("box-48x48.png")
    } else if crate::strutil::str_eq(mime, "application/x-brotli-compressed-tar") {
        Some("box-48x48.png")
    } else if crate::strutil::str_eq(mime, "application/x-executable") {
        Some("application-x-executable.png")
    } else if crate::strutil::str_eq(mime, "application/x-ms-dos-executable") {
        Some("application-x-ms-dos-executable.png")
    } else if crate::strutil::str_eq(mime, "application/x-pem-file") {
        Some("application-x-pem-file.png")
    } else if crate::strutil::str_eq(mime, "application/x-x509-ca-cert") {
        Some("application-x-x509-ca-cert.png")
    } else if crate::strutil::str_eq(mime, "text/plain") {
        Some("text-plain.png")
    } else if crate::strutil::str_eq(mime, "text/x-log") {
        Some("text-x-log.png")
    } else if crate::strutil::str_eq(mime, "inode/directory") {
        Some("folder-48x48.png")
    } else if crate::strutil::str_eq(mime, "application/octet-stream") {
        Some("documents-48x48.png")
    } else {
        None
    }
}

/// The custom icon a MIME type resolves to: the table names an asset, the
/// store holds it, and the bytes are scaled to the requested size; `None`
/// when the table or the store has no entry.
pub open spec fn custom_mime_icon_spec(
    store: Map<Seq<char>, Seq<u8>>,
    mime: Seq<char>,
    size: u16,
) -> Option<HandleView> {
    match mime_icon_filename_spec(mime) {
        Some(f) => {
            let path = "mimetypes/"@ + f;
            if store.contains_key(path) {
                Some(scaled_handle_spec(store[path], size))
            } else {
                None
            }
        },
        None => None,
    }
}

/// Custom icon for a MIME type, from the bundled store. A resampled
/// result carries four bytes per pixel of the size x size square.
pub fn get_custom_icon(store: &CustomIcons, mime: &str, size: u16) -> (r: Option<IconHandle>)
    requires
        store.wf(),
    ensures
        opt_handle_view(r) == custom_mime_icon_spec(store@, mime@, size),
        (r matches Some(h) ==> (h@ matches HandleView::Pixels { rgba, .. } ==> rgba.len() == 4 * (
        size as int) * (size as int))),
{
    match mime_icon_filename(mime) {
        Some(f) => {
            let path = "mimetypes/".to_owned().concat(f);
            match store.get(path.as_str()) {
                Some(data) => Some(scaled_handle(data, size)),
                None => None,
            }
        },
        None => None,
    }
}

/// The themed handle used when no bundled asset answers for `name`: the bare
/// name at `size`, with no further fallback chain.
pub open spec fn default_named_spec(name: Seq<char>, size: u16) -> HandleView {
    HandleView::Named { name, size, fallbacks: Seq::empty() }
}

/// A bundled UI icon when one exists, else the system theme handle for the
/// name itself; for most UI widgets.
pub fn handle_or_default(store: &CustomIcons, name: &str, size: u16) -> (r: IconHandle)
    requires
        store.wf(),
    ensures
        r@ == (match ui::ui_icon_spec(store@, ui::normalize_name_spec(name@), size) {
            Some(h) => h,
            None => default_named_spec(name@, size),
        }),
{
    match ui::get_icon(store, name, size) {
        Some(h) => h,
        None => {
            let fb: Vec<String> = Vec::new();
            proof {
                assert(fb.deep_view() =~= Seq::<Seq<char>>::empty());
            }
            IconHandle::Named { name: name.to_owned(), size, fallbacks: fb }
        },
    }
}

/// Same resolution as [`handle_or_default`]; the entry point meant for
/// menu items, where the GUI wraps the handle into an icon widget.
pub fn icon_or_default(store: &CustomIcons, name: &str, size: u16) -> (r: IconHandle)
    requires
        store.wf(),
    ensures
        r@ == (match ui::ui_icon_spec(store@, ui::normalize_name_spec(name@), size) {
            Some(h) => h,
            None => default_named_spec(name@, size),
        }),
{
    match ui::get_icon(store, name, size) {
        Some(h) => h,
        None => {
            let fb: Vec<String> = Vec::new();
            proof {
                assert(fb.deep_view() =~= Seq::<Seq<char>>::empty());
            }
            IconHandle::Named { name: name.to_owned(), size, fallbacks: fb }
        },
    }
}

} // verus!
