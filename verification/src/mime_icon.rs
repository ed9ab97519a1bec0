use vstd::prelude::*;

use crate::custom_icons::{custom_mime_icon_spec, get_custom_icon, ui, CustomIcons};
use crate::handle::{clone_opt_handle, opt_handle_view, HandleView, IconHandle};
use crate::oracle;
use crate::strutil::{starts_with, starts_with_spec, str_eq};

verus! {

// ------------------------------------------------------------------
// MIME classifier
// ------------------------------------------------------------------

/// The oracle's sentinels for an empty (zero-size) file.
pub open spec fn is_empty_file_mime_spec(m: Seq<char>) -> bool {
    m == "application/x-zerosize"@ || m == "inode/x-empty"@
}

/// The special types whose classification never comes from an extension.
pub open spec fn is_non_file_mime_spec(m: Seq<char>) -> bool {
    m == "inode/directory"@ || m == "inode/symlink"@
}

/// The MIME type a path is classified as, given the oracle's guess for it:
/// an empty-file sentinel is always discarded for the extension-based guess;
/// an uncertain guess is discarded too, unless the path is local and the
/// guess names a directory or symlink (extensions mean nothing for those);
/// any other guess is kept as-is.
pub open spec fn resolved_mime_spec(
    guessed: Seq<char>,
    uncertain: bool,
    ext: Seq<char>,
    remote: bool,
) -> Seq<char> {
    if is_empty_file_mime_spec(guessed) {
        ext
    } else if uncertain && (remote || !is_non_file_mime_spec(guessed)) {
        ext
    } else {
        guessed
    }
}

/// Decide the classification from a guess `(guessed, uncertain)` and the
/// pure extension-based guess `ext` for the same path.
pub fn resolve_guess(guessed: String, uncertain: bool, ext: String, remote: bool) -> (r: String)
    ensures
        r@ == resolved_mime_spec(guessed@, uncertain, ext@, remote),
{
    if str_eq(guessed.as_str(), "application/x-zerosize") || str_eq(
        guessed.as_str(),
        "inode/x-empty",
    ) {
        return ext;
    }
    let non_file = str_eq(guessed.as_str(), "inode/directory") || str_eq(
        guessed.as_str(),
        "inode/symlink",
    );
    if uncertain && (remote || !non_file) {
        ext
    } else {
        guessed
    }
}

/// The part of a path after its last `/`; the whole path when it has none.
pub open spec fn base_name_spec(p: Seq<char>) -> Seq<char>
    decreases p.len(),
{
    if p.len() == 0 {
        p
    } else if p.last() == '/' {
        Seq::empty()
    } else {
        base_name_spec(p.drop_last()).push(p.last())
    }
}

proof fn lemma_base_name(p: Seq<char>, cut: int)
    requires
        0 <= cut <= p.len(),
        cut == 0 || p[cut - 1] == '/',
        forall|j: int| cut <= j < p.len() ==> p[j] != '/',
    ensures
        base_name_spec(p) == p.subrange(cut, p.len() as int),
    decreases p.len(),
{
    if p.len() == 0 {
        assert(p.subrange(0, 0) =~= p);
    } else if cut == p.len() {
        assert(p.last() == '/');
        assert(p.subrange(cut, p.len() as int) =~= Seq::<char>::empty());
    } else {
        assert(p.last() != '/');
        lemma_base_name(p.drop_last(), cut);
        assert(p.subrange(cut, p.len() as int) =~= p.drop_last().subrange(
            cut,
            p.drop_last().len() as int,
        ).push(p.last()));
    }
}

/// The base (file) name of a path.
pub fn base_name<'a>(path: &'a str) -> (r: &'a str)
    ensures
        r@ == base_name_spec(path@),
{
    let n = path.unicode_len();
    let mut cut: usize = 0;
    let mut i: usize = 0;
    while i < n
        invariant
            n == path@.len(),
            i <= n,
            cut <= i,
            cut == 0 || path@[cut - 1] == '/',
            forall|j: int| cut <= j < i ==> path@[j] != '/',
        decreases n - i,
    {
        if path.get_char(i) == '/' {
            cut = i + 1;
        }
        i += 1;
    }
    proof {
        lemma_base_name(path@, cut as int);
    }
    path.substring_char(cut, n)
}

// ------------------------------------------------------------------
// Fallback-chain construction
// ------------------------------------------------------------------

/// The one generic icon name per top-level MIME category; categories with
/// no mapping use the global fallback name.
pub open spec fn generic_icon_name_spec(mime: Seq<char>) -> Seq<char> {
    if starts_with_spec(mime, "text/"@) {
        "text-x-generic"@
    } else if starts_with_spec(mime, "image/"@) {
        "image-x-generic"@
    } else if starts_with_spec(mime, "audio/"@) {
        "audio-x-generic"@
    } else if starts_with_spec(mime, "video/"@) {
        "video-x-generic"@
    } else if starts_with_spec(mime, "application/"@) {
        "application-x-executable"@
    } else if starts_with_spec(mime, "inode/"@) {
        "folder"@
    } else {
        "text-x-generic"@
    }
}

/// Generic category icon name for a MIME type.
pub fn generic_icon_name(mime: &str) -> (r: &'static str)
    ensures
        r@ == generic_icon_name_spec(mime@),
{
    if starts_with(mime, "text/") {
        "text-x-generic"
    } else if starts_with(mime, "image/") {
        "image-x-generic"
    } else if starts_with(mime, "audio/") {
        "audio-x-generic"
    } else if starts_with(mime, "video/") {
        "video-x-generic"
    } else if starts_with(mime, "application/") {
        "application-x-executable"
    } else if starts_with(mime, "inode/") {
        "folder"
    } else {
        "text-x-generic"
    }
}

/// What a cache miss resolves to, given the oracle's candidate list `names`
/// for the MIME type: the bundled custom icon when one exists; else, with no
/// candidates, the category's generic icon (bundled when possible, themed
/// with the full fallback chain otherwise); else the first candidate, themed,
/// with the remaining candidates and the generic fallbacks as its chain.
pub open spec fn fresh_icon_spec(
    store: Map<Seq<char>, Seq<u8>>,
    mime: Seq<char>,
    size: u16,
    names: Seq<Seq<char>>,
) -> Option<HandleView> {
    if custom_mime_icon_spec(store, mime, size) is Some {
        custom_mime_icon_spec(store, mime, size)
    } else if names.len() == 0 {
        let gen = generic_icon_name_spec(mime);
        if ui::ui_icon_spec(store, gen, size) is Some {
            ui::ui_icon_spec(store, gen, size)
        } else {
            Some(
                HandleView::Named {
                    name: gen,
                    size,
                    fallbacks: seq![
                        "text-x-generic"@,
                        "application-octet-stream"@,
                        "unknown"@,
                    ],
                },
            )
        }
    } else {
        Some(
            HandleView::Named {
                name: names[0],
                size,
                fallbacks: names.subrange(1, names.len() as int) + seq![
                    "text-x-generic"@,
                    "application-octet-stream"@,
                ],
            },
        )
    }
}

/// Law: resolving a miss never comes up empty. Whatever the store holds
/// and whatever candidate list the oracle returned, some handle is decided:
/// the defensive `None` outcome is never freshly stored, so every lookup
/// ends in a usable handle.
pub proof fn lemma_fresh_icon_total(
    store: Map<Seq<char>, Seq<u8>>,
    mime: Seq<char>,
    size: u16,
    names: Seq<Seq<char>>,
)
    ensures
        fresh_icon_spec(store, mime, size, names) is Some,
{
}

/// Resolve a cache miss from the oracle's candidate list.
pub fn fresh_icon(store: &CustomIcons, mime: &str, size: u16, names: Vec<String>) -> (r: Option<
    IconHandle,
>)
    requires
        store.wf(),
    ensures
        opt_handle_view(r) == fresh_icon_spec(store@, mime@, size, names.deep_view()),
{
    if let Some(h) = get_custom_icon(store, mime, size) {
        return Some(h);
    }
    if names.len() == 0 {
        let gen = generic_icon_name(mime);
        if let Some(h) = ui::get_icon_base(store, gen, size) {
            return Some(h);
        }
        let mut fb: Vec<String> = Vec::new();
        fb.push("text-x-generic".to_owned());
        fb.push("application-octet-stream".to_owned());
        fb.push("unknown".to_owned());
        proof {
            assert(fb.deep_view() =~= seq![
                "text-x-generic"@,
                "application-octet-stream"@,
                "unknown"@,
            ]);
        }
        Some(IconHandle::Named { name: gen.to_owned(), size, fallbacks: fb })
    } else {
        let ghost names0 = names.deep_view();
        let mut names = names;
        let first = names.remove(0);
        names.push("text-x-generic".to_owned());
        names.push("application-octet-stream".to_owned());
        proof {
            assert(names.deep_view() =~= names0.subrange(1, names0.len() as int) + seq![
                "text-x-generic"@,
                "application-octet-stream"@,
            ]);
            assert(first@ == names0[0]);
        }
        Some(IconHandle::Named { name: first, size, fallbacks: names })
    }
}

// ------------------------------------------------------------------
// The memoizing cache
// ------------------------------------------------------------------

/// Identity of a cached resolution: exact (MIME type, pixel size) match,
/// with no size-bucketing and no MIME aliasing at this layer.
pub struct MimeIconKey {
    pub mime: String,
    pub size: u16,
}

/// The map an entry list denotes.
pub open spec fn cache_map(s: Seq<(MimeIconKey, Option<IconHandle>)>) -> Map<
    (Seq<char>, u16),
    Option<HandleView>,
>
    decreases s.len(),
{
    if s.len() == 0 {
        Map::empty()
    } else {
        cache_map(s.drop_last()).insert(
            (s.last().0.mime@, s.last().0.size),
            opt_handle_view(s.last().1),
        )
    }
}

proof fn lemma_cache_map_contains(s: Seq<(MimeIconKey, Option<IconHandle>)>, k: (Seq<char>, u16))
    ensures
        cache_map(s).contains_key(k) <==> exists|i: int|
            0 <= i < s.len() && (s[i].0.mime@, s[i].0.size) == k,
    decreases s.len(),
{
    if s.len() > 0 {
        lemma_cache_map_contains(s.drop_last(), k);
        if cache_map(s).contains_key(k) {
            if (s.last().0.mime@, s.last().0.size) == k {
                assert((s[s.len() - 1].0.mime@, s[s.len() - 1].0.size) == k);
            } else {
                let i = choose|i: int|
                    0 <= i < s.drop_last().len() && (
                    s.drop_last()[i].0.mime@,
                    s.drop_last()[i].0.size,
                    ) == k;
                assert((s[i].0.mime@, s[i].0.size) == k);
            }
        }
        if exists|i: int| 0 <= i < s.len() && (s[i].0.mime@, s[i].0.size) == k {
            let i = choose|i: int| 0 <= i < s.len() && (s[i].0.mime@, s[i].0.size) == k;
            if i < s.len() - 1 {
                assert((s.drop_last()[i].0.mime@, s.drop_last()[i].0.size) == k);
            }
        }
    }
}

proof fn lemma_cache_map_at(s: Seq<(MimeIconKey, Option<IconHandle>)>, i: int)
    requires
        0 <= i < s.len(),
        forall|j: int, k: int|
            0 <= j < k < s.len() ==> (s[j].0.mime@, s[j].0.size) != (s[k].0.mime@, s[k].0.size),
    ensures
        cache_map(s).contains_key((s[i].0.mime@, s[i].0.size)),
        cache_map(s)[(s[i].0.mime@, s[i].0.size)] == opt_handle_view(s[i].1),
    decreases s.len(),
{
    if i < s.len() - 1 {
        lemma_cache_map_at(s.drop_last(), i);
        assert(s.drop_last()[i] == s[i]);
        assert((s[i].0.mime@, s[i].0.size) != (s.last().0.mime@, s.last().0.size));
    }
}

/// What holds after a miss on `(mime, size)` was resolved with the oracle's
/// candidate list `names`: the outcome [`fresh_icon_spec`] gives was stored
/// under the key and returned.
pub open spec fn miss_post(
    old_cache: Map<(Seq<char>, u16), Option<HandleView>>,
    store: Map<Seq<char>, Seq<u8>>,
    new_cache: Map<(Seq<char>, u16), Option<HandleView>>,
    rv: Option<HandleView>,
    mime: Seq<char>,
    size: u16,
    names: Seq<Seq<char>>,
) -> bool {
    let v = fresh_icon_spec(store, mime, size, names);
    &&& new_cache == old_cache.insert((mime, size), v)
    &&& rv == v
}

/// The memoizing (MIME type, size) -> icon resolver: one bundled asset
/// store, one handle onto the system's shared-MIME-info database, and the
/// monotonically growing result cache. Entries are created on first lookup
/// and never removed.
pub struct MimeIconCache {
    entries: Vec<(MimeIconKey, Option<IconHandle>)>,
    info: xdg_mime::SharedMimeInfo,
    store: CustomIcons,
}

impl MimeIconCache {
    /// Well-formed: no key cached twice, and the store well-formed.
    pub closed spec fn wf(&self) -> bool {
        &&& self.store.wf()
        &&& forall|j: int, k: int|
            0 <= j < k < self.entries@.len() ==> (
            self.entries@[j].0.mime@,
            self.entries@[j].0.size,
            ) != (self.entries@[k].0.mime@, self.entries@[k].0.size)
    }

    /// The cached outcomes, as a map from (MIME string, size).
    pub closed spec fn cache_view(&self) -> Map<(Seq<char>, u16), Option<HandleView>> {
        cache_map(self.entries@)
    }

    /// The bundled assets behind this cache.
    pub closed spec fn store_view(&self) -> Map<Seq<char>, Seq<u8>> {
        self.store@
    }

    /// A fresh, empty cache over the given asset store and an already
    /// opened handle onto the system's shared-MIME-info database. Opening
    /// the database can abort when the platform's data directory is
    /// unknown or a database file is malformed, so the caller opens it and
    /// the verified library only composes it.
    pub fn new(store: CustomIcons, info: xdg_mime::SharedMimeInfo) -> (r: Self)
        requires
            store.wf(),
        ensures
            r.wf(),
            r.cache_view() == Map::<(Seq<char>, u16), Option<HandleView>>::empty(),
            r.store_view() == store@,
    {
        MimeIconCache { entries: Vec::new(), info, store }
    }

    /// Memoized resolution of one key. A hit returns the stored outcome and
    /// changes nothing. A miss resolves as [`fresh_icon_spec`] says, asking
    /// the oracle for candidate names only when no bundled custom icon
    /// answers, then stores the outcome and returns it.
    pub fn get(&mut self, key: MimeIconKey) -> (r: Option<IconHandle>)
        requires
            old(self).wf(),
        ensures
            final(self).wf(),
            final(self).store_view() == old(self).store_view(),
            old(self).cache_view().contains_key((key.mime@, key.size)) ==> {
                &&& final(self).cache_view() == old(self).cache_view()
                &&& opt_handle_view(r) == old(self).cache_view()[(key.mime@, key.size)]
            },
            !old(self).cache_view().contains_key((key.mime@, key.size)) ==> exists|
                names: Seq<Seq<char>>,
            |
                miss_post(
                    old(self).cache_view(),
                    old(self).store_view(),
                    final(self).cache_view(),
                    opt_handle_view(r),
                    key.mime@,
                    key.size,
                    names,
                ),
    {
        let n = self.entries.len();
        let mut i: usize = 0;
        while i < n
            invariant
                self.wf(),
                n == self.entries@.len(),
                i <= n,
                forall|j: int|
                    0 <= j < i ==> (self.entries@[j].0.mime@, self.entries@[j].0.size) != (
                    key.mime@,
                    key.size,
                    ),
            decreases n - i,
        {
            if str_eq(self.entries[i].0.mime.as_str(), key.mime.as_str()) && self.entries[i].0.size
                == key.size {
                proof {
                    lemma_cache_map_at(self.entries@, i as int);
                }
                return clone_opt_handle(&self.entries[i].1);
            }
            i += 1;
        }
        proof {
            lemma_cache_map_contains(self.entries@, (key.mime@, key.size));
        }
        let ghost mut names_view: Seq<Seq<char>> = Seq::empty();
        let v = match get_custom_icon(&self.store, key.mime.as_str(), key.size) {
            Some(h) => Some(h),
            None => {
                let names = oracle::lookup_icon_names(&self.info, key.mime.as_str());
                proof {
                    names_view = names.deep_view();
                }
                fresh_icon(&self.store, key.mime.as_str(), key.size, names)
            },
        };
        let out = clone_opt_handle(&v);
        self.entries.push((key, v));
        proof {
            assert(self.entries@.drop_last() =~= old(self).entries@);
            lemma_cache_map_contains(old(self).entries@, (key.mime@, key.size));
            assert(miss_post(
                old(self).cache_view(),
                old(self).store_view(),
                self.cache_view(),
                opt_handle_view(out),
                key.mime@,
                key.size,
                names_view,
            ));
        }
        out
    }
}

/// Law: memoization is idempotent. Once a miss on key `k` has stored the
/// outcome `v` in a cache that did not hold `k`, the key is present with
/// exactly `v`, a second lookup returns `v`, and storing what a lookup
/// returns changes the cache no further.
pub proof fn lemma_get_idempotent(
    m: Map<(Seq<char>, u16), Option<HandleView>>,
    k: (Seq<char>, u16),
    v: Option<HandleView>,
)
    requires
        !m.contains_key(k),
    ensures
        m.insert(k, v).contains_key(k),
        m.insert(k, v)[k] == v,
        m.insert(k, v).insert(k, m.insert(k, v)[k]) == m.insert(k, v),
{
    assert(m.insert(k, v).insert(k, m.insert(k, v)[k]) =~= m.insert(k, v));
}

/// Law: a guess that names an empty-file sentinel is always discarded for
/// the pure extension-based guess, whatever was sniffed and wherever the
/// path lives.
pub proof fn lemma_empty_file_override(
    guessed: Seq<char>,
    uncertain: bool,
    ext: Seq<char>,
    remote: bool,
)
    requires
        is_empty_file_mime_spec(guessed),
    ensures
        resolved_mime_spec(guessed, uncertain, ext, remote) == ext,
{
}

/// Law: an uncertain guess that names no directory or symlink falls back to
/// extension guessing for remote and local paths alike; an uncertain local
/// `inode/directory` guess is kept.
pub proof fn lemma_uncertain_divergence(guessed: Seq<char>, ext: Seq<char>)
    ensures
        !is_empty_file_mime_spec(guessed) && !is_non_file_mime_spec(guessed)
            ==> resolved_mime_spec(guessed, true, ext, true) == ext && resolved_mime_spec(
            guessed,
            true,
            ext,
            false,
        ) == ext,
        resolved_mime_spec("inode/directory"@, true, ext, false) == "inode/directory"@,
{
    reveal_strlit("inode/directory");
    reveal_strlit("inode/symlink");
    reveal_strlit("application/x-zerosize");
    reveal_strlit("inode/x-empty");
}

// ------------------------------------------------------------------
// Public entry points
// ------------------------------------------------------------------

/// What the global fallback name resolves to when even the cache stored
/// nothing: the bundled fallback asset when the store holds one, else the
/// themed fallback name with its terminal chain.
pub open spec fn fallback_handle_spec(store: Map<Seq<char>, Seq<u8>>, size: u16) -> HandleView {
    match ui::ui_icon_spec(store, "text-x-generic"@, size) {
        Some(h) => h,
        None => HandleView::Named {
            name: "text-x-generic"@,
            size,
            fallbacks: seq!["application-octet-stream"@, "unknown"@],
        },
    }
}

/// What holds of one icon lookup, `names` being the candidate list the
/// oracle supplied on a miss (unused on a hit): the outcome decided by the
/// cache (stored outcome on a hit, [`fresh_icon_spec`] on a miss, then
/// cached) is returned, a memoized `None` degrading to
/// [`fallback_handle_spec`].
pub open spec fn icon_post(
    old_cache: Map<(Seq<char>, u16), Option<HandleView>>,
    store: Map<Seq<char>, Seq<u8>>,
    new_cache: Map<(Seq<char>, u16), Option<HandleView>>,
    rv: HandleView,
    mime: Seq<char>,
    size: u16,
    names: Seq<Seq<char>>,
) -> bool {
    let k = (mime, size);
    let cached = if old_cache.contains_key(k) {
        old_cache[k]
    } else {
        fresh_icon_spec(store, mime, size, names)
    };
    &&& new_cache == (if old_cache.contains_key(k) {
        old_cache
    } else {
        old_cache.insert(k, cached)
    })
    &&& rv == (match cached {
        Some(h) => h,
        None => fallback_handle_spec(store, size),
    })
}

/// The icon for a MIME type at a pixel size: total, never fails, always a
/// usable handle. A memoized `None` outcome degrades to the global fallback
/// name at call time.
pub fn mime_icon(cache: &mut MimeIconCache, mime: String, size: u16) -> (r: IconHandle)
    requires
        old(cache).wf(),
    ensures
        final(cache).wf(),
        final(cache).store_view() == old(cache).store_view(),
        exists|names: Seq<Seq<char>>|
            icon_post(
                old(cache).cache_view(),
                old(cache).store_view(),
                final(cache).cache_view(),
                r@,
                mime@,
                size,
                names,
            ),
{
    let ghost k = (mime@, size);
    let got = cache.get(MimeIconKey { mime, size });
    let ghost gv = opt_handle_view(got);
    let ghost wnames: Seq<Seq<char>> = if old(cache).cache_view().contains_key(k) {
        Seq::empty()
    } else {
        choose|names: Seq<Seq<char>>|
            miss_post(
                old(cache).cache_view(),
                old(cache).store_view(),
                cache.cache_view(),
                gv,
                k.0,
                k.1,
                names,
            )
    };
    match got {
        Some(h) => {
            proof {
                assert(icon_post(
                    old(cache).cache_view(),
                    old(cache).store_view(),
                    cache.cache_view(),
                    h@,
                    k.0,
                    k.1,
                    wnames,
                ));
            }
            h
        },
        None => {
            let r = match ui::get_icon_base(&cache.store, "text-x-generic", size) {
                Some(h) => h,
                None => {
                    let mut fb: Vec<String> = Vec::new();
                    fb.push("application-octet-stream".to_owned());
                    fb.push("unknown".to_owned());
                    proof {
                        assert(fb.deep_view() =~= seq![
                            "application-octet-stream"@,
                            "unknown"@,
                        ]);
                    }
                    IconHandle::Named { name: "text-x-generic".to_owned(), size, fallbacks: fb }
                },
            };
            proof {
                assert(r@ == fallback_handle_spec(old(cache).store_view(), size));
                assert(icon_post(
                    old(cache).cache_view(),
                    old(cache).store_view(),
                    cache.cache_view(),
                    r@,
                    k.0,
                    k.1,
                    wnames,
                ));
            }
            r
        },
    }
}

/// Classify a path to a MIME type: total, never fails. A remote path is
/// guessed from its base name alone (no filesystem access); a remote path
/// with no base name to go by always degrades to the extension-based
/// guess; a local path may be content-sniffed. The guess is then resolved
/// as [`resolved_mime_spec`] says, the extension-based guess being the
/// ultimate fallback. Callers that hold their own refined guess (from file
/// metadata, say) decide with [`resolve_guess`] directly.
pub fn mime_for_path(cache: &MimeIconCache, path: &str, remote: bool) -> (r: String)
    ensures
        exists|g: Seq<char>, u: bool|
            r@ == resolved_mime_spec(g, u, oracle::extension_mime_of(path@), remote),
        remote && base_name_spec(path@).len() == 0 ==> r@ == oracle::extension_mime_of(path@),
{
    let (guessed, uncertain) = if remote {
        let name = base_name(path);
        if name.unicode_len() > 0 {
            oracle::guess_mime_file_name(&cache.info, name)
        } else {
            let g = oracle::guess_mime_unseeded(&cache.info);
            proof {
                reveal_strlit("application/octet-stream");
                reveal_strlit("application/x-zerosize");
                reveal_strlit("inode/x-empty");
            }
            g
        }
    } else {
        oracle::guess_mime_path(&cache.info, path)
    };
    let ghost g = guessed@;
    let ghost u = uncertain;
    let ext = oracle::extension_mime(path);
    let r = resolve_guess(guessed, uncertain, ext, remote);
    proof {
        assert(r@ == resolved_mime_spec(g, u, oracle::extension_mime_of(path@), remote));
    }
    r
}

/// The alias/inheritance chain the database records for a MIME type,
/// passed through unmodified: absent exactly when the database reports no
/// chain (with the parents lookup at hand, that is every type its alias
/// table does not list); when present, the unaliased type first, its
/// recorded parents after, so never empty. Exposed for callers, not
/// consumed by the cache itself.
pub fn parent_mime_types(cache: &MimeIconCache, mime: &str) -> (r: Option<Vec<String>>)
    ensures
        r matches Some(v) ==> v@.len() >= 1,
{
    oracle::parents_of(&cache.info, mime)
}

} // verus!
