use vstd::prelude::*;

verus! {

#[verifier::external_type_specification]
#[verifier::external_body]
pub struct ExSharedMimeInfo(xdg_mime::SharedMimeInfo);

/// The MIME type that pure extension-based guessing assigns to a path:
/// the first entry of the static extension table for the path's extension,
/// or `application/octet-stream` when the extension is unknown or absent.
/// The table is compiled in, so the result is a function of the path alone.
pub uninterp spec fn extension_mime_of(path: Seq<char>) -> Seq<char>;

/// Relies on mime_guess::from_path and MimeGuess::first_or_octet_stream:
/// the guess is read from a compiled-in extension table, so it depends on
/// the path string alone; an empty guess yields application/octet-stream.
#[verifier::external_body]
pub(crate) fn extension_mime(path: &str) -> (r: String)
    ensures
        r@ == extension_mime_of(path@),
{
    mime_guess::from_path(path).first_or_octet_stream().to_string()
}

/// Relies on xdg_mime::SharedMimeInfo::lookup_icon_names: the ordered
/// candidate icon names for a MIME type, most specific first, read from the
/// database loaded from disk; nothing is stated of the list. A string that
/// is no well-formed MIME type has no entry.
#[verifier::external_body]
pub(crate) fn lookup_icon_names(info: &xdg_mime::SharedMimeInfo, mime: &str) -> Vec<String> {
    match mime.parse::<mime_guess::Mime>() {
        Ok(m) => info.lookup_icon_names(&m),
        Err(_) => Vec::new(),
    }
}

/// Relies on xdg_mime's GuessBuilder seeded with a full path: the guesser
/// sniffs the file's content and metadata on disk, so only the pair's shape
/// is stated; the flag says whether the guess is uncertain.
#[verifier::external_body]
pub(crate) fn guess_mime_path(info: &xdg_mime::SharedMimeInfo, path: &str) -> (String, bool) {
    let mut gb = info.guess_mime_type();
    gb.path(path);
    let guess = gb.guess();
    (guess.mime_type().to_string(), guess.uncertain())
}

/// Relies on xdg_mime's GuessBuilder seeded with a bare file name: the
/// guesser matches the name against the database's globs, with no
/// filesystem access; the flag says whether the guess is uncertain.
#[verifier::external_body]
pub(crate) fn guess_mime_file_name(info: &xdg_mime::SharedMimeInfo, name: &str) -> (String, bool) {
    let mut gb = info.guess_mime_type();
    gb.file_name(name);
    let guess = gb.guess();
    (guess.mime_type().to_string(), guess.uncertain())
}

/// Relies on xdg_mime's GuessBuilder with nothing seeded, the guess made
/// for a remote path that has no base name to go by: with no file name and
/// no data the guesser gives up and returns the generic binary-stream type,
/// flagged uncertain, whatever the database holds.
#[verifier::external_body]
pub(crate) fn guess_mime_unseeded(info: &xdg_mime::SharedMimeInfo) -> (r: (String, bool))
    ensures
        r.0@ == "application/octet-stream"@,
        r.1 == true,
{
    let mut gb = info.guess_mime_type();
    let guess = gb.guess();
    (guess.mime_type().to_string(), guess.uncertain())
}

/// Relies on xdg_mime::SharedMimeInfo::get_parents: `Some` exactly when
/// the database's alias table lists the type as an alias; the list then
/// begins with the unaliased target, its recorded parents after, so it is
/// never empty. `None` for a type that is no alias, and for a string that
/// is no well-formed MIME type. Which types are aliases depends on the
/// database on disk, so no more is stated.
#[verifier::external_body]
pub(crate) fn parents_of(info: &xdg_mime::SharedMimeInfo, mime: &str) -> (r: Option<Vec<String>>)
    ensures
        r matches Some(v) ==> v@.len() >= 1,
{
    match mime.parse::<mime_guess::Mime>() {
        Ok(m) => info.get_parents(&m).map(|v| v.into_iter().map(|p| p.to_string()).collect()),
        Err(_) => None,
    }
}

} // verus!
