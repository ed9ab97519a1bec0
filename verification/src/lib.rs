//! Resolution of MIME types to displayable icons for a file-manager GUI.
//!
//! The crate composes three icon sources with a fixed precedence: a bundled
//! icon store ([`custom_icons::CustomIcons`]), the system icon theme
//! (reached by name through [`handle::IconHandle::Named`]), and a hardcoded
//! fallback name. A memoizing cache ([`mime_icon::MimeIconCache`]) keyed by
//! (MIME type, pixel size) guarantees that each distinct key is resolved at
//! most once. A classifier ([`mime_icon::mime_for_path`]) turns a filesystem
//! path into a MIME type, with special cases for empty files and uncertain
//! content guesses.

pub mod codec;
pub mod custom_icons;
pub mod handle;
pub mod mime_icon;
pub mod oracle;
pub mod strutil;
