//! A verified engine for organizing a personal audio-file collection.
//!
//! The library keeps a music collection in a directory tree of user-defined
//! categories.  It resolves a user-supplied category name to a directory,
//! computes where an audio file belongs from its embedded metadata tags, and
//! checks an existing tree against the invariants the filing rules produce:
//! every audio file sits in the album directory named after its sanitized
//! album title, under an artist directory unless the category is dedicated to
//! a single artist.
//!
//! All decisions are made here, over plain values, and carry contracts; the
//! surrounding binary performs the actual directory listings, tag reads and
//! file moves and feeds the results in.

use vstd::prelude::*;

mod category;
mod check;
mod config;
mod filing;
mod music_tag;
mod patterns;
mod sanitize;
mod text;

pub use category::find_category;
pub use category::move_setup;
pub use category::CategoryConfig;
pub use check::check;
pub use check::check_album;
pub use check::check_category;
pub use check::check_path_and_tags;
pub use check::is_media_extension;
pub use check::merge_album_patterns;
pub use check::AlbumReport;
pub use check::AlbumSnapshot;
pub use check::CategoryDirSnapshot;
pub use check::CategoryReport;
pub use check::FileEntry;
pub use check::SubdirSnapshot;
pub use check::Warning;
pub use check::WarningKind;
pub use config::Config;
pub use filing::covers_to_move;
pub use filing::get_album_dir;
pub use filing::move_album_to_category;
pub use filing::move_to_category;
pub use filing::AlbumSourceFile;
pub use filing::Outcome;
pub use filing::SourceFile;
pub use music_tag::music_tag_from_fields;
pub use music_tag::MusicTag;
pub use music_tag::TagField;
pub use sanitize::change_forbidden_chars;
pub use text::extension_of;
pub use text::search;
pub use text::str_contains;

verus! {

/// How an attempt to file a music file can fail.
///
/// `CategoryNotFound` and `DefaultDirMissing` come from category resolution;
/// `NoTagAndNoUntaggedDir` means a file had no readable tag and the category
/// has no `Untagged` fallback directory, so there is nowhere to put it.
#[derive(Clone, Copy, Debug, PartialEq, Eq, Structural)]
pub enum FilerError {
    CategoryNotFound,
    DefaultDirMissing,
    NoTagAndNoUntaggedDir,
}

} // verus!
