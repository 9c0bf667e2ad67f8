//! The library-wide configuration, read once at startup by the surrounding
//! binary and passed into every operation as an immutable value.

use vstd::prelude::*;

verus! {

/// Library-wide settings.  Paths are carried as plain strings; the
/// surrounding binary is the one that touches the filesystem.
#[derive(Clone, Debug)]
pub struct Config {
    /// The root directory that holds all category directories.
    pub music_dir: String,
    /// The fallback directory files go to when a category is not found.
    pub default_dir: String,
    /// File extensions that are allowed in the music folders.
    pub file_extensions: Vec<String>,
    /// Files expected in every album directory, as glob patterns.
    pub album_files: Option<Vec<String>>,
}

} // verus!
