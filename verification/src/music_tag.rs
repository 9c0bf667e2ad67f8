//! The metadata record a music file carries, and its validation.
//!
//! A tag is read from a file by the surrounding binary; the library only
//! sees the four optional text fields and the loudness marker, and turns
//! them into a complete [`MusicTag`] or reports the first missing field.

use vstd::prelude::*;

verus! {

/// The metadata of one music file, complete: filing and checking rely on
/// every field being present.
#[derive(Clone, Debug)]
pub struct MusicTag {
    pub song_title: String,
    pub artist_name: String,
    pub album_title: String,
    pub album_artist: String,
    /// Whether the file carries loudness-normalization (replaygain) tags.
    pub replaygain: bool,
}

/// A tag field that filing requires; reported when it is missing.
#[derive(Clone, Copy, Debug, PartialEq, Eq, Structural)]
pub enum TagField {
    Title,
    Artist,
    Album,
    AlbumArtist,
}

/// Builds a [`MusicTag`] from the fields read out of a file, in one
/// validation step: the first missing field, in the order title, artist,
/// album, album artist, is the error.
pub fn music_tag_from_fields(
    title: Option<String>,
    artist: Option<String>,
    album: Option<String>,
    album_artist: Option<String>,
    replaygain: bool,
) -> (r: Result<MusicTag, TagField>)
    ensures
        title is None ==> r == Err::<MusicTag, TagField>(TagField::Title),
        title is Some && artist is None ==> r == Err::<MusicTag, TagField>(TagField::Artist),
        title is Some && artist is Some && album is None ==> r == Err::<MusicTag, TagField>(
            TagField::Album,
        ),
        title is Some && artist is Some && album is Some && album_artist is None ==> r == Err::<
            MusicTag,
            TagField,
        >(TagField::AlbumArtist),
        (title is Some && artist is Some && album is Some && album_artist is Some) ==> (
        r matches Ok(tag) && tag.song_title == title->Some_0 && tag.artist_name == artist->Some_0
            && tag.album_title == album->Some_0 && tag.album_artist == album_artist->Some_0
            && tag.replaygain == replaygain),
{
    let Some(song_title) = title else { return Err(TagField::Title) };
    let Some(artist_name) = artist else { return Err(TagField::Artist) };
    let Some(album_title) = album else { return Err(TagField::Album) };
    let Some(album_artist) = album_artist else { return Err(TagField::AlbumArtist) };
    Ok(MusicTag { song_title, artist_name, album_title, album_artist, replaygain })
}

} // verus!
