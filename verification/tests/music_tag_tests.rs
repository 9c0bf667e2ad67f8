use music_manager::{music_tag_from_fields, TagField};

fn s(v: &str) -> Option<String> {
    Some(v.to_string())
}

#[test]
fn all_fields_present_build_a_tag() {
    let tag = music_tag_from_fields(
        s("One More Time"),
        s("Daft Punk"),
        s("Discovery"),
        s("Daft Punk"),
        true,
    )
    .expect("all fields are present");
    assert_eq!(tag.song_title, "One More Time");
    assert_eq!(tag.artist_name, "Daft Punk");
    assert_eq!(tag.album_title, "Discovery");
    assert_eq!(tag.album_artist, "Daft Punk");
    assert!(tag.replaygain);
}

#[test]
fn the_first_missing_field_is_reported() {
    assert_eq!(
        music_tag_from_fields(None, s("a"), s("b"), s("c"), false).unwrap_err(),
        TagField::Title
    );
    assert_eq!(
        music_tag_from_fields(s("t"), None, s("b"), s("c"), false).unwrap_err(),
        TagField::Artist
    );
    assert_eq!(
        music_tag_from_fields(s("t"), s("a"), None, s("c"), false).unwrap_err(),
        TagField::Album
    );
    assert_eq!(
        music_tag_from_fields(s("t"), s("a"), s("b"), None, false).unwrap_err(),
        TagField::AlbumArtist
    );
    assert_eq!(
        music_tag_from_fields(None, None, None, None, false).unwrap_err(),
        TagField::Title
    );
}
