use music_manager::{
    check, check_album, check_path_and_tags, extension_of, is_media_extension,
    merge_album_patterns, AlbumSnapshot, CategoryConfig, CategoryDirSnapshot, FileEntry, MusicTag,
    SubdirSnapshot, WarningKind,
};

fn tag(artist: &str, album: &str, replaygain: bool) -> MusicTag {
    MusicTag {
        song_title: "Song".to_string(),
        artist_name: artist.to_string(),
        album_title: album.to_string(),
        album_artist: artist.to_string(),
        replaygain,
    }
}

fn entry(name: &str, tag: Option<MusicTag>) -> FileEntry {
    FileEntry { name: name.to_string(), tag }
}

fn strings(list: &[&str]) -> Vec<String> {
    list.iter().map(|s| s.to_string()).collect()
}

#[test]
fn missing_replaygain_is_the_only_warning() {
    let files = vec![entry("01.opus", Some(tag("Daft Punk", "Discovery", false)))];
    let warnings = check_album(
        &Some("Daft Punk".to_string()),
        &"Discovery".to_string(),
        &files,
        &strings(&["opus"]),
        &Vec::new(),
        true,
    );
    assert_eq!(warnings.len(), 1);
    assert_eq!(warnings[0].kind, WarningKind::MissingReplaygain);
    assert_eq!(warnings[0].subject, "01.opus");
}

#[test]
fn album_in_order_has_no_warnings() {
    let files = vec![entry("01.opus", Some(tag("Daft Punk", "Discovery", true)))];
    let warnings = check_album(
        &Some("Daft Punk".to_string()),
        &"Discovery".to_string(),
        &files,
        &strings(&["opus"]),
        &Vec::new(),
        true,
    );
    assert!(warnings.is_empty());
}

#[test]
fn stray_jpg_is_not_a_wrong_extension_but_patterns_still_warn() {
    let files = vec![entry("cover.jpg", None)];
    let warnings = check_album(
        &None,
        &"Discovery".to_string(),
        &files,
        &strings(&["flac"]),
        &strings(&["*.flac"]),
        false,
    );
    assert_eq!(warnings.len(), 1);
    assert_eq!(warnings[0].kind, WarningKind::MissingAlbumFile);
    assert_eq!(warnings[0].subject, "*.flac");
}

#[test]
fn a_matched_pattern_gives_no_warning() {
    let files = vec![entry("01.flac", None), entry("cover.jpg", None)];
    let warnings = check_album(
        &None,
        &"Discovery".to_string(),
        &files,
        &strings(&["flac"]),
        &strings(&["cover.*", "*.flac"]),
        false,
    );
    assert!(warnings.is_empty());
}

#[test]
fn album_patterns_are_matched_case_sensitively() {
    let files = vec![entry("cover.jpg", None)];
    let warnings = check_album(
        &None,
        &"Discovery".to_string(),
        &files,
        &strings(&["flac"]),
        &strings(&["COVER.*"]),
        false,
    );
    assert_eq!(warnings.len(), 1);
    assert_eq!(warnings[0].kind, WarningKind::MissingAlbumFile);
}

#[test]
fn empty_album_directory_warns_no_files() {
    let warnings = check_album(
        &None,
        &"Discovery".to_string(),
        &Vec::new(),
        &strings(&["opus"]),
        &strings(&["cover.*"]),
        true,
    );
    assert_eq!(warnings.len(), 1);
    assert_eq!(warnings[0].kind, WarningKind::NoFiles);
    assert_eq!(warnings[0].subject, "Discovery");
}

#[test]
fn wrong_artist_folder_is_reported() {
    let files = vec![entry("01.opus", Some(tag("Daft Punk", "Discovery", true)))];
    let warnings = check_path_and_tags(
        &files,
        &strings(&["opus"]),
        &Some("Justice".to_string()),
        &"Discovery".to_string(),
    );
    assert_eq!(warnings.len(), 1);
    assert_eq!(warnings[0].kind, WarningKind::WrongArtistFolder);
}

#[test]
fn wrong_album_folder_is_reported() {
    let files = vec![entry("01.opus", Some(tag("Daft Punk", "Discovery", true)))];
    let warnings = check_path_and_tags(
        &files,
        &strings(&["opus"]),
        &Some("Daft Punk".to_string()),
        &"Homework".to_string(),
    );
    assert_eq!(warnings.len(), 1);
    assert_eq!(warnings[0].kind, WarningKind::WrongAlbumFolder);
}

#[test]
fn both_folder_mismatches_are_reported() {
    let files = vec![entry("01.opus", Some(tag("Daft Punk", "Discovery", true)))];
    let warnings = check_path_and_tags(
        &files,
        &strings(&["opus"]),
        &Some("Justice".to_string()),
        &"Homework".to_string(),
    );
    let kinds: Vec<WarningKind> = warnings.iter().map(|w| w.kind).collect();
    assert_eq!(kinds, vec![WarningKind::WrongArtistFolder, WarningKind::WrongAlbumFolder]);
}

#[test]
fn folder_names_are_compared_sanitized() {
    let files = vec![entry("01.opus", Some(tag("AC/DC", "Who Made Who?", true)))];
    let warnings = check_path_and_tags(
        &files,
        &strings(&["opus"]),
        &Some("AC\u{2044}DC".to_string()),
        &"Who Made Who\u{FF1F}".to_string(),
    );
    assert!(warnings.is_empty());
}

#[test]
fn unreadable_tag_is_reported_during_deep_check() {
    let files = vec![entry("01.opus", None)];
    let warnings = check_path_and_tags(
        &files,
        &strings(&["opus"]),
        &None,
        &"Discovery".to_string(),
    );
    assert_eq!(warnings.len(), 1);
    assert_eq!(warnings[0].kind, WarningKind::TagReadFailure);
}

#[test]
fn files_with_other_extensions_are_skipped_by_the_deep_check() {
    let files = vec![entry("cover.jpg", None), entry("notes", None)];
    let warnings = check_path_and_tags(
        &files,
        &strings(&["opus"]),
        &None,
        &"Discovery".to_string(),
    );
    assert!(warnings.is_empty());
}

#[test]
fn known_media_file_with_disallowed_extension_warns() {
    let files = vec![entry("rip.MKV", None)];
    let warnings = check_album(
        &None,
        &"Discovery".to_string(),
        &files,
        &strings(&["opus"]),
        &Vec::new(),
        false,
    );
    assert_eq!(warnings.len(), 1);
    assert_eq!(warnings[0].kind, WarningKind::WrongExtension);
    assert_eq!(warnings[0].subject, "rip.MKV");
}

#[test]
fn allowed_extension_is_not_a_wrong_extension() {
    let files = vec![entry("01.OPUS", None)];
    let warnings = check_album(
        &None,
        &"Discovery".to_string(),
        &files,
        &strings(&["opus"]),
        &Vec::new(),
        false,
    );
    assert!(warnings.is_empty());
}

#[test]
fn media_extension_reference_set() {
    assert!(is_media_extension("mkv"));
    assert!(is_media_extension("opus"));
    assert!(is_media_extension("flac"));
    assert!(!is_media_extension("jpg"));
    assert!(!is_media_extension("txt"));
    assert!(!is_media_extension(""));
}

#[test]
fn extension_of_file_names() {
    assert_eq!(extension_of("a.opus"), Some("opus".to_string()));
    assert_eq!(extension_of("archive.tar.gz"), Some("gz".to_string()));
    assert_eq!(extension_of("README"), None);
    assert_eq!(extension_of(".config"), None);
    assert_eq!(extension_of("trailing."), Some("".to_string()));
}

#[test]
fn patterns_merge_library_defaults_before_category_ones() {
    let merged = merge_album_patterns(
        &Some(strings(&["cover.*"])),
        &Some(strings(&["*.log", "*.cue"])),
    );
    assert_eq!(merged, strings(&["cover.*", "*.log", "*.cue"]));
    assert_eq!(merge_album_patterns(&None, &None), Vec::<String>::new());
    assert_eq!(merge_album_patterns(&Some(strings(&["cover.*"])), &None), strings(&["cover.*"]));
}

fn album(name: &str, files: Vec<FileEntry>) -> AlbumSnapshot {
    AlbumSnapshot { name: name.to_string(), files }
}

#[test]
fn check_walks_artist_then_album_directories() {
    let category = CategoryDirSnapshot {
        name: "Rock".to_string(),
        config: Some(CategoryConfig {
            name: "Rock".to_string(),
            description: "Rock music".to_string(),
            artist_category: None,
            album_files: Some(strings(&["cover.*"])),
        }),
        subdirs: vec![SubdirSnapshot {
            name: "Daft Punk".to_string(),
            files: Vec::new(),
            subdirs: vec![
                album("Discovery", vec![
                    entry("01.opus", Some(tag("Daft Punk", "Discovery", true))),
                    entry("cover.jpg", None),
                ]),
                album("Homework", vec![entry("01.opus", Some(tag("Daft Punk", "Homework", false)))]),
            ],
        }],
    };
    let reports = check(&vec![category], &strings(&["opus"]), &None, true);
    assert_eq!(reports.len(), 1);
    let report = &reports[0];
    assert_eq!(report.category, "Rock");
    assert!(report.config_read);
    assert_eq!(report.albums.len(), 2);
    assert_eq!(report.albums[0].artist, Some("Daft Punk".to_string()));
    assert_eq!(report.albums[0].album, "Discovery");
    assert!(report.albums[0].warnings.is_empty());
    assert_eq!(report.albums[1].album, "Homework");
    let kinds: Vec<WarningKind> = report.albums[1].warnings.iter().map(|w| w.kind).collect();
    assert_eq!(kinds, vec![WarningKind::MissingReplaygain, WarningKind::MissingAlbumFile]);
}

#[test]
fn check_treats_artist_category_subdirs_as_albums() {
    let category = CategoryDirSnapshot {
        name: "Tom Waits".to_string(),
        config: Some(CategoryConfig {
            name: "Tom Waits".to_string(),
            description: "One artist".to_string(),
            artist_category: Some(true),
            album_files: None,
        }),
        subdirs: vec![SubdirSnapshot {
            name: "Rain Dogs".to_string(),
            files: vec![entry("01.opus", Some(tag("Tom Waits", "Rain Dogs", true)))],
            subdirs: Vec::new(),
        }],
    };
    let reports = check(&vec![category], &strings(&["opus"]), &None, true);
    assert_eq!(reports.len(), 1);
    assert_eq!(reports[0].albums.len(), 1);
    assert_eq!(reports[0].albums[0].artist, None);
    assert_eq!(reports[0].albums[0].album, "Rain Dogs");
    assert!(reports[0].albums[0].warnings.is_empty());
}

#[test]
fn unreadable_category_config_is_reported_and_skipped() {
    let broken = CategoryDirSnapshot {
        name: "Broken".to_string(),
        config: None,
        subdirs: vec![SubdirSnapshot {
            name: "Artist".to_string(),
            files: Vec::new(),
            subdirs: vec![album("Album", Vec::new())],
        }],
    };
    let fine = CategoryDirSnapshot {
        name: "Fine".to_string(),
        config: Some(CategoryConfig {
            name: "Fine".to_string(),
            description: String::new(),
            artist_category: Some(false),
            album_files: None,
        }),
        subdirs: Vec::new(),
    };
    let reports = check(&vec![broken, fine], &strings(&["opus"]), &None, false);
    assert_eq!(reports.len(), 2);
    assert!(!reports[0].config_read);
    assert!(reports[0].albums.is_empty());
    assert!(reports[1].config_read);
}
