//! Checking an existing library tree against the filing invariants.
//!
//! The surrounding binary walks the tree and reads tags, and hands in a
//! snapshot of plain values: category directories, their immediate
//! subdirectories, the files of each album directory and, for the deep
//! check, each audio file's tag.  The checker turns a snapshot into a
//! structured report; an album with no warnings is in order, and the report
//! says so by its empty warning list.

use vstd::prelude::*;

use crate::category::CategoryConfig;
use crate::music_tag::MusicTag;
use crate::patterns::glob_match;
use crate::patterns::glob_match_exec;
use crate::sanitize::sanitize_spec;
use crate::text::ascii_lowercase;
use crate::text::contains_string;
use crate::text::extension_of;
use crate::text::extension_spec;
use crate::text::list_contains_str;
use crate::text::lower_spec;
use crate::text::str_eq;

verus! {

/// What a single warning is about.
#[derive(Clone, Copy, Debug, PartialEq, Eq, Structural)]
pub enum WarningKind {
    /// The album directory holds no files at all.
    NoFiles,
    /// An audio file's tag could not be read during the deep check.
    TagReadFailure,
    /// A file sits under an artist directory that does not match its tag.
    WrongArtistFolder,
    /// A file sits in an album directory that does not match its tag.
    WrongAlbumFolder,
    /// An audio file carries no loudness-normalization tags.
    MissingReplaygain,
    /// A known media file whose extension the library does not allow.
    WrongExtension,
    /// No file of the album matches a configured album-completeness pattern.
    MissingAlbumFile,
}

/// One finding of the checker: its kind, and the file name or pattern it is
/// about.
#[derive(Clone, Debug)]
pub struct Warning {
    pub kind: WarningKind,
    pub subject: String,
}

/// One file of an album directory, with its tag where the deep check read
/// one; no tag means the tag was unreadable or was not asked for.
#[derive(Clone, Debug)]
pub struct FileEntry {
    pub name: String,
    pub tag: Option<MusicTag>,
}

/// An album directory: its name and the files directly inside it.
#[derive(Clone, Debug)]
pub struct AlbumSnapshot {
    pub name: String,
    pub files: Vec<FileEntry>,
}

/// An immediate subdirectory of a category directory, read both ways: with
/// its own files, for a single-artist category where it is itself an album,
/// and with its subdirectories, for an ordinary category where it is an
/// artist directory holding album directories.
#[derive(Clone, Debug)]
pub struct SubdirSnapshot {
    pub name: String,
    pub files: Vec<FileEntry>,
    pub subdirs: Vec<AlbumSnapshot>,
}

/// A category directory as found on disk: its name, its configuration, or
/// none where the configuration could not be read, and its immediate
/// subdirectories.
#[derive(Clone, Debug)]
pub struct CategoryDirSnapshot {
    pub name: String,
    pub config: Option<CategoryConfig>,
    pub subdirs: Vec<SubdirSnapshot>,
}

/// The findings for one album directory.
#[derive(Clone, Debug)]
pub struct AlbumReport {
    /// The artist directory the album sits under, if the category has them.
    pub artist: Option<String>,
    pub album: String,
    pub warnings: Vec<Warning>,
}

/// The findings for one category: whether its configuration could be read,
/// and one report per album directory, in walking order.
#[derive(Clone, Debug)]
pub struct CategoryReport {
    pub category: String,
    pub config_read: bool,
    pub albums: Vec<AlbumReport>,
}

/// The deep-check findings about one tagged file's place in the tree: a
/// wrong-artist-folder finding when the sanitized album artist differs from
/// the artist directory, and, in all cases, a wrong-album-folder finding
/// when the sanitized album title differs from the album directory.
pub open spec fn folder_warnings(
    t: MusicTag,
    artist: Option<String>,
    album_name: Seq<char>,
    file_name: String,
) -> Seq<Warning> {
    (match artist {
        Some(a) => if sanitize_spec(t.album_artist@) != a@ {
            seq![Warning { kind: WarningKind::WrongArtistFolder, subject: file_name }]
        } else {
            Seq::empty()
        },
        None => Seq::empty(),
    }) + (if sanitize_spec(t.album_title@) != album_name {
        seq![Warning { kind: WarningKind::WrongAlbumFolder, subject: file_name }]
    } else {
        Seq::empty()
    })
}

/// The deep-check findings about one file: nothing for a file whose
/// extension is not an allowed audio extension; a tag-read failure, or the
/// folder findings followed by a missing-replaygain finding, for one that
/// is.
pub open spec fn file_tag_warnings(
    f: FileEntry,
    exts: Seq<String>,
    artist: Option<String>,
    album_name: Seq<char>,
) -> Seq<Warning> {
    match extension_spec(f.name@) {
        Some(e) => if contains_string(exts, e) {
            match f.tag {
                None => seq![Warning { kind: WarningKind::TagReadFailure, subject: f.name }],
                Some(t) => folder_warnings(t, artist, album_name, f.name) + (if !t.replaygain {
                    seq![Warning { kind: WarningKind::MissingReplaygain, subject: f.name }]
                } else {
                    Seq::empty()
                }),
            }
        } else {
            Seq::empty()
        },
        None => Seq::empty(),
    }
}

/// The deep-check findings of a whole album directory, file by file in
/// order.
pub open spec fn path_tag_warnings(
    files: Seq<FileEntry>,
    exts: Seq<String>,
    artist: Option<String>,
    album_name: Seq<char>,
) -> Seq<Warning>
    decreases files.len(),
{
    if files.len() == 0 {
        Seq::empty()
    } else {
        path_tag_warnings(files.drop_last(), exts, artist, album_name) + file_tag_warnings(
            files.last(),
            exts,
            artist,
            album_name,
        )
    }
}

/// Checks each audio file's place and tags: is it in the folder its tag
/// names, and does it carry replaygain tags?  Files whose extension is not
/// in `file_extensions` are not looked at.
pub fn check_path_and_tags(
    files: &Vec<FileEntry>,
    file_extensions: &Vec<String>,
    artist: &Option<String>,
    album_name: &String,
) -> (w: Vec<Warning>)
    ensures
        w@ == path_tag_warnings(files@, file_extensions@, *artist, album_name@),
{
    let mut w: Vec<Warning> = Vec::new();
    let mut i: usize = 0;
    while i < files.len()
        invariant
            i <= files@.len(),
            w@ == path_tag_warnings(files@.take(i as int), file_extensions@, *artist, album_name@),
        decreases files@.len() - i,
    {
        proof {
            assert(files@.take(i + 1).drop_last() =~= files@.take(i as int));
            assert(files@.take(i + 1).last() == files@[i as int]);
        }
        let ghost w_start = w@;
        let ghost fw = file_tag_warnings(files@[i as int], file_extensions@, *artist, album_name@);
        match extension_of(files[i].name.as_str()) {
            None => {
                proof {
                    assert(w@ =~= w_start + fw);
                }
            },
            Some(e) => {
                if !list_contains_str(file_extensions, e.as_str()) {
                    proof {
                        assert(w@ =~= w_start + fw);
                    }
                } else {
                    match &files[i].tag {
                        None => {
                            w.push(
                                Warning {
                                    kind: WarningKind::TagReadFailure,
                                    subject: files[i].name.clone(),
                                },
                            );
                            proof {
                                assert(w@ =~= w_start + fw);
                            }
                        },
                        Some(t) => {
                            let ghost w_before = w@;
                            if let Some(a) = artist {
                                let san_artist = crate::sanitize::change_forbidden_chars(
                                    t.album_artist.as_str(),
                                );
                                if !str_eq(san_artist.as_str(), a.as_str()) {
                                    w.push(
                                        Warning {
                                            kind: WarningKind::WrongArtistFolder,
                                            subject: files[i].name.clone(),
                                        },
                                    );
                                }
                            }
                            let san_album = crate::sanitize::change_forbidden_chars(
                                t.album_title.as_str(),
                            );
                            if !str_eq(san_album.as_str(), album_name.as_str()) {
                                w.push(
                                    Warning {
                                        kind: WarningKind::WrongAlbumFolder,
                                        subject: files[i].name.clone(),
                                    },
                                );
                            }
                            proof {
                                assert(w@ =~= w_before + folder_warnings(
                                    *t,
                                    *artist,
                                    album_name@,
                                    files@[i as int].name,
                                ));
                            }
                            if !t.replaygain {
                                w.push(
                                    Warning {
                                        kind: WarningKind::MissingReplaygain,
                                        subject: files[i].name.clone(),
                                    },
                                );
                            }
                            proof {
                                assert(w@ =~= w_start + fw);
                            }
                        },
                    }
                }
            },
        }
        proof {
            assert(w@ == w_start + fw);
            assert(w@ == path_tag_warnings(
                files@.take(i + 1),
                file_extensions@,
                *artist,
                album_name@,
            ));
        }
        i += 1;
    }
    proof {
        assert(files@.take(files@.len() as int) =~= files@);
    }
    w
}

/// The reference set of known audio and video file extensions.  A file
/// whose extension is in this set is a media file; one with a different
/// extension, a stray cover image say, is not.  The checker looks
/// lowercased extensions up here, so the few uppercase entries never match;
/// they stay for completeness of the set.
pub open spec fn is_media_ext_spec(e: Seq<char>) -> bool {
    ||| e == "3gp"@
    ||| e == "3g2"@
    ||| e == "aa"@
    ||| e == "aac"@
    ||| e == "aax"@
    ||| e == "act"@
    ||| e == "aiff"@
    ||| e == "alac"@
    ||| e == "tak"@
    ||| e == "amr"@
    ||| e == "ape"@
    ||| e == "au"@
    ||| e == "awb"@
    ||| e == "dss"@
    ||| e == "dvf"@
    ||| e == "flac"@
    ||| e == "gsm"@
    ||| e == "iklax"@
    ||| e == "ivs"@
    ||| e == "m4a"@
    ||| e == "m4b"@
    ||| e == "m4p"@
    ||| e == "mmf"@
    ||| e == "movpkg"@
    ||| e == "mpg"@
    ||| e == "mp2"@
    ||| e == "mpeg"@
    ||| e == "mpe"@
    ||| e == "mpv"@
    ||| e == "m2v"@
    ||| e == "mp3"@
    ||| e == "mp4"@
    ||| e == "m4v"@
    ||| e == "mpc"@
    ||| e == "msv"@
    ||| e == "nmf"@
    ||| e == "ogg"@
    ||| e == "oga"@
    ||| e == "mogg"@
    ||| e == "ogv"@
    ||| e == "opus"@
    ||| e == "ra"@
    ||| e == "rm"@
    ||| e == "rmvb"@
    ||| e == "raw"@
    ||| e == "rf64"@
    ||| e == "sln"@
    ||| e == "tta"@
    ||| e == "voc"@
    ||| e == "vox"@
    ||| e == "wav"@
    ||| e == "wma"@
    ||| e == "wv"@
    ||| e == "webm"@
    ||| e == "8svx"@
    ||| e == "cda"@
    ||| e == "mkv"@
    ||| e == "flv"@
    ||| e == "f4v"@
    ||| e == "f4p"@
    ||| e == "f4a"@
    ||| e == "f4b"@
    ||| e == "vob"@
    ||| e == "drc"@
    ||| e == "gif"@
    ||| e == "gifv"@
    ||| e == "mng"@
    ||| e == "avi"@
    ||| e == "MTS"@
    ||| e == "M2TS"@
    ||| e == "TS"@
    ||| e == "mov"@
    ||| e == "qt"@
    ||| e == "wmv"@
    ||| e == "yuv"@
    ||| e == "viv"@
    ||| e == "asf"@
    ||| e == "amv"@
    ||| e == "mxf"@
    ||| e == "roq"@
    ||| e == "nsv"@
}

/// Membership of an extension in the reference set of known media
/// extensions.
#[verifier::rlimit(30)]
pub fn is_media_extension(ext: &str) -> (r: bool)
    ensures
        r == is_media_ext_spec(ext@),
{
    str_eq(ext, "3gp") || str_eq(ext, "3g2") || str_eq(ext, "aa") || str_eq(ext, "aac") || str_eq(
        ext,
        "aax",
    ) || str_eq(ext, "act") || str_eq(ext, "aiff") || str_eq(ext, "alac") || str_eq(ext, "tak")
        || str_eq(ext, "amr") || str_eq(ext, "ape") || str_eq(ext, "au") || str_eq(ext, "awb")
        || str_eq(ext, "dss") || str_eq(ext, "dvf") || str_eq(ext, "flac") || str_eq(ext, "gsm")
        || str_eq(ext, "iklax") || str_eq(ext, "ivs") || str_eq(ext, "m4a") || str_eq(ext, "m4b")
        || str_eq(ext, "m4p") || str_eq(ext, "mmf") || str_eq(ext, "movpkg") || str_eq(ext, "mpg")
        || str_eq(ext, "mp2") || str_eq(ext, "mpeg") || str_eq(ext, "mpe") || str_eq(ext, "mpv")
        || str_eq(ext, "m2v") || str_eq(ext, "mp3") || str_eq(ext, "mp4") || str_eq(ext, "m4v")
        || str_eq(ext, "mpc") || str_eq(ext, "msv") || str_eq(ext, "nmf") || str_eq(ext, "ogg")
        || str_eq(ext, "oga") || str_eq(ext, "mogg") || str_eq(ext, "ogv") || str_eq(ext, "opus")
        || str_eq(ext, "ra") || str_eq(ext, "rm") || str_eq(ext, "rmvb") || str_eq(ext, "raw")
        || str_eq(ext, "rf64") || str_eq(ext, "sln") || str_eq(ext, "tta") || str_eq(ext, "voc")
        || str_eq(ext, "vox") || str_eq(ext, "wav") || str_eq(ext, "wma") || str_eq(ext, "wv")
        || str_eq(ext, "webm") || str_eq(ext, "8svx") || str_eq(ext, "cda") || str_eq(ext, "mkv")
        || str_eq(ext, "flv") || str_eq(ext, "f4v") || str_eq(ext, "f4p") || str_eq(ext, "f4a")
        || str_eq(ext, "f4b") || str_eq(ext, "vob") || str_eq(ext, "drc") || str_eq(ext, "gif")
        || str_eq(ext, "gifv") || str_eq(ext, "mng") || str_eq(ext, "avi") || str_eq(ext, "MTS")
        || str_eq(ext, "M2TS") || str_eq(ext, "TS") || str_eq(ext, "mov") || str_eq(ext, "qt")
        || str_eq(ext, "wmv") || str_eq(ext, "yuv") || str_eq(ext, "viv") || str_eq(ext, "asf")
        || str_eq(ext, "amv") || str_eq(ext, "mxf") || str_eq(ext, "roq") || str_eq(ext, "nsv")
}

/// The finding about one file's extension: lowercased, not allowed in the
/// library, yet a known media extension.
pub open spec fn file_ext_warning(f: FileEntry, exts: Seq<String>) -> Seq<Warning> {
    match extension_spec(f.name@) {
        Some(e) => if !contains_string(exts, lower_spec(e)) && is_media_ext_spec(lower_spec(e)) {
            seq![Warning { kind: WarningKind::WrongExtension, subject: f.name }]
        } else {
            Seq::empty()
        },
        None => Seq::empty(),
    }
}

/// The extension findings of a whole album directory, file by file in
/// order.
pub open spec fn extension_warnings(files: Seq<FileEntry>, exts: Seq<String>) -> Seq<Warning>
    decreases files.len(),
{
    if files.len() == 0 {
        Seq::empty()
    } else {
        extension_warnings(files.drop_last(), exts) + file_ext_warning(files.last(), exts)
    }
}

/// Some file of the album matches the pattern.
pub open spec fn some_file_matches(files: Seq<FileEntry>, pattern: Seq<char>) -> bool {
    exists|i: int| 0 <= i < files.len() && glob_match(pattern, files[i].name@)
}

/// The findings about the album-completeness patterns: one warning per
/// pattern that no file of the album matches, in pattern order.
pub open spec fn pattern_warnings(patterns: Seq<String>, files: Seq<FileEntry>) -> Seq<Warning>
    decreases patterns.len(),
{
    if patterns.len() == 0 {
        Seq::empty()
    } else {
        let rest = pattern_warnings(patterns.drop_last(), files);
        if !some_file_matches(files, patterns.last()@) {
            rest.push(Warning { kind: WarningKind::MissingAlbumFile, subject: patterns.last() })
        } else {
            rest
        }
    }
}

/// Everything the checker has to say about one album directory: nothing but
/// a no-files warning for an empty one; otherwise the deep tag findings
/// when they were asked for, then the extension findings, then the
/// album-completeness findings.
pub open spec fn album_warnings(
    artist: Option<String>,
    album_name: String,
    files: Seq<FileEntry>,
    exts: Seq<String>,
    patterns: Seq<String>,
    check_tags: bool,
) -> Seq<Warning> {
    if files.len() == 0 {
        seq![Warning { kind: WarningKind::NoFiles, subject: album_name }]
    } else {
        (if check_tags {
            path_tag_warnings(files, exts, artist, album_name@)
        } else {
            Seq::empty()
        }) + extension_warnings(files, exts) + pattern_warnings(patterns, files)
    }
}

/// Checks one album directory, as [`album_warnings`] prescribes.  An empty
/// warning list means the album is in order.
pub fn check_album(
    artist: &Option<String>,
    album_name: &String,
    files: &Vec<FileEntry>,
    file_extensions: &Vec<String>,
    album_patterns: &Vec<String>,
    check_tags: bool,
) -> (w: Vec<Warning>)
    ensures
        w@ == album_warnings(
            *artist,
            *album_name,
            files@,
            file_extensions@,
            album_patterns@,
            check_tags,
        ),
{
    if files.len() == 0 {
        let mut w: Vec<Warning> = Vec::new();
        w.push(Warning { kind: WarningKind::NoFiles, subject: album_name.clone() });
        proof {
            assert(w@ =~= album_warnings(
                *artist,
                *album_name,
                files@,
                file_extensions@,
                album_patterns@,
                check_tags,
            ));
        }
        return w;
    }
    let mut w: Vec<Warning> = if check_tags {
        check_path_and_tags(files, file_extensions, artist, album_name)
    } else {
        Vec::new()
    };
    let ghost tag_part = w@;
    let mut i: usize = 0;
    while i < files.len()
        invariant
            i <= files@.len(),
            w@ == tag_part + extension_warnings(files@.take(i as int), file_extensions@),
        decreases files@.len() - i,
    {
        proof {
            assert(files@.take(i + 1).drop_last() =~= files@.take(i as int));
            assert(files@.take(i + 1).last() == files@[i as int]);
        }
        let ghost w_start = w@;
        let ghost fw = file_ext_warning(files@[i as int], file_extensions@);
        match extension_of(files[i].name.as_str()) {
            None => {
                proof {
                    assert(w@ =~= w_start + fw);
                }
            },
            Some(e) => {
                let le = ascii_lowercase(e.as_str());
                if !list_contains_str(file_extensions, le.as_str()) && is_media_extension(
                    le.as_str(),
                ) {
                    w.push(
                        Warning { kind: WarningKind::WrongExtension, subject: files[i].name.clone() },
                    );
                }
                proof {
                    assert(w@ =~= w_start + fw);
                }
            },
        }
        i += 1;
    }
    proof {
        assert(files@.take(files@.len() as int) =~= files@);
    }
    let ghost ext_part = w@;
    let mut p: usize = 0;
    while p < album_patterns.len()
        invariant
            p <= album_patterns@.len(),
            files@.len() > 0,
            ext_part == tag_part + extension_warnings(files@, file_extensions@),
            w@ == ext_part + pattern_warnings(album_patterns@.take(p as int), files@),
        decreases album_patterns@.len() - p,
    {
        proof {
            assert(album_patterns@.take(p + 1).drop_last() =~= album_patterns@.take(p as int));
            assert(album_patterns@.take(p + 1).last() == album_patterns@[p as int]);
        }
        let mut j: usize = 0;
        let mut found = false;
        while !found && j < files.len()
            invariant
                j <= files@.len(),
                !found ==> forall|k: int|
                    0 <= k < j ==> !glob_match(
                        album_patterns@[p as int]@,
                        #[trigger] files@[k].name@,
                    ),
                found ==> some_file_matches(files@, album_patterns@[p as int]@),
                p < album_patterns@.len(),
            decreases files@.len() - j, (if found { 0int } else { 1int }),
        {
            if glob_match_exec(album_patterns[p].as_str(), files[j].name.as_str()) {
                found = true;
            } else {
                j += 1;
            }
        }
        if !found {
            w.push(
                Warning { kind: WarningKind::MissingAlbumFile, subject: album_patterns[p].clone() },
            );
            proof {
                assert(!some_file_matches(files@, album_patterns@[p as int]@));
            }
        }
        proof {
            assert(w@ =~= ext_part + pattern_warnings(album_patterns@.take(p + 1), files@));
        }
        p += 1;
    }
    proof {
        assert(album_patterns@.take(album_patterns@.len() as int) =~= album_patterns@);
        assert(w@ =~= album_warnings(
            *artist,
            *album_name,
            files@,
            file_extensions@,
            album_patterns@,
            check_tags,
        ));
    }
    w
}

/// The library-wide album-completeness patterns followed by the category's
/// own, either list possibly absent.
pub open spec fn merged_patterns_spec(
    defaults: Option<Vec<String>>,
    specific: Option<Vec<String>>,
) -> Seq<String> {
    (match defaults {
        Some(v) => v@,
        None => Seq::empty(),
    }) + (match specific {
        Some(v) => v@,
        None => Seq::empty(),
    })
}

/// Merges the library-wide and the per-category album-completeness
/// patterns, in that order.
pub fn merge_album_patterns(defaults: &Option<Vec<String>>, specific: &Option<Vec<String>>) -> (r:
    Vec<String>)
    ensures
        r@ == merged_patterns_spec(*defaults, *specific),
{
    let mut merged: Vec<String> = Vec::new();
    let ghost d = (match defaults {
        Some(v) => v@,
        None => Seq::<String>::empty(),
    });
    let ghost s = (match specific {
        Some(v) => v@,
        None => Seq::<String>::empty(),
    });
    if let Some(v) = defaults {
        let mut i: usize = 0;
        while i < v.len()
            invariant
                i <= v@.len(),
                v@ == d,
                merged@ == d.take(i as int),
            decreases v@.len() - i,
        {
            merged.push(v[i].clone());
            proof {
                assert(merged@ =~= d.take(i + 1));
            }
            i += 1;
        }
    }
    proof {
        assert(merged@ =~= d);
    }
    if let Some(v) = specific {
        let mut i: usize = 0;
        while i < v.len()
            invariant
                i <= v@.len(),
                v@ == s,
                merged@ == d + s.take(i as int),
            decreases v@.len() - i,
        {
            merged.push(v[i].clone());
            proof {
                assert(merged@ =~= d + s.take(i + 1));
            }
            i += 1;
        }
    }
    proof {
        assert(merged@ =~= merged_patterns_spec(*defaults, *specific));
    }
    merged
}

/// A category holds one artist's work exactly when its configuration says
/// so; an absent flag means no.
pub open spec fn is_artist_category(cfg: CategoryConfig) -> bool {
    cfg.artist_category == Some(true)
}

/// The album directories of one artist directory, each paired with the
/// artist's name.
pub open spec fn subdir_units(s: SubdirSnapshot) -> Seq<(Option<String>, AlbumSnapshot)> {
    s.subdirs@.map_values(|a: AlbumSnapshot| (Some(s.name), a))
}

/// The album directories under a run of artist directories, in walking
/// order.
pub open spec fn units_rec(subdirs: Seq<SubdirSnapshot>) -> Seq<(Option<String>, AlbumSnapshot)>
    decreases subdirs.len(),
{
    if subdirs.len() == 0 {
        Seq::empty()
    } else {
        units_rec(subdirs.drop_last()) + subdir_units(subdirs.last())
    }
}

/// The album directories a category check visits, with the artist directory
/// each sits under: for a single-artist category the immediate
/// subdirectories themselves, with no artist; otherwise the subdirectories
/// of each artist directory, in walking order.
pub open spec fn album_units(cat: CategoryDirSnapshot) -> Seq<(Option<String>, AlbumSnapshot)> {
    if cat.config matches Some(cfg) && is_artist_category(cfg) {
        cat.subdirs@.map_values(
            |s: SubdirSnapshot| (None::<String>, AlbumSnapshot { name: s.name, files: s.files }),
        )
    } else {
        units_rec(cat.subdirs@)
    }
}

/// The report of one album is the one [`check_album`] computes for its
/// place in the tree.
pub open spec fn album_report_matches(
    rep: AlbumReport,
    unit: (Option<String>, AlbumSnapshot),
    exts: Seq<String>,
    patterns: Seq<String>,
    check_tags: bool,
) -> bool {
    rep.artist == unit.0 && rep.album == unit.1.name && rep.warnings@ == album_warnings(
        unit.0,
        unit.1.name,
        unit.1.files@,
        exts,
        patterns,
        check_tags,
    )
}

/// Every album of `reps` lines up with the unit at its index.
pub open spec fn album_reports_match(
    reps: Seq<AlbumReport>,
    units: Seq<(Option<String>, AlbumSnapshot)>,
    exts: Seq<String>,
    patterns: Seq<String>,
    check_tags: bool,
) -> bool {
    reps.len() == units.len() && (forall|k: int|
        0 <= k < units.len() ==> album_report_matches(
            #[trigger] reps[k],
            units[k],
            exts,
            patterns,
            check_tags,
        ))
}

/// What checking one category must come to: an unreadable configuration is
/// reported as such and nothing under the category is visited; otherwise
/// every album directory gets the [`check_album`] report, against the
/// merged album-completeness patterns.
pub open spec fn category_report_matches(
    rep: CategoryReport,
    cat: CategoryDirSnapshot,
    exts: Seq<String>,
    default_patterns: Option<Vec<String>>,
    check_tags: bool,
) -> bool {
    rep.category == cat.name && (match cat.config {
        None => !rep.config_read && rep.albums@.len() == 0,
        Some(cfg) => rep.config_read && album_reports_match(
            rep.albums@,
            album_units(cat),
            exts,
            merged_patterns_spec(default_patterns, cfg.album_files),
            check_tags,
        ),
    })
}

/// Checks one category directory, as [`category_report_matches`]
/// prescribes.
pub fn check_category(
    cat: &CategoryDirSnapshot,
    file_extensions: &Vec<String>,
    default_album_files: &Option<Vec<String>>,
    check_tags: bool,
) -> (rep: CategoryReport)
    ensures
        category_report_matches(rep, *cat, file_extensions@, *default_album_files, check_tags),
{
    match &cat.config {
        None => CategoryReport {
            category: cat.name.clone(),
            config_read: false,
            albums: Vec::new(),
        },
        Some(cfg) => {
            let patterns = merge_album_patterns(default_album_files, &cfg.album_files);
            let artist_cat = match cfg.artist_category {
                Some(b) => b,
                None => false,
            };
            let mut albums: Vec<AlbumReport> = Vec::new();
            if artist_cat {
                let ghost units = album_units(*cat);
                let mut i: usize = 0;
                while i < cat.subdirs.len()
                    invariant
                        i <= cat.subdirs@.len(),
                        units == album_units(*cat),
                        units.len() == cat.subdirs@.len(),
                        forall|k: int|
                            0 <= k < cat.subdirs@.len() ==> #[trigger] units[k] == (
                            None::<String>,
                            AlbumSnapshot {
                                name: cat.subdirs@[k].name,
                                files: cat.subdirs@[k].files,
                            },
                            ),
                        album_reports_match(
                            albums@,
                            units.take(i as int),
                            file_extensions@,
                            patterns@,
                            check_tags,
                        ),
                    decreases cat.subdirs@.len() - i,
                {
                    let s = &cat.subdirs[i];
                    let no_artist: Option<String> = None;
                    let warnings = check_album(
                        &no_artist,
                        &s.name,
                        &s.files,
                        file_extensions,
                        &patterns,
                        check_tags,
                    );
                    albums.push(AlbumReport { artist: None, album: s.name.clone(), warnings });
                    proof {
                        assert(units.take(i + 1).drop_last() =~= units.take(i as int));
                        assert(album_report_matches(
                            albums@.last(),
                            units[i as int],
                            file_extensions@,
                            patterns@,
                            check_tags,
                        ));
                    }
                    i += 1;
                }
                proof {
                    assert(units.take(units.len() as int) =~= units);
                }
            } else {
                let ghost units = album_units(*cat);
                let mut i: usize = 0;
                while i < cat.subdirs.len()
                    invariant
                        i <= cat.subdirs@.len(),
                        units == album_units(*cat),
                        units == units_rec(cat.subdirs@),
                        album_reports_match(
                            albums@,
                            units_rec(cat.subdirs@.take(i as int)),
                            file_extensions@,
                            patterns@,
                            check_tags,
                        ),
                    decreases cat.subdirs@.len() - i,
                {
                    let s = &cat.subdirs[i];
                    let artist_name: Option<String> = Some(s.name.clone());
                    let ghost outer_done = units_rec(cat.subdirs@.take(i as int));
                    let mut j: usize = 0;
                    while j < s.subdirs.len()
                        invariant
                            j <= s.subdirs@.len(),
                            i < cat.subdirs@.len(),
                            s == &cat.subdirs@[i as int],
                            artist_name == Some(cat.subdirs@[i as int].name),
                            outer_done == units_rec(cat.subdirs@.take(i as int)),
                            album_reports_match(
                                albums@,
                                outer_done + s.subdirs@.take(j as int).map_values(
                                    |a: AlbumSnapshot| (Some(cat.subdirs@[i as int].name), a),
                                ),
                                file_extensions@,
                                patterns@,
                                check_tags,
                            ),
                        decreases s.subdirs@.len() - j,
                    {
                        let a = &s.subdirs[j];
                        let warnings = check_album(
                            &artist_name,
                            &a.name,
                            &a.files,
                            file_extensions,
                            &patterns,
                            check_tags,
                        );
                        albums.push(
                            AlbumReport {
                                artist: Some(s.name.clone()),
                                album: a.name.clone(),
                                warnings,
                            },
                        );
                        proof {
                            let f = |a: AlbumSnapshot| (Some(cat.subdirs@[i as int].name), a);
                            assert(s.subdirs@.take(j + 1).map_values(f) =~= s.subdirs@.take(
                                j as int,
                            ).map_values(f).push(f(s.subdirs@[j as int])));
                            assert(outer_done + s.subdirs@.take(j + 1).map_values(f) =~= (outer_done
                                + s.subdirs@.take(j as int).map_values(f)).push(
                                f(s.subdirs@[j as int]),
                            ));
                            assert(album_report_matches(
                                albums@.last(),
                                f(s.subdirs@[j as int]),
                                file_extensions@,
                                patterns@,
                                check_tags,
                            ));
                        }
                        j += 1;
                    }
                    proof {
                        let f = |a: AlbumSnapshot| (Some(cat.subdirs@[i as int].name), a);
                        assert(s.subdirs@.take(s.subdirs@.len() as int) =~= s.subdirs@);
                        assert(subdir_units(cat.subdirs@[i as int]) == s.subdirs@.map_values(f));
                        assert(cat.subdirs@.take(i + 1).drop_last() =~= cat.subdirs@.take(i as int));
                        assert(cat.subdirs@.take(i + 1).last() == cat.subdirs@[i as int]);
                        assert(units_rec(cat.subdirs@.take(i + 1)) == outer_done + subdir_units(
                            cat.subdirs@[i as int],
                        ));
                    }
                    i += 1;
                }
                proof {
                    assert(cat.subdirs@.take(cat.subdirs@.len() as int) =~= cat.subdirs@);
                }
            }
            CategoryReport { category: cat.name.clone(), config_read: true, albums }
        },
    }
}

/// Checks a run of category directories, each on its own: one report per
/// category, in order, and a category whose configuration cannot be read
/// does not stop the others.
pub fn check(
    categories: &Vec<CategoryDirSnapshot>,
    file_extensions: &Vec<String>,
    default_album_files: &Option<Vec<String>>,
    check_tags: bool,
) -> (r: Vec<CategoryReport>)
    ensures
        r@.len() == categories@.len(),
        forall|i: int|
            0 <= i < categories@.len() ==> category_report_matches(
                #[trigger] r@[i],
                categories@[i],
                file_extensions@,
                *default_album_files,
                check_tags,
            ),
{
    let mut reports: Vec<CategoryReport> = Vec::new();
    let mut i: usize = 0;
    while i < categories.len()
        invariant
            i <= categories@.len(),
            reports@.len() == i,
            forall|k: int|
                0 <= k < i ==> category_report_matches(
                    #[trigger] reports@[k],
                    categories@[k],
                    file_extensions@,
                    *default_album_files,
                    check_tags,
                ),
        decreases categories@.len() - i,
    {
        let rep = check_category(&categories[i], file_extensions, default_album_files, check_tags);
        reports.push(rep);
        i += 1;
    }
    reports
}

} // verus!
