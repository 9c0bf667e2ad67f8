//! Computing where a music file belongs.
//!
//! Filing never touches the filesystem: it turns a file's tag and the
//! category's settings into the destination directory, as path components
//! relative to the category directory, and the surrounding binary creates
//! the directories and moves the file, keeping its name.  A file whose tag
//! could not be read is diverted to the category's reserved `Untagged`
//! directory when that exists, and is a per-file failure otherwise.

use vstd::prelude::*;

use crate::music_tag::MusicTag;
use crate::patterns::glob_match_ci;
use crate::patterns::glob_match_ci_exec;
use crate::sanitize::change_forbidden_chars;
use crate::sanitize::sanitize_spec;
use crate::text::strings_view;
use crate::FilerError;

verus! {

/// Where one file went: into a computed album directory, given by its path
/// components relative to the category directory, or into `Untagged`.
#[derive(Clone, Debug)]
pub enum Outcome {
    Filed(Vec<String>),
    Untagged,
}

/// One file to be filed: its name (no directory part) and its tag, or no
/// tag where none could be read.
#[derive(Clone, Debug)]
pub struct SourceFile {
    pub name: String,
    pub tag: Option<MusicTag>,
}

/// One file of an album batch: the source directory it sits in, its name
/// within that directory, and its tag.
#[derive(Clone, Debug)]
pub struct AlbumSourceFile {
    pub dir: String,
    pub name: String,
    pub tag: Option<MusicTag>,
}

/// The destination of a tagged file, relative to the category directory:
/// the sanitized album title alone for a single-artist category, the
/// sanitized album artist and then the sanitized album title otherwise.
pub open spec fn destination_components(tag: MusicTag, artist_category: bool) -> Seq<Seq<char>> {
    if artist_category {
        seq![sanitize_spec(tag.album_title@)]
    } else {
        seq![sanitize_spec(tag.album_artist@), sanitize_spec(tag.album_title@)]
    }
}

/// What filing one file must come to: a readable tag is filed to its
/// computed destination; an unreadable one goes to `Untagged` when that
/// directory exists and fails otherwise.
pub open spec fn outcome_matches(
    r: Result<Outcome, FilerError>,
    tag: Option<MusicTag>,
    artist_category: bool,
    untagged_exists: bool,
) -> bool {
    match tag {
        Some(t) => r matches Ok(o) && o matches Outcome::Filed(c) && strings_view(c@)
            == destination_components(t, artist_category),
        None => if untagged_exists {
            r matches Ok(o) && o is Untagged
        } else {
            r == Err::<Outcome, FilerError>(FilerError::NoTagAndNoUntaggedDir)
        },
    }
}

/// Computes the album directory one file goes to, as [`outcome_matches`]
/// prescribes.
pub fn get_album_dir(tag: &Option<MusicTag>, artist_category: bool, untagged_exists: bool) -> (r:
    Result<Outcome, FilerError>)
    ensures
        outcome_matches(r, *tag, artist_category, untagged_exists),
{
    match tag {
        Some(t) => {
            let mut components: Vec<String> = Vec::new();
            if !artist_category {
                components.push(change_forbidden_chars(t.album_artist.as_str()));
            }
            components.push(change_forbidden_chars(t.album_title.as_str()));
            proof {
                assert(strings_view(components@) =~= destination_components(*t, artist_category));
            }
            Ok(Outcome::Filed(components))
        },
        None => {
            if untagged_exists {
                Ok(Outcome::Untagged)
            } else {
                Err(FilerError::NoTagAndNoUntaggedDir)
            }
        },
    }
}

/// Files a batch of single files, each on its own: one outcome per file, in
/// order, and a failure for one file never stops the others.
pub fn move_to_category(files: &Vec<SourceFile>, artist_category: bool, untagged_exists: bool) -> (r:
    Vec<Result<Outcome, FilerError>>)
    ensures
        r@.len() == files@.len(),
        forall|i: int|
            0 <= i < files@.len() ==> outcome_matches(
                #[trigger] r@[i],
                files@[i].tag,
                artist_category,
                untagged_exists,
            ),
{
    let mut results: Vec<Result<Outcome, FilerError>> = Vec::new();
    let mut i: usize = 0;
    while i < files.len()
        invariant
            i <= files@.len(),
            results@.len() == i,
            forall|k: int|
                0 <= k < i ==> outcome_matches(
                    #[trigger] results@[k],
                    files@[k].tag,
                    artist_category,
                    untagged_exists,
                ),
        decreases files@.len() - i,
    {
        let outcome = get_album_dir(&files[i].tag, artist_category, untagged_exists);
        results.push(outcome);
        i += 1;
    }
    results
}

/// The index of the first file that sits in directory `d`; the length of
/// `files` when none does.
pub open spec fn first_with_dir(files: Seq<AlbumSourceFile>, d: Seq<char>) -> int
    decreases files.len(),
{
    if files.len() == 0 {
        0
    } else if files[0].dir@ == d {
        0
    } else {
        1 + first_with_dir(files.drop_first(), d)
    }
}

proof fn lemma_first_with_dir(files: Seq<AlbumSourceFile>, d: Seq<char>)
    requires
        exists|i: int| 0 <= i < files.len() && #[trigger] files[i].dir@ == d,
    ensures
        0 <= first_with_dir(files, d) < files.len(),
        files[first_with_dir(files, d)].dir@ == d,
        forall|k: int| 0 <= k < first_with_dir(files, d) ==> #[trigger] files[k].dir@ != d,
    decreases files.len(),
{
    if files.len() > 0 && files[0].dir@ != d {
        let i = choose|i: int| 0 <= i < files.len() && #[trigger] files[i].dir@ == d;
        assert(files.drop_first()[i - 1].dir@ == d);
        lemma_first_with_dir(files.drop_first(), d);
        assert(forall|k: int|
            1 <= k < files.len() ==> #[trigger] files[k].dir@ == files.drop_first()[k - 1].dir@);
    }
}

/// Files an album batch.  Files sharing a source directory form one group
/// and share one destination, resolved once from the group's first file, so
/// sibling tracks of an album land together even when their tags disagree.
pub fn move_album_to_category(
    files: &Vec<AlbumSourceFile>,
    artist_category: bool,
    untagged_exists: bool,
) -> (r: Vec<Result<Outcome, FilerError>>)
    ensures
        r@.len() == files@.len(),
        forall|i: int|
            0 <= i < files@.len() ==> outcome_matches(
                #[trigger] r@[i],
                files@[first_with_dir(files@, files@[i].dir@)].tag,
                artist_category,
                untagged_exists,
            ),
{
    let mut results: Vec<Result<Outcome, FilerError>> = Vec::new();
    let mut i: usize = 0;
    while i < files.len()
        invariant
            i <= files@.len(),
            results@.len() == i,
            forall|k: int|
                0 <= k < i ==> outcome_matches(
                    #[trigger] results@[k],
                    files@[first_with_dir(files@, files@[k].dir@)].tag,
                    artist_category,
                    untagged_exists,
                ),
        decreases files@.len() - i,
    {
        let mut j: usize = 0;
        while !crate::text::str_eq(files[j].dir.as_str(), files[i].dir.as_str())
            invariant
                i < files@.len(),
                j <= i,
                forall|k: int| 0 <= k < j ==> #[trigger] files@[k].dir@ != files@[i as int].dir@,
            decreases i - j,
        {
            j += 1;
        }
        proof {
            assert(files@[i as int].dir@ == files@[i as int].dir@);
            lemma_first_with_dir(files@, files@[i as int].dir@);
            let fwd = first_with_dir(files@, files@[i as int].dir@);
            assert(j == fwd) by {
                if j < fwd {
                    assert(files@[j as int].dir@ != files@[i as int].dir@);
                }
                if fwd < j {
                    assert(files@[fwd].dir@ != files@[i as int].dir@);
                }
            }
        }
        let outcome = get_album_dir(&files[j].tag, artist_category, untagged_exists);
        results.push(outcome);
        i += 1;
    }
    results
}

/// The file names that match the pattern `cover.*`, case ignored, in their
/// original order.
pub open spec fn cover_file_names(names: Seq<String>) -> Seq<String>
    decreases names.len(),
{
    if names.len() == 0 {
        Seq::empty()
    } else {
        let rest = cover_file_names(names.drop_last());
        if glob_match_ci("cover.*"@, names.last()@) {
            rest.push(names.last())
        } else {
            rest
        }
    }
}

/// Selects the cover-art files of a source directory: the names matching
/// `cover.*` with case ignored.  An album batch moves them to the resolved
/// album directory once per group, before the tracks.
pub fn covers_to_move(dir_files: &Vec<String>) -> (r: Vec<String>)
    ensures
        r@ == cover_file_names(dir_files@),
{
    let mut covers: Vec<String> = Vec::new();
    let mut i: usize = 0;
    while i < dir_files.len()
        invariant
            i <= dir_files@.len(),
            covers@ == cover_file_names(dir_files@.take(i as int)),
        decreases dir_files@.len() - i,
    {
        proof {
            assert(dir_files@.take(i + 1).drop_last() =~= dir_files@.take(i as int));
            assert(dir_files@.take(i + 1).last() == dir_files@[i as int]);
        }
        if glob_match_ci_exec("cover.*", dir_files[i].as_str()) {
            covers.push(dir_files[i].clone());
        }
        i += 1;
    }
    proof {
        assert(dir_files@.take(dir_files@.len() as int) =~= dir_files@);
    }
    covers
}

/// Law: filing is determined by the album artist and album title alone; two
/// tags that agree on both are filed to the same destination.  A second file
/// of the same album therefore lands in the same album directory.
pub proof fn lemma_same_album_same_destination(t1: MusicTag, t2: MusicTag, artist_category: bool)
    requires
        t1.album_artist@ == t2.album_artist@,
        t1.album_title@ == t2.album_title@,
    ensures
        destination_components(t1, artist_category) == destination_components(t2, artist_category),
{
    assert(destination_components(t1, artist_category) =~= destination_components(
        t2,
        artist_category,
    ));
}

/// Law: in a single-artist category the destination path has no artist
/// component: it is the sanitized album title alone.
pub proof fn lemma_artist_category_no_artist_component(t: MusicTag)
    ensures
        destination_components(t, true).len() == 1,
        destination_components(t, true)[0] == sanitize_spec(t.album_title@),
{
}

} // verus!
