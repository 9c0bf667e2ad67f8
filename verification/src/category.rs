//! Resolving a user-supplied category name to a category directory.
//!
//! The surrounding binary lists the immediate subdirectories of the library
//! root and hands their names in; the library picks the first name that
//! contains the query as a substring, in listing order, or falls back to the
//! configured default directory.

use vstd::prelude::*;

use crate::text::matching_names;
use crate::text::search;
use crate::FilerError;

verus! {

/// The per-category configuration stored inside a category directory.
#[derive(Clone, Debug)]
pub struct CategoryConfig {
    /// The display name, which may differ from the directory name.
    pub name: String,
    pub description: String,
    /// Whether the category is dedicated to one artist; albums then sit
    /// directly under the category directory.  Absent means no.
    pub artist_category: Option<bool>,
    /// Files expected in every album of this category, as glob patterns,
    /// merged with the library-wide list.
    pub album_files: Option<Vec<String>>,
}

/// Picks the category whose directory name contains `query`.
///
/// `category_names` are the names of the immediate subdirectories of the
/// library root, in listing order.  With no match the result is
/// `CategoryNotFound`; with several matches the first one in listing order
/// wins, deliberately and without ranking.
pub fn find_category(category_names: &Vec<String>, query: &str) -> (r: Result<String, FilerError>)
    ensures
        r is Err <==> matching_names(category_names@, query@).len() == 0,
        r is Err ==> r->Err_0 == FilerError::CategoryNotFound,
        r is Ok ==> r->Ok_0 == matching_names(category_names@, query@)[0],
{
    let found = search(query, category_names.clone());
    if found.is_empty() {
        Err(FilerError::CategoryNotFound)
    } else {
        let name = found[0].clone();
        Ok(name)
    }
}

/// Resolves `query` to a category directory name, with the default
/// directory as fallback.
///
/// `Ok(Some(name))` names the matching category; `Ok(None)` says no
/// category matched and the default directory, which the caller saw exists,
/// is to be used without category metadata.  When no category matches and
/// the default directory is missing too there is nowhere left to put a
/// file: `DefaultDirMissing`, the one hard failure of filing.
pub fn move_setup(category_names: &Vec<String>, query: &str, default_dir_exists: bool) -> (r:
    Result<Option<String>, FilerError>)
    ensures
        matching_names(category_names@, query@).len() > 0 ==> (r is Ok && r->Ok_0 is Some
            && r->Ok_0->Some_0 == matching_names(category_names@, query@)[0]),
        matching_names(category_names@, query@).len() == 0 && default_dir_exists ==> (r matches Ok(
            c,
        ) && c is None),
        matching_names(category_names@, query@).len() == 0 && !default_dir_exists ==> r == Err::<
            Option<String>,
            FilerError,
        >(FilerError::DefaultDirMissing),
{
    match find_category(category_names, query) {
        Ok(name) => Ok(Some(name)),
        Err(_) => {
            if default_dir_exists {
                Ok(None)
            } else {
                Err(FilerError::DefaultDirMissing)
            }
        },
    }
}

} // verus!
