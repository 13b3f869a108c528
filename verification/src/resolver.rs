//! Finding a program on the search path.
//!
//! A directory holds a program where one of its regular files has the
//! program's name, the case of ASCII letters ignored. Of several such files
//! the first in the listing is taken, and of several such directories the
//! first on the search path.

use vstd::prelude::*;
use crate::environment::{DirEntryView, Environment, EnvironmentView};
use crate::search::{first_where, lemma_first_where_absent, lemma_first_where_found};
use crate::text::{eq_ignore_ascii_case, same_ignoring_ascii_case, text_of, views};

verus! {

/// Where a program was found.
#[derive(Clone, Debug, PartialEq, Eq)]
pub struct Location {
    /// The directory, as the search path names it.
    pub dir: String,
    /// The file's name, as the directory spells it.
    pub file: String,
}

/// A location as its contracts see it.
pub struct LocationView {
    pub dir: Seq<char>,
    pub file: Seq<char>,
}

impl View for Location {
    type V = LocationView;

    open spec fn view(&self) -> LocationView {
        LocationView { dir: self.dir@, file: self.file@ }
    }
}

/// The predicate that holds of the regular files whose name is `name`, the
/// case of ASCII letters ignored.
pub open spec fn is_candidate(name: Seq<char>) -> spec_fn(DirEntryView) -> bool {
    |e: DirEntryView| e.is_file && same_ignoring_ascii_case(e.name, name)
}

/// The name of the first candidate for `name` among `entries`.
pub open spec fn file_in(entries: Seq<DirEntryView>, name: Seq<char>) -> Option<Seq<char>> {
    match first_where(entries, is_candidate(name)) {
        Some(i) => Some(entries[i].name),
        None => None,
    }
}

/// The name of the first candidate for `name` in the directory `dir`. A
/// directory that could not be listed has none.
pub open spec fn file_at(env: EnvironmentView, name: Seq<char>, dir: Seq<char>) -> Option<
    Seq<char>,
> {
    match env.listing(dir) {
        Some(entries) => file_in(entries, name),
        None => None,
    }
}

/// The predicate that holds of the directories with a candidate for `name`.
pub open spec fn holds(env: EnvironmentView, name: Seq<char>) -> spec_fn(Seq<char>) -> bool {
    |dir: Seq<char>| file_at(env, name, dir) is Some
}

/// The first directory of `search_path` that holds `name`, with the file
/// found there.
pub open spec fn executable(
    env: EnvironmentView,
    name: Seq<char>,
    search_path: Seq<Seq<char>>,
) -> Option<LocationView> {
    match first_where(search_path, holds(env, name)) {
        Some(i) => Some(
            LocationView { dir: search_path[i], file: file_at(env, name, search_path[i]).unwrap() },
        ),
        None => None,
    }
}

/// The view of a location that may be missing.
pub open spec fn location_of(at: Option<Location>) -> Option<LocationView> {
    match at {
        Some(l) => Some(l@),
        None => None,
    }
}

/// Looks for `file_name` among the regular files of the directory `dir`.
pub fn find_file<'a>(file_name: &str, dir: &str, env: &'a Environment) -> (found: Option<&'a str>)
    ensures
        text_of(found) == file_at(env@, file_name@, dir@),
{
    match env.listing(dir) {
        None => None,
        Some(directory) => {
            let ghost entries = directory@.entries;
            let mut i: usize = 0;
            while i < directory.entries.len()
                invariant
                    entries == directory@.entries,
                    env@.listing(dir@) == Some(entries),
                    i <= directory.entries.len(),
                    forall|j: int| 0 <= j < i ==> !#[trigger] is_candidate(file_name@)(entries[j]),
                decreases directory.entries.len() - i,
            {
                let entry = &directory.entries[i];
                if entry.is_file && eq_ignore_ascii_case(entry.name.as_str(), file_name) {
                    proof {
                        lemma_first_where_found(entries, is_candidate(file_name@), i as int);
                    }
                    return Some(entry.name.as_str());
                }
                i += 1;
            }
            proof {
                lemma_first_where_absent(entries, is_candidate(file_name@));
            }
            None
        },
    }
}

/// Looks for `name` in the directories of `search_path`, in order, and stops
/// at the first that holds it.
pub fn find_executable(name: &str, search_path: &Vec<&str>, env: &Environment) -> (found: Option<
    Location,
>)
    ensures
        location_of(found) == executable(env@, name@, views(search_path@)),
{
    let ghost dirs = views(search_path@);
    let mut i: usize = 0;
    while i < search_path.len()
        invariant
            dirs == views(search_path@),
            i <= search_path.len(),
            forall|j: int| 0 <= j < i ==> !#[trigger] holds(env@, name@)(dirs[j]),
        decreases search_path.len() - i,
    {
        let dir = search_path[i];
        match find_file(name, dir, env) {
            Some(file) => {
                proof {
                    lemma_first_where_found(dirs, holds(env@, name@), i as int);
                }
                return Some(Location { dir: String::from_str(dir), file: String::from_str(file) });
            },
            None => {},
        }
        i += 1;
    }
    proof {
        lemma_first_where_absent(dirs, holds(env@, name@));
    }
    None
}

} // verus!
