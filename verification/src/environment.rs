//! What the interpreter knows of the process and of the file system: the
//! environment variables, the working directory, and the listings of the
//! directories it may search.

use vstd::prelude::*;
use crate::search::{first_where, lemma_first_where_absent, lemma_first_where_found};
use crate::text::{split, split_on, str_eq, text_of, views};

verus! {

/// One entry of a directory.
#[derive(Clone, Debug, PartialEq, Eq)]
pub struct DirEntry {
    /// The entry's name, without the directory.
    pub name: String,
    /// Whether the entry is a regular file.
    pub is_file: bool,
}

/// A directory entry as its contracts see it.
pub struct DirEntryView {
    pub name: Seq<char>,
    pub is_file: bool,
}

impl View for DirEntry {
    type V = DirEntryView;

    open spec fn view(&self) -> DirEntryView {
        DirEntryView { name: self.name@, is_file: self.is_file }
    }
}

/// A directory that could be listed, with its direct entries in the order
/// in which they were read.
#[derive(Clone, Debug, PartialEq, Eq)]
pub struct Directory {
    /// The directory's path, as the search path spells it.
    pub path: String,
    /// The entries, in the order of the listing.
    pub entries: Vec<DirEntry>,
}

/// A directory as its contracts see it.
pub struct DirectoryView {
    pub path: Seq<char>,
    pub entries: Seq<DirEntryView>,
}

impl View for Directory {
    type V = DirectoryView;

    open spec fn view(&self) -> DirectoryView {
        DirectoryView {
            path: self.path@,
            entries: self.entries@.map_values(|e: DirEntry| e@),
        }
    }
}

/// An environment variable.
#[derive(Clone, Debug, PartialEq, Eq)]
pub struct Variable {
    pub name: String,
    pub value: String,
}

/// An environment variable as its contracts see it.
pub struct VariableView {
    pub name: Seq<char>,
    pub value: Seq<char>,
}

impl View for Variable {
    type V = VariableView;

    open spec fn view(&self) -> VariableView {
        VariableView { name: self.name@, value: self.value@ }
    }
}

/// The working directory of the process, as far as it could be read.
#[derive(Clone, Debug, PartialEq, Eq)]
pub enum WorkingDir {
    /// The absolute path of the working directory.
    At(String),
    /// The operating system's words on why the working directory could not
    /// be read.
    Unreadable(String),
}

/// A working directory as its contracts see it.
pub enum WorkingDirView {
    At(Seq<char>),
    Unreadable(Seq<char>),
}

impl View for WorkingDir {
    type V = WorkingDirView;

    open spec fn view(&self) -> WorkingDirView {
        match self {
            WorkingDir::At(path) => WorkingDirView::At(path@),
            WorkingDir::Unreadable(why) => WorkingDirView::Unreadable(why@),
        }
    }
}

/// The state that the commands read, and that only a change of directory
/// writes.
#[derive(Clone, Debug, PartialEq, Eq)]
pub struct Environment {
    /// The environment variables. Of two with one name the first counts.
    pub variables: Vec<Variable>,
    /// The working directory.
    pub working_dir: WorkingDir,
    /// The directories that could be listed. A path without a directory here
    /// is one that is missing or unreadable.
    pub directories: Vec<Directory>,
    /// Whether the home directory is named as on Windows.
    pub windows: bool,
}

/// An environment as its contracts see it.
pub struct EnvironmentView {
    pub variables: Seq<VariableView>,
    pub working_dir: WorkingDirView,
    pub directories: Seq<DirectoryView>,
    pub windows: bool,
}

impl View for Environment {
    type V = EnvironmentView;

    open spec fn view(&self) -> EnvironmentView {
        EnvironmentView {
            variables: self.variables@.map_values(|v: Variable| v@),
            working_dir: self.working_dir@,
            directories: self.directories@.map_values(|d: Directory| d@),
            windows: self.windows,
        }
    }
}

/// The predicate that holds of the variables called `name`.
pub open spec fn is_named(name: Seq<char>) -> spec_fn(VariableView) -> bool {
    |v: VariableView| v.name == name
}

/// The predicate that holds of the directories whose path is `path`.
pub open spec fn is_at(path: Seq<char>) -> spec_fn(DirectoryView) -> bool {
    |d: DirectoryView| d.path == path
}

/// The character that separates the directories of a search path.
pub const PATH_SEPARATOR: char = ':';

impl EnvironmentView {
    /// The value of the variable `name`, if it is set.
    pub open spec fn var(self, name: Seq<char>) -> Option<Seq<char>> {
        match first_where(self.variables, is_named(name)) {
            Some(i) => Some(self.variables[i].value),
            None => None,
        }
    }

    /// The entries of the directory at `path`, if it could be listed.
    pub open spec fn listing(self, path: Seq<char>) -> Option<Seq<DirEntryView>> {
        match first_where(self.directories, is_at(path)) {
            Some(i) => Some(self.directories[i].entries),
            None => None,
        }
    }

    /// The name of the variable that holds the home directory.
    pub open spec fn home_variable(self) -> Seq<char> {
        if self.windows {
            "USERPROFILE"@
        } else {
            "HOME"@
        }
    }

    /// The home directory, if its variable is set.
    pub open spec fn home_dir(self) -> Option<Seq<char>> {
        self.var(self.home_variable())
    }

    /// The directories to search for a program, in order: the pieces of the
    /// variable `PATH`, and none where it is not set.
    pub open spec fn search_path(self) -> Seq<Seq<char>> {
        match self.var("PATH"@) {
            Some(path) => split_on(path, PATH_SEPARATOR),
            None => Seq::empty(),
        }
    }
}

impl Environment {
    /// Looks up an environment variable.
    pub fn var(&self, name: &str) -> (value: Option<&str>)
        ensures
            text_of(value) == self@.var(name@),
    {
        let mut i: usize = 0;
        while i < self.variables.len()
            invariant
                i <= self.variables.len(),
                forall|j: int| 0 <= j < i ==> !#[trigger] is_named(name@)(self@.variables[j]),
            decreases self.variables.len() - i,
        {
            if str_eq(self.variables[i].name.as_str(), name) {
                proof {
                    lemma_first_where_found(self@.variables, is_named(name@), i as int);
                }
                return Some(self.variables[i].value.as_str());
            }
            i += 1;
        }
        proof {
            lemma_first_where_absent(self@.variables, is_named(name@));
        }
        None
    }

    /// Looks up the listing of a directory.
    pub fn listing(&self, path: &str) -> (found: Option<&Directory>)
        ensures
            found is Some == self@.listing(path@) is Some,
            found matches Some(d) ==> self@.listing(path@) == Some(d@.entries) && d@.path == path@,
    {
        let mut i: usize = 0;
        while i < self.directories.len()
            invariant
                i <= self.directories.len(),
                forall|j: int| 0 <= j < i ==> !#[trigger] is_at(path@)(self@.directories[j]),
            decreases self.directories.len() - i,
        {
            if str_eq(self.directories[i].path.as_str(), path) {
                proof {
                    lemma_first_where_found(self@.directories, is_at(path@), i as int);
                }
                return Some(&self.directories[i]);
            }
            i += 1;
        }
        proof {
            lemma_first_where_absent(self@.directories, is_at(path@));
        }
        None
    }

    /// The directories to search for a program, in order.
    pub fn search_path(&self) -> (dirs: Vec<&str>)
        ensures
            views(dirs@) == self@.search_path(),
    {
        match self.var("PATH") {
            Some(path) => split(path, PATH_SEPARATOR),
            None => {
                let dirs: Vec<&str> = Vec::new();
                dirs
            },
        }
    }
}

/// The home directory: the value of `USERPROFILE` on Windows and of `HOME`
/// elsewhere, read from the environment at each call.
pub fn get_home_dir(env: &Environment) -> (home: Option<String>)
    ensures
        home is Some == env@.home_dir() is Some,
        home matches Some(h) ==> env@.home_dir() == Some(h@),
{
    let value = if env.windows {
        env.var("USERPROFILE")
    } else {
        env.var("HOME")
    };
    match value {
        Some(v) => Some(String::from_str(v)),
        None => None,
    }
}

} // verus!
