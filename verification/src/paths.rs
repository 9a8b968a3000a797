//! Where the files of the application stand, and which of them are there.

use std::path::PathBuf;
use vstd::prelude::*;
use vstd::string::*;
use crate::text::{same, texts};

verus! {

/// A path of the file system, carried through unread.
#[verifier::external_type_specification]
#[verifier::external_body]
pub struct ExPathBuf(PathBuf);

/// `dirs::data_dir` looks up the user's data directory in the environment. Nothing is claimed of
/// what it finds.
pub assume_specification[ dirs::data_dir ]() -> Option<PathBuf>;

/// What the application's directory stands under.
pub enum DataRoot {
    /// The user's data directory.
    Platform(PathBuf),
    /// The working directory, where the user has no data directory.
    WorkingDirectory,
}

/// The directory that holds all of the application's files.
pub struct DataDir {
    /// What it stands under.
    pub root: DataRoot,
    /// Its name there: that of the application.
    pub folder: String,
}

/// The application's directory under the user's data directory, or under the working directory.
pub fn data_dir_under(base: Option<PathBuf>, app_name: &str) -> (dir: DataDir)
    ensures
        dir.root == match base {
            Some(path) => DataRoot::Platform(path),
            None => DataRoot::WorkingDirectory,
        },
        dir.folder@ == app_name@,
{
    let root = match base {
        Some(path) => DataRoot::Platform(path),
        None => DataRoot::WorkingDirectory,
    };
    DataDir { root, folder: app_name.to_string() }
}

/// The directory that holds all of the application's files.
///
/// What it stands under is up to the environment: it is what the look-up of the user's data
/// directory brings, or the working directory where that brings nothing.
pub fn data_dir(app_name: &str) -> (dir: DataDir)
    ensures
        exists|base: Option<PathBuf>| #[trigger]
            call_ensures(dirs::data_dir, (), base) && dir.root == match base {
                Some(path) => DataRoot::Platform(path),
                None => DataRoot::WorkingDirectory,
            },
        dir.folder@ == app_name@,
{
    let base = dirs::data_dir();
    assert(call_ensures(dirs::data_dir, (), base));
    data_dir_under(base, app_name)
}

/// A path below the application's directory: the names that lead to it, from the top.
pub struct DataPath {
    pub parts: Vec<String>,
}

impl View for DataPath {
    type V = Seq<Seq<char>>;

    open spec fn view(&self) -> Seq<Seq<char>> {
        texts(self.parts@)
    }
}

impl Clone for DataPath {
    fn clone(&self) -> (copy: Self)
        ensures
            copy@ == self@,
    {
        let mut parts: Vec<String> = Vec::new();
        let mut i: usize = 0;
        while i < self.parts.len()
            invariant
                i <= self.parts@.len(),
                texts(parts@) == self@.take(i as int),
            decreases self.parts@.len() - i,
        {
            let ghost before = texts(parts@);
            parts.push(self.parts[i].clone());
            assert(texts(parts@) == before.push(self@[i as int]));
            assert(self@.take(i + 1) == self@.take(i as int).push(self@[i as int]));
            i = i + 1;
        }
        assert(self@.take(self.parts@.len() as int) == self@);
        DataPath { parts }
    }
}

impl DataPath {
    /// The file or directory `name` in the directory `folder`.
    pub fn of(folder: &str, name: &str) -> (path: Self)
        ensures
            path@ == seq![folder@, name@],
    {
        let mut parts: Vec<String> = Vec::new();
        parts.push(folder.to_string());
        parts.push(name.to_string());
        let path = DataPath { parts };
        assert(path@ == seq![folder@, name@]);
        path
    }

    /// The file or directory `name` in this directory.
    pub fn join(&self, name: &str) -> (path: Self)
        ensures
            path@ == self@.push(name@),
    {
        let mut path = self.clone();
        let ghost before = path@;
        path.parts.push(name.to_string());
        assert(path@ == before.push(name@));
        path
    }

    /// Whether two paths are the same.
    pub fn is(&self, other: &DataPath) -> (equal: bool)
        ensures
            equal == (self@ == other@),
    {
        if self.parts.len() != other.parts.len() {
            assert(self@.len() != other@.len());
            return false;
        }
        let mut i: usize = 0;
        while i < self.parts.len()
            invariant
                i <= self.parts@.len(),
                self.parts@.len() == other.parts@.len(),
                forall|j: int| 0 <= j < i ==> self@[j] == other@[j],
            decreases self.parts@.len() - i,
        {
            if !same(self.parts[i].as_str(), other.parts[i].as_str()) {
                assert(self@[i as int] != other@[i as int]);
                return false;
            }
            i = i + 1;
        }
        assert(self@ == other@);
        true
    }
}

/// Which of the application's files were seen to be there.
pub struct Inventory {
    present: Vec<DataPath>,
}

impl View for Inventory {
    type V = Set<Seq<Seq<char>>>;

    closed spec fn view(&self) -> Set<Seq<Seq<char>>> {
        Set::new(
            |path: Seq<Seq<char>>|
                exists|i: int| 0 <= i < self.present@.len() && #[trigger] self.present@[i]@ == path,
        )
    }
}

impl Inventory {
    /// No file was seen yet.
    pub fn new() -> (seen: Self)
        ensures
            seen@ == Set::<Seq<Seq<char>>>::empty(),
    {
        let seen = Inventory { present: Vec::new() };
        assert(seen@ =~= Set::<Seq<Seq<char>>>::empty());
        seen
    }

    /// The file at `path` was seen.
    pub fn add(&mut self, path: DataPath)
        ensures
            final(self)@ == old(self)@.insert(path@),
    {
        let ghost before = self.present@;
        self.present.push(path);
        proof {
            let after = self.present@;
            assert(after == before.push(path));
            assert forall|p: Seq<Seq<char>>| self@.contains(p) == old(self)@.insert(path@).contains(
                p,
            ) by {
                if old(self)@.contains(p) {
                    let i = choose|i: int| 0 <= i < before.len() && #[trigger] before[i]@ == p;
                    assert(after[i]@ == p);
                }
                if p == path@ {
                    assert(after[before.len() as int]@ == p);
                }
                if self@.contains(p) {
                    let i = choose|i: int| 0 <= i < after.len() && #[trigger] after[i]@ == p;
                    if i < before.len() {
                        assert(before[i]@ == p);
                    }
                }
            }
            assert(self@ =~= old(self)@.insert(path@));
        }
    }

    /// Whether the file at `path` was seen.
    pub fn has(&self, path: &DataPath) -> (yes: bool)
        ensures
            yes == self@.contains(path@),
    {
        let mut i: usize = 0;
        while i < self.present.len()
            invariant
                i <= self.present@.len(),
                forall|j: int| 0 <= j < i ==> #[trigger] self.present@[j]@ != path@,
            decreases self.present@.len() - i,
        {
            if self.present[i].is(path) {
                assert(self.present@[i as int]@ == path@);
                return true;
            }
            i = i + 1;
        }
        false
    }
}

/// The application's directory has its own name under the user's data directory, or under the working
/// directory just where the user has none.
pub proof fn data_directory_has_the_applications_name(
    base: Option<PathBuf>,
    app_name: &str,
    dir: DataDir,
)
    requires
        call_ensures(data_dir_under, (base, app_name), dir),
    ensures
        dir.folder@ == app_name@,
        base matches Some(path) ==> dir.root == DataRoot::Platform(path),
        base is None ==> dir.root == DataRoot::WorkingDirectory,
{
}

/// A path is the names that lead to it, and an inventory has just the paths that were added.
pub proof fn paths_are_told_by_their_names(
    folder: &str,
    name: &str,
    below: &str,
    path: DataPath,
    longer: DataPath,
    same_path: bool,
)
    requires
        call_ensures(DataPath::of, (folder, name), path),
        call_ensures(DataPath::join, (&path, below), longer),
        call_ensures(DataPath::is, (&path, &longer), same_path),
    ensures
        path@ == seq![folder@, name@],
        longer@ == seq![folder@, name@, below@],
        !same_path,
{
    assert(longer@ =~= seq![folder@, name@, below@]);
    assert(path@.len() != longer@.len());
}

} // verus!
