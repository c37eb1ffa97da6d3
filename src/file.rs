use vstd::prelude::*;

verus! {

/// A source file, identified by its canonical absolute path.
#[derive(Debug, Clone, PartialEq, Eq, Hash)]
pub struct File {
    pub path: String,
}

/// The paths of a sequence of files.
pub open spec fn file_paths(fs: Seq<File>) -> Seq<Seq<char>> {
    fs.map_values(|f: File| f.path@)
}

impl File {
    pub fn new(path: String) -> (r: File)
        ensures
            r.path@ == path@,
    {
        File { path }
    }

    /// Whether two files have the same identity, that is the same path.
    pub fn same_as(&self, other: &File) -> (r: bool)
        ensures
            r == (self.path@ == other.path@),
    {
        self.path == other.path
    }
}

} // verus!
