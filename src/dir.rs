//! Entries of a directory listing.

use vstd::prelude::*;

verus! {

/// One child of a directory as it was when the directory was read: its name,
/// and its path (the directory's path joined with the name).
#[derive(Clone, Debug)]
pub struct DirEntry {
    name: String,
    path: String,
}

impl DirEntry {
    /// What the entry's name holds.
    pub closed spec fn name_view(&self) -> Seq<char> {
        self.name@
    }

    /// What the entry's path holds.
    pub closed spec fn path_view(&self) -> Seq<char> {
        self.path@
    }

    /// The entry named `name` at `path`.
    pub fn new(name: String, path: String) -> (r: DirEntry)
        ensures
            r.name_view() == name@,
            r.path_view() == path@,
    {
        DirEntry { name, path }
    }

    /// The bare name of the entry.
    pub fn file_name(&self) -> (r: String)
        ensures
            r@ == self.name_view(),
    {
        self.name.clone()
    }

    /// The full path of the entry.
    pub fn path(&self) -> (r: String)
        ensures
            r@ == self.path_view(),
    {
        self.path.clone()
    }
}

} // verus!
