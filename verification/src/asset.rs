//! The asset: the entity (file or directory) being renamed, represented
//! solely by its path.

use vstd::prelude::*;

verus! {

/// An owned path naming the entry to rename.
///
/// The path is not validated for existence at construction time; existence is
/// checked only when the rename is attempted against the filesystem.
pub struct Asset {
    path: String,
}

impl View for Asset {
    type V = Seq<char>;

    closed spec fn view(&self) -> Seq<char> {
        self.path@
    }
}

impl Asset {
    /// Wraps a path, performing no filesystem access.
    pub fn new(path: String) -> (a: Asset)
        ensures
            a@ == path@,
    {
        Asset { path }
    }

    /// The wrapped path.
    pub fn path(&self) -> (p: &str)
        ensures
            p@ == self@,
    {
        self.path.as_str()
    }

    /// Gives the wrapped path back, consuming the asset.
    pub fn into_path(self) -> (p: String)
        ensures
            p@ == self@,
    {
        self.path
    }
}

} // verus!
