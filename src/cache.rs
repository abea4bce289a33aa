//! Where package sources live on disk: one directory per package under a
//! single cache root, computed the same way by every caller.

use vstd::prelude::*;

verus! {

/// `base` and `part` joined by one path separator.
pub open spec fn joined(base: Seq<char>, part: Seq<char>) -> Seq<char> {
    base + seq!['/'] + part
}

/// Joins `base` and `part` with a path separator.
pub fn join_path(base: &str, part: &str) -> (r: String)
    ensures
        r@ == joined(base@, part@),
{
    let mut s = base.to_owned();
    let sep = "/";
    proof {
        reveal_strlit("/");
    }
    s.append(sep);
    s.append(part);
    s
}

/// Why the cache could not be changed, with the directory concerned.
#[derive(Debug, Clone, PartialEq, Eq)]
pub struct CacheError {
    pub path: String,
}

/// The cache of package sources, rooted at one directory.
#[derive(Debug, Clone)]
pub struct Cache {
    root: String,
}

impl Cache {
    /// The cache rooted at `relative` under the home directory `home`.
    pub fn new(home: &str, relative: &str) -> (r: Cache)
        ensures
            r.root_view() == joined(home@, relative@),
    {
        Cache { root: join_path(home, relative) }
    }

    /// The cache rooted at `root` as it stands.
    pub fn with_root(root: String) -> (r: Cache)
        ensures
            r.root_view() == root@,
    {
        Cache { root }
    }

    pub closed spec fn root_view(&self) -> Seq<char> {
        self.root@
    }

    /// The cache root.
    pub fn root(&self) -> (r: &str)
        ensures
            r@ == self.root_view(),
    {
        self.root.as_str()
    }

    /// The directory that holds the sources of the package `name`; presence
    /// checks, clones, pulls, builds and purges all go by it.
    pub fn package_dir(&self, name: &str) -> (r: String)
        ensures
            r@ == joined(self.root_view(), name@),
    {
        join_path(self.root.as_str(), name)
    }
}

} // verus!
