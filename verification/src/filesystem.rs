//! The probing filesystem as a value: the set of paths that exist, handed in
//! by the caller. The build pass only asks whether a path is in that set, so
//! the real probe — an external capability — stays outside the core.

use vstd::prelude::*;
use crate::text::str_eq;

verus! {

/// The set of paths that exist on the filesystem the build probes against,
/// as plain text. Its view is that set of paths as character sequences.
#[derive(Debug)]
pub struct Filesystem {
    pub existing: Vec<String>,
}

impl View for Filesystem {
    type V = Set<Seq<char>>;

    open spec fn view(&self) -> Set<Seq<char>> {
        Set::new(
            |p: Seq<char>|
                exists|i: int| 0 <= i < self.existing@.len() && #[trigger] self.existing@[i]@ == p,
        )
    }
}

impl Filesystem {
    /// A filesystem on which exactly the given paths exist.
    pub fn new(existing: Vec<String>) -> (fs: Filesystem)
        ensures
            fs.existing == existing,
    {
        Filesystem { existing }
    }

    /// Whether `path` exists on this filesystem.
    pub fn contains_path(&self, path: &str) -> (r: bool)
        ensures
            r == self@.contains(path@),
    {
        let n = self.existing.len();
        let mut i: usize = 0;
        while i < n
            invariant
                n == self.existing@.len(),
                i <= n,
                forall|k: int| 0 <= k < i ==> #[trigger] self.existing@[k]@ != path@,
            decreases n - i,
        {
            if str_eq(self.existing[i].as_str(), path) {
                return true;
            }
            i = i + 1;
        }
        false
    }
}

} // verus!
