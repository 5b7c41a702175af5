//! Checkpoints: global, path-scoped filters evaluated before routing.

use vstd::prelude::*;
use vstd::string::StringExecFns;

verus! {

/// Turns borrowed path patterns into owned ones.
fn own_paths(paths: Vec<&str>) -> (r: Vec<String>)
    ensures
        r.deep_view() == paths.deep_view(),
{
    let n = paths.len();
    let mut r: Vec<String> = Vec::new();
    let mut i: usize = 0;
    while i < n
        invariant
            n == paths.len(),
            0 <= i <= n,
            r@.len() == i,
            forall|j: int| 0 <= j < i ==> r@[j]@ == paths@[j]@,
        decreases n - i,
    {
        r.push(String::from_str(paths[i]));
        i += 1;
    }
    proof {
        assert forall|k: int| 0 <= k < n implies r.deep_view()[k] == paths.deep_view()[k] by {
            assert(r.deep_view()[k] == r@[k]@);
            assert(paths.deep_view()[k] == paths@[k]@);
        }
        assert(r.deep_view() =~= paths.deep_view());
    }
    r
}

/// A global filter: a predicate applied to every request whose path
/// matches one of the target patterns, unless an exception pattern
/// matches it first. A checkpoint with no target pattern is inert.
pub struct Checkpoint<P> {
    pub paths: Vec<String>,
    pub except: Vec<String>,
    pub check: P,
}

impl<P> Checkpoint<P> {
    /// A checkpoint with the given predicate and no patterns yet.
    pub fn new(check: P) -> (r: Checkpoint<P>)
        ensures
            r.paths.deep_view() == Seq::<Seq<char>>::empty(),
            r.except.deep_view() == Seq::<Seq<char>>::empty(),
            r.check == check,
    {
        let r = Checkpoint { paths: Vec::new(), check, except: Vec::new() };
        proof {
            assert(r.paths.deep_view() =~= Seq::<Seq<char>>::empty());
            assert(r.except.deep_view() =~= Seq::<Seq<char>>::empty());
        }
        r
    }

    /// Adds a path pattern to the checked list.
    pub fn on(&mut self, path: &str)
        ensures
            final(self).paths.deep_view() == old(self).paths.deep_view().push(path@),
            final(self).except == old(self).except,
            final(self).check == old(self).check,
    {
        self.paths.push(String::from_str(path));
        proof {
            assert(self.paths.deep_view() =~= old(self).paths.deep_view().push(path@));
        }
    }

    /// Adds several path patterns to the checked list.
    pub fn on_all(&mut self, paths: Vec<&str>)
        ensures
            final(self).paths.deep_view() == old(self).paths.deep_view() + paths.deep_view(),
            final(self).except == old(self).except,
            final(self).check == old(self).check,
    {
        let mut owned = own_paths(paths);
        self.paths.append(&mut owned);
        proof {
            assert(self.paths.deep_view() =~= old(self).paths.deep_view() + paths.deep_view());
        }
    }

    /// Replaces the checked list with the given patterns.
    pub fn set_paths(&mut self, paths: Vec<&str>)
        ensures
            final(self).paths.deep_view() == paths.deep_view(),
            final(self).except == old(self).except,
            final(self).check == old(self).check,
    {
        self.paths = own_paths(paths);
    }

    /// Adds a path pattern to the exception list.
    pub fn except(&mut self, path: &str)
        ensures
            final(self).except.deep_view() == old(self).except.deep_view().push(path@),
            final(self).paths == old(self).paths,
            final(self).check == old(self).check,
    {
        self.except.push(String::from_str(path));
        proof {
            assert(self.except.deep_view() =~= old(self).except.deep_view().push(path@));
        }
    }

    /// Adds several path patterns to the exception list.
    pub fn except_all(&mut self, paths: Vec<&str>)
        ensures
            final(self).except.deep_view() == old(self).except.deep_view() + paths.deep_view(),
            final(self).paths == old(self).paths,
            final(self).check == old(self).check,
    {
        let mut owned = own_paths(paths);
        self.except.append(&mut owned);
        proof {
            assert(self.except.deep_view() =~= old(self).except.deep_view() + paths.deep_view());
        }
    }

    /// Replaces the exception list with the given patterns.
    pub fn set_exception_paths(&mut self, paths: Vec<&str>)
        ensures
            final(self).except.deep_view() == paths.deep_view(),
            final(self).paths == old(self).paths,
            final(self).check == old(self).check,
    {
        self.except = own_paths(paths);
    }
}

} // verus!
