//! Path-pattern matching and checkpoint evaluation.

use vstd::prelude::*;
use vstd::string::StrSliceExecFns;
use crate::checkpoint::Checkpoint;
use crate::request::Request;
use crate::status::StatusCode;
use crate::text;

verus! {

/// Whether `pattern` matches `path`. The rules, in order: exact equality;
/// a pattern ending in `**` matches every path that starts with the
/// pattern minus the `**`; a pattern ending in a single `*` matches a
/// path that starts with the pattern minus the `*` and has the same
/// number of `/` separators, a trailing `/` on the path being stripped
/// before counting.
pub open spec fn path_matches(pattern: Seq<char>, path: Seq<char>) -> bool {
    if pattern == path {
        true
    } else if pattern.len() >= 2 && pattern[pattern.len() - 1] == '*' && pattern[pattern.len()
        - 2] == '*' {
        text::is_prefix(pattern.take(pattern.len() - 2), path)
    } else if pattern.len() >= 1 && pattern[pattern.len() - 1] == '*' {
        let stripped = if path.len() > 0 && path[path.len() - 1] == '/' {
            path.drop_last()
        } else {
            path
        };
        text::is_prefix(pattern.take(pattern.len() - 1), path) && text::count_char(pattern, '/')
            == text::count_char(stripped, '/')
    } else {
        false
    }
}

/// Whether some pattern of the list matches `path`.
pub open spec fn any_match(patterns: Seq<Seq<char>>, path: Seq<char>) -> bool {
    exists|i: int| 0 <= i < patterns.len() && path_matches(patterns[i], path)
}

/// Whether a checkpoint reaches its predicate on a request to `path`: it
/// has target patterns, no exception pattern matches, and some target
/// pattern matches.
pub open spec fn checkpoint_applies<P>(cp: Checkpoint<P>, path: Seq<char>) -> bool {
    &&& cp.paths.deep_view().len() > 0
    &&& !any_match(cp.except.deep_view(), path)
    &&& any_match(cp.paths.deep_view(), path)
}

/// Whether the path pattern `list` matches the request path `req`, as
/// [`path_matches`] defines it.
pub fn compare(list: &str, req: &str) -> (r: bool)
    ensures
        r == path_matches(list@, req@),
{
    if text::str_eq(list, req) {
        return true;
    }
    let n = list.unicode_len();
    let m = req.unicode_len();
    if n >= 2 && list.get_char(n - 1) == '*' && list.get_char(n - 2) == '*' {
        return text::str_starts_with(req, list.substring_char(0, n - 2));
    }
    if n >= 1 && list.get_char(n - 1) == '*' {
        if !text::str_starts_with(req, list.substring_char(0, n - 1)) {
            return false;
        }
        let stripped = if m > 0 && req.get_char(m - 1) == '/' {
            req.substring_char(0, m - 1)
        } else {
            req
        };
        proof {
            if m > 0 && req@[m - 1] == '/' {
                assert(req@.subrange(0, m - 1) =~= req@.drop_last());
            }
        }
        return text::count_char_in(list, '/') == text::count_char_in(stripped, '/');
    }
    false
}

/// Evaluates one checkpoint against requests.
pub struct CheckpointManager<P> {
    pub checkpoint: Checkpoint<P>,
}

/// Evaluates one checkpoint against a request: when the checkpoint
/// applies to the request's path, the predicate decides; otherwise — no
/// target patterns, an exception match, or no target match — the request
/// passes without the predicate ever being consulted.
pub fn verify_checkpoint<P: Fn(Request) -> Result<(), StatusCode>>(
    cp: &Checkpoint<P>,
    req: &Request,
) -> (r: Option<StatusCode>)
    requires
        forall|q: Request| call_requires(cp.check, (q,)),
    ensures
        !checkpoint_applies(*cp, req@.url) ==> r is None,
        r matches Some(e) ==> (checkpoint_applies(*cp, req@.url) && (exists|q: Request|
            q@ == req@ && call_ensures(cp.check, (q,), Err(e)))),
        r is None ==> !checkpoint_applies(*cp, req@.url) || (exists|q: Request|
            q@ == req@ && call_ensures(cp.check, (q,), Ok(()))),
{
    let ghost url = req@.url;
    if cp.paths.len() == 0 {
        proof {
            assert(cp.paths.deep_view().len() == cp.paths@.len());
        }
        return None;
    }
    let ghost ev = cp.except.deep_view();
    let ne = cp.except.len();
    let mut i: usize = 0;
    while i < ne
        invariant
            ne == cp.except.len(),
            ev == cp.except.deep_view(),
            ev.len() == ne,
            0 <= i <= ne,
            forall|j: int| 0 <= j < i ==> !path_matches(ev[j], url),
            url == req@.url,
        decreases ne - i,
    {
        proof {
            assert(ev[i as int] == cp.except@[i as int]@);
        }
        if compare(cp.except[i].as_str(), req.url.as_str()) {
            return None;
        }
        i += 1;
    }
    proof {
        assert(!any_match(ev, url));
    }
    let ghost pv = cp.paths.deep_view();
    let np = cp.paths.len();
    proof {
        assert(pv.len() == cp.paths@.len());
    }
    let mut k: usize = 0;
    while k < np
        invariant
            np == cp.paths.len(),
            pv == cp.paths.deep_view(),
            ev == cp.except.deep_view(),
            pv.len() == np,
            np >= 1,
            0 <= k <= np,
            url == req@.url,
            forall|q: Request| call_requires(cp.check, (q,)),
            (forall|j: int| 0 <= j < k ==> !path_matches(pv[j], url)) || (exists|q: Request|
                q@ == req@ && call_ensures(cp.check, (q,), Ok(()))),
            !any_match(ev, url),
        decreases np - k,
    {
        proof {
            assert(pv[k as int] == cp.paths@[k as int]@);
        }
        if compare(cp.paths[k].as_str(), req.url.as_str()) {
            let dup = req.duplicate();
            let ghost snap = dup;
            let f = &cp.check;
            let out = f(dup);
            proof {
                assert(call_ensures(*f, (snap,), out));
            }
            match out {
                Ok(u) => {
                    proof {
                        assert(u == ());
                        assert(out == Ok::<(), StatusCode>(u));
                        assert(out == Ok::<(), StatusCode>(()));
                        assert(snap@ == req@ && call_ensures(
                            cp.check,
                            (snap,),
                            Ok::<(), StatusCode>(()),
                        ));
                        assert(exists|q: Request|
                            q@ == req@ && call_ensures(cp.check, (q,), Ok::<(), StatusCode>(())));
                    }
                },
                Err(e) => {
                    proof {
                        assert(path_matches(pv[k as int], url));
                        assert(any_match(pv, url));
                        assert(snap@ == req@ && call_ensures(cp.check, (snap,), Err(e)));
                    }
                    return Some(e);
                },
            }
        }
        k += 1;
    }
    None
}

impl<P: Fn(Request) -> Result<(), StatusCode>> CheckpointManager<P> {
    /// A manager for the given checkpoint.
    pub fn new(checkpoint: Checkpoint<P>) -> (r: CheckpointManager<P>)
        ensures
            r.checkpoint == checkpoint,
    {
        CheckpointManager { checkpoint }
    }

    /// Evaluates the checkpoint on a request, as [`verify_checkpoint`]
    /// does.
    pub fn verify(&self, req: Request) -> (r: Option<StatusCode>)
        requires
            forall|q: Request| call_requires(self.checkpoint.check, (q,)),
        ensures
            !checkpoint_applies(self.checkpoint, req@.url) ==> r is None,
            r matches Some(e) ==> (checkpoint_applies(self.checkpoint, req@.url) && (exists|
                q: Request,
            |
                q@ == req@ && call_ensures(self.checkpoint.check, (q,), Err(e)))),
            r is None ==> !checkpoint_applies(self.checkpoint, req@.url) || (exists|q: Request|
                q@ == req@ && call_ensures(self.checkpoint.check, (q,), Ok(()))),
    {
        verify_checkpoint(&self.checkpoint, &req)
    }
}

} // verus!
