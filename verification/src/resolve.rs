//! The PathSet resolver: turns a copy source — a single literal path, or an
//! already-expanded glob pattern — into an ordered list of concrete paths.
//! Glob expansion is best-effort: entries of the filesystem walk that fail
//! to read are dropped silently; only an ill-formed pattern is an error,
//! rejected up front.

use vstd::prelude::*;

verus! {

/// A source of paths for the conditional copier.
pub trait Target: Sized {
    /// The paths this target stands for, in order.
    spec fn spec_paths(self) -> Seq<Seq<char>>;

    /// Resolves to the concrete ordered list of paths.
    fn into_iter(self) -> (r: Vec<String>)
        ensures
            r.deep_view() == self.spec_paths(),
    ;
}

/// A literal path resolves to exactly itself, whether or not it exists.
impl<'a> Target for &'a str {
    open spec fn spec_paths(self) -> Seq<Seq<char>> {
        seq![self@]
    }

    fn into_iter(self) -> (r: Vec<String>) {
        let mut v: Vec<String> = Vec::new();
        v.push(self.to_owned());
        proof {
            assert(v.deep_view() =~= seq![self@]);
        }
        v
    }
}

/// An ordered set of concrete paths, as `glob` produced it.
pub struct PathSet {
    paths: Vec<String>,
}

impl PathSet {
    /// The resolved paths, in order.
    pub fn paths(&self) -> (r: &Vec<String>)
        ensures
            r.deep_view() == (*self).spec_paths(),
    {
        &self.paths
    }
}

impl Target for PathSet {
    closed spec fn spec_paths(self) -> Seq<Seq<char>> {
        self.paths.deep_view()
    }

    fn into_iter(self) -> (r: Vec<String>) {
        self.paths
    }
}

/// The entries a best-effort expansion kept: those that resolved to a path,
/// in order, with the unreadable ones dropped.
pub open spec fn spec_resolved(entries: Seq<Option<Seq<char>>>) -> Seq<Seq<char>>
    decreases entries.len(),
{
    if entries.len() == 0 {
        Seq::empty()
    } else {
        let rest = spec_resolved(entries.drop_last());
        match entries.last() {
            Some(p) => rest.push(p),
            None => rest,
        }
    }
}

/// Keeps, in order, the entries of an expansion that resolved, dropping the
/// ones that failed to read.
#[verifier::loop_isolation(false)]
pub fn collect_resolved(entries: Vec<Option<String>>) -> (r: Vec<String>)
    ensures
        r.deep_view() == spec_resolved(entries.deep_view()),
{
    let ghost all = entries.deep_view();
    let mut r: Vec<String> = Vec::new();
    let mut i: usize = 0;
    while i < entries.len()
        invariant
            i <= entries.len(),
            r.deep_view() == spec_resolved(all.take(i as int)),
        decreases entries.len() - i,
    {
        proof {
            assert(all.take(i as int + 1).drop_last() =~= all.take(i as int));
            assert(all.take(i as int + 1).last() == all[i as int]);
        }
        match &entries[i] {
            Some(p) => {
                let q = p.clone();
                r.push(q);
                proof {
                    assert(r.deep_view() =~= spec_resolved(all.take(i as int + 1)));
                }
            },
            None => {
                proof {
                    assert(r.deep_view() == spec_resolved(all.take(i as int + 1)));
                }
            },
        }
        i = i + 1;
    }
    proof {
        assert(all.take(entries@.len() as int) =~= all);
    }
    r
}

/// Whether a pattern string is a well-formed glob pattern — a property of
/// the string alone, as the glob library defines it.
pub uninterp spec fn glob_pattern_ok(pattern: Seq<char>) -> bool;

/// An ill-formed glob pattern, rejected before any expansion.
#[derive(Clone, Copy, Debug)]
pub struct GlobError {
    /// The approximate character index of the offending part of the pattern.
    pub pos: usize,
    /// A message describing what is wrong with the pattern.
    pub msg: &'static str,
}

/// Relies on glob::glob: it returns `Err` exactly when the pattern is
/// ill-formed, which depends on the pattern string alone; on success the
/// filesystem walk yields, in order, entries that either resolved to a path
/// or failed to read.
#[verifier::external_body]
fn expand_pattern(pattern: &str) -> (r: Result<Vec<Option<String>>, GlobError>)
    ensures
        r is Ok <==> glob_pattern_ok(pattern@),
{
    match glob::glob(pattern) {
        Ok(paths) => Ok(
            paths.map(
                |entry| match entry {
                    Ok(p) => Some(p.to_string_lossy().into_owned()),
                    Err(_) => None,
                },
            ).collect(),
        ),
        Err(e) => Err(GlobError { pos: e.pos, msg: e.msg }),
    }
}

/// Expands a glob pattern against the filesystem into an ordered `PathSet`,
/// best-effort: entries that fail to read during the walk are dropped, and a
/// pattern matching nothing yields an empty set; only an ill-formed pattern
/// is an error.
pub fn glob(pattern: &str) -> (r: Result<PathSet, GlobError>)
    ensures
        r is Ok <==> glob_pattern_ok(pattern@),
{
    match expand_pattern(pattern) {
        Ok(entries) => Ok(PathSet { paths: collect_resolved(entries) }),
        Err(e) => Err(e),
    }
}

} // verus!
