//! The conditional copier's planning step: where one source path lands under
//! a given destination. Paths are modelled as strings whose components are
//! separated by `/`; a path's filename is its last component, ignoring
//! trailing separators, and the relative components `.` and `..` name no
//! file.

use vstd::prelude::*;
use vstd::string::StrSliceExecFns;
use vstd::string::StringExecFns;

verus! {

/// `p` with its trailing separators removed.
pub open spec fn trimmed(p: Seq<char>) -> Seq<char>
    decreases p.len(),
{
    if p.len() > 0 && p.last() == '/' {
        trimmed(p.drop_last())
    } else {
        p
    }
}

/// The index of the last separator in `p`, or -1 when it has none.
pub open spec fn last_sep(p: Seq<char>) -> int
    decreases p.len(),
{
    if p.len() == 0 {
        -1
    } else if p.last() == '/' {
        p.len() - 1
    } else {
        last_sep(p.drop_last())
    }
}

/// The last component of `p`: what follows its last separator, trailing
/// separators ignored.
pub open spec fn last_component(p: Seq<char>) -> Seq<char> {
    let t = trimmed(p);
    t.subrange(last_sep(t) + 1, t.len() as int)
}

/// The filename `p` ends in, if any: its last component, unless that
/// component is empty (a root or an empty path) or relative (`.` or `..`).
pub open spec fn spec_file_name(p: Seq<char>) -> Option<Seq<char>> {
    let c = last_component(p);
    if c.len() == 0 || c == seq!['.'] || c == seq!['.', '.'] {
        None
    } else {
        Some(c)
    }
}

proof fn lemma_last_sep_bounds(p: Seq<char>)
    ensures
        -1 <= last_sep(p) < p.len(),
    decreases p.len(),
{
    if p.len() > 0 && p.last() != '/' {
        lemma_last_sep_bounds(p.drop_last());
    }
}

/// The filename at the end of `path`, if it has one.
#[verifier::loop_isolation(false)]
pub fn file_name(path: &str) -> (r: Option<String>)
    ensures
        r.deep_view() == spec_file_name(path@),
{
    let n = path.unicode_len();
    proof {
        assert(path@.take(n as int) =~= path@);
    }
    let mut end = n;
    while end > 0 && path.get_char(end - 1) == '/'
        invariant
            end <= n,
            trimmed(path@) == trimmed(path@.take(end as int)),
        decreases end,
    {
        proof {
            assert(path@.take(end as int).last() == path@[end as int - 1]);
            assert(path@.take(end as int).drop_last() =~= path@.take(end as int - 1));
        }
        end = end - 1;
    }
    let ghost t = path@.take(end as int);
    proof {
        if end > 0 {
            assert(t.last() == path@[end as int - 1]);
        }
        assert(trimmed(path@) == t);
        lemma_last_sep_bounds(t);
    }
    let mut start = end;
    while start > 0 && path.get_char(start - 1) != '/'
        invariant
            start <= end,
            last_sep(t) == last_sep(path@.take(start as int)),
        decreases start,
    {
        proof {
            assert(path@.take(start as int).last() == path@[start as int - 1]);
            assert(path@.take(start as int).drop_last() =~= path@.take(start as int - 1));
        }
        start = start - 1;
    }
    proof {
        if start > 0 {
            assert(path@.take(start as int).last() == path@[start as int - 1]);
        }
        assert(last_sep(t) == start as int - 1);
    }
    let comp = path.substring_char(start, end);
    proof {
        assert(comp@ =~= last_component(path@));
    }
    if end - start == 0 {
        return None;
    }
    if end - start == 1 && comp.get_char(0) == '.' {
        proof {
            assert(comp@ =~= seq!['.']);
        }
        return None;
    }
    if end - start == 2 && comp.get_char(0) == '.' && comp.get_char(1) == '.' {
        proof {
            assert(comp@ =~= seq!['.', '.']);
        }
        return None;
    }
    proof {
        assert(comp@ != seq!['.']) by {
            if comp@ == seq!['.'] {
                assert(comp@.len() == 1 && comp@[0] == '.');
            }
        }
        assert(comp@ != seq!['.', '.']) by {
            if comp@ == seq!['.', '.'] {
                assert(comp@.len() == 2 && comp@[0] == '.' && comp@[1] == '.');
            }
        }
    }
    Some(comp.to_owned())
}

/// `name` appended to the directory `dir`, with exactly one separator
/// between them; an empty `dir` yields `name` alone.
pub open spec fn spec_join(dir: Seq<char>, name: Seq<char>) -> Seq<char> {
    if dir.len() == 0 {
        name
    } else if dir.last() == '/' {
        dir + name
    } else {
        dir + seq!['/'] + name
    }
}

/// Joins a filename onto a directory path.
pub fn join(dir: &str, name: &str) -> (r: String)
    ensures
        r@ == spec_join(dir@, name@),
{
    let n = dir.unicode_len();
    if n == 0 {
        name.to_owned()
    } else if dir.get_char(n - 1) == '/' {
        let r = dir.to_owned().concat(name);
        proof {
            assert(dir@.last() == dir@[n as int - 1]);
        }
        r
    } else {
        let mut s = dir.to_owned();
        s.append("/");
        let r = s.concat(name);
        proof {
            reveal_strlit("/");
            assert("/"@ =~= seq!['/']);
            assert(dir@.last() == dir@[n as int - 1]);
            assert(r@ =~= dir@ + seq!['/'] + name@);
        }
        r
    }
}

/// Why a copy plan fails outright.
#[derive(Clone, Copy, PartialEq, Eq, Structural, Debug)]
pub enum CopyError {
    /// The destination is a directory and the source path has no filename
    /// to place inside it.
    NoFilename,
}

impl CopyError {
    /// The message a failed copy reports.
    pub fn message(&self) -> (r: &'static str)
        ensures
            r@ == "Source has no filename and dest is a dir"@,
    {
        "Source has no filename and dest is a dir"
    }
}

/// Where one source file lands: a destination that names an existing
/// directory receives the source's filename inside it; any other destination
/// is taken verbatim. A source with no filename cannot land in a directory.
pub open spec fn spec_effective_dest(source: Seq<char>, dest: Seq<char>, dest_is_dir: bool) -> Result<
    Seq<char>,
    CopyError,
> {
    if dest_is_dir {
        match spec_file_name(source) {
            Some(name) => Ok(spec_join(dest, name)),
            None => Err(CopyError::NoFilename),
        }
    } else {
        Ok(dest)
    }
}

/// Computes the effective destination for one source path.
pub fn effective_dest(source: &str, dest: &str, dest_is_dir: bool) -> (r: Result<
    String,
    CopyError,
>)
    ensures
        ({
            let planned = spec_effective_dest(source@, dest@, dest_is_dir);
            match r {
                Ok(d) => planned == Ok::<Seq<char>, CopyError>(d@),
                Err(e) => planned == Err::<Seq<char>, CopyError>(e),
            }
        }),
{
    if dest_is_dir {
        match file_name(source) {
            Some(name) => Ok(join(dest, name.as_str())),
            None => Err(CopyError::NoFilename),
        }
    } else {
        Ok(dest.to_owned())
    }
}

} // verus!
