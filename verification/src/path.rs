//! Path safety for agent-supplied paths.
//!
//! Every path the model hands to a file tool must be relative to the workspace
//! root and must not climb out of it with a `..` component. Paths are handled
//! as text with `/` as the separator, as on Unix.

use crate::chars::{chars_of, string_of};
use vstd::prelude::*;

verus! {

/// Why an agent-supplied path was refused.
#[derive(Debug, Clone, Copy, PartialEq, Eq, Structural)]
pub enum PathError {
    /// The path starts at the filesystem root.
    Absolute,
    /// The path holds a `..` component.
    ParentDir,
}

impl PathError {
    /// The message shown to the model for this refusal.
    pub fn message(&self) -> (result: String)
        ensures
            result@ == path_error_message(*self),
    {
        match self {
            PathError::Absolute => String::from_str(
                "absolute paths are not allowed; use paths relative to the workspace",
            ),
            PathError::ParentDir => String::from_str("'..' is not allowed in tool paths"),
        }
    }
}

/// The message of each path refusal.
pub open spec fn path_error_message(error: PathError) -> Seq<char> {
    match error {
        PathError::Absolute => "absolute paths are not allowed; use paths relative to the workspace"@,
        PathError::ParentDir => "'..' is not allowed in tool paths"@,
    }
}

/// A path is absolute when it starts with the root separator.
pub open spec fn is_absolute(p: Seq<char>) -> bool {
    p.len() > 0 && p[0] == '/'
}

/// `p` holds a `..` component starting at index `i`: two dots bounded on each
/// side by a separator or an end of the path.
pub open spec fn parent_dir_at(p: Seq<char>, i: int) -> bool {
    &&& 0 <= i
    &&& i + 2 <= p.len()
    &&& p[i] == '.'
    &&& p[i + 1] == '.'
    &&& (i == 0 || p[i - 1] == '/')
    &&& (i + 2 == p.len() || p[i + 2] == '/')
}

/// `p` holds a `..` component somewhere.
pub open spec fn has_parent_dir(p: Seq<char>) -> bool {
    exists|i: int| parent_dir_at(p, i)
}

/// `root` joined with the relative path `p`: a separator is put between them
/// unless `root` is empty or already ends with one.
pub open spec fn join(root: Seq<char>, p: Seq<char>) -> Seq<char> {
    if root.len() > 0 && root.last() != '/' {
        root + seq!['/'] + p
    } else {
        root + p
    }
}

/// What `resolve_in_root(root, p)` returns.
pub open spec fn resolved(root: Seq<char>, p: Seq<char>) -> Result<Seq<char>, PathError> {
    if is_absolute(p) {
        Err(PathError::Absolute)
    } else if has_parent_dir(p) {
        Err(PathError::ParentDir)
    } else {
        Ok(join(root, p))
    }
}

/// Whether the characters of `p` hold a `..` component.
fn contains_parent_dir(p: &Vec<char>) -> (result: bool)
    ensures
        result == has_parent_dir(p@),
{
    let n = p.len();
    let mut i: usize = 0;
    while n > 0 && i < n - 1
        invariant
            n == p@.len(),
            0 <= i <= n,
            forall|k: int| 0 <= k < i ==> !parent_dir_at(p@, k),
        decreases n - i,
    {
        if p[i] == '.' && p[i + 1] == '.' && (i == 0 || p[i - 1] == '/') && (i + 2 == n || p[i
            + 2] == '/') {
            assert(parent_dir_at(p@, i as int));
            return true;
        }
        i += 1;
    }
    assert forall|k: int| !parent_dir_at(p@, k) by {
        if 0 <= k < i {
        }
    }
    false
}

/// Resolve a model-supplied path safely inside `root`.
///
/// Absolute paths and paths with a `..` component are refused; otherwise the
/// result is `root` joined with `path`.
pub fn resolve_in_root(root: &str, path: &str) -> (result: Result<String, PathError>)
    ensures
        match result {
            Ok(joined) => resolved(root@, path@) == Ok::<Seq<char>, PathError>(joined@),
            Err(error) => resolved(root@, path@) == Err::<Seq<char>, PathError>(error),
        },
{
    let p = chars_of(path);
    if p.len() > 0 && p[0] == '/' {
        return Err(PathError::Absolute);
    }
    if contains_parent_dir(&p) {
        return Err(PathError::ParentDir);
    }
    let mut out = chars_of(root);
    if out.len() > 0 && out[out.len() - 1] != '/' {
        out.push('/');
    }
    let mut i: usize = 0;
    let ghost base = out@;
    while i < p.len()
        invariant
            0 <= i <= p.len(),
            p@ == path@,
            out@ == base + path@.take(i as int),
        decreases p.len() - i,
    {
        out.push(p[i]);
        i += 1;
        assert(path@.take(i as int) == path@.take(i - 1).push(p@[i - 1]));
    }
    assert(path@.take(p.len() as int) == path@);
    assert(out@ == join(root@, path@));
    Ok(string_of(out.as_slice()))
}

/// `Path::join`: an absolute `p` replaces `base`; otherwise `p` is joined to
/// `base` as [`join`] does.
pub open spec fn path_join(base: Seq<char>, p: Seq<char>) -> Seq<char> {
    if is_absolute(p) {
        p
    } else {
        join(base, p)
    }
}

/// `Path::join` on text paths.
pub fn join_path(base: &str, p: &str) -> (result: String)
    ensures
        result@ == path_join(base@, p@),
{
    let ps = chars_of(p);
    if ps.len() > 0 && ps[0] == '/' {
        return string_of(ps.as_slice());
    }
    let mut out = chars_of(base);
    if out.len() > 0 && out[out.len() - 1] != '/' {
        out.push('/');
    }
    let mut tail = ps;
    out.append(&mut tail);
    string_of(out.as_slice())
}

/// Law: a resolved path always extends the workspace root, and the part after
/// the root is neither absolute nor holds a `..` component.
pub proof fn resolved_stays_inside_root(root: Seq<char>, p: Seq<char>)
    ensures
        resolved(root, p) matches Ok(r) ==> {
            &&& r.take(root.len() as int) == root
            &&& !is_absolute(p)
            &&& !has_parent_dir(p)
            &&& r.skip(r.len() - p.len()) == p
        },
{
}

} // verus!
