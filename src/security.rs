use vstd::prelude::*;

use crate::error::{AppError, Fault};
use crate::path::{part_views, has_nul, is_within, normalized, split_user_path, user_segments, AbsPath};

verus! {

/// What the filesystem answered about the candidate path, that is the root
/// with the untrusted path's components joined onto it.
#[derive(Debug, Clone)]
pub enum Probe {
    /// The candidate exists; this is its canonical form.
    Existing(AbsPath),
    /// The candidate does not exist; this is the canonical form of its parent,
    /// or `None` where the parent does not exist either.
    Missing(Option<AbsPath>),
    /// The candidate or its parent exists, but its canonical form could not be
    /// obtained or cannot be held as text.
    Unresolved,
}

/// What the filesystem holds at a resolved path.
#[derive(Debug, Clone, Copy, PartialEq, Eq, Structural)]
pub enum NodeKind {
    Absent,
    File,
    Directory,
    Other,
}

/// A name that may not be used as the last component of a new path.
pub open spec fn is_dot_name(s: Seq<char>) -> bool {
    s == seq!['.'] || s == seq!['.', '.']
}

/// The untrusted path is `..` alone, give or take slashes: the parent of the
/// root, which is refused whatever the filesystem answers.
pub open spec fn names_parent(user: Seq<char>) -> bool {
    user_segments(user) == seq![seq!['.', '.']]
}

/// The verdict on an untrusted path `user`, given the canonical root (`None`
/// where the root could not be canonicalized) and what the filesystem
/// answered about the candidate.
pub open spec fn resolve_spec(root: Option<AbsPath>, user: Seq<char>, probe: Probe) -> Result<
    Seq<Seq<char>>,
    Fault,
> {
    if user.contains('\0') {
        Err(Fault::Malformed)
    } else {
        match root {
            None => Err(Fault::Internal),
            Some(r) => if names_parent(user) {
                Err(Fault::Forbidden)
            } else {
                match probe {
                Probe::Unresolved => Err(Fault::Internal),
                Probe::Existing(t) => if is_within(r@, t@) {
                    Ok(t@)
                } else {
                    Err(Fault::Forbidden)
                },
                Probe::Missing(None) => Err(Fault::NotFound),
                Probe::Missing(Some(parent)) => {
                    let segs = user_segments(user);
                    if !is_within(r@, parent@) {
                        Err(Fault::Forbidden)
                    } else if segs.len() == 0 {
                        Err(Fault::Malformed)
                    } else if is_dot_name(segs.last()) {
                        Err(Fault::Forbidden)
                    } else {
                        Ok(parent@.push(segs.last()))
                    }
                },
                }
            },
        }
    }
}

/// A result of the resolver, seen as a path or the kind of its error.
pub open spec fn outcome(r: Result<AbsPath, AppError>) -> Result<Seq<Seq<char>>, Fault> {
    match r {
        Ok(p) => Ok(p@),
        Err(e) => Err(e.fault_spec()),
    }
}

/// The verdict of `resolve_spec`, then `NotFound` where nothing is there.
pub open spec fn existing_spec(
    root: Option<AbsPath>,
    user: Seq<char>,
    probe: Probe,
    kind: NodeKind,
) -> Result<Seq<Seq<char>>, Fault> {
    match resolve_spec(root, user, probe) {
        Ok(p) => if kind == NodeKind::Absent {
            Err(Fault::NotFound)
        } else {
            Ok(p)
        },
        Err(f) => Err(f),
    }
}

/// Whether `p` is `root` or lies below it, component by component.
pub fn path_within(root: &AbsPath, p: &AbsPath) -> (r: bool)
    ensures
        r == is_within(root@, p@),
{
    let n = root.parts.len();
    if n > p.parts.len() {
        return false;
    }
    let mut i: usize = 0;
    while i < n
        invariant
            n == root.parts@.len(),
            n <= p.parts@.len(),
            i <= n,
            forall|j: int| 0 <= j < i ==> root@[j] == p@[j],
        decreases n - i,
    {
        if root.parts[i] != p.parts[i] {
            proof {
                assert(p@.subrange(0, n as int)[i as int] != root@[i as int]);
            }
            return false;
        }
        i = i + 1;
    }
    proof {
        assert(p@.subrange(0, n as int) =~= root@);
    }
    true
}

fn is_parent_component(s: &String) -> (r: bool)
    ensures
        r == (s@ == seq!['.', '.']),
{
    let t = s.as_str();
    let r = t.unicode_len() == 2 && t.get_char(0) == '.' && t.get_char(1) == '.';
    proof {
        if r {
            assert(s@ =~= seq!['.', '.']);
        }
    }
    r
}

fn is_dot_component(s: &String) -> (r: bool)
    ensures
        r == is_dot_name(s@),
{
    let t = s.as_str();
    let n = t.unicode_len();
    if n == 1 {
        let r = t.get_char(0) == '.';
        proof {
            if r {
                assert(s@ =~= seq!['.']);
            }
        }
        r
    } else if n == 2 {
        let r = t.get_char(0) == '.' && t.get_char(1) == '.';
        proof {
            if r {
                assert(s@ =~= seq!['.', '.']);
            }
        }
        r
    } else {
        false
    }
}

/// Resolves the untrusted path `user_path` against the jail root.
///
/// `root` is the root as the filesystem canonicalized it, `None` where it
/// could not. `probe` is what the filesystem answered about the root with the
/// components of `split_user_path(user_path)` joined onto it. The result is a
/// location that lies in the root, or the reason why there is none.
pub fn validate_path(root: &Option<AbsPath>, user_path: &str, probe: &Probe) -> (r: Result<
    AbsPath,
    AppError,
>)
    ensures
        outcome(r) == resolve_spec(*root, user_path@, *probe),
        r is Ok ==> root is Some && is_within(root->Some_0@, r->Ok_0@),
        !user_path@.contains('\0') && root is None ==> r is Err && r->Err_0 is Internal,
{
    if has_nul(user_path) {
        return Err(AppError::BadRequest(String::from_str("invalid path: null byte")));
    }
    let canonical_root = match root {
        Some(r) => r,
        None => {
            return Err(AppError::Internal(String::from_str("root directory not found")));
        },
    };
    let segs = split_user_path(user_path);
    let n = segs.len();
    proof {
        if n == 1 {
            assert(part_views(segs@) =~= seq![segs@[0]@]);
        }
    }
    if n == 1 && is_parent_component(&segs[0]) {
        return Err(AppError::Forbidden);
    }
    proof {
        let v = part_views(segs@);
        let pp = seq![seq!['.', '.']];
        assert(v.len() == n);
        if n == 1 {
            assert(v[0] != pp[0]);
        }
        assert(v != pp);
    }
    match probe {
        Probe::Unresolved => Err(AppError::Internal(String::from_str("path resolution failed"))),
        Probe::Existing(target) => {
            if !path_within(canonical_root, target) {
                return Err(AppError::Forbidden);
            }
            Ok(target.clone_path())
        },
        Probe::Missing(None) => Err(AppError::NotFound(String::from_str("parent directory not found"))),
        Probe::Missing(Some(parent)) => {
            if !path_within(canonical_root, parent) {
                return Err(AppError::Forbidden);
            }
            if n == 0 {
                return Err(AppError::BadRequest(String::from_str("invalid path: no filename")));
            }
            proof {
                assert(part_views(segs@).last() == segs@[n - 1]@);
            }
            if is_dot_component(&segs[n - 1]) {
                return Err(AppError::Forbidden);
            }
            let mut joined = parent.clone_path();
            joined.parts.push(segs[n - 1].clone());
            proof {
                assert(joined@ =~= parent@.push(user_segments(user_path@).last()));
                assert(joined@.subrange(0, canonical_root@.len() as int) =~= parent@.subrange(
                    0,
                    canonical_root@.len() as int,
                ));
            }
            Ok(joined)
        },
    }
}

/// The verdict of `existing_spec`, then `InvalidType` where a directory was
/// required and something else is there.
pub open spec fn directory_spec(
    root: Option<AbsPath>,
    user: Seq<char>,
    probe: Probe,
    kind: NodeKind,
) -> Result<Seq<Seq<char>>, Fault> {
    match existing_spec(root, user, probe, kind) {
        Ok(p) => if kind != NodeKind::Directory {
            Err(Fault::InvalidType)
        } else {
            Ok(p)
        },
        Err(f) => Err(f),
    }
}

/// The verdict of `existing_spec`, then `NotFound` where a regular file was
/// required and something else is there: a directory is reported as absent.
pub open spec fn file_spec(
    root: Option<AbsPath>,
    user: Seq<char>,
    probe: Probe,
    kind: NodeKind,
) -> Result<Seq<Seq<char>>, Fault> {
    match existing_spec(root, user, probe, kind) {
        Ok(p) => if kind != NodeKind::File {
            Err(Fault::NotFound)
        } else {
            Ok(p)
        },
        Err(f) => Err(f),
    }
}

fn message_with(prefix: &str, user_path: &str) -> String {
    let mut m = String::from_str(prefix);
    m.append(user_path);
    m
}

/// Resolves `user_path` as `validate_path` does, and requires that something
/// is there: `kind` is what the filesystem holds at the resolved path.
pub fn validate_existing(
    root: &Option<AbsPath>,
    user_path: &str,
    probe: &Probe,
    kind: NodeKind,
) -> (r: Result<AbsPath, AppError>)
    ensures
        outcome(r) == existing_spec(*root, user_path@, *probe, kind),
        r is Ok ==> root is Some && is_within(root->Some_0@, r->Ok_0@),
        !user_path@.contains('\0') && root is None ==> r is Err && r->Err_0 is Internal,
{
    let path = validate_path(root, user_path, probe)?;
    if kind == NodeKind::Absent {
        return Err(AppError::NotFound(message_with("not found: ", user_path)));
    }
    Ok(path)
}

/// Resolves `user_path` as `validate_existing` does, and requires a directory
/// there.
pub fn validate_directory(
    root: &Option<AbsPath>,
    user_path: &str,
    probe: &Probe,
    kind: NodeKind,
) -> (r: Result<AbsPath, AppError>)
    ensures
        outcome(r) == directory_spec(*root, user_path@, *probe, kind),
        r is Ok ==> root is Some && is_within(root->Some_0@, r->Ok_0@),
        !user_path@.contains('\0') && root is None ==> r is Err && r->Err_0 is Internal,
{
    let path = validate_existing(root, user_path, probe, kind)?;
    if kind != NodeKind::Directory {
        return Err(AppError::InvalidType(message_with("not a directory: ", user_path)));
    }
    Ok(path)
}

/// Resolves `user_path` as `validate_existing` does, and requires a regular
/// file there. Anything else is reported as not found, so that a caller who
/// asks for a file learns nothing of the directories.
pub fn validate_file(
    root: &Option<AbsPath>,
    user_path: &str,
    probe: &Probe,
    kind: NodeKind,
) -> (r: Result<AbsPath, AppError>)
    ensures
        outcome(r) == file_spec(*root, user_path@, *probe, kind),
        r is Ok ==> root is Some && is_within(root->Some_0@, r->Ok_0@),
        !user_path@.contains('\0') && root is None ==> r is Err && r->Err_0 is Internal,
{
    let path = validate_existing(root, user_path, probe, kind)?;
    if kind != NodeKind::File {
        return Err(AppError::NotFound(message_with("file not found: ", user_path)));
    }
    Ok(path)
}

/// A name that cannot be used as a bare file name: empty, `.` or `..`, or
/// holding a slash, a backslash or a null character.
pub open spec fn bad_filename(s: Seq<char>) -> bool {
    s.len() == 0 || s.contains('/') || s.contains('\\') || is_dot_name(s) || s.contains('\0')
}

fn find_char(s: &str, c: char) -> (r: bool)
    ensures
        r == s@.contains(c),
{
    let n = s.unicode_len();
    let mut i: usize = 0;
    while i < n
        invariant
            n == s@.len(),
            i <= n,
            forall|j: int| 0 <= j < i ==> s@[j] != c,
        decreases n - i,
    {
        if s.get_char(i) == c {
            return true;
        }
        i = i + 1;
    }
    false
}

/// Checks that `filename` is a single path segment that may name a new file,
/// and hands it back unchanged.
pub fn validate_filename(filename: &str) -> (r: Result<&str, AppError>)
    ensures
        r is Err <==> bad_filename(filename@),
        r is Ok ==> r->Ok_0@ == filename@,
        r is Err ==> r->Err_0.fault_spec() == Fault::Malformed,
{
    let n = filename.unicode_len();
    if n == 0 {
        return Err(AppError::BadRequest(String::from_str("empty filename")));
    }
    if find_char(filename, '/') || find_char(filename, '\\') {
        return Err(AppError::BadRequest(String::from_str("filename cannot contain path separators")));
    }
    let dots = (n == 1 && filename.get_char(0) == '.') || (n == 2 && filename.get_char(0) == '.'
        && filename.get_char(1) == '.');
    proof {
        if n == 1 && filename@[0] == '.' {
            assert(filename@ =~= seq!['.']);
        }
        if n == 2 && filename@[0] == '.' && filename@[1] == '.' {
            assert(filename@ =~= seq!['.', '.']);
        }
    }
    if dots {
        return Err(AppError::BadRequest(String::from_str("invalid filename")));
    }
    if has_nul(filename) {
        return Err(AppError::BadRequest(String::from_str("invalid filename: null byte")));
    }
    Ok(filename)
}

} // verus!
