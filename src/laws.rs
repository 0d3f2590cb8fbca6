use vstd::prelude::*;

use crate::error::{AppError, Fault};
use crate::path::{
    close_segment, is_canonical, is_plain_name, is_within, normalized, segments, slash_free,
    split_state, strip_leading_slashes, user_segments, AbsPath,
};
use crate::security::{
    directory_spec, existing_spec, file_spec, is_dot_name, names_parent, outcome, resolve_spec,
    NodeKind, Probe,
};

verus! {

proof fn lemma_split_without_slash(s: Seq<char>)
    requires
        !s.contains('/'),
    ensures
        split_state(s) == (Seq::<Seq<char>>::empty(), s),
    decreases s.len(),
{
    if s.len() > 0 {
        let d = s.drop_last();
        assert(!d.contains('/')) by {
            if d.contains('/') {
                let j = choose|j: int| 0 <= j < d.len() && d[j] == '/';
                assert(s[j] == '/');
            }
        }
        lemma_split_without_slash(d);
        assert(s[s.len() - 1] != '/');
        assert(d.push(s.last()) =~= s);
    }
}

/// A non-empty name without a slash is a single segment, and names itself.
proof fn lemma_single_segment(s: Seq<char>)
    requires
        s.len() > 0,
        !s.contains('/'),
    ensures
        user_segments(s) == seq![s],
{
    assert(s[0] != '/');
    assert(strip_leading_slashes(s) == s);
    assert(normalized(s) == s);
    lemma_split_without_slash(s);
    assert(segments(s) =~= seq![s]);
}

/// Whatever the path and whatever the filesystem answered, a path that
/// resolves lies in the canonical root, compared component by component; so
/// does one that passes the checks for an existing path, a directory or a file.
pub proof fn law_containment(root: Option<AbsPath>, user: Seq<char>, probe: Probe, kind: NodeKind)
    ensures
        resolve_spec(root, user, probe) is Ok ==> root is Some && is_within(
            root->Some_0@,
            resolve_spec(root, user, probe)->Ok_0,
        ),
        existing_spec(root, user, probe, kind) is Ok ==> root is Some && is_within(
            root->Some_0@,
            existing_spec(root, user, probe, kind)->Ok_0,
        ),
        directory_spec(root, user, probe, kind) is Ok ==> root is Some && is_within(
            root->Some_0@,
            directory_spec(root, user, probe, kind)->Ok_0,
        ),
        file_spec(root, user, probe, kind) is Ok ==> root is Some && is_within(
            root->Some_0@,
            file_spec(root, user, probe, kind)->Ok_0,
        ),
{
    if let (Some(r), Probe::Missing(Some(parent))) = (root, probe) {
        let segs = user_segments(user);
        if segs.len() > 0 {
            let p = parent@.push(segs.last());
            if is_within(r@, parent@) {
                assert(p.subrange(0, r@.len() as int) =~= parent@.subrange(0, r@.len() as int));
            }
        }
    }
}

/// The empty path, `/` and `.` all name the root itself: the filesystem is
/// asked about the root joined with `.` alone, and where it answers with the
/// canonical root, that is the result.
pub proof fn law_root_identity(root: AbsPath, user: Seq<char>)
    requires
        user == Seq::<char>::empty() || user == seq!['/'] || user == seq!['.'],
    ensures
        user_segments(user) == seq![seq!['.']],
        resolve_spec(Some(root), user, Probe::Existing(root)) == Ok::<Seq<Seq<char>>, Fault>(
            root@,
        ),
{
    let dot = seq!['.'];
    let e = Seq::<char>::empty();
    assert(strip_leading_slashes(e) == e);
    if user == seq!['/'] {
        assert(user.drop_first() =~= e);
        assert(strip_leading_slashes(user) == e);
    } else if user == dot {
        assert(strip_leading_slashes(user) == user);
    }
    assert(normalized(user) == dot);
    assert(!dot.contains('/')) by {
        if dot.contains('/') {
            let j = choose|j: int| 0 <= j < dot.len() && dot[j] == '/';
            assert(dot[j] == '.');
        }
    }
    lemma_split_without_slash(dot);
    assert(segments(dot) =~= seq![dot]);
    assert(!user.contains('\0')) by {
        if user.contains('\0') {
            let j = choose|j: int| 0 <= j < user.len() && user[j] == '\0';
            assert(user[j] == '/' || user[j] == '.');
        }
    }
    assert(seq![dot] != seq![seq!['.', '.']]) by {
        assert(seq![dot][0].len() != seq![seq!['.', '.']][0].len());
    }
    assert(root@.subrange(0, root@.len() as int) =~= root@);
}

/// A path whose `..` segments stay inside the root is judged by where it
/// ends, not by how it is written: two paths that the filesystem resolves to
/// the same location in the root give the same result. (`..` alone is
/// refused whatever it resolves to.)
pub proof fn law_traversal_tolerance(root: AbsPath, a: Seq<char>, b: Seq<char>, target: AbsPath)
    requires
        !names_parent(a),
        !names_parent(b),
        !a.contains('\0'),
        !b.contains('\0'),
        is_within(root@, target@),
    ensures
        resolve_spec(Some(root), a, Probe::Existing(target)) == Ok::<Seq<Seq<char>>, Fault>(
            target@,
        ),
        resolve_spec(Some(root), a, Probe::Existing(target)) == resolve_spec(
            Some(root),
            b,
            Probe::Existing(target),
        ),
{
}

/// A path that the filesystem resolves outside the root (an ancestor of the
/// root, a sibling, anything not below it) is forbidden, however it was
/// written.
pub proof fn law_escape_rejected(root: AbsPath, user: Seq<char>, target: AbsPath)
    requires
        !user.contains('\0'),
        !is_within(root@, target@),
    ensures
        resolve_spec(Some(root), user, Probe::Existing(target)) == Err::<Seq<Seq<char>>, Fault>(
            Fault::Forbidden,
        ),
{
}

/// `..` names the parent of the root and is forbidden, whatever the root
/// and whatever the filesystem answered, even where the root is the top of
/// the filesystem and `..` leads back to it.
pub proof fn law_parent_of_root_rejected(root: AbsPath, probe: Probe)
    ensures
        resolve_spec(Some(root), seq!['.', '.'], probe) == Err::<Seq<Seq<char>>, Fault>(
            Fault::Forbidden,
        ),
{
    let dd = seq!['.', '.'];
    assert(!dd.contains('\0')) by {
        if dd.contains('\0') {
            let j = choose|j: int| 0 <= j < dd.len() && dd[j] == '\0';
            assert(dd[j] == '.');
        }
    }
    assert(!dd.contains('/')) by {
        if dd.contains('/') {
            let j = choose|j: int| 0 <= j < dd.len() && dd[j] == '/';
            assert(dd[j] == '.');
        }
    }
    lemma_single_segment(dd);
}

/// A new name may not be `.` or `..`: where the last segment of the path is
/// one of them and the filesystem has nothing there, the path is forbidden.
pub proof fn law_dot_leaf_rejected(root: AbsPath, user: Seq<char>, parent: AbsPath)
    requires
        !user.contains('\0'),
        user_segments(user).len() > 0,
        is_dot_name(user_segments(user).last()),
    ensures
        resolve_spec(Some(root), user, Probe::Missing(Some(parent))) == Err::<
            Seq<Seq<char>>,
            Fault,
        >(Fault::Forbidden),
{
}

/// A path that holds a null character is malformed, whatever else it holds
/// and whatever the filesystem answered.
pub proof fn law_null_rejected(root: Option<AbsPath>, user: Seq<char>, probe: Probe, kind: NodeKind)
    requires
        user.contains('\0'),
    ensures
        resolve_spec(root, user, probe) == Err::<Seq<Seq<char>>, Fault>(Fault::Malformed),
        existing_spec(root, user, probe, kind) == Err::<Seq<Seq<char>>, Fault>(Fault::Malformed),
        directory_spec(root, user, probe, kind) == Err::<Seq<Seq<char>>, Fault>(Fault::Malformed),
        file_spec(root, user, probe, kind) == Err::<Seq<Seq<char>>, Fault>(Fault::Malformed),
{
}

/// A name that does not exist yet in the root resolves to the root with that
/// name added.
pub proof fn law_new_leaf_in_root(root: AbsPath, name: Seq<char>)
    requires
        name.len() > 0,
        !name.contains('/'),
        !name.contains('\0'),
        !is_dot_name(name),
    ensures
        user_segments(name) == seq![name],
        !names_parent(name),
        resolve_spec(Some(root), name, Probe::Missing(Some(root))) == Ok::<
            Seq<Seq<char>>,
            Fault,
        >(root@.push(name)),
{
    lemma_single_segment(name);
    assert(seq![name][0] != seq![seq!['.', '.']][0]);
    assert(root@.subrange(0, root@.len() as int) =~= root@);
}

/// Where the parent of a path that does not exist is missing too, the path
/// is not found (`..` alone aside, which is refused first).
pub proof fn law_missing_parent(root: AbsPath, user: Seq<char>)
    requires
        !user.contains('\0'),
        !names_parent(user),
    ensures
        resolve_spec(Some(root), user, Probe::Missing(None)) == Err::<Seq<Seq<char>>, Fault>(
            Fault::NotFound,
        ),
{
}

/// Resolving the same path twice, with the filesystem unchanged in between,
/// gives the same result both times.
pub proof fn law_idempotent(
    root: Option<AbsPath>,
    user: Seq<char>,
    probe: Probe,
    first: Result<AbsPath, AppError>,
    second: Result<AbsPath, AppError>,
)
    requires
        outcome(first) == resolve_spec(root, user, probe),
        outcome(second) == resolve_spec(root, user, probe),
    ensures
        outcome(first) == outcome(second),
        first is Ok ==> second is Ok && first->Ok_0@ == second->Ok_0@,
{
}

} // verus!

verus! {

/// A checked file name added to a directory that lies in the root gives a
/// path that lies in the root too.
pub proof fn law_upload_destination_contained(root: AbsPath, dir: AbsPath, name: Seq<char>)
    requires
        is_within(root@, dir@),
    ensures
        is_within(root@, dir@.push(name)),
{
    assert(dir@.push(name).subrange(0, root@.len() as int) =~= dir@.subrange(
        0,
        root@.len() as int,
    ));
}

proof fn lemma_split_shape(s: Seq<char>)
    ensures
        forall|i: int|
            0 <= i < split_state(s).0.len() ==> (#[trigger] split_state(s).0[i]).len() > 0
                && slash_free(split_state(s).0[i]),
        slash_free(split_state(s).1),
    decreases s.len(),
{
    if s.len() > 0 {
        lemma_split_shape(s.drop_last());
        let (done, cur) = split_state(s.drop_last());
        if s.last() != '/' {
            assert forall|j: int| 0 <= j < cur.push(s.last()).len() implies cur.push(
                s.last(),
            )[j] != '/' by {
                if j < cur.len() {
                    assert(cur.push(s.last())[j] == cur[j]);
                }
            }
        } else {
            let d2 = close_segment(done, cur);
            assert forall|i: int| 0 <= i < d2.len() implies (#[trigger] d2[i]).len() > 0
                && slash_free(d2[i]) by {
                if i < done.len() {
                    assert(d2[i] == done[i]);
                }
            }
        }
    }
}

/// The components that an untrusted path adds are non-empty and hold no
/// slash.
proof fn lemma_segments_shape(s: Seq<char>)
    ensures
        forall|i: int|
            0 <= i < user_segments(s).len() ==> (#[trigger] user_segments(s)[i]).len() > 0
                && slash_free(user_segments(s)[i]),
{
    let n = normalized(s);
    lemma_split_shape(n);
    let (done, cur) = split_state(n);
    let segs = close_segment(done, cur);
    assert forall|i: int| 0 <= i < segs.len() implies (#[trigger] segs[i]).len() > 0
        && slash_free(segs[i]) by {
        if i < done.len() {
            assert(segs[i] == done[i]);
        }
    }
}

/// Every path that the filesystem handed in is canonical.
pub open spec fn probe_canonical(probe: Probe) -> bool {
    match probe {
        Probe::Existing(t) => is_canonical(t@),
        Probe::Missing(Some(p)) => is_canonical(p@),
        _ => true,
    }
}

/// Where the root and the filesystem's answers are canonical paths, so is a
/// resolved path, and it is the root or one of its descendants: only names,
/// no `.`, `..` or empty component, stand after the root's own.
pub proof fn law_result_canonical(root: AbsPath, user: Seq<char>, probe: Probe)
    requires
        is_canonical(root@),
        probe_canonical(probe),
    ensures
        resolve_spec(Some(root), user, probe) is Ok ==> is_canonical(
            resolve_spec(Some(root), user, probe)->Ok_0,
        ) && is_within(root@, resolve_spec(Some(root), user, probe)->Ok_0),
{
    law_containment(Some(root), user, probe, NodeKind::Absent);
    if let Probe::Missing(Some(parent)) = probe {
        let segs = user_segments(user);
        if resolve_spec(Some(root), user, probe) is Ok {
            lemma_segments_shape(user);
            let leaf = segs.last();
            assert(leaf == segs[segs.len() - 1]);
            assert(is_plain_name(leaf));
            let p = parent@.push(leaf);
            assert forall|i: int| 0 <= i < p.len() implies is_plain_name(#[trigger] p[i]) by {
                if i < parent@.len() {
                    assert(p[i] == parent@[i]);
                }
            }
        }
    }
}

} // verus!
