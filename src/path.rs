use vstd::prelude::*;

verus! {

/// A path as the list of its components, read from the filesystem's root.
/// Canonical paths (those the filesystem resolved) and paths built from them
/// are held in this form, so that containment is a question of prefixes of
/// component lists rather than of string prefixes.
#[derive(Debug, Clone)]
pub struct AbsPath {
    pub parts: Vec<String>,
}

impl View for AbsPath {
    type V = Seq<Seq<char>>;

    open spec fn view(&self) -> Seq<Seq<char>> {
        part_views(self.parts@)
    }
}

/// The text of each component.
pub open spec fn part_views(v: Seq<String>) -> Seq<Seq<char>> {
    v.map_values(|s: String| s@)
}

/// No slash stands in `s`.
pub open spec fn slash_free(s: Seq<char>) -> bool {
    forall|j: int| 0 <= j < s.len() ==> s[j] != '/'
}

/// A component that a canonical path can hold: a non-empty name without a
/// slash, other than `.` and `..`.
pub open spec fn is_plain_name(c: Seq<char>) -> bool {
    c.len() > 0 && slash_free(c) && c != seq!['.'] && c != seq!['.', '.']
}

/// A path that the filesystem could hand back as canonical: every component
/// is a plain name.
pub open spec fn is_canonical(p: Seq<Seq<char>>) -> bool {
    forall|i: int| 0 <= i < p.len() ==> is_plain_name(#[trigger] p[i])
}

/// `p` is `root` itself or lies below it, compared component by component.
pub open spec fn is_within(root: Seq<Seq<char>>, p: Seq<Seq<char>>) -> bool {
    root.len() <= p.len() && p.subrange(0, root.len() as int) == root
}

/// `s` with every leading `/` removed.
pub open spec fn strip_leading_slashes(s: Seq<char>) -> Seq<char>
    decreases s.len(),
{
    if s.len() > 0 && s[0] == '/' {
        strip_leading_slashes(s.drop_first())
    } else {
        s
    }
}

/// The relative path that an untrusted path denotes: leading slashes removed,
/// and the root itself (`.`) where nothing is left.
pub open spec fn normalized(s: Seq<char>) -> Seq<char> {
    let t = strip_leading_slashes(s);
    if t.len() == 0 {
        seq!['.']
    } else {
        t
    }
}

/// Adds the segment being read to the finished ones, unless it is empty.
pub open spec fn close_segment(done: Seq<Seq<char>>, cur: Seq<char>) -> Seq<Seq<char>> {
    if cur.len() == 0 {
        done
    } else {
        done.push(cur)
    }
}

/// Reading `s` from the left: the segments finished so far, and the one being read.
pub open spec fn split_state(s: Seq<char>) -> (Seq<Seq<char>>, Seq<char>)
    decreases s.len(),
{
    if s.len() == 0 {
        (Seq::empty(), Seq::empty())
    } else {
        let (done, cur) = split_state(s.drop_last());
        if s.last() == '/' {
            (close_segment(done, cur), Seq::empty())
        } else {
            (done, cur.push(s.last()))
        }
    }
}

/// The non-empty pieces of `s` between slashes, in order.
pub open spec fn segments(s: Seq<char>) -> Seq<Seq<char>> {
    close_segment(split_state(s).0, split_state(s).1)
}

/// The components that an untrusted path adds to the root it is joined onto.
pub open spec fn user_segments(s: Seq<char>) -> Seq<Seq<char>> {
    segments(normalized(s))
}

/// Whether `s` holds a null character.
pub fn has_nul(s: &str) -> (r: bool)
    ensures
        r == s@.contains('\0'),
{
    let n = s.unicode_len();
    let mut i: usize = 0;
    while i < n
        invariant
            n == s@.len(),
            i <= n,
            forall|j: int| 0 <= j < i ==> s@[j] != '\0',
        decreases n - i,
    {
        if s.get_char(i) == '\0' {
            return true;
        }
        i = i + 1;
    }
    false
}

proof fn lemma_strip_step(s: Seq<char>, k: int)
    requires
        0 <= k < s.len(),
        s[k] == '/',
    ensures
        strip_leading_slashes(s.subrange(k, s.len() as int)) == strip_leading_slashes(
            s.subrange(k + 1, s.len() as int),
        ),
{
    let t = s.subrange(k, s.len() as int);
    assert(t.drop_first() =~= s.subrange(k + 1, s.len() as int));
}

proof fn lemma_split_step(s: Seq<char>, i: int)
    requires
        0 <= i < s.len(),
    ensures
        split_state(s.take(i + 1)) == ({
            let (done, cur) = split_state(s.take(i));
            if s[i] == '/' {
                (close_segment(done, cur), Seq::<char>::empty())
            } else {
                (done, cur.push(s[i]))
            }
        }),
{
    assert(s.take(i + 1).drop_last() =~= s.take(i));
}

/// The number of slashes that `s` begins with.
pub fn skip_leading_slashes(s: &str) -> (k: usize)
    ensures
        k <= s@.len(),
        strip_leading_slashes(s@) == s@.subrange(k as int, s@.len() as int),
{
    let n = s.unicode_len();
    let mut k: usize = 0;
    proof {
        assert(s@.subrange(0, n as int) =~= s@);
    }
    while k < n && s.get_char(k) == '/'
        invariant
            n == s@.len(),
            k <= n,
            strip_leading_slashes(s@) == strip_leading_slashes(s@.subrange(k as int, n as int)),
        decreases n - k,
    {
        proof {
            lemma_strip_step(s@, k as int);
        }
        k = k + 1;
    }
    proof {
        let t = s@.subrange(k as int, n as int);
        if k < n {
            assert(t[0] != '/');
        }
    }
    k
}

/// The components that the untrusted path `s` adds to the root it is joined
/// onto: leading slashes are dropped, an empty remainder stands for `.`, and
/// the rest is cut at each slash, empty pieces left out.
pub fn split_user_path(s: &str) -> (r: Vec<String>)
    ensures
        part_views(r@) == user_segments(s@),
{
    let n = s.unicode_len();
    let k = skip_leading_slashes(s);
    let ghost t = s@.subrange(k as int, n as int);
    let mut out: Vec<String> = Vec::new();
    if k == n {
        out.push(String::from_str("."));
        proof {
            assert(t.len() == 0);
            let d = seq!['.'];
            let e = Seq::<char>::empty();
            assert(d.drop_last() =~= e);
            assert(split_state(e) == (Seq::<Seq<char>>::empty(), e));
            assert(e.push('.') =~= d);
            assert(split_state(d) == (Seq::<Seq<char>>::empty(), d));
            reveal_strlit(".");
            assert(normalized(s@) == d);
            assert(segments(d) =~= seq![d]);
            assert(out@.len() == 1 && out@[0]@ == d);
            assert(part_views(out@) =~= user_segments(s@));
        }
        return out;
    }
    let mut start: usize = k;
    let mut i: usize = k;
    while i < n
        invariant
            n == s@.len(),
            k <= start <= i <= n,
            t == s@.subrange(k as int, n as int),
            split_state(t.take(i - k)) == (
                part_views(out@),
                s@.subrange(start as int, i as int),
            ),
        decreases n - i,
    {
        let c = s.get_char(i);
        proof {
            lemma_split_step(t, i - k);
        }
        if c == '/' {
            if start < i {
                let piece = s.substring_char(start, i);
                out.push(String::from_str(piece));
            }
            start = i + 1;
        }
        proof {
            assert(part_views(out@) == split_state(t.take(i + 1 - k)).0);
            assert(s@.subrange(start as int, i + 1) =~= split_state(t.take(i + 1 - k)).1);
        }
        i = i + 1;
    }
    proof {
        assert(t.take(n - k) =~= t);
    }
    if start < n {
        let piece = s.substring_char(start, n);
        out.push(String::from_str(piece));
    }
    proof {
        assert(part_views(out@) =~= user_segments(s@));
    }
    out
}

} // verus!

verus! {

impl AbsPath {
    /// A copy of this path.
    pub fn clone_path(&self) -> (r: AbsPath)
        ensures
            r@ == self@,
    {
        let parts = self.parts.clone();
        proof {
            assert(parts@ =~= self.parts@);
        }
        AbsPath { parts }
    }
}

} // verus!
