use vstd::prelude::*;

use crate::models::{EntryType, FileEntry};
use crate::text::{lower_of, lowercase};

verus! {

/// `a` comes before `b` or equals it, comparing characters by code point from
/// the left; a proper prefix comes first.
pub open spec fn lex_le(a: Seq<char>, b: Seq<char>) -> bool
    decreases a.len(),
{
    if a.len() == 0 {
        true
    } else if b.len() == 0 {
        false
    } else if a[0] != b[0] {
        a[0] < b[0]
    } else {
        lex_le(a.drop_first(), b.drop_first())
    }
}

/// The listing order on (is a directory, lower-cased name): directories
/// first, then names in lexicographic order.
pub open spec fn key_le(a_dir: bool, a_key: Seq<char>, b_dir: bool, b_key: Seq<char>) -> bool {
    if a_dir != b_dir {
        a_dir
    } else {
        lex_le(a_key, b_key)
    }
}

/// `a` may stand before `b` in a listing.
pub open spec fn entry_le(a: FileEntry, b: FileEntry) -> bool {
    key_le(
        a.entry_type == EntryType::Directory,
        lower_of(a.name@),
        b.entry_type == EntryType::Directory,
        lower_of(b.name@),
    )
}

/// Every entry may stand before every later one.
pub open spec fn listing_sorted(s: Seq<FileEntry>) -> bool {
    forall|i: int, j: int| 0 <= i < j < s.len() ==> entry_le(#[trigger] s[i], #[trigger] s[j])
}

proof fn lemma_lex_total(a: Seq<char>, b: Seq<char>)
    ensures
        lex_le(a, b) || lex_le(b, a),
    decreases a.len(),
{
    if a.len() > 0 && b.len() > 0 && a[0] == b[0] {
        lemma_lex_total(a.drop_first(), b.drop_first());
    }
}

proof fn lemma_lex_trans(a: Seq<char>, b: Seq<char>, c: Seq<char>)
    requires
        lex_le(a, b),
        lex_le(b, c),
    ensures
        lex_le(a, c),
    decreases a.len(),
{
    if a.len() > 0 && b.len() > 0 && c.len() > 0 && a[0] == b[0] && b[0] == c[0] {
        lemma_lex_trans(a.drop_first(), b.drop_first(), c.drop_first());
    }
}

proof fn lemma_lex_refl(a: Seq<char>)
    ensures
        lex_le(a, a),
    decreases a.len(),
{
    if a.len() > 0 {
        lemma_lex_refl(a.drop_first());
    }
}

proof fn lemma_entry_total(a: FileEntry, b: FileEntry)
    ensures
        entry_le(a, b) || entry_le(b, a),
{
    lemma_lex_total(lower_of(a.name@), lower_of(b.name@));
}

proof fn lemma_entry_trans(a: FileEntry, b: FileEntry, c: FileEntry)
    requires
        entry_le(a, b),
        entry_le(b, c),
    ensures
        entry_le(a, c),
{
    let (ka, kb, kc) = (lower_of(a.name@), lower_of(b.name@), lower_of(c.name@));
    if a.entry_type == b.entry_type && b.entry_type == c.entry_type {
        lemma_lex_trans(ka, kb, kc);
    } else if (a.entry_type == EntryType::Directory) == (b.entry_type == EntryType::Directory) && (
    b.entry_type == EntryType::Directory) == (c.entry_type == EntryType::Directory) {
        lemma_lex_trans(ka, kb, kc);
    }
}

/// Whether `a` comes before `b` or equals it, by code point from the left.
pub fn text_le(a: &str, b: &str) -> (r: bool)
    ensures
        r == lex_le(a@, b@),
{
    let n = a.unicode_len();
    let m = b.unicode_len();
    let mut i: usize = 0;
    proof {
        assert(a@.skip(0) =~= a@);
        assert(b@.skip(0) =~= b@);
    }
    while i < n && i < m
        invariant
            n == a@.len(),
            m == b@.len(),
            i <= n,
            i <= m,
            lex_le(a@, b@) == lex_le(a@.skip(i as int), b@.skip(i as int)),
        decreases n - i,
    {
        let x = a.get_char(i);
        let y = b.get_char(i);
        proof {
            assert(a@.skip(i as int)[0] == x && b@.skip(i as int)[0] == y);
        }
        if x != y {
            return x < y;
        }
        proof {
            assert(a@.skip(i as int).drop_first() =~= a@.skip(i + 1));
            assert(b@.skip(i as int).drop_first() =~= b@.skip(i + 1));
        }
        i = i + 1;
    }
    i == n
}

/// Whether an entry with the given kind and lower-cased name may stand before
/// another in a listing.
pub fn key_before(a_dir: bool, a_key: &str, b_dir: bool, b_key: &str) -> (r: bool)
    ensures
        r == key_le(a_dir, a_key@, b_dir, b_key@),
{
    if a_dir != b_dir {
        a_dir
    } else {
        text_le(a_key, b_key)
    }
}

/// The entries of a directory in listing order: directories first, then
/// names compared without regard to case.
pub fn sort_entries(entries: Vec<FileEntry>) -> (r: Vec<FileEntry>)
    ensures
        r@.to_multiset() == entries@.to_multiset(),
        listing_sorted(r@),
{
    let mut out: Vec<FileEntry> = Vec::new();
    let mut keys: Vec<String> = Vec::new();
    let mut rest = entries;
    let ghost all = rest@;
    proof {
        vstd::seq_lib::to_multiset_len(out@);
        vstd::multiset::lemma_multiset_empty_len(out@.to_multiset());
        assert(all.to_multiset() =~= rest@.to_multiset().add(out@.to_multiset()));
    }
    while rest.len() > 0
        invariant
            all.to_multiset() == rest@.to_multiset().add(out@.to_multiset()),
            keys@.len() == out@.len(),
            forall|i: int| 0 <= i < out@.len() ==> #[trigger] keys@[i]@ == lower_of(out@[i].name@),
            listing_sorted(out@),
        decreases rest@.len(),
    {
        let ghost before = rest@;
        let x = rest.pop().unwrap();
        proof {
            assert(before == rest@.push(x));
            vstd::seq_lib::to_multiset_build(rest@, x);
        }
        let xk = lowercase(x.name.as_str());
        let x_dir = x.entry_type == EntryType::Directory;
        let mut p: usize = 0;
        while p < out.len() && key_before(
            out[p].entry_type == EntryType::Directory,
            keys[p].as_str(),
            x_dir,
            xk.as_str(),
        )
            invariant
                p <= out@.len(),
                keys@.len() == out@.len(),
                forall|i: int|
                    0 <= i < out@.len() ==> #[trigger] keys@[i]@ == lower_of(out@[i].name@),
                xk@ == lower_of(x.name@),
                x_dir == (x.entry_type == EntryType::Directory),
                forall|i: int| 0 <= i < p ==> entry_le(#[trigger] out@[i], x),
            decreases out@.len() - p,
        {
            p = p + 1;
        }
        let ghost old_out = out@;
        let ghost old_keys = keys@;
        proof {
            if p < old_out.len() {
                assert(!entry_le(old_out[p as int], x));
                lemma_entry_total(old_out[p as int], x);
                assert forall|j: int| p <= j < old_out.len() implies entry_le(
                    x,
                    #[trigger] old_out[j],
                ) by {
                    if j > p {
                        assert(entry_le(old_out[p as int], old_out[j]));
                        lemma_entry_total(x, old_out[j]);
                        if !entry_le(x, old_out[j]) {
                            lemma_entry_trans(old_out[p as int], old_out[j], x);
                        }
                    }
                }
            }
        }
        out.insert(p, x);
        keys.insert(p, xk);
        proof {
            let s = out@;
            assert(s == old_out.insert(p as int, x));
            vstd::seq_lib::to_multiset_insert(old_out, p as int, x);
            assert forall|i: int, j: int| 0 <= i < j < s.len() implies entry_le(
                #[trigger] s[i],
                #[trigger] s[j],
            ) by {
                if j < p {
                    assert(s[i] == old_out[i] && s[j] == old_out[j]);
                } else if j == p {
                    assert(s[i] == old_out[i]);
                } else if i == p {
                    assert(s[j] == old_out[j - 1]);
                } else if i < p {
                    assert(s[i] == old_out[i] && s[j] == old_out[j - 1]);
                    assert(entry_le(old_out[i], x));
                    assert(entry_le(x, old_out[j - 1]));
                    lemma_entry_trans(old_out[i], x, old_out[j - 1]);
                } else {
                    assert(s[i] == old_out[i - 1] && s[j] == old_out[j - 1]);
                }
            }
            assert forall|i: int| 0 <= i < out@.len() implies #[trigger] keys@[i]@ == lower_of(
                out@[i].name@,
            ) by {
                if i > p {
                    assert(keys@[i] == old_keys[i - 1]);
                }
            }
            assert(all.to_multiset() =~= rest@.to_multiset().add(out@.to_multiset()));
        }
    }
    proof {
        vstd::seq_lib::to_multiset_len(rest@);
        vstd::multiset::lemma_multiset_empty_len(rest@.to_multiset());
        assert(all.to_multiset() =~= out@.to_multiset());
    }
    out
}

} // verus!
