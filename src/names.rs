//! Snapshot names: the fixed suffix and the order in which names are listed.

use vstd::multiset::Multiset;
use vstd::prelude::*;

verus! {

/// The suffix that every snapshot name carries by convention.
pub open spec fn conf_suffix() -> Seq<char> {
    seq!['.', 'c', 'o', 'n', 'f']
}

/// Whether `s` ends with the snapshot suffix.
pub open spec fn has_conf_suffix(s: Seq<char>) -> bool {
    s.len() >= 5 && s.subrange(s.len() - 5, s.len() as int) == conf_suffix()
}

/// The name with the suffix appended, unless it already ends with it.
pub open spec fn with_conf_suffix(s: Seq<char>) -> Seq<char> {
    if has_conf_suffix(s) {
        s
    } else {
        s + conf_suffix()
    }
}

/// Tests whether `name` ends with `.conf`.
pub fn ends_with_conf(name: &str) -> (r: bool)
    ensures
        r == has_conf_suffix(name@),
{
    let suffix = ".conf";
    proof {
        reveal_strlit(".conf");
    }
    assert(suffix@ == conf_suffix());
    let n = name.unicode_len();
    if n < 5 {
        return false;
    }
    let start = n - 5;
    let mut i: usize = 0;
    while i < 5
        invariant
            n == name@.len(),
            start == n - 5,
            suffix@ == conf_suffix(),
            0 <= i <= 5,
            forall|k: int| 0 <= k < i ==> name@[start + k] == conf_suffix()[k],
        decreases 5 - i,
    {
        if name.get_char(start + i) != suffix.get_char(i) {
            assert(name@.subrange(start as int, n as int)[i as int] != conf_suffix()[i as int]);
            return false;
        }
        i = i + 1;
    }
    assert(name@.subrange(start as int, n as int) =~= conf_suffix());
    true
}

/// Appends `.conf` to `name` unless it already ends with it.
pub fn ensure_conf_extension(name: String) -> (r: String)
    ensures
        r@ == with_conf_suffix(name@),
{
    if ends_with_conf(name.as_str()) {
        name
    } else {
        proof {
            reveal_strlit(".conf");
        }
        name.concat(".conf")
    }
}

/// Lexicographic order on names, character by character by code point
/// (the order of their UTF-8 encodings): `a` comes no later than `b`.
pub open spec fn name_le(a: Seq<char>, b: Seq<char>) -> bool
    decreases a.len(),
{
    if a.len() == 0 {
        true
    } else if b.len() == 0 {
        false
    } else if a[0] as u32 != b[0] as u32 {
        (a[0] as u32) < (b[0] as u32)
    } else {
        name_le(a.drop_first(), b.drop_first())
    }
}

/// Every name of `s` comes no later than each name after it.
pub open spec fn names_sorted(s: Seq<String>) -> bool {
    forall|i: int, j: int| 0 <= i < j < s.len() ==> name_le(#[trigger] s[i]@, #[trigger] s[j]@)
}

/// Any two names are ordered one way or the other.
pub proof fn lemma_name_le_total(a: Seq<char>, b: Seq<char>)
    ensures
        name_le(a, b) || name_le(b, a),
    decreases a.len(),
{
    if a.len() > 0 && b.len() > 0 && a[0] as u32 == b[0] as u32 {
        lemma_name_le_total(a.drop_first(), b.drop_first());
    }
}

/// The order on names is transitive.
pub proof fn lemma_name_le_transitive(a: Seq<char>, b: Seq<char>, c: Seq<char>)
    requires
        name_le(a, b),
        name_le(b, c),
    ensures
        name_le(a, c),
    decreases a.len(),
{
    if a.len() > 0 && b.len() > 0 && c.len() > 0 && a[0] as u32 == b[0] as u32 && b[0] as u32
        == c[0] as u32 {
        lemma_name_le_transitive(a.drop_first(), b.drop_first(), c.drop_first());
    }
}

/// Compares two names in the listing order.
pub fn name_precedes(a: &str, b: &str) -> (r: bool)
    ensures
        r == name_le(a@, b@),
{
    let la = a.unicode_len();
    let lb = b.unicode_len();
    let mut i: usize = 0;
    assert(a@.subrange(0, la as int) =~= a@);
    assert(b@.subrange(0, lb as int) =~= b@);
    while i < la && i < lb
        invariant
            la == a@.len(),
            lb == b@.len(),
            i <= la,
            i <= lb,
            name_le(a@, b@) == name_le(a@.subrange(i as int, la as int), b@.subrange(i as int, lb as int)),
        decreases la - i,
    {
        let ca = a.get_char(i);
        let cb = b.get_char(i);
        let ghost sa = a@.subrange(i as int, la as int);
        let ghost sb = b@.subrange(i as int, lb as int);
        assert(sa[0] == ca && sb[0] == cb);
        if ca as u32 != cb as u32 {
            return (ca as u32) < (cb as u32);
        }
        assert(sa.drop_first() =~= a@.subrange(i + 1, la as int));
        assert(sb.drop_first() =~= b@.subrange(i + 1, lb as int));
        i = i + 1;
    }
    i == la
}

/// Orders a directory listing for display: the same names, each once as often
/// as in `listing`, from first to last in the order of `name_le`.
pub fn sort_names(listing: Vec<String>) -> (r: Vec<String>)
    ensures
        r@.to_multiset() == listing@.to_multiset(),
        r@.len() == listing@.len(),
        names_sorted(r@),
{
    broadcast use vstd::multiset::group_multiset_axioms;

    let mut rest = listing;
    let mut out: Vec<String> = Vec::new();
    proof {
        vstd::seq_lib::to_multiset_len(out@);
        assert(out@.to_multiset() =~= Multiset::empty());
        assert(out@.to_multiset().add(rest@.to_multiset()) =~= rest@.to_multiset());
    }
    loop
        invariant
            out@.to_multiset().add(rest@.to_multiset()) == listing@.to_multiset(),
            names_sorted(out@),
        ensures
            out@.to_multiset() == listing@.to_multiset(),
            names_sorted(out@),
        decreases rest.len(),
    {
        let ghost before = rest@;
        let name = match rest.pop() {
            Some(n) => n,
            None => {
                proof {
                    vstd::seq_lib::to_multiset_len(rest@);
                }
                assert(rest@.to_multiset().len() == 0);
                assert(rest@.to_multiset() =~= Multiset::empty());
                assert(out@.to_multiset().add(rest@.to_multiset()) =~= out@.to_multiset());
                break ;
            },
        };
        assert(before =~= rest@.push(name));
        proof {
            vstd::seq_lib::to_multiset_build(rest@, name);
        }
        assert(before.to_multiset() =~= rest@.to_multiset().insert(name));
        let mut p: usize = 0;
        while p < out.len() && name_precedes(out[p].as_str(), name.as_str())
            invariant
                p <= out.len(),
                forall|j: int| 0 <= j < p ==> name_le(#[trigger] out@[j]@, name@),
            decreases out.len() - p,
        {
            p = p + 1;
        }
        proof {
            if p < out.len() {
                lemma_name_le_total(out@[p as int]@, name@);
                assert forall|j: int| p <= j < out@.len() implies name_le(name@, #[trigger] out@[j]@) by {
                    if j > p {
                        lemma_name_le_transitive(name@, out@[p as int]@, out@[j]@);
                    }
                }
            }
        }
        let ghost prev = out@;
        out.insert(p, name);
        assert(out@ == prev.insert(p as int, name));
        proof {
            vstd::seq_lib::to_multiset_insert(prev, p as int, name);
        }
        assert(out@.to_multiset().add(rest@.to_multiset()) =~= prev.to_multiset().add(
            before.to_multiset(),
        ));
        assert(names_sorted(out@)) by {
            assert forall|i: int, j: int| 0 <= i < j < out@.len() implies name_le(
                #[trigger] out@[i]@,
                #[trigger] out@[j]@,
            ) by {
                if i < p && j > p {
                    assert(name_le(prev[i]@, name@));
                    assert(name_le(name@, prev[j - 1]@));
                    lemma_name_le_transitive(prev[i]@, name@, prev[j - 1]@);
                }
            }
        }
    }
    proof {
        vstd::seq_lib::to_multiset_len(out@);
        vstd::seq_lib::to_multiset_len(listing@);
    }
    out
}

/// Whether a character is white space in Unicode's sense (its White_Space property).
pub uninterp spec fn white_space(c: char) -> bool;

/// Relies on char::is_whitespace: it tells whether `c` has Unicode's White_Space
/// property, a fixed table of code points.
pub assume_specification[ char::is_whitespace ](c: char) -> (r: bool)
    ensures
        r == white_space(c),
;

/// `s` holds white space only: trimming it leaves the empty string.
pub open spec fn is_blank(s: Seq<char>) -> bool {
    forall|i: int| 0 <= i < s.len() ==> white_space(#[trigger] s[i])
}

/// Tests whether `s` trims to the empty string.
pub fn blank(s: &str) -> (r: bool)
    ensures
        r == is_blank(s@),
{
    let n = s.unicode_len();
    let mut i: usize = 0;
    while i < n
        invariant
            n == s@.len(),
            i <= n,
            forall|k: int| 0 <= k < i ==> white_space(#[trigger] s@[k]),
        decreases n - i,
    {
        if !s.get_char(i).is_whitespace() {
            return false;
        }
        i = i + 1;
    }
    true
}

} // verus!
