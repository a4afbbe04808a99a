//! Text searches on character sequences.

use vstd::prelude::*;
use vstd::string::*;

verus! {

/// `s` with every occurrence of `p` taken out, scanning from the left.
pub open spec fn remove_all(s: Seq<char>, p: Seq<char>) -> Seq<char>
    decreases s.len(),
{
    if p.len() == 0 || s.len() < p.len() {
        s
    } else if s.subrange(0, p.len() as int) == p {
        remove_all(s.skip(p.len() as int), p)
    } else {
        seq![s[0]] + remove_all(s.skip(1), p)
    }
}

/// Whether `p` occurs anywhere in `s`.
pub open spec fn contains_text(s: Seq<char>, p: Seq<char>) -> bool {
    exists|i: int| 0 <= i && i + p.len() <= s.len() && #[trigger] s.subrange(i, i + p.len()) == p
}

/// Whether `p` occurs in `s` at position `i`.
pub fn occurs_at(s: &str, i: usize, p: &str) -> (r: bool)
    requires
        i <= s@.len(),
    ensures
        r == (i + p@.len() <= s@.len() && s@.subrange(i as int, i + p@.len()) == p@),
{
    let n = s.unicode_len();
    let m = p.unicode_len();
    if m > n - i {
        return false;
    }
    let mut k: usize = 0;
    while k < m
        invariant
            n == s@.len(),
            m == p@.len(),
            i + m <= n,
            k <= m,
            forall|j: int| 0 <= j < k ==> s@[i + j] == p@[j],
        decreases m - k,
    {
        if s.get_char(i + k) != p.get_char(k) {
            assert(s@.subrange(i as int, i + m)[k as int] != p@[k as int]);
            return false;
        }
        k = k + 1;
    }
    assert(s@.subrange(i as int, i + m) =~= p@);
    true
}

/// `s` with every occurrence of `p` taken out, as `str::replace(p, "")`
/// does.
pub fn remove_all_text(s: &str, p: &str) -> (r: String)
    requires
        p@.len() > 0,
    ensures
        r@ == remove_all(s@, p@),
{
    let n = s.unicode_len();
    let m = p.unicode_len();
    let mut out = String::new();
    let mut i: usize = 0;
    assert(s@.skip(0) =~= s@);
    assert(out@ + remove_all(s@, p@) =~= remove_all(s@, p@));
    while i < n
        invariant
            n == s@.len(),
            m == p@.len(),
            m > 0,
            i <= n,
            out@ + remove_all(s@.skip(i as int), p@) == remove_all(s@, p@),
        decreases n - i,
    {
        let ghost rest = s@.skip(i as int);
        if occurs_at(s, i, p) {
            assert(rest.subrange(0, m as int) =~= s@.subrange(i as int, i + m));
            assert(rest.skip(m as int) =~= s@.skip(i + m));
            i = i + m;
        } else {
            if m <= n - i {
                assert(rest.subrange(0, m as int) =~= s@.subrange(i as int, i + m));
                assert(rest.skip(1) =~= s@.skip(i + 1));
                let c = s.substring_char(i, i + 1);
                assert(c@ =~= seq![rest[0]]);
                let ghost before = out@;
                out.append(c);
                assert(out@ + remove_all(s@.skip(i + 1), p@) =~= before + (seq![rest[0]]
                    + remove_all(rest.skip(1), p@)));
                i = i + 1;
            } else {
                let tail = s.substring_char(i, n);
                assert(tail@ =~= rest);
                out.append(tail);
                assert(s@.skip(n as int) =~= Seq::<char>::empty());
                i = n;
            }
        }
    }
    assert(s@.skip(n as int) =~= Seq::<char>::empty());
    out
}

/// Whether `p` occurs anywhere in `s`.
pub fn contains(s: &str, p: &str) -> (r: bool)
    ensures
        r == contains_text(s@, p@),
{
    let n = s.unicode_len();
    let mut i: usize = 0;
    while i < n
        invariant
            i <= n,
            n == s@.len(),
            forall|j: int|
                0 <= j < i && j + p@.len() <= s@.len() ==> #[trigger] s@.subrange(j, j + p@.len())
                    != p@,
        decreases n - i,
    {
        if occurs_at(s, i, p) {
            return true;
        }
        i = i + 1;
    }
    if occurs_at(s, n, p) {
        return true;
    }
    assert(!contains_text(s@, p@)) by {
        assert forall|j: int|
            0 <= j && j + p@.len() <= s@.len() implies #[trigger] s@.subrange(j, j + p@.len())
            != p@ by {
            assert(j <= n);
        }
    }
    false
}

} // verus!
