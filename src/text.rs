//! Operations on domain names and provider identifiers.

use vstd::prelude::*;

verus! {

/// True when the name already ends with the root separator.
pub open spec fn has_trailing_dot(s: Seq<char>) -> bool {
    s.len() > 0 && s.last() == '.'
}

/// A name as it is used in every comparison and request: ending with `.`.
pub open spec fn normalized_name(s: Seq<char>) -> Seq<char> {
    if has_trailing_dot(s) {
        s
    } else {
        s.push('.')
    }
}

/// True when `p` occurs in `s` starting at position `i`.
pub open spec fn occurs_at(s: Seq<char>, p: Seq<char>, i: int) -> bool {
    0 <= i && i + p.len() <= s.len() && s.subrange(i, i + p.len()) == p
}

/// `s` with every leading copy of the non-empty `p` removed, one after another.
pub open spec fn strip_repeated(s: Seq<char>, p: Seq<char>) -> Seq<char>
    decreases s.len(),
{
    if p.len() > 0 && occurs_at(s, p, 0) {
        strip_repeated(s.subrange(p.len() as int, s.len() as int), p)
    } else {
        s
    }
}

/// Appends the root separator to a name that lacks it.
pub fn normalize_dns_name(name: &str) -> (r: String)
    ensures
        r@ == normalized_name(name@),
{
    let n = name.unicode_len();
    let mut r = name.to_owned();
    if n == 0 || name.get_char(n - 1) != '.' {
        r.append(".");
        proof {
            reveal_strlit(".");
        }
        assert(r@ =~= name@.push('.'));
    }
    r
}

/// Whether `p` occurs in `s` at character position `i`.
pub fn occurs_at_exec(s: &str, p: &str, i: usize) -> (r: bool)
    ensures
        r == occurs_at(s@, p@, i as int),
{
    let n = s.unicode_len();
    let m = p.unicode_len();
    if i > n || m > n - i {
        return false;
    }
    let mut j: usize = 0;
    while j < m
        invariant
            i + m <= n,
            n == s@.len(),
            m == p@.len(),
            j <= m,
            forall|k: int| 0 <= k < j ==> s@[i + k] == p@[k],
        decreases m - j,
    {
        if s.get_char(i + j) != p.get_char(j) {
            assert(s@.subrange(i as int, i + m)[j as int] != p@[j as int]);
            return false;
        }
        j += 1;
    }
    assert(s@.subrange(i as int, i + m) =~= p@);
    true
}

proof fn lemma_strip_from(s: Seq<char>, p: Seq<char>, i: int)
    requires
        p.len() > 0,
        0 <= i <= s.len(),
        occurs_at(s, p, i),
    ensures
        strip_repeated(s.subrange(i, s.len() as int), p) == strip_repeated(
            s.subrange(i + p.len(), s.len() as int),
            p,
        ),
{
    let t = s.subrange(i, s.len() as int);
    assert(t.subrange(0, p.len() as int) =~= s.subrange(i, i + p.len()));
    assert(t.subrange(p.len() as int, t.len() as int) =~= s.subrange(i + p.len(), s.len() as int));
}

/// Removes every leading copy of `p` from `s`, as provider identifiers carry
/// a path prefix (`/hostedzone/`, `/change/`) before the bare identifier.
pub fn strip_prefix_repeated(s: &str, p: &str) -> (r: String)
    requires
        p@.len() > 0,
    ensures
        r@ == strip_repeated(s@, p@),
{
    let n = s.unicode_len();
    let m = p.unicode_len();
    let mut i: usize = 0;
    assert(s@.subrange(0, s@.len() as int) =~= s@);
    while occurs_at_exec(s, p, i)
        invariant
            n == s@.len(),
            m == p@.len(),
            m > 0,
            i <= n,
            strip_repeated(s@.subrange(i as int, n as int), p@) == strip_repeated(s@, p@),
        decreases n - i,
    {
        proof {
            lemma_strip_from(s@, p@, i as int);
        }
        i = i + m;
    }
    let rest = s.substring_char(i, n);
    proof {
        let t = s@.subrange(i as int, n as int);
        if i + m <= n {
            assert(t.subrange(0, m as int) =~= s@.subrange(i as int, i + m));
        }
        assert(!occurs_at(t, p@, 0));
    }
    rest.to_owned()
}

} // verus!
