use vstd::prelude::*;

verus! {

/// `p` occurs in `s` starting at position `i`.
pub open spec fn occurs_at(s: Seq<char>, p: Seq<char>, i: int) -> bool {
    0 <= i && i + p.len() <= s.len() && s.subrange(i, i + p.len()) == p
}

/// `p` occurs somewhere in `s`.
pub open spec fn occurs_in(s: Seq<char>, p: Seq<char>) -> bool {
    exists|i: int| occurs_at(s, p, i)
}

/// Literal substitution: every occurrence of `p` in `s`, scanned left to
/// right without overlap, is replaced by `r`.
pub open spec fn replace_spec(s: Seq<char>, p: Seq<char>, r: Seq<char>) -> Seq<char>
    decreases s.len(),
{
    if s.len() == 0 {
        s
    } else if p.len() > 0 && occurs_at(s, p, 0) {
        r + replace_spec(s.skip(p.len() as int), p, r)
    } else {
        seq![s[0]] + replace_spec(s.skip(1), p, r)
    }
}

/// Text in which the pattern does not occur comes out of the substitution
/// unchanged.
pub proof fn lemma_replace_absent(s: Seq<char>, p: Seq<char>, r: Seq<char>)
    requires
        p.len() > 0,
        !occurs_in(s, p),
    ensures
        replace_spec(s, p, r) == s,
    decreases s.len(),
{
    if s.len() > 0 {
        assert(!occurs_at(s, p, 0));
        let t = s.skip(1);
        assert forall|i: int| !occurs_at(t, p, i) by {
            if occurs_at(t, p, i) {
                assert(s.subrange(i + 1, i + 1 + p.len()) =~= t.subrange(i, i + p.len()));
                assert(occurs_at(s, p, i + 1));
            }
        }
        lemma_replace_absent(t, p, r);
        assert(seq![s[0]] + t =~= s);
    }
}

/// Text that holds the pattern at exactly one place has that one occurrence
/// replaced, and everything around it kept.
pub proof fn lemma_replace_single(a: Seq<char>, p: Seq<char>, b: Seq<char>, r: Seq<char>)
    requires
        p.len() > 0,
        forall|i: int| occurs_at(a + p + b, p, i) ==> i == a.len(),
    ensures
        replace_spec(a + p + b, p, r) == a + r + b,
    decreases a.len(),
{
    let s = a + p + b;
    if a.len() == 0 {
        assert(s.subrange(0, p.len() as int) =~= p);
        assert(s.skip(p.len() as int) =~= b);
        assert forall|i: int| !occurs_at(b, p, i) by {
            if occurs_at(b, p, i) {
                assert(s.subrange(i + p.len(), i + p.len() + p.len()) =~= b.subrange(
                    i,
                    i + p.len(),
                ));
                assert(occurs_at(s, p, i + p.len()));
            }
        }
        lemma_replace_absent(b, p, r);
        assert(a + r + b =~= r + b);
    } else {
        assert(!occurs_at(s, p, 0));
        let a1 = a.skip(1);
        assert(s.skip(1) =~= a1 + p + b);
        assert forall|i: int| occurs_at(a1 + p + b, p, i) implies i == a1.len() by {
            assert(s.subrange(i + 1, i + 1 + p.len()) =~= (a1 + p + b).subrange(i, i + p.len()));
            assert(occurs_at(s, p, i + 1));
        }
        lemma_replace_single(a1, p, b, r);
        assert(seq![s[0]] + (a1 + r + b) =~= a + r + b);
    }
}

/// Tells whether `p` occurs in `s` at char position `i`.
fn occurs_at_exec(s: &str, p: &str, i: usize, n: usize, m: usize) -> (r: bool)
    requires
        n == s@.len(),
        m == p@.len(),
        i <= n,
    ensures
        r == occurs_at(s@, p@, i as int),
{
    if m > n - i {
        return false;
    }
    let mut j: usize = 0;
    while j < m
        invariant
            n == s@.len(),
            m == p@.len(),
            i + m <= n,
            j <= m,
            forall|k: int| 0 <= k < j ==> s@[i + k] == p@[k],
        decreases m - j,
    {
        if s.get_char(i + j) != p.get_char(j) {
            assert(s@.subrange(i as int, i + m)[j as int] != p@[j as int]);
            return false;
        }
        j = j + 1;
    }
    assert(s@.subrange(i as int, i + m) =~= p@);
    true
}

/// Replaces every occurrence of `pattern` in `s` by `replacement`.
pub fn replace_all(s: &str, pattern: &str, replacement: &str) -> (r: String)
    requires
        pattern@.len() > 0,
    ensures
        r@ == replace_spec(s@, pattern@, replacement@),
{
    let n = s.unicode_len();
    let m = pattern.unicode_len();
    let mut out = String::new();
    let mut i: usize = 0;
    assert(s@.skip(0) =~= s@);
    assert(out@ + replace_spec(s@, pattern@, replacement@) =~= replace_spec(
        s@,
        pattern@,
        replacement@,
    ));
    while i < n
        invariant
            n == s@.len(),
            m == pattern@.len(),
            m > 0,
            i <= n,
            out@ + replace_spec(s@.skip(i as int), pattern@, replacement@) == replace_spec(
                s@,
                pattern@,
                replacement@,
            ),
        decreases n - i,
    {
        let found = occurs_at_exec(s, pattern, i, n, m);
        let ghost rest = s@.skip(i as int);
        proof {
            if i + m <= n {
                assert(rest.subrange(0, m as int) =~= s@.subrange(i as int, i + m));
            }
        }
        if found {
            assert(occurs_at(rest, pattern@, 0));
            assert(rest.skip(m as int) =~= s@.skip(i + m));
            assert(out@ + replace_spec(rest, pattern@, replacement@) =~= (out@ + replacement@)
                + replace_spec(s@.skip(i + m), pattern@, replacement@));
            out.append(replacement);
            i = i + m;
        } else {
            assert(!occurs_at(rest, pattern@, 0));
            assert(rest.skip(1) =~= s@.skip(i + 1));
            let c = s.substring_char(i, i + 1);
            assert(c@ =~= seq![rest[0]]);
            assert(out@ + replace_spec(rest, pattern@, replacement@) =~= (out@ + c@)
                + replace_spec(s@.skip(i + 1), pattern@, replacement@));
            out.append(c);
            i = i + 1;
        }
    }
    assert(s@.skip(n as int) =~= Seq::<char>::empty());
    assert(out@ + Seq::<char>::empty() =~= out@);
    out
}

} // verus!
