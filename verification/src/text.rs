//! Character-level helpers for the connection-string dialect: finding a
//! separator, splitting on one, and comparing strings, each exec function
//! proved against a spec-level model of the same operation.
use vstd::prelude::*;
use vstd::string::StrSliceExecFns;

verus! {

/// Index of the first occurrence of `c` in `s` at or after `i`,
/// or `s.len()` when there is none.
pub open spec fn find_from(s: Seq<char>, c: char, i: int) -> int
    decreases s.len() - i,
{
    if i < 0 || i >= s.len() {
        s.len() as int
    } else if s[i] == c {
        i
    } else {
        find_from(s, c, i + 1)
    }
}

/// What `find_from` returns is a first occurrence: nothing before it
/// matches, and it matches unless it is the end.
pub proof fn lemma_find_from(s: Seq<char>, c: char, i: int)
    requires
        0 <= i <= s.len(),
    ensures
        i <= find_from(s, c, i) <= s.len(),
        forall|j: int| i <= j < find_from(s, c, i) ==> s[j] != c,
        find_from(s, c, i) < s.len() ==> s[find_from(s, c, i)] == c,
    decreases s.len() - i,
{
    if i < s.len() && s[i] != c {
        lemma_find_from(s, c, i + 1);
    }
}

/// The first occurrence is characterized uniquely: any position `k` with no
/// occurrence before it, and an occurrence at it (or the end), is the result.
pub proof fn lemma_find_from_unique(s: Seq<char>, c: char, i: int, k: int)
    requires
        0 <= i <= k <= s.len(),
        forall|j: int| i <= j < k ==> s[j] != c,
        k < s.len() ==> s[k] == c,
    ensures
        find_from(s, c, i) == k,
    decreases k - i,
{
    if i < k {
        lemma_find_from_unique(s, c, i + 1, k);
    }
}

/// The segments of `s` delimited by `c`: splitting never yields an empty
/// sequence of segments, and a trailing delimiter yields an empty segment.
pub open spec fn split_chars(s: Seq<char>, c: char) -> Seq<Seq<char>>
    decreases s.len(),
{
    let i = find_from(s, c, 0);
    if 0 <= i < s.len() {
        seq![s.take(i)] + split_chars(s.skip(i + 1), c)
    } else {
        seq![s]
    }
}

/// First position of `c` in `s@` at or after `from`, or the length.
pub fn find_char(s: &str, from: usize, c: char) -> (k: usize)
    requires
        from <= s@.len(),
    ensures
        from <= k <= s@.len(),
        forall|j: int| from <= j < k ==> s@[j] != c,
        k < s@.len() ==> s@[k as int] == c,
        k == find_from(s@, c, from as int),
{
    let n = s.unicode_len();
    let mut i = from;
    while i < n
        invariant
            from <= i <= n,
            n == s@.len(),
            forall|j: int| from <= j < i ==> s@[j] != c,
        decreases n - i,
    {
        if s.get_char(i) == c {
            proof {
                lemma_find_from_unique(s@, c, from as int, i as int);
            }
            return i;
        }
        i = i + 1;
    }
    proof {
        lemma_find_from_unique(s@, c, from as int, n as int);
    }
    n
}

/// Character-for-character string equality, proved equivalent to equality
/// of the views.
pub fn str_eq(a: &str, b: &str) -> (r: bool)
    ensures
        r == (a@ == b@),
{
    let na = a.unicode_len();
    let nb = b.unicode_len();
    if na != nb {
        return false;
    }
    let mut i: usize = 0;
    while i < na
        invariant
            i <= na,
            na == a@.len(),
            na == b@.len(),
            forall|j: int| 0 <= j < i ==> a@[j] == b@[j],
        decreases na - i,
    {
        if a.get_char(i) != b.get_char(i) {
            return false;
        }
        i = i + 1;
    }
    proof {
        assert(a@ =~= b@);
    }
    true
}

/// Splits `s` on `c`; the segment views are exactly `split_chars(s@, c)`.
pub fn split_on<'a>(s: &'a str, c: char) -> (r: Vec<&'a str>)
    ensures
        r.deep_view() == split_chars(s@, c),
{
    let n = s.unicode_len();
    let mut out: Vec<&'a str> = Vec::new();
    let mut pos: usize = 0;
    proof {
        assert(s@.subrange(0, n as int) =~= s@);
        assert(out.deep_view() =~= Seq::<Seq<char>>::empty());
        assert(Seq::<Seq<char>>::empty() + split_chars(s@, c) =~= split_chars(s@, c));
    }
    loop
        invariant_except_break
            split_chars(s@, c) == out.deep_view() + split_chars(
                s@.subrange(pos as int, n as int),
                c,
            ),
        invariant
            pos <= n,
            n == s@.len(),
        ensures
            split_chars(s@, c) == out.deep_view(),
        decreases n - pos,
    {
        let ghost rest = s@.subrange(pos as int, n as int);
        let k = find_char(s, pos, c);
        let seg = s.substring_char(pos, k);
        proof {
            assert(seg@ =~= rest.take(k - pos));
            assert forall|j: int| pos <= j < k implies s@[j] != c by {}
            assert forall|j: int| 0 <= j < k - pos implies rest[j] != c by {
                assert(rest[j] == s@[pos + j]);
            }
            if k < n {
                assert(rest[k - pos] == s@[k as int]);
            }
            lemma_find_from_unique(rest, c, 0, k - pos);
        }
        let ghost old_out = out.deep_view();
        out.push(seg);
        proof {
            assert(out.deep_view() =~= old_out + seq![seg@]);
        }
        if k == n {
            proof {
                assert(find_from(rest, c, 0) == rest.len());
                assert(split_chars(rest, c) == seq![rest]);
                assert(seg@ =~= rest);
                assert(out.deep_view() =~= old_out + seq![rest]);
            }
            break;
        }
        proof {
            assert(0 <= find_from(rest, c, 0) < rest.len());
            assert(split_chars(rest, c) == seq![rest.take(k - pos)] + split_chars(
                rest.skip(k - pos + 1),
                c,
            ));
            assert(rest.skip(k - pos + 1) =~= s@.subrange(k + 1, n as int));
            assert(out.deep_view() + split_chars(s@.subrange(k + 1, n as int), c) =~= old_out
                + split_chars(rest, c));
        }
        pos = k + 1;
    }
    out
}

} // verus!
