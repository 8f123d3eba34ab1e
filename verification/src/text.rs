//! Character-level text operations used to build and rewrite the pages.

use vstd::prelude::*;

verus! {

broadcast use vstd::string::group_string_axioms;

/// `String::push` appends one character at the end of the string.
pub assume_specification[ std::string::String::push ](s: &mut std::string::String, ch: char)
    ensures
        final(s)@ == old(s)@.push(ch),
;

/// The characters of `s`, in order.
pub fn chars_of(s: &str) -> (v: Vec<char>)
    ensures
        v@ == s@,
{
    let mut v: Vec<char> = Vec::new();
    for c in it: s.chars()
        invariant
            it.seq() == s@,
            v@ == it.seq().take(it.index()),
    {
        proof {
            assert(it.seq().take(it.index() + 1) == it.seq().take(it.index()).push(c));
        }
        v.push(c);
    }
    v
}

/// The string made of the characters of `v`, in order.
pub fn string_of(v: &Vec<char>) -> (s: String)
    ensures
        s@ == v@,
{
    let mut s = String::new();
    let n = v.len();
    for i in 0..n
        invariant
            n == v@.len(),
            s@ == v@.take(i as int),
    {
        proof {
            assert(v@.take(i + 1) == v@.take(i as int).push(v@[i as int]));
        }
        s.push(v[i]);
    }
    proof {
        assert(v@.take(n as int) == v@);
    }
    s
}


/// `pat` occurs in `s` at position `i`.
pub open spec fn occurs_at<A>(s: Seq<A>, i: int, pat: Seq<A>) -> bool {
    0 <= i && i + pat.len() <= s.len() && s.subrange(i, i + pat.len()) == pat
}

/// `pat` occurs somewhere in `s`.
pub open spec fn has_part<A>(s: Seq<A>, pat: Seq<A>) -> bool {
    exists|i: int| occurs_at(s, i, pat)
}

/// `s` begins with `pat`.
pub open spec fn begins_with<A>(s: Seq<A>, pat: Seq<A>) -> bool {
    occurs_at(s, 0, pat)
}

/// `s` ends with `pat`.
pub open spec fn finishes_with<A>(s: Seq<A>, pat: Seq<A>) -> bool {
    occurs_at(s, s.len() - pat.len(), pat)
}

/// `s` with every occurrence of `pat` replaced by `rep`, scanning from the left and
/// never matching inside a replaced part. An empty `pat` matches before every
/// element and at the end, as `str::replace` does.
pub open spec fn replaced<A>(s: Seq<A>, pat: Seq<A>, rep: Seq<A>) -> Seq<A>
    decreases s.len(),
{
    if pat.len() == 0 {
        if s.len() == 0 {
            rep
        } else {
            rep + seq![s[0]] + replaced(s.drop_first(), pat, rep)
        }
    } else if s.len() < pat.len() {
        s
    } else if s.take(pat.len() as int) == pat {
        rep + replaced(s.skip(pat.len() as int), pat, rep)
    } else {
        seq![s[0]] + replaced(s.drop_first(), pat, rep)
    }
}

/// Whether `pat` occurs in `s` at position `i`.
fn chars_occur_at(s: &Vec<char>, i: usize, pat: &Vec<char>) -> (r: bool)
    requires
        i <= s@.len(),
    ensures
        r == occurs_at(s@, i as int, pat@),
{
    if s.len() - i < pat.len() {
        return false;
    }
    let m = pat.len();
    let n = s.len();
    for j in 0..m
        invariant
            m == pat@.len(),
            n == s@.len(),
            i + m <= n,
            forall|k: int| 0 <= k < j ==> s@[i + k] == pat@[k],
    {
        assert(j < m);
        if s[i + j] != pat[j] {
            assert(s@.subrange(i as int, i + m)[j as int] != pat@[j as int]);
            return false;
        }
    }
    assert(s@.subrange(i as int, i + m) =~= pat@);
    true
}

/// `s` with every occurrence of `pat` replaced by `rep`.
pub fn replace_chars(s: &Vec<char>, pat: &Vec<char>, rep: &Vec<char>) -> (r: Vec<char>)
    ensures
        r@ == replaced(s@, pat@, rep@),
{
    let n = s.len();
    let m = pat.len();
    let mut out: Vec<char> = Vec::new();
    let mut i: usize = 0;
    assert(s@.skip(0) == s@);
    assert(out@ + replaced(s@, pat@, rep@) == replaced(s@, pat@, rep@));
    while i < n
        invariant
            n == s@.len(),
            m == pat@.len(),
            i <= n,
            replaced(s@, pat@, rep@) == out@ + replaced(s@.skip(i as int), pat@, rep@),
        decreases n - i,
    {
        let ghost rest = s@.skip(i as int);
        assert(rest.drop_first() == s@.skip(i + 1));
        assert(rest[0] == s@[i as int]);
        if m == 0 {
            let ghost before = out@;
            out.extend_from_slice(rep.as_slice());
            out.push(s[i]);
            assert(out@ == before + rep@ + seq![s@[i as int]]);
            i = i + 1;
        } else if chars_occur_at(s, i, pat) {
            assert(rest.take(m as int) == s@.subrange(i as int, i + m));
            assert(rest.skip(m as int) == s@.skip(i + m));
            out.extend_from_slice(rep.as_slice());
            i = i + m;
        } else {
            proof {
                if rest.len() >= m {
                    assert(rest.take(m as int) == s@.subrange(i as int, i + m));
                } else {
                    assert(rest == seq![rest[0]] + rest.drop_first());
                }
            }
            out.push(s[i]);
            i = i + 1;
        }
    }
    assert(s@.skip(i as int).len() == 0);
    if m == 0 {
        out.extend_from_slice(rep.as_slice());
    }
    out
}

/// `s` with every occurrence of `pat` replaced by `rep`, as `str::replace` computes it.
pub fn replace(s: &str, pat: &str, rep: &str) -> (r: String)
    ensures
        r@ == replaced(s@, pat@, rep@),
{
    let out = replace_chars(&chars_of(s), &chars_of(pat), &chars_of(rep));
    string_of(&out)
}


/// Whether `a` and `b` hold the same characters.
pub fn same_text(a: &str, b: &str) -> (r: bool)
    ensures
        r == (a@ == b@),
{
    let x = chars_of(a);
    let y = chars_of(b);
    if x.len() != y.len() {
        return false;
    }
    let n = x.len();
    for i in 0..n
        invariant
            x@ == a@,
            y@ == b@,
            n == x@.len(),
            n == y@.len(),
            forall|k: int| 0 <= k < i ==> x@[k] == y@[k],
    {
        if x[i] != y[i] {
            assert(x@[i as int] != y@[i as int]);
            return false;
        }
    }
    assert(x@ =~= y@);
    true
}

/// Whether `pat` occurs in `s`, as `str::contains` decides.
pub fn contains(s: &str, pat: &str) -> (r: bool)
    ensures
        r == has_part(s@, pat@),
{
    let x = chars_of(s);
    let p = chars_of(pat);
    let n = x.len();
    let m = p.len();
    if m > n {
        assert forall|i: int| !occurs_at(x@, i, p@) by {}
        return false;
    }
    let last = n - m;
    for i in 0..last
        invariant
            x@ == s@,
            p@ == pat@,
            n == x@.len(),
            m == p@.len(),
            last == n - m,
            forall|k: int| 0 <= k < i ==> !occurs_at(x@, k, p@),
    {
        if chars_occur_at(&x, i, &p) {
            assert(occurs_at(x@, i as int, p@));
            return true;
        }
    }
    if chars_occur_at(&x, last, &p) {
        assert(occurs_at(x@, last as int, p@));
        return true;
    }
    assert forall|k: int| !occurs_at(x@, k, p@) by {
        if 0 <= k < last {
        }
    }
    false
}

/// Whether `s` begins with `pat`, as `str::starts_with` decides.
pub fn starts_with(s: &str, pat: &str) -> (r: bool)
    ensures
        r == begins_with(s@, pat@),
{
    chars_occur_at(&chars_of(s), 0, &chars_of(pat))
}

/// Whether `s` ends with `pat`, as `str::ends_with` decides.
pub fn ends_with(s: &str, pat: &str) -> (r: bool)
    ensures
        r == finishes_with(s@, pat@),
{
    let x = chars_of(s);
    let p = chars_of(pat);
    if p.len() > x.len() {
        return false;
    }
    chars_occur_at(&x, x.len() - p.len(), &p)
}

/// A string holding the characters of `s`.
pub fn owned(s: &str) -> (r: String)
    ensures
        r@ == s@,
{
    string_of(&chars_of(s))
}

/// `a` followed by `b`.
pub fn join2(a: &str, b: &str) -> (r: String)
    ensures
        r@ == a@ + b@,
{
    let mut x = chars_of(a);
    let mut y = chars_of(b);
    x.append(&mut y);
    string_of(&x)
}

/// `a`, `b` and `c` one after the other.
pub fn join3(a: &str, b: &str, c: &str) -> (r: String)
    ensures
        r@ == a@ + b@ + c@,
{
    let ab = join2(a, b);
    join2(ab.as_str(), c)
}


/// Replacing a pattern that occurs leaves the replacement in the result.
pub proof fn lemma_replaced_shows_rep<A>(s: Seq<A>, pat: Seq<A>, rep: Seq<A>)
    requires
        pat.len() > 0,
        has_part(s, pat),
    ensures
        has_part(replaced(s, pat, rep), rep),
    decreases s.len(),
{
    let i = choose|i: int| occurs_at(s, i, pat);
    let r = replaced(s, pat, rep);
    if s.take(pat.len() as int) == pat {
        assert(r.subrange(0, rep.len() as int) =~= rep);
        assert(occurs_at(r, 0, rep));
    } else {
        if i == 0 {
            assert(s.subrange(0, pat.len() as int) =~= s.take(pat.len() as int));
        }
        let t = s.drop_first();
        assert(t.subrange(i - 1, i - 1 + pat.len()) =~= s.subrange(i, i + pat.len()));
        assert(occurs_at(t, i - 1, pat));
        lemma_replaced_shows_rep(t, pat, rep);
        let rt = replaced(t, pat, rep);
        let j = choose|j: int| occurs_at(rt, j, rep);
        assert(r == seq![s[0]] + rt);
        assert(r.subrange(j + 1, j + 1 + rep.len()) =~= rt.subrange(j, j + rep.len()));
        assert(occurs_at(r, j + 1, rep));
    }
}


/// No element of `s` is `c`.
pub open spec fn lacks<A>(s: Seq<A>, c: A) -> bool {
    forall|i: int| 0 <= i < s.len() ==> s[i] != c
}

/// A text that lacks one of the pattern's elements does not hold the pattern.
pub proof fn lemma_lacking_part<A>(w: Seq<A>, pat: Seq<A>, k: int)
    requires
        0 <= k < pat.len(),
        lacks(w, pat[k]),
    ensures
        !has_part(w, pat),
{
    assert forall|j: int| !occurs_at(w, j, pat) by {
        if occurs_at(w, j, pat) {
            assert(w.subrange(j, j + pat.len())[k] == pat[k]);
            assert(w[j + k] == pat[k]);
        }
    }
}

/// Replacing a pattern that a text does not hold leaves the text as it is.
pub proof fn lemma_replaced_absent<A>(s: Seq<A>, pat: Seq<A>, rep: Seq<A>)
    requires
        pat.len() > 0,
        !has_part(s, pat),
    ensures
        replaced(s, pat, rep) == s,
    decreases s.len(),
{
    if s.len() >= pat.len() {
        assert(s.take(pat.len() as int) =~= s.subrange(0, pat.len() as int));
        assert(!occurs_at(s, 0, pat));
        let t = s.drop_first();
        assert(!has_part(t, pat)) by {
            assert forall|j: int| !occurs_at(t, j, pat) by {
                if occurs_at(t, j, pat) {
                    assert(s.subrange(j + 1, j + 1 + pat.len()) =~= t.subrange(j, j + pat.len()));
                    assert(occurs_at(s, j + 1, pat));
                }
            }
        }
        lemma_replaced_absent(t, pat, rep);
        assert(seq![s[0]] + t =~= s);
    }
}

/// Where no occurrence of the pattern starts in `x` and runs past its end,
/// replacing in `x + z` is replacing in `x` and in `z` apart.
pub proof fn lemma_replaced_split<A>(x: Seq<A>, z: Seq<A>, pat: Seq<A>, rep: Seq<A>)
    requires
        pat.len() > 0,
        forall|j: int| 0 <= j < x.len() && occurs_at(x + z, j, pat) ==> j + pat.len() <= x.len(),
    ensures
        replaced(x + z, pat, rep) == replaced(x, pat, rep) + replaced(z, pat, rep),
    decreases x.len(),
{
    let m = pat.len() as int;
    let s = x + z;
    if x.len() == 0 {
        assert(s =~= z);
        assert(replaced(x, pat, rep) =~= Seq::<A>::empty());
        assert(Seq::<A>::empty() + replaced(z, pat, rep) =~= replaced(z, pat, rep));
    } else if s.len() < m {
        assert(replaced(z, pat, rep) == z);
        assert(replaced(x, pat, rep) == x);
    } else if s.take(m) == pat {
        assert(s.subrange(0, m) =~= s.take(m));
        assert(occurs_at(s, 0, pat));
        assert(x.take(m) =~= s.take(m));
        let x2 = x.skip(m);
        assert(s.skip(m) =~= x2 + z);
        assert forall|j: int| 0 <= j < x2.len() && occurs_at(x2 + z, j, pat) implies j + m <= x2.len() by {
            assert((x2 + z).subrange(j, j + m) =~= s.subrange(j + m, j + m + m));
            assert(occurs_at(s, j + m, pat));
        }
        lemma_replaced_split(x2, z, pat, rep);
        assert(rep + (replaced(x2, pat, rep) + replaced(z, pat, rep)) =~= (rep + replaced(x2, pat, rep))
            + replaced(z, pat, rep));
    } else {
        let x2 = x.drop_first();
        assert(s.drop_first() =~= x2 + z);
        assert(s[0] == x[0]);
        assert forall|j: int| 0 <= j < x2.len() && occurs_at(x2 + z, j, pat) implies j + m <= x2.len() by {
            assert((x2 + z).subrange(j, j + m) =~= s.subrange(j + 1, j + 1 + m));
            assert(occurs_at(s, j + 1, pat));
        }
        lemma_replaced_split(x2, z, pat, rep);
        if x.len() < m {
            lemma_replaced_short(x, pat, rep);
            lemma_replaced_short(x2, pat, rep);
            assert(seq![x[0]] + x2 =~= x);
        } else {
            assert(x.take(m) =~= s.take(m));
        }
        assert(seq![x[0]] + (replaced(x2, pat, rep) + replaced(z, pat, rep)) =~= (seq![x[0]]
            + replaced(x2, pat, rep)) + replaced(z, pat, rep));
    }
}

/// A text shorter than a non-empty pattern is left as it is.
pub proof fn lemma_replaced_short<A>(x: Seq<A>, pat: Seq<A>, rep: Seq<A>)
    requires
        pat.len() > 0,
        x.len() < pat.len(),
    ensures
        replaced(x, pat, rep) == x,
{
}

/// A part `w` that holds no occurrence of the pattern, and whose first and
/// last elements the pattern lacks, comes through a replacement untouched.
pub proof fn lemma_replaced_keeps<A>(x: Seq<A>, w: Seq<A>, y: Seq<A>, pat: Seq<A>, rep: Seq<A>)
    requires
        pat.len() > 0,
        w.len() > 0,
        lacks(pat, w[0]),
        lacks(pat, w.last()),
        !has_part(w, pat),
    ensures
        replaced(x + w + y, pat, rep) == replaced(x, pat, rep) + w + replaced(y, pat, rep),
{
    let m = pat.len() as int;
    let s = x + (w + y);
    assert(x + w + y =~= s);
    assert forall|j: int| 0 <= j < x.len() && occurs_at(s, j, pat) implies j + m <= x.len() by {
        if j + m > x.len() {
            let k = x.len() - j;
            assert(s.subrange(j, j + m)[k] == pat[k]);
            assert(s[x.len() as int] == w[0]);
        }
    }
    lemma_replaced_split(x, w + y, pat, rep);
    assert forall|j: int| 0 <= j < w.len() && occurs_at(w + y, j, pat) implies j + m <= w.len() by {
        if j + m > w.len() {
            let k = w.len() - 1 - j;
            assert((w + y).subrange(j, j + m)[k] == pat[k]);
            assert((w + y)[w.len() - 1] == w.last());
        }
    }
    lemma_replaced_split(w, y, pat, rep);
    lemma_replaced_absent(w, pat, rep);
    assert(replaced(x, pat, rep) + (w + replaced(y, pat, rep)) =~= replaced(x, pat, rep) + w
        + replaced(y, pat, rep));
}

/// The pattern written right after an element that the pattern lacks is
/// replaced there.
pub proof fn lemma_replaced_site<A>(x: Seq<A>, y: Seq<A>, pat: Seq<A>, rep: Seq<A>)
    requires
        pat.len() > 0,
        x.len() > 0,
        lacks(pat, x.last()),
    ensures
        replaced(x + pat + y, pat, rep) == replaced(x, pat, rep) + rep + replaced(y, pat, rep),
{
    let m = pat.len() as int;
    let s = x + (pat + y);
    assert(x + pat + y =~= s);
    assert forall|j: int| 0 <= j < x.len() && occurs_at(s, j, pat) implies j + m <= x.len() by {
        if j + m > x.len() {
            let k = x.len() - 1 - j;
            assert(s.subrange(j, j + m)[k] == pat[k]);
            assert(s[x.len() - 1] == x.last());
        }
    }
    lemma_replaced_split(x, pat + y, pat, rep);
    assert((pat + y).take(m) =~= pat);
    assert((pat + y).skip(m) =~= y);
    assert(replaced(x, pat, rep) + (rep + replaced(y, pat, rep)) =~= replaced(x, pat, rep) + rep
        + replaced(y, pat, rep));
}

} // verus!
