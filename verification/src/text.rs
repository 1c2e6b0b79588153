//! Text primitives over the character view of strings: searching,
//! prefix and suffix tests, replacement, splitting and trimming.

use vstd::prelude::*;
use vstd::string::StrSliceExecFns;
use vstd::string::StringExecFns;

verus! {

/// `pat` occurs in `s` starting at character index `i`.
pub open spec fn occurs_at(s: Seq<char>, pat: Seq<char>, i: int) -> bool {
    0 <= i && i + pat.len() <= s.len() && s.subrange(i, i + pat.len()) == pat
}

/// `pat` occurs somewhere in `s`.
pub open spec fn has_substring(s: Seq<char>, pat: Seq<char>) -> bool {
    exists|i: int| occurs_at(s, pat, i)
}

/// `s` begins with `p`.
pub open spec fn has_prefix(s: Seq<char>, p: Seq<char>) -> bool {
    p.len() <= s.len() && s.take(p.len() as int) == p
}

/// `s` ends with `p`.
pub open spec fn has_suffix(s: Seq<char>, p: Seq<char>) -> bool {
    p.len() <= s.len() && s.skip(s.len() - p.len()) == p
}

/// Index of the leftmost occurrence of `pat` in `s` at or after `from`.
pub open spec fn find_from(s: Seq<char>, pat: Seq<char>, from: int) -> Option<int>
    decreases s.len() + 1 - from,
{
    if from < 0 || from + pat.len() > s.len() {
        None
    } else if occurs_at(s, pat, from) {
        Some(from)
    } else {
        find_from(s, pat, from + 1)
    }
}

/// `s` with every leftmost, non-overlapping occurrence of the non-empty
/// pattern `from` replaced by `to`.
pub open spec fn replaced_all(s: Seq<char>, from: Seq<char>, to: Seq<char>) -> Seq<char>
    decreases s.len(),
{
    if from.len() == 0 || s.len() < from.len() {
        s
    } else if s.take(from.len() as int) == from {
        to + replaced_all(s.skip(from.len() as int), from, to)
    } else {
        seq![s[0]] + replaced_all(s.skip(1), from, to)
    }
}

/// `s` with its first occurrence of `from` replaced by `to`.
pub open spec fn replaced_first(s: Seq<char>, from: Seq<char>, to: Seq<char>) -> Seq<char> {
    match find_from(s, from, 0) {
        Some(i) => s.take(i) + to + s.skip(i + from.len()),
        None => s,
    }
}

/// The `n`-th piece (from 0) of `s` split at the non-empty separator `sep`.
pub open spec fn split_piece(s: Seq<char>, sep: Seq<char>, n: nat) -> Option<Seq<char>>
    decreases n,
{
    match find_from(s, sep, 0) {
        None => if n == 0 {
            Some(s)
        } else {
            None
        },
        Some(i) => if n == 0 {
            Some(s.take(i))
        } else {
            split_piece(s.skip(i + sep.len()), sep, (n - 1) as nat)
        },
    }
}

/// Unicode `White_Space` characters, the ones that `str::trim` removes.
pub open spec fn is_white_space(c: char) -> bool {
    let u = c as u32;
    ||| 0x09 <= u <= 0x0d
    ||| u == 0x20
    ||| u == 0x85
    ||| u == 0xa0
    ||| u == 0x1680
    ||| 0x2000 <= u <= 0x200a
    ||| u == 0x2028
    ||| u == 0x2029
    ||| u == 0x202f
    ||| u == 0x205f
    ||| u == 0x3000
}

/// Number of white-space characters that `s` begins with.
pub open spec fn leading_white(s: Seq<char>) -> nat
    decreases s.len(),
{
    if s.len() > 0 && is_white_space(s[0]) {
        1 + leading_white(s.drop_first())
    } else {
        0
    }
}

/// Number of white-space characters that `s` ends with.
pub open spec fn trailing_white(s: Seq<char>) -> nat
    decreases s.len(),
{
    if s.len() > 0 && is_white_space(s.last()) {
        1 + trailing_white(s.drop_last())
    } else {
        0
    }
}

/// `s` without its leading and trailing white space.
pub open spec fn trimmed(s: Seq<char>) -> Seq<char> {
    let rest = s.skip(leading_white(s) as int);
    rest.take(rest.len() - trailing_white(rest))
}

/// What `find_from` returns: the least occurrence at or after `from`.
pub proof fn lemma_find_from(s: Seq<char>, pat: Seq<char>, from: int)
    requires
        0 <= from,
    ensures
        match find_from(s, pat, from) {
            Some(i) => from <= i && occurs_at(s, pat, i) && forall|j: int|
                from <= j < i ==> !occurs_at(s, pat, j),
            None => forall|j: int| from <= j ==> !occurs_at(s, pat, j),
        },
    decreases s.len() + 1 - from,
{
    if from + pat.len() > s.len() {
    } else if occurs_at(s, pat, from) {
    } else {
        lemma_find_from(s, pat, from + 1);
    }
}

/// The characters of `s`.
pub fn chars_of(s: &str) -> (v: Vec<char>)
    ensures
        v@ == s@,
{
    let n = s.unicode_len();
    let mut v: Vec<char> = Vec::new();
    let mut i: usize = 0;
    while i < n
        invariant
            n == s@.len(),
            i <= n,
            v@ == s@.take(i as int),
        decreases n - i,
    {
        v.push(s.get_char(i));
        i = i + 1;
        assert(v@ =~= s@.take(i as int));
    }
    assert(v@ =~= s@);
    v
}

/// Whether `pat` occurs in `v` at index `i`.
fn occurs_at_exec(v: &Vec<char>, pat: &Vec<char>, i: usize) -> (r: bool)
    ensures
        r == occurs_at(v@, pat@, i as int),
{
    if i > v.len() || pat.len() > v.len() - i {
        return false;
    }
    let mut j: usize = 0;
    while j < pat.len()
        invariant
            i + pat@.len() <= v.len(),
            j <= pat@.len(),
            forall|k: int| 0 <= k < j ==> v@[i + k] == pat@[k],
        decreases pat@.len() - j,
    {
        if v[i + j] != pat[j] {
            assert(v@.subrange(i as int, i + pat@.len())[j as int] != pat@[j as int]);
            return false;
        }
        j = j + 1;
    }
    assert(v@.subrange(i as int, i + pat@.len()) =~= pat@);
    true
}

/// Leftmost occurrence of `pat` in `v` at or after `from`.
fn find_exec(v: &Vec<char>, pat: &Vec<char>, from: usize) -> (r: Option<usize>)
    ensures
        match r {
            Some(i) => find_from(v@, pat@, from as int) == Some(i as int),
            None => find_from(v@, pat@, from as int) is None,
        },
{
    let mut i = from;
    while i <= v.len() && pat.len() <= v.len() - i
        invariant
            from <= i,
            find_from(v@, pat@, from as int) == find_from(v@, pat@, i as int),
        decreases v@.len() + 1 - i,
    {
        if occurs_at_exec(v, pat, i) {
            return Some(i);
        }
        proof {
            if pat@.len() == 0 {
                assert(v@.subrange(i as int, i as int) =~= pat@);
            }
        }
        i = i + 1;
    }
    None
}

/// Whether `pat` occurs in `s` (`str::contains`).
pub fn contains(s: &str, pat: &str) -> (r: bool)
    ensures
        r == has_substring(s@, pat@),
{
    let v = chars_of(s);
    let p = chars_of(pat);
    let r = find_exec(&v, &p, 0);
    proof {
        lemma_find_from(s@, pat@, 0);
    }
    r.is_some()
}

/// Whether `s` begins with `p` (`str::starts_with`).
pub fn starts_with(s: &str, p: &str) -> (r: bool)
    ensures
        r == has_prefix(s@, p@),
{
    let v = chars_of(s);
    let q = chars_of(p);
    let r = occurs_at_exec(&v, &q, 0);
    proof {
        if q@.len() <= v@.len() {
            assert(v@.subrange(0, q@.len() as int) =~= v@.take(q@.len() as int));
        }
    }
    r
}

/// Whether `s` ends with `p` (`str::ends_with`).
pub fn ends_with(s: &str, p: &str) -> (r: bool)
    ensures
        r == has_suffix(s@, p@),
{
    let v = chars_of(s);
    let q = chars_of(p);
    if q.len() > v.len() {
        return false;
    }
    let r = occurs_at_exec(&v, &q, v.len() - q.len());
    proof {
        assert(v@.subrange(v@.len() - q@.len(), v@.len() as int) =~= v@.skip(
            v@.len() - q@.len(),
        ));
    }
    r
}

/// Searching a suffix of `s` is searching `s` from the suffix's start.
pub proof fn lemma_find_from_skip(s: Seq<char>, pat: Seq<char>, start: int, j: int)
    requires
        0 <= start <= s.len(),
        0 <= j,
    ensures
        find_from(s.skip(start), pat, j) == match find_from(s, pat, start + j) {
            Some(i) => Some(i - start),
            None => None::<int>,
        },
    decreases s.len() + 1 - (start + j),
{
    let t = s.skip(start);
    if j + pat.len() > t.len() {
    } else {
        assert(t.subrange(j, j + pat.len()) =~= s.subrange(start + j, start + j + pat.len()));
        if !occurs_at(t, pat, j) {
            lemma_find_from_skip(s, pat, start, j + 1);
        }
    }
}

/// `s` with every occurrence of `from` replaced by `to` (`str::replace`).
pub fn replace_all(s: &str, from: &str, to: &str) -> (r: String)
    requires
        from@.len() > 0,
    ensures
        r@ == replaced_all(s@, from@, to@),
{
    let v = chars_of(s);
    let f = chars_of(from);
    let n = v.len();
    let flen = f.len();
    let mut out = String::new();
    let mut last: usize = 0;
    let mut i: usize = 0;
    assert(s@.skip(0) =~= s@);
    assert(out@ + s@.subrange(0, 0) =~= Seq::<char>::empty());
    while flen <= n - i
        invariant
            v@ == s@,
            f@ == from@,
            n == v@.len(),
            flen == f@.len(),
            flen > 0,
            last <= i <= n,
            replaced_all(s@, from@, to@) == out@ + s@.subrange(last as int, i as int)
                + replaced_all(s@.skip(i as int), from@, to@),
        decreases n - i,
    {
        let ghost before = out@;
        let ghost rest = replaced_all(s@.skip(i as int), from@, to@);
        assert(s@.skip(i as int).take(flen as int) =~= s@.subrange(i as int, i + flen));
        if occurs_at_exec(&v, &f, i) {
            assert(s@.skip(i as int).skip(flen as int) =~= s@.skip(i + flen));
            let ghost tail = replaced_all(s@.skip(i + flen), from@, to@);
            assert(rest == to@ + tail);
            out.append(s.substring_char(last, i));
            out.append(to);
            assert(before + s@.subrange(last as int, i as int) + (to@ + tail) =~= out@
                + s@.subrange(i + flen, i + flen) + tail);
            i = i + flen;
            last = i;
        } else {
            assert(s@.skip(i as int).skip(1) =~= s@.skip(i + 1));
            let ghost tail = replaced_all(s@.skip(i + 1), from@, to@);
            assert(rest == seq![s@[i as int]] + tail);
            assert(before + s@.subrange(last as int, i as int) + (seq![s@[i as int]] + tail)
                =~= before + s@.subrange(last as int, i + 1) + tail);
            i = i + 1;
        }
    }
    assert(replaced_all(s@.skip(i as int), from@, to@) == s@.skip(i as int));
    let ghost before = out@;
    out.append(s.substring_char(last, n));
    assert(before + s@.subrange(last as int, i as int) + s@.skip(i as int) =~= out@);
    out
}

/// `s` with its first occurrence of `from` replaced by `to`
/// (`str::replacen` with a count of one).
pub fn replace_first(s: &str, from: &str, to: &str) -> (r: String)
    ensures
        r@ == replaced_first(s@, from@, to@),
{
    let v = chars_of(s);
    let f = chars_of(from);
    let n = v.len();
    match find_exec(&v, &f, 0) {
        Some(i) => {
            proof {
                lemma_find_from(s@, from@, 0);
                assert(occurs_at(s@, from@, i as int));
            }
            let mut out = String::new();
            out.append(s.substring_char(0, i));
            out.append(to);
            out.append(s.substring_char(i + f.len(), n));
            assert(out@ =~= s@.take(i as int) + to@ + s@.skip(i + from@.len()));
            out
        },
        None => s.to_owned(),
    }
}

/// The `n`-th piece of `s` split at `sep` (`str::split` then `nth`).
pub fn split_nth(s: &str, sep: &str, n: usize) -> (r: Option<String>)
    requires
        sep@.len() > 0,
    ensures
        match r {
            Some(p) => split_piece(s@, sep@, n as nat) == Some(p@),
            None => split_piece(s@, sep@, n as nat) is None,
        },
{
    let v = chars_of(s);
    let f = chars_of(sep);
    let len = v.len();
    let mut start: usize = 0;
    let mut k = n;
    assert(s@.skip(0) =~= s@);
    loop
        invariant
            v@ == s@,
            f@ == sep@,
            len == v@.len(),
            sep@.len() > 0,
            start <= v@.len(),
            split_piece(s@, sep@, n as nat) == split_piece(s@.skip(start as int), sep@, k as nat),
        decreases k,
    {
        let ghost t = s@.skip(start as int);
        proof {
            lemma_find_from_skip(s@, sep@, start as int, 0);
            lemma_find_from(s@, sep@, start as int);
        }
        match find_exec(&v, &f, start) {
            None => {
                if k == 0 {
                    let p = s.substring_char(start, len);
                    assert(p@ =~= t);
                    return Some(p.to_owned());
                } else {
                    return None;
                }
            },
            Some(i) => {
                if k == 0 {
                    let p = s.substring_char(start, i);
                    assert(p@ =~= t.take(i - start));
                    return Some(p.to_owned());
                } else {
                    assert(occurs_at(s@, sep@, i as int));
                    assert(t.skip(i - start + sep@.len()) =~= s@.skip(i + sep@.len()));
                    start = i + f.len();
                    k = k - 1;
                }
            },
        }
    }
}

/// Number of white-space characters at the start of `v`.
fn leading_white_count(v: &Vec<char>) -> (a: usize)
    ensures
        a == leading_white(v@),
        a <= v@.len(),
{
    let n = v.len();
    let mut a: usize = 0;
    assert(v@.skip(0) =~= v@);
    while a < n && is_white_space_exec(v[a])
        invariant
            n == v@.len(),
            a <= n,
            leading_white(v@) == a + leading_white(v@.skip(a as int)),
        decreases n - a,
    {
        assert(v@.skip(a as int).drop_first() =~= v@.skip(a + 1));
        a = a + 1;
    }
    a
}

/// Number of white-space characters at the end of `v[a..]`.
fn trailing_white_count(v: &Vec<char>, a: usize) -> (t: usize)
    requires
        a <= v@.len(),
    ensures
        t == trailing_white(v@.subrange(a as int, v@.len() as int)),
        t <= v@.len() - a,
{
    let n = v.len();
    let mut b: usize = n;
    while b > a && is_white_space_exec(v[b - 1])
        invariant
            n == v@.len(),
            a <= b <= n,
            trailing_white(v@.subrange(a as int, n as int)) == (n - b) + trailing_white(
                v@.subrange(a as int, b as int),
            ),
        decreases b,
    {
        assert(v@.subrange(a as int, b as int).drop_last() =~= v@.subrange(a as int, b - 1));
        b = b - 1;
    }
    n - b
}

/// `s` without leading and trailing white space (`str::trim`).
pub fn trim(s: &str) -> (r: String)
    ensures
        r@ == trimmed(s@),
{
    let v = chars_of(s);
    let n = v.len();
    let a = leading_white_count(&v);
    let t = trailing_white_count(&v, a);
    assert(s@.skip(a as int) =~= s@.subrange(a as int, n as int));
    let p = s.substring_char(a, n - t);
    assert(p@ =~= trimmed(s@));
    p.to_owned()
}

/// Whether `c` is Unicode white space.
pub fn is_white_space_exec(c: char) -> (r: bool)
    ensures
        r == is_white_space(c),
{
    let u = c as u32;
    (0x09 <= u && u <= 0x0d) || u == 0x20 || u == 0x85 || u == 0xa0 || u == 0x1680 || (0x2000
        <= u && u <= 0x200a) || u == 0x2028 || u == 0x2029 || u == 0x202f || u == 0x205f || u
        == 0x3000
}

/// Whether `a` and `b` hold the same characters (`==` on `str`).
pub fn same_text(a: &str, b: &str) -> (r: bool)
    ensures
        r == (a@ == b@),
{
    let n = a.unicode_len();
    if n != b.unicode_len() {
        return false;
    }
    let mut i: usize = 0;
    while i < n
        invariant
            n == a@.len(),
            n == b@.len(),
            i <= n,
            forall|k: int| 0 <= k < i ==> a@[k] == b@[k],
        decreases n - i,
    {
        if a.get_char(i) != b.get_char(i) {
            return false;
        }
        i = i + 1;
    }
    assert(a@ =~= b@);
    true
}

/// `a` followed by `b`.
pub fn join2(a: &str, b: &str) -> (r: String)
    ensures
        r@ == a@ + b@,
{
    let mut r = a.to_owned();
    r.append(b);
    r
}

/// `a`, `b` and `c` one after the other.
pub fn join3(a: &str, b: &str, c: &str) -> (r: String)
    ensures
        r@ == a@ + b@ + c@,
{
    let mut r = a.to_owned();
    r.append(b);
    r.append(c);
    r
}

/// Replacing a pattern by itself leaves the text as it was.
pub proof fn lemma_replace_by_itself(s: Seq<char>, p: Seq<char>)
    ensures
        replaced_all(s, p, p) == s,
    decreases s.len(),
{
    if p.len() == 0 || s.len() < p.len() {
    } else if s.take(p.len() as int) == p {
        lemma_replace_by_itself(s.skip(p.len() as int), p);
        assert(p + s.skip(p.len() as int) =~= s);
    } else {
        lemma_replace_by_itself(s.skip(1), p);
        assert(seq![s[0]] + s.skip(1) =~= s);
    }
}


/// Replacing a pattern leaves alone a head none of whose characters starts
/// the pattern.
pub proof fn lemma_replace_keeps_head(head: Seq<char>, rest: Seq<char>, from: Seq<char>, to: Seq<char>)
    requires
        from.len() > 0,
        forall|i: int| 0 <= i < head.len() ==> head[i] != from[0],
    ensures
        replaced_all(head + rest, from, to) == head + replaced_all(rest, from, to),
    decreases head.len(),
{
    let s = head + rest;
    if head.len() == 0 {
        assert(s =~= rest);
    } else if s.len() < from.len() {
        assert(rest.len() < from.len());
    } else {
        assert(s.take(from.len() as int)[0] != from[0]);
        assert(s.take(from.len() as int) != from);
        lemma_replace_keeps_head(head.skip(1), rest, from, to);
        assert(s.skip(1) =~= head.skip(1) + rest);
        assert(seq![s[0]] + (head.skip(1) + replaced_all(rest, from, to)) =~= head + replaced_all(
            rest,
            from,
            to,
        ));
    }
}

} // verus!
