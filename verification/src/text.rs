//! Text helpers. Every contract speaks of a string through its view, the
//! sequence of its characters.

use vstd::prelude::*;
use vstd::string::*;
use vstd::utf8::*;

verus! {

/// `pre` is a prefix of `s`.
pub open spec fn is_prefix(pre: Seq<char>, s: Seq<char>) -> bool {
    pre.len() <= s.len() && s.subrange(0, pre.len() as int) == pre
}

/// `sub` occurs in `s` starting at index `at`.
pub open spec fn occurs_at(s: Seq<char>, sub: Seq<char>, at: int) -> bool {
    0 <= at && at + sub.len() <= s.len() && s.subrange(at, at + sub.len()) == sub
}

/// `sub` occurs somewhere in `s`.
pub open spec fn has_substring(s: Seq<char>, sub: Seq<char>) -> bool {
    exists|at: int| occurs_at(s, sub, at)
}

/// `s` with every trailing repetition of `suffix` removed.
pub open spec fn without_suffix(s: Seq<char>, suffix: Seq<char>) -> Seq<char>
    decreases s.len(),
{
    if suffix.len() > 0 && occurs_at(s, suffix, s.len() - suffix.len()) {
        without_suffix(s.subrange(0, s.len() - suffix.len()), suffix)
    } else {
        s
    }
}

/// The views of a sequence of strings.
pub open spec fn views(v: Seq<String>) -> Seq<Seq<char>> {
    Seq::new(v.len(), |i: int| v[i]@)
}

/// The parts in order, with `sep` between neighbours.
pub open spec fn joined(parts: Seq<Seq<char>>, sep: Seq<char>) -> Seq<char>
    decreases parts.len(),
{
    if parts.len() == 0 {
        Seq::empty()
    } else if parts.len() == 1 {
        parts[0]
    } else {
        joined(parts.drop_last(), sep) + sep + parts.last()
    }
}

/// Two strings hold the same characters.
pub fn same_text(a: &str, b: &str) -> (r: bool)
    ensures
        r == (a@ == b@),
{
    let x = a.as_bytes();
    let y = b.as_bytes();
    proof {
        encode_utf8_decode_utf8(a@);
        encode_utf8_decode_utf8(b@);
    }
    if x.len() != y.len() {
        return false;
    }
    let mut i: usize = 0;
    while i < x.len()
        invariant
            i <= x.len(),
            x.len() == y.len(),
            x@ == encode_utf8(a@),
            y@ == encode_utf8(b@),
            decode_utf8(x@) == a@,
            decode_utf8(y@) == b@,
            forall|k: int| 0 <= k < i ==> x@[k] == y@[k],
        decreases x.len() - i,
    {
        if x[i] != y[i] {
            return false;
        }
        i += 1;
    }
    assert(x@ =~= y@);
    true
}

/// The characters of a string, one by one.
pub fn chars_of(s: &str) -> (v: Vec<char>)
    ensures
        v@ == s@,
{
    let mut v: Vec<char> = Vec::new();
    for c in it: s.chars()
        invariant
            v@ == it.seq().take(it.index() as int),
    {
        v.push(c);
    }
    v
}

/// Does `sub` stand in `s` at index `at`?
pub fn matches_at(s: &Vec<char>, sub: &Vec<char>, at: usize) -> (r: bool)
    ensures
        r == occurs_at(s@, sub@, at as int),
{
    if sub.len() > s.len() || at > s.len() - sub.len() {
        return false;
    }
    let mut i: usize = 0;
    while i < sub.len()
        invariant
            i <= sub.len(),
            at + sub.len() <= s.len(),
            forall|k: int| 0 <= k < i ==> s@[at + k] == sub@[k],
        decreases sub.len() - i,
    {
        if s[at + i] != sub[i] {
            assert(s@.subrange(at as int, at + sub.len())[i as int] == s@[at + i]);
            return false;
        }
        i += 1;
    }
    assert(s@.subrange(at as int, at + sub.len()) =~= sub@);
    true
}

/// Does `s` begin with `pre`?
pub fn starts_with(s: &str, pre: &str) -> (r: bool)
    ensures
        r == is_prefix(pre@, s@),
{
    let sv = chars_of(s);
    let pv = chars_of(pre);
    matches_at(&sv, &pv, 0)
}

/// Does `sub` occur in `s`?
pub fn contains(s: &str, sub: &str) -> (r: bool)
    ensures
        r == has_substring(s@, sub@),
{
    let sv = chars_of(s);
    let pv = chars_of(sub);
    if pv.len() > sv.len() {
        return false;
    }
    if pv.len() == 0 {
        assert(occurs_at(sv@, pv@, 0)) by {
            assert(sv@.subrange(0, 0) =~= pv@);
        }
        return true;
    }
    let count: usize = sv.len() - pv.len() + 1;
    let mut at: usize = 0;
    while at < count
        invariant
            at <= count,
            count == sv.len() - pv.len() + 1,
            sv@ == s@,
            pv@ == sub@,
            forall|k: int| 0 <= k < at ==> !occurs_at(sv@, pv@, k),
        decreases count - at,
    {
        if matches_at(&sv, &pv, at) {
            assert(occurs_at(s@, sub@, at as int));
            return true;
        }
        at += 1;
    }
    false
}

/// `s` without any trailing repetitions of `suffix`; with an empty `suffix`
/// the text is returned whole.
pub fn trim_end_matches(s: &str, suffix: &str) -> (r: String)
    ensures
        r@ == without_suffix(s@, suffix@),
{
    let sv = chars_of(s);
    let pv = chars_of(suffix);
    let mut n: usize = sv.len();
    assert(sv@.subrange(0, sv.len() as int) =~= sv@);
    if pv.len() > 0 {
        while n >= pv.len() && matches_at_prefix(&sv, &pv, n)
            invariant
                n <= sv.len(),
                pv.len() > 0,
                without_suffix(sv@, pv@) == without_suffix(sv@.subrange(0, n as int), pv@),
            decreases n,
        {
            proof {
                let cur = sv@.subrange(0, n as int);
                assert(cur.subrange(n - pv.len(), n as int) =~= sv@.subrange(n - pv.len(), n as int));
                assert(cur.subrange(0, n - pv.len()) =~= sv@.subrange(0, n - pv.len()));
            }
            n -= pv.len();
        }
        proof {
            let cur = sv@.subrange(0, n as int);
            if n >= pv.len() {
                assert(cur.subrange(n - pv.len(), n as int) =~= sv@.subrange(n - pv.len(), n as int));
            }
        }
    }
    s.substring_char(0, n).to_owned()
}

/// Do the last characters of the first `n` of `s` spell `sub`?
pub fn matches_at_prefix(s: &Vec<char>, sub: &Vec<char>, n: usize) -> (r: bool)
    requires
        sub.len() <= n <= s.len(),
    ensures
        r == (s@.subrange(n - sub.len(), n as int) == sub@),
{
    let at: usize = n - sub.len();
    let mut i: usize = 0;
    while i < sub.len()
        invariant
            i <= sub.len(),
            at + sub.len() == n,
            n <= s.len(),
            forall|k: int| 0 <= k < i ==> s@[at + k] == sub@[k],
        decreases sub.len() - i,
    {
        if s[at + i] != sub[i] {
            assert(s@.subrange(at as int, n as int)[i as int] == s@[at + i]);
            return false;
        }
        i += 1;
    }
    assert(s@.subrange(at as int, n as int) =~= sub@);
    true
}

/// The strings in order, with `sep` between neighbours.
pub fn join(parts: &Vec<String>, sep: &str) -> (r: String)
    ensures
        r@ == joined(views(parts@), sep@),
{
    let mut out = String::new();
    let mut i: usize = 0;
    while i < parts.len()
        invariant
            i <= parts.len(),
            out@ == joined(views(parts@).take(i as int), sep@),
        decreases parts.len() - i,
    {
        proof {
            let pre = views(parts@).take(i as int + 1);
            assert(pre.drop_last() =~= views(parts@).take(i as int));
            assert(pre.last() == parts@[i as int]@);
        }
        if i > 0 {
            out.append(sep);
        }
        out.append(parts[i].as_str());
        i += 1;
    }
    assert(views(parts@).take(parts.len() as int) =~= views(parts@));
    out
}

} // verus!
