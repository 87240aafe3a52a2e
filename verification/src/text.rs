//! Replacement of literal text.

use vstd::prelude::*;

verus! {

/// `text` with every occurrence of `from` replaced by `to`, found from
/// left to right; an occurrence that overlaps one already replaced is not
/// one. An empty `from` occurs nowhere.
pub open spec fn replaced(text: Seq<char>, from: Seq<char>, to: Seq<char>) -> Seq<char>
    decreases text.len(),
{
    if from.len() == 0 || text.len() < from.len() {
        text
    } else if text.take(from.len() as int) == from {
        to + replaced(text.skip(from.len() as int), from, to)
    } else {
        text.take(1) + replaced(text.skip(1), from, to)
    }
}

/// The characters of `s`, one by one.
pub fn chars_of(s: &str) -> (chars: Vec<char>)
    ensures
        chars@ == s@,
{
    let mut chars: Vec<char> = Vec::new();
    for c in it: s.chars()
        invariant
            chars@ == it.seq().take(it.index()),
            it.seq() == s@,
    {
        chars.push(c);
    }
    chars
}

/// The characters of `pattern` stand in `text` from position `at` on.
pub open spec fn occurs(text: Seq<char>, pattern: Seq<char>, at: int) -> bool {
    &&& 0 <= at
    &&& at + pattern.len() <= text.len()
    &&& text.subrange(at, at + pattern.len()) == pattern
}

/// Whether `pattern` stands in `text` at position `at`.
pub fn occurs_at(text: &Vec<char>, pattern: &Vec<char>, at: usize) -> (found: bool)
    ensures
        found == occurs(text@, pattern@, at as int),
{
    if at > text.len() || pattern.len() > text.len() - at {
        return false;
    }
    let mut k: usize = 0;
    while k < pattern.len()
        invariant
            k <= pattern.len(),
            at + pattern.len() <= text.len(),
            forall|j: int| 0 <= j < k ==> text@[at + j] == pattern@[j],
        decreases pattern.len() - k,
    {
        if text[at + k] != pattern[k] {
            assert(text@.subrange(at as int, at + pattern.len())[k as int] != pattern@[k as int]);
            return false;
        }
        k += 1;
    }
    assert(text@.subrange(at as int, at + pattern.len()) =~= pattern@);
    true
}

/// Replaces every occurrence of `from` in `text` by `to`.
pub fn replace_all(text: &str, from: &str, to: &str) -> (out: String)
    ensures
        out@ == replaced(text@, from@, to@),
{
    let hay = chars_of(text);
    let pattern = chars_of(from);
    let n = hay.len();
    let m = pattern.len();
    if m == 0 || n < m {
        return text.to_owned();
    }
    let mut out = String::new();
    let mut kept: usize = 0;
    let mut at: usize = 0;
    assert(text@.skip(0) =~= text@);
    assert(out@ + text@.subrange(0, 0) + text@ =~= text@);
    while at <= n - m
        invariant
            0 < m <= n,
            n == hay.len(),
            m == pattern.len(),
            hay@ == text@,
            pattern@ == from@,
            kept <= at <= n,
            replaced(text@, from@, to@) == out@ + text@.subrange(kept as int, at as int)
                + replaced(text@.skip(at as int), from@, to@),
        decreases n - at,
    {
        let ghost rest = text@.skip(at as int);
        assert(rest.take(m as int) =~= hay@.subrange(at as int, at + m));
        if occurs_at(&hay, &pattern, at) {
            assert(rest.skip(m as int) =~= text@.skip(at + m));
            out.append(text.substring_char(kept, at));
            out.append(to);
            at += m;
            kept = at;
            assert(text@.subrange(kept as int, at as int) =~= Seq::<char>::empty());
        } else {
            assert(rest.skip(1) =~= text@.skip(at + 1));
            assert(text@.subrange(kept as int, at as int) + rest.take(1) =~= text@.subrange(
                kept as int,
                at + 1,
            ));
            at += 1;
        }
    }
    assert(text@.subrange(kept as int, at as int) + text@.skip(at as int) =~= text@.subrange(
        kept as int,
        n as int,
    ));
    out.append(text.substring_char(kept, n));
    out
}

} // verus!
