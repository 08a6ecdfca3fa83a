//! Questions about strings that the tools ask: whether a name ends in an
//! extension, whether two texts are the same, and what is left of a path
//! once a part is taken out of it.

use vstd::prelude::*;
use vstd::string::{StrSliceExecFns, StringExecFns};

verus! {

/// Whether `pat` stands in `s` at index `at`.
pub open spec fn occurs_at(s: Seq<char>, at: int, pat: Seq<char>) -> bool {
    0 <= at && at + pat.len() <= s.len() && s.subrange(at, at + pat.len()) == pat
}

/// Whether `s` ends with `suffix`.
pub open spec fn is_suffix(s: Seq<char>, suffix: Seq<char>) -> bool {
    occurs_at(s, s.len() - suffix.len(), suffix)
}

/// `s` without the occurrences of `pat`. Occurrences are found from the
/// left, and the search goes on behind each one it finds: what the
/// remaining pieces spell when put together is not searched again.
pub open spec fn without(s: Seq<char>, pat: Seq<char>) -> Seq<char>
    decreases s.len(),
{
    if pat.len() == 0 || s.len() == 0 {
        s
    } else if occurs_at(s, 0, pat) {
        without(s.skip(pat.len() as int), pat)
    } else {
        seq![s[0]] + without(s.skip(1), pat)
    }
}

/// Whether `pat` stands in `s` at index `at`, counted in characters.
pub fn occurs(s: &str, at: usize, pat: &str) -> (r: bool)
    ensures
        r == occurs_at(s@, at as int, pat@),
{
    let len = s.unicode_len();
    let pat_len = pat.unicode_len();
    if at > len || pat_len > len - at {
        return false;
    }
    let mut i: usize = 0;
    while i < pat_len
        invariant
            i <= pat_len,
            pat_len == pat@.len(),
            len == s@.len(),
            at + pat_len <= len,
            forall|k: int| 0 <= k < i ==> s@[at + k] == pat@[k],
        decreases pat_len - i,
    {
        if s.get_char(at + i) != pat.get_char(i) {
            assert(s@.subrange(at as int, at + pat_len)[i as int] != pat@[i as int]);
            return false;
        }
        i = i + 1;
    }
    assert(s@.subrange(at as int, at + pat_len) =~= pat@);
    true
}

/// Whether `s` ends with `suffix`.
pub fn ends_with(s: &str, suffix: &str) -> (r: bool)
    ensures
        r == is_suffix(s@, suffix@),
{
    let len = s.unicode_len();
    let suffix_len = suffix.unicode_len();
    if suffix_len > len {
        return false;
    }
    occurs(s, len - suffix_len, suffix)
}

/// Whether `a` and `b` are the same text.
pub fn equals(a: &str, b: &str) -> (r: bool)
    ensures
        r == (a@ == b@),
{
    let same = a.unicode_len() == b.unicode_len() && occurs(a, 0, b);
    assert(same ==> a@.subrange(0, a@.len() as int) =~= a@);
    assert(a@ == b@ ==> b@.subrange(0, b@.len() as int) =~= b@);
    same
}

/// `s` without the occurrences of `pat`; see [`without`].
pub fn remove_all(s: &str, pat: &str) -> (r: String)
    ensures
        r@ == without(s@, pat@),
{
    let len = s.unicode_len();
    let pat_len = pat.unicode_len();
    let mut out = String::new();
    if pat_len == 0 {
        out.append(s);
        assert(out@ =~= s@);
        return out;
    }
    let mut i: usize = 0;
    assert(s@.skip(0) =~= s@);
    while i < len
        invariant
            i <= len,
            len == s@.len(),
            pat_len == pat@.len(),
            pat_len > 0,
            out@ + without(s@.skip(i as int), pat@) == without(s@, pat@),
        decreases len - i,
    {
        let ghost rest = s@.skip(i as int);
        if occurs(s, i, pat) {
            assert(rest.subrange(0, pat_len as int) =~= s@.subrange(i as int, i + pat_len));
            assert(rest.skip(pat_len as int) =~= s@.skip(i + pat_len));
            i = i + pat_len;
        } else {
            proof {
                if i + pat_len <= len {
                    assert(rest.subrange(0, pat_len as int) =~= s@.subrange(i as int, i + pat_len));
                }
                assert(rest.skip(1) =~= s@.skip(i + 1));
            }
            let ghost before = out@;
            out.append(s.substring_char(i, i + 1));
            assert(s@.subrange(i as int, i + 1) =~= seq![rest[0]]);
            assert(before + (seq![rest[0]] + without(rest.skip(1), pat@)) =~= out@ + without(
                rest.skip(1),
                pat@,
            ));
            i = i + 1;
        }
    }
    assert(out@ + Seq::<char>::empty() =~= out@);
    out
}

} // verus!
