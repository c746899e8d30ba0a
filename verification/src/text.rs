//! Small verified helpers on strings: equality, suffix tests and suffix
//! stripping, shared by the configuration decoder and the archive classifier.

use vstd::prelude::*;
use vstd::string::StrSliceExecFns;
use vstd::string::StringExecFns;

verus! {

/// `s` ends with `suffix` (as sequences of characters).
pub open spec fn ends_with(s: Seq<char>, suffix: Seq<char>) -> bool {
    suffix.len() <= s.len() && s.skip(s.len() - suffix.len()) == suffix
}

/// Character-for-character equality of two string slices.
pub fn str_eq(a: &str, b: &str) -> (r: bool)
    ensures
        r == (a@ == b@),
{
    let alen = a.unicode_len();
    let blen = b.unicode_len();
    if alen != blen {
        proof {
            assert(a@.len() != b@.len());
        }
        return false;
    }
    let mut i: usize = 0;
    while i < alen
        invariant
            i <= alen,
            alen == a@.len(),
            alen == b@.len(),
            forall|j: int| 0 <= j < i ==> a@[j] == b@[j],
        decreases alen - i,
    {
        if a.get_char(i) != b.get_char(i) {
            return false;
        }
        i += 1;
    }
    proof {
        assert(a@ =~= b@);
    }
    true
}

/// Strips `suffix` off the end of `s`, returning the remainder when `s`
/// ends with it.
pub fn strip_suffix_of(s: &str, suffix: &str) -> (r: Option<String>)
    ensures
        r is Some <==> ends_with(s@, suffix@),
        r matches Some(base) ==> base@ == s@.take(s@.len() - suffix@.len()),
{
    let slen = s.unicode_len();
    let plen = suffix.unicode_len();
    if plen <= slen {
        let tail = s.substring_char(slen - plen, slen);
        proof {
            assert(tail@ =~= s@.skip(s@.len() - suffix@.len()));
        }
        if str_eq(tail, suffix) {
            let base = s.substring_char(0, slen - plen);
            proof {
                assert(base@ =~= s@.take(s@.len() - suffix@.len()));
            }
            return Some(base.to_owned());
        }
    }
    None
}

} // verus!
