//! Extraction of the displayed file label: the final path component, i.e.
//! everything after the last `/`. An empty path yields an empty label.

use vstd::prelude::*;
use vstd::string::StrSliceExecFns;

verus! {

/// The final path component of `s`: the suffix after the last `/`, the whole
/// string when no `/` occurs, and empty when `s` is empty or ends in `/`.
pub open spec fn basename_of(s: Seq<char>) -> Seq<char>
    decreases s.len(),
{
    if s.len() == 0 {
        Seq::<char>::empty()
    } else if s[s.len() - 1] == '/' {
        Seq::<char>::empty()
    } else {
        basename_of(s.drop_last()).push(s[s.len() - 1])
    }
}

/// A suffix of `s` that starts right after a `/` (or at the start of `s`)
/// and contains no `/` is exactly the basename of `s`.
proof fn lemma_basename_suffix(s: Seq<char>, start: int)
    requires
        0 <= start <= s.len(),
        forall|j: int| start <= j < s.len() ==> s[j] != '/',
        start == 0 || s[start - 1] == '/',
    ensures
        basename_of(s) == s.subrange(start, s.len() as int),
    decreases s.len(),
{
    if start == s.len() {
        assert(basename_of(s) =~= s.subrange(start, s.len() as int));
    } else {
        let prefix = s.drop_last();
        lemma_basename_suffix(prefix, start);
        assert(basename_of(s) =~= s.subrange(start, s.len() as int));
    }
}

/// The label shown next to each metric: the final path component of `path`.
pub fn get_file_name(path: &str) -> (r: String)
    ensures
        r@ == basename_of(path@),
{
    let n = path.unicode_len();
    let mut i: usize = n;
    while i > 0 && path.get_char(i - 1) != '/'
        invariant
            n == path@.len(),
            0 <= i <= n,
            forall|j: int| i <= j < n ==> path@[j] != '/',
        decreases i,
    {
        i -= 1;
    }
    let tail = path.substring_char(i, n);
    proof {
        lemma_basename_suffix(path@, i as int);
    }
    tail.to_owned()
}

} // verus!
