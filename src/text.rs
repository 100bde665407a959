//! Small facts about character sequences.
use vstd::prelude::*;

verus! {

/// `needle` occurs in `hay` as a contiguous run.
pub open spec fn contains_seq(hay: Seq<char>, needle: Seq<char>) -> bool {
    exists|k: int|
        0 <= k && k + needle.len() <= hay.len() && #[trigger] hay.subrange(k, k + needle.len())
            == needle
}

/// Whether `needle` occurs in `hay`.
pub fn contains_str(hay: &str, needle: &str) -> (r: bool)
    ensures
        r == contains_seq(hay@, needle@),
{
    let hlen = hay.unicode_len();
    let nlen = needle.unicode_len();
    if nlen > hlen {
        return false;
    }
    if nlen == 0 {
        assert(hay@.subrange(0int, 0int + needle@.len()) =~= needle@);
        return true;
    }
    let mut k: usize = 0;
    while k < hlen - nlen + 1
        invariant
            hlen == hay@.len(),
            nlen == needle@.len(),
            0 < nlen <= hlen,
            k <= hlen - nlen + 1,
            forall|k2: int| 0 <= k2 < k ==> #[trigger] hay@.subrange(k2, k2 + nlen) != needle@,
        decreases hlen - nlen + 1 - k,
    {
        let mut j: usize = 0;
        let mut same = true;
        while j < nlen
            invariant
                hlen == hay@.len(),
                nlen == needle@.len(),
                k + nlen <= hlen,
                j <= nlen,
                same ==> forall|j2: int| 0 <= j2 < j ==> hay@[k + j2] == needle@[j2],
                !same ==> hay@.subrange(k as int, k + nlen) != needle@,
            decreases nlen - j,
        {
            if hay.get_char(k + j) != needle.get_char(j) {
                assert(hay@.subrange(k as int, k + nlen)[j as int] != needle@[j as int]);
                same = false;
            }
            j = j + 1;
        }
        if same {
            assert(hay@.subrange(k as int, k + nlen) =~= needle@);
            return true;
        }
        k = k + 1;
    }
    assert forall|k2: int|
        0 <= k2 && k2 + needle@.len() <= hay@.len() implies #[trigger] hay@.subrange(
        k2,
        k2 + needle@.len(),
    ) != needle@ by {
        assert(k2 < k);
    }
    false
}

/// Whether `s` holds exactly the characters of `lit`.
pub fn is_literal(s: &String, lit: &str) -> (r: bool)
    ensures
        r == (s@ == lit@),
{
    let other = String::from_str(lit);
    *s == other
}

} // verus!
