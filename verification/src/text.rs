//! Membership tests over lists of user identifiers.

use vstd::prelude::*;

verus! {

/// Returns whether `needle` occurs in `haystack`, compared by string content.
pub fn contains_str(haystack: &Vec<String>, needle: &str) -> (found: bool)
    ensures
        found == haystack.deep_view().contains(needle@),
{
    let owned_needle: String = needle.to_owned();
    let mut i: usize = 0;
    while i < haystack.len()
        invariant
            i <= haystack.len(),
            owned_needle@ == needle@,
            forall|j: int| 0 <= j < i ==> haystack.deep_view()[j] != needle@,
        decreases haystack.len() - i,
    {
        if haystack[i] == owned_needle {
            assert(haystack.deep_view()[i as int] == needle@);
            return true;
        }
        i = i + 1;
    }
    false
}

/// Clones a list of strings, keeping its contents exactly.
pub fn clone_strings(v: &Vec<String>) -> (res: Vec<String>)
    ensures
        res@ == v@,
{
    let res = v.clone();
    proof {
        assert forall|i: int| 0 <= i < v@.len() implies res@[i] == v@[i] by {
            assert(cloned::<String>(v[i], res[i]));
        }
        assert(res@ =~= v@);
    }
    res
}

} // verus!
