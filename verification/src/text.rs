//! Comparisons and searches on the characters of a string.

use vstd::prelude::*;
use vstd::string::StrSliceExecFns;
use vstd::string::StringExecFns;

verus! {

/// Whether two strings hold the same characters.
pub fn text_equal(a: &str, b: &str) -> (r: bool)
    ensures
        r == (a@ == b@),
{
    let x = String::from_str(a);
    let y = String::from_str(b);
    x == y
}

/// Whether `text` begins with the characters of `prefix`.
pub fn has_prefix(text: &str, prefix: &str) -> (r: bool)
    ensures
        r == prefix@.is_prefix_of(text@),
{
    let n: usize = prefix.unicode_len();
    if text.unicode_len() < n {
        return false;
    }
    let head = text.substring_char(0, n);
    text_equal(head, prefix)
}

/// The parts of a text before and after the first `c` in it, where it holds
/// one.
pub open spec fn split_at_first(s: Seq<char>, c: char) -> Option<(Seq<char>, Seq<char>)> {
    match s.index_of_first(c) {
        Some(i) => Some((s.subrange(0, i), s.subrange(i + 1, s.len() as int))),
        None => None,
    }
}

/// Finds the first `c` in `text`: its position counted in characters.
pub fn find_char(text: &str, c: char) -> (r: Option<usize>)
    ensures
        r is Some == text@.index_of_first(c) is Some,
        r matches Some(i) ==> text@.index_of_first(c) == Some(i as int) && i < text@.len(),
{
    let n: usize = text.unicode_len();
    let mut i: usize = 0;
    while i < n
        invariant
            n == text@.len(),
            i <= n,
            forall|j: int| 0 <= j < i ==> text@[j] != c,
        decreases n - i,
    {
        if text.get_char(i) == c {
            proof {
                text@.index_of_first_ensures(c);
            }
            return Some(i);
        }
        i += 1;
    }
    proof {
        text@.index_of_first_ensures(c);
    }
    None
}

/// Splits a text at the first `c` in it, which belongs to neither part.
pub fn split_once<'a>(text: &'a str, c: char) -> (r: Option<(&'a str, &'a str)>)
    ensures
        r is Some == split_at_first(text@, c) is Some,
        r matches Some((before, after)) ==> split_at_first(text@, c) == Some((before@, after@)),
{
    match find_char(text, c) {
        Some(i) => {
            let n: usize = text.unicode_len();
            Some((text.substring_char(0, i), text.substring_char(i + 1, n)))
        },
        None => None,
    }
}

} // verus!
