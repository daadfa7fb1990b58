//! Tag extraction from an image reference of the form `repository[:tag]`.
//!
//! The tag is the second colon-separated field of the reference: the text
//! between the first `:` and the following `:` (or the end of the string).
//! A reference without any `:` has no tag.

use vstd::prelude::*;

verus! {

/// Index of the first `':'` in `s`, or `s.len()` if `s` has none.
pub open spec fn first_colon(s: Seq<char>) -> int
    decreases s.len(),
{
    if s.len() == 0 {
        0
    } else if s[0] == ':' {
        0
    } else {
        1 + first_colon(s.subrange(1, s.len() as int))
    }
}

/// The tag of an image reference: the second colon-separated field, if the
/// reference contains a colon at all.
pub open spec fn spec_extract_tag(s: Seq<char>) -> Option<Seq<char>> {
    if first_colon(s) == s.len() {
        Option::None
    } else {
        let rest = s.subrange(first_colon(s) + 1, s.len() as int);
        Option::Some(rest.subrange(0, first_colon(rest)))
    }
}

/// A position with no colon before it, and a colon at it (or the end of the
/// string), is exactly `first_colon`.
pub proof fn lemma_first_colon_at(s: Seq<char>, i: int)
    requires
        0 <= i <= s.len(),
        forall|j: int| 0 <= j < i ==> s[j] != ':',
        i < s.len() ==> s[i] == ':',
    ensures
        first_colon(s) == i,
    decreases i,
{
    if i == 0 {
    } else {
        let tail = s.subrange(1, s.len() as int);
        assert(s[0] != ':');
        assert forall|j: int| 0 <= j < i - 1 implies tail[j] != ':' by {
            assert(tail[j] == s[j + 1]);
        }
        assert(i - 1 < tail.len() ==> tail[i - 1] == ':');
        lemma_first_colon_at(tail, i - 1);
    }
}

/// Smallest position at or after `from` holding a `':'`, or `len` if there
/// is none.
fn find_colon_from(s: &str, from: usize, len: usize) -> (r: usize)
    requires
        from <= len,
        len == s@.len(),
    ensures
        from <= r <= len,
        forall|j: int| from <= j < r ==> s@[j] != ':',
        r < len ==> s@[r as int] == ':',
    decreases len - from,
{
    if from == len {
        from
    } else if s.get_char(from) == ':' {
        from
    } else {
        find_colon_from(s, from + 1, len)
    }
}

/// Extract the tag portion of an image reference by splitting on `':'` and
/// taking the second field, if the reference has one.
pub fn extract_image_tag(image: &str) -> (r: Option<&str>)
    ensures
        match r {
            Option::None => spec_extract_tag(image@) is None,
            Option::Some(t) => spec_extract_tag(image@) == Option::Some(t@),
        },
{
    let len = image.unicode_len();
    let c1 = find_colon_from(image, 0, len);
    if c1 == len {
        proof {
            lemma_first_colon_at(image@, c1 as int);
        }
        Option::None
    } else {
        let c2 = find_colon_from(image, c1 + 1, len);
        let t = image.substring_char(c1 + 1, c2);
        proof {
            lemma_first_colon_at(image@, c1 as int);
            let rest = image@.subrange(c1 + 1, len as int);
            assert forall|j: int| 0 <= j < c2 - (c1 + 1) implies rest[j] != ':' by {
                assert(rest[j] == image@[c1 + 1 + j]);
            }
            if c2 < len {
                assert(rest[c2 - (c1 + 1)] == image@[c2 as int]);
            }
            lemma_first_colon_at(rest, c2 - (c1 + 1));
            assert(rest.subrange(0, c2 - (c1 + 1)) =~= image@.subrange(c1 + 1 as int, c2 as int));
        }
        Option::Some(t)
    }
}

} // verus!
