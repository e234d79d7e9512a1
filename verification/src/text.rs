//! What the rules need to know of a piece of text.

use vstd::prelude::*;
use vstd::string::StrSliceExecFns;

verus! {

/// The characters that Unicode gives the property `White_Space`.
pub open spec fn is_white_space(c: char) -> bool {
    let n = c as u32;
    ||| 0x09 <= n <= 0x0D
    ||| n == 0x20
    ||| n == 0x85
    ||| n == 0xA0
    ||| n == 0x1680
    ||| 0x2000 <= n <= 0x200A
    ||| n == 0x2028
    ||| n == 0x2029
    ||| n == 0x202F
    ||| n == 0x205F
    ||| n == 0x3000
}

/// The text without the white space at its two ends.
pub open spec fn trimmed(s: Seq<char>) -> Seq<char>
    decreases s.len(),
{
    if s.len() == 0 {
        s
    } else if is_white_space(s.first()) {
        trimmed(s.drop_first())
    } else if is_white_space(s.last()) {
        trimmed(s.drop_last())
    } else {
        s
    }
}

/// Whether the text holds anything but white space.
pub open spec fn is_blank(s: Seq<char>) -> bool {
    trimmed(s).len() == 0
}

/// `str::trim` of the standard library: the slice of the text that is left
/// when the leading and the trailing characters with the Unicode property
/// `White_Space` are taken away.
#[verifier::external_body]
pub(crate) fn trim(s: &str) -> (inner: &str)
    ensures
        inner@ == trimmed(s@),
{
    s.trim()
}

/// Whether the text is empty once trimmed.
pub fn blank(s: &str) -> (yes: bool)
    ensures
        yes == is_blank(s@),
{
    trim(s).is_empty()
}

/// How often a character occurs in a text.
pub open spec fn occurrences(s: Seq<char>, c: char) -> nat
    decreases s.len(),
{
    if s.len() == 0 {
        0
    } else {
        occurrences(s.drop_last(), c) + if s.last() == c {
            1nat
        } else {
            0nat
        }
    }
}

/// Where a character first occurs in a text, if it occurs.
pub open spec fn position(s: Seq<char>, c: char) -> Option<int>
    decreases s.len(),
{
    if s.len() == 0 {
        None
    } else {
        match position(s.drop_last(), c) {
            Some(i) => Some(i),
            None => if s.last() == c {
                Some(s.len() - 1)
            } else {
                None
            },
        }
    }
}

/// A position that `position` names holds the character, lies in the
/// text, and is the first to hold it; and it names one exactly when the
/// character occurs.
pub proof fn lemma_position(s: Seq<char>, c: char)
    ensures
        match position(s, c) {
            Some(i) => 0 <= i < s.len() && s[i] == c && occurrences(s, c) > 0
                && occurrences(s.subrange(0, i), c) == 0,
            None => occurrences(s, c) == 0,
        },
    decreases s.len(),
{
    if s.len() > 0 {
        let rest = s.drop_last();
        lemma_position(rest, c);
        match position(rest, c) {
            Some(i) => {
                assert(rest.subrange(0, i) =~= s.subrange(0, i));
            },
            None => {
                if s.last() == c {
                    assert(s.subrange(0, s.len() - 1) =~= rest);
                }
            },
        }
    }
}

/// Counts a character in a text and finds where it first occurs.
pub fn scan(s: &str, c: char) -> (found: (usize, Option<usize>))
    ensures
        found.0 == occurrences(s@, c),
        match found.1 {
            Some(i) => position(s@, c) == Some(i as int),
            None => position(s@, c) is None,
        },
{
    let len = s.unicode_len();
    let mut count: usize = 0;
    let mut first: Option<usize> = None;
    let mut i: usize = 0;
    assert(s@.subrange(0, 0) =~= Seq::<char>::empty());
    for x in it: s.chars()
        invariant
            i == it.index(),
            it.seq() == s@,
            len == s@.len(),
            count == occurrences(s@.subrange(0, i as int), c),
            count <= i,
            match first {
                Some(k) => position(s@.subrange(0, i as int), c) == Some(k as int),
                None => position(s@.subrange(0, i as int), c) is None,
            },
    {
        proof {
            let next = s@.subrange(0, i + 1);
            assert(next.drop_last() =~= s@.subrange(0, i as int));
        }
        if x == c {
            count += 1;
            if first.is_none() {
                first = Some(i);
            }
        }
        i += 1;
    }
    assert(s@.subrange(0, i as int) =~= s@);
    (count, first)
}

} // verus!
