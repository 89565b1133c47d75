//! Line-oriented measurements of display text.
use vstd::prelude::*;

verus! {

use vstd::string::StrSliceExecFns;

/// Number of line-break characters in `s`.
pub open spec fn newline_count(s: Seq<char>) -> nat
    decreases s.len(),
{
    if s.len() == 0 {
        0
    } else {
        newline_count(s.drop_last()) + if s.last() == '\n' {
            1nat
        } else {
            0nat
        }
    }
}

/// Width of the widest line-break-separated segment of `s`, in characters,
/// when a segment `cur` characters wide is already open and the widest
/// segment seen so far is `best` characters wide.  The segment still open
/// when `s` ends counts as well.
pub open spec fn widest_segment(s: Seq<char>, cur: nat, best: nat) -> nat
    decreases s.len(),
{
    if s.len() == 0 {
        if cur > best {
            cur
        } else {
            best
        }
    } else if s[0] == '\n' {
        widest_segment(
            s.skip(1),
            0,
            if cur > best {
                cur
            } else {
                best
            },
        )
    } else {
        widest_segment(s.skip(1), cur + 1, best)
    }
}

/// A text holds no more line breaks than characters.
pub proof fn lemma_newline_count_le_len(s: Seq<char>)
    ensures
        newline_count(s) <= s.len(),
    decreases s.len(),
{
    if s.len() > 0 {
        lemma_newline_count_le_len(s.drop_last());
    }
}

/// Counts the line-break characters of `s`.
pub fn count_newlines(s: &str) -> (n: usize)
    ensures
        n == newline_count(s@),
{
    let len: usize = s.unicode_len();
    let mut n: usize = 0;
    let mut i: usize = 0;
    while i < len
        invariant
            i <= len,
            len == s@.len(),
            n <= i,
            n == newline_count(s@.subrange(0, i as int)),
        decreases len - i,
    {
        let c = s.get_char(i);
        proof {
            let pre = s@.subrange(0, i as int);
            let post = s@.subrange(0, i + 1);
            assert(post.drop_last() =~= pre);
            assert(post.last() == s@[i as int]);
        }
        if c == '\n' {
            n = n + 1;
        }
        i = i + 1;
    }
    proof {
        assert(s@.subrange(0, len as int) =~= s@);
    }
    n
}

/// Width of the widest line-break-separated segment of `s`, in characters,
/// the trailing segment included.
pub fn text_width(s: &str) -> (r: usize)
    ensures
        r == widest_segment(s@, 0, 0),
{
    let len: usize = s.unicode_len();
    let mut cur: usize = 0;
    let mut best: usize = 0;
    let mut i: usize = 0;
    proof {
        assert(s@.skip(0) =~= s@);
    }
    while i < len
        invariant
            i <= len,
            len == s@.len(),
            cur <= i,
            best <= len,
            widest_segment(s@, 0, 0) == widest_segment(s@.skip(i as int), cur as nat, best as nat),
        decreases len - i,
    {
        let c = s.get_char(i);
        proof {
            assert(s@.skip(i as int)[0] == s@[i as int]);
            assert(s@.skip(i as int).skip(1) =~= s@.skip(i + 1));
        }
        if c == '\n' {
            if cur > best {
                best = cur;
            }
            cur = 0;
        } else {
            cur = cur + 1;
        }
        i = i + 1;
    }
    proof {
        assert(s@.skip(len as int) =~= Seq::<char>::empty());
    }
    if cur > best {
        cur
    } else {
        best
    }
}

} // verus!
