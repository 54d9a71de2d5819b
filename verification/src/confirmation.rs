use vstd::prelude::*;

verus! {

/// ASCII whitespace, what the confirmation prompt strips from an answer.
pub open spec fn is_space(b: u8) -> bool {
    b == 32 || b == 9 || b == 10 || b == 13
}

pub open spec fn leading_spaces(s: Seq<u8>) -> nat
    decreases s.len(),
{
    if s.len() == 0 {
        0
    } else if is_space(s[0]) {
        1 + leading_spaces(s.drop_first())
    } else {
        0
    }
}

pub open spec fn trailing_spaces(s: Seq<u8>) -> nat
    decreases s.len(),
{
    if s.len() == 0 {
        0
    } else if is_space(s[s.len() - 1]) {
        1 + trailing_spaces(s.drop_last())
    } else {
        0
    }
}

/// The answer with ASCII whitespace stripped from both ends.
pub open spec fn trimmed(s: Seq<u8>) -> Seq<u8> {
    if leading_spaces(s) == s.len() {
        Seq::empty()
    } else {
        s.subrange(leading_spaces(s) as int, s.len() - trailing_spaces(s))
    }
}

/// Only the exact answer `Y`, up to surrounding whitespace, proceeds; any
/// other input is a decline.
pub open spec fn affirmative(s: Seq<u8>) -> bool {
    trimmed(s) == seq![89u8]
}

proof fn lemma_leading_spaces_from_prefix(s: Seq<u8>, i: int)
    requires
        0 <= i <= s.len(),
        forall|k: int| 0 <= k < i ==> is_space(s[k]),
        i == s.len() || !is_space(s[i]),
    ensures
        leading_spaces(s) == i,
    decreases s.len(),
{
    if s.len() == 0 {
    } else if i == 0 {
    } else {
        assert(is_space(s[0]));
        lemma_leading_spaces_from_prefix(s.drop_first(), i - 1);
    }
}

proof fn lemma_trailing_spaces_from_suffix(s: Seq<u8>, j: int)
    requires
        0 <= j <= s.len(),
        forall|k: int| j <= k < s.len() ==> is_space(s[k]),
        j == 0 || !is_space(s[j - 1]),
    ensures
        trailing_spaces(s) == s.len() - j,
    decreases s.len(),
{
    if s.len() == 0 {
    } else if j == s.len() {
    } else {
        assert(is_space(s[s.len() - 1]));
        lemma_trailing_spaces_from_suffix(s.drop_last(), j);
    }
}

fn is_space_byte(b: u8) -> (r: bool)
    ensures
        r == is_space(b),
{
    b == 32 || b == 9 || b == 10 || b == 13
}

/// Whether an answer line read from the operator counts as the explicit
/// affirmative that lets the operation proceed.
pub fn is_affirmative(answer: &Vec<u8>) -> (r: bool)
    ensures
        r == affirmative(answer@),
{
    let n = answer.len();
    let mut start: usize = 0;
    while start < n && is_space_byte(answer[start])
        invariant
            start <= n == answer@.len(),
            forall|k: int| 0 <= k < start ==> is_space(answer@[k]),
        decreases n - start,
    {
        start = start + 1;
    }
    proof {
        lemma_leading_spaces_from_prefix(answer@, start as int);
    }
    if start == n {
        proof {
            assert(!affirmative(answer@));
        }
        return false;
    }
    let mut end: usize = n;
    while end > start + 1 && is_space_byte(answer[end - 1])
        invariant
            start < end <= n == answer@.len(),
            forall|k: int| end <= k < n ==> is_space(answer@[k]),
        decreases end,
    {
        end = end - 1;
    }
    // either end == start + 1 and s[start] is non-space, or the loop exited
    // on a non-space byte: s[end - 1] is non-space either way
    proof {
        lemma_trailing_spaces_from_suffix(answer@, end as int);
        assert(trimmed(answer@) =~= answer@.subrange(start as int, end as int));
    }
    let r = end - start == 1 && answer[start] == 89u8;
    proof {
        if r {
            assert(trimmed(answer@) =~= seq![89u8]);
        } else {
            if trimmed(answer@).len() == 1 {
                assert(trimmed(answer@)[0] == answer@[start as int]);
            }
        }
    }
    r
}

} // verus!
