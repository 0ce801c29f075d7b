use vstd::prelude::*;

verus! {

/// Optional whitespace inside a header line: space or horizontal tab.
pub open spec fn is_ows(b: u8) -> bool {
    b == 32 || b == 9
}

/// First index at or after `i` (and before `end`) whose byte is not optional
/// whitespace; `end` if there is none.
pub open spec fn spec_skip_ows(s: Seq<u8>, i: int, end: int) -> int
    decreases end - i,
{
    if 0 <= i && i < end && i < s.len() && is_ows(s[i]) {
        spec_skip_ows(s, i + 1, end)
    } else {
        i
    }
}

pub proof fn lemma_skip_ows_bounds(s: Seq<u8>, i: int, end: int)
    requires
        0 <= i <= end,
    ensures
        i <= spec_skip_ows(s, i, end) <= end,
    decreases end - i,
{
    if i < end && i < s.len() && is_ows(s[i]) {
        lemma_skip_ows_bounds(s, i + 1, end);
    }
}

/// First index in `[i, end)` holding byte `b`, if any.
pub open spec fn spec_find_byte(s: Seq<u8>, b: u8, i: int, end: int) -> Option<int>
    decreases end - i,
{
    if i < 0 || i >= end || i >= s.len() {
        None
    } else if s[i] == b {
        Some(i)
    } else {
        spec_find_byte(s, b, i + 1, end)
    }
}

pub proof fn lemma_find_byte_bounds(s: Seq<u8>, b: u8, i: int, end: int)
    ensures
        spec_find_byte(s, b, i, end) matches Some(j)
            ==> i <= j < end && j < s.len() && s[j] == b,
    decreases end - i,
{
    if !(i < 0 || i >= end || i >= s.len()) && s[i] != b {
        lemma_find_byte_bounds(s, b, i + 1, end);
    }
}

/// First index `j >= i` where a CRLF pair starts, if any.
pub open spec fn spec_find_crlf(s: Seq<u8>, i: int) -> Option<int>
    decreases s.len() - i,
{
    if i < 0 || i + 1 >= s.len() {
        None
    } else if s[i] == 13 && s[i + 1] == 10 {
        Some(i)
    } else {
        spec_find_crlf(s, i + 1)
    }
}

pub proof fn lemma_find_crlf_bounds(s: Seq<u8>, i: int)
    ensures
        spec_find_crlf(s, i) matches Some(j)
            ==> i <= j && j + 1 < s.len() && s[j] == 13 && s[j + 1] == 10,
    decreases s.len() - i,
{
    if !(i < 0 || i + 1 >= s.len()) && !(s[i] == 13 && s[i + 1] == 10) {
        lemma_find_crlf_bounds(s, i + 1);
    }
}

pub fn skip_ows(s: &[u8], start: usize, end: usize) -> (r: usize)
    requires
        start <= end <= s@.len(),
    ensures
        r == spec_skip_ows(s@, start as int, end as int),
        start <= r <= end,
{
    let mut i = start;
    while i < end && (s[i] == 32 || s[i] == 9)
        invariant
            start <= i <= end <= s@.len(),
            spec_skip_ows(s@, start as int, end as int) == spec_skip_ows(s@, i as int, end as int),
        decreases end - i,
    {
        i += 1;
    }
    i
}

pub fn find_byte(s: &[u8], b: u8, start: usize, end: usize) -> (r: Option<usize>)
    requires
        start <= end <= s@.len(),
    ensures
        spec_find_byte(s@, b, start as int, end as int) == (match r {
            Some(j) => Some(j as int),
            None => None::<int>,
        }),
        r matches Some(j) ==> start <= j < end,
    {
    let mut i = start;
    while i < end
        invariant
            start <= i <= end <= s@.len(),
            spec_find_byte(s@, b, start as int, end as int) == spec_find_byte(s@, b, i as int, end as int),
        decreases end - i,
    {
        if s[i] == b {
            return Some(i);
        }
        i += 1;
    }
    None
}

pub fn find_crlf(s: &[u8], start: usize) -> (r: Option<usize>)
    requires
        start <= s@.len(),
    ensures
        spec_find_crlf(s@, start as int) == (match r {
            Some(j) => Some(j as int),
            None => None::<int>,
        }),
        r matches Some(j) ==> start <= j && j + 1 < s@.len(),
{
    if s.len() == 0 {
        return None;
    }
    let mut i = start;
    while i < s.len() - 1
        invariant
            start <= i,
            i <= s@.len(),
            s@.len() >= 1,
            spec_find_crlf(s@, start as int) == spec_find_crlf(s@, i as int),
        decreases s@.len() - i,
    {
        if s[i] == 13 && s[i + 1] == 10 {
            return Some(i);
        }
        i += 1;
    }
    None
}

} // verus!
