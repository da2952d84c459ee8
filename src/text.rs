//! Character scanning over strings: fields split by a separator and the last
//! segment of a slash-separated path.
use vstd::prelude::*;

verus! {

/// Index of the first `c` at or after `from`, or the length when there is none.
pub open spec fn scan_to(s: Seq<char>, c: char, from: int) -> int
    decreases s.len() - from,
{
    if from >= s.len() {
        s.len() as int
    } else if s[from] == c {
        from
    } else {
        scan_to(s, c, from + 1)
    }
}

/// Start of the segment that ends at `end`: one past the last `/` before `end`, or 0.
pub open spec fn segment_start(s: Seq<char>, end: int) -> int
    decreases end,
{
    if end <= 0 {
        0
    } else if s[end - 1] == '/' {
        end
    } else {
        segment_start(s, end - 1)
    }
}

/// What follows the last `/` of `s` (all of `s` when it has none).
pub open spec fn last_segment_of(s: Seq<char>) -> Seq<char> {
    s.subrange(segment_start(s, s.len() as int), s.len() as int)
}

/// Index of the first `c` in `s` at or after `from`, or the length of `s`.
pub fn find_char_from(s: &str, c: char, from: usize) -> (r: usize)
    requires
        from <= s@.len(),
    ensures
        r == scan_to(s@, c, from as int),
        from <= r <= s@.len(),
{
    let n = s.unicode_len();
    let mut i: usize = from;
    while i < n
        invariant
            n == s@.len(),
            from <= i <= n,
            scan_to(s@, c, i as int) == scan_to(s@, c, from as int),
        decreases n - i,
    {
        if s.get_char(i) == c {
            return i;
        }
        i = i + 1;
    }
    i
}

/// Index at which the segment ending at `end` starts: one past the last `/`
/// before `end`, or 0.
pub fn segment_start_before(s: &str, end: usize) -> (r: usize)
    requires
        end <= s@.len(),
    ensures
        r == segment_start(s@, end as int),
        r <= end,
{
    let mut i: usize = end;
    while i > 0
        invariant
            i <= end <= s@.len(),
            segment_start(s@, i as int) == segment_start(s@, end as int),
        decreases i,
    {
        if s.get_char(i - 1) == '/' {
            return i;
        }
        i = i - 1;
    }
    0
}

} // verus!
