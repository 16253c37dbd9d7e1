//! Searching texts: prefixes, lines and the first copy of a pattern.

use vstd::prelude::*;
use vstd::std_specs::iter::IteratorSpec;
use vstd::string::*;

verus! {

/// The characters of a text in a vector.
pub fn chars_of(s: &str) -> (v: Vec<char>)
    ensures
        v@ == s@,
{
    let mut it = s.chars();
    let mut v: Vec<char> = Vec::new();
    assert(it.remaining() == s@);
    loop
        invariant
            v@ + it.remaining() == s@,
        ensures
            v@ == s@,
        decreases s@.len() - v@.len(),
    {
        match it.next() {
            Some(c) => {
                v.push(c);
                assert(v@ + it.remaining() =~= s@);
            },
            None => {
                assert(v@ =~= s@);
                break ;
            },
        }
    }
    v
}

/// Whether `p` stands in `s` at index `at`.
pub open spec fn matches_at(s: Seq<char>, p: Seq<char>, at: int) -> bool {
    0 <= at && at + p.len() <= s.len() && s.subrange(at, at + p.len()) == p
}

/// Whether `s` begins with `p`.
pub open spec fn has_prefix(s: Seq<char>, p: Seq<char>) -> bool {
    matches_at(s, p, 0)
}

/// Whether `s` ends with `p`.
pub open spec fn has_suffix(s: Seq<char>, p: Seq<char>) -> bool {
    matches_at(s, p, s.len() - p.len())
}

/// `s` without any copies of `p` at its start.
pub open spec fn trim_start(s: Seq<char>, p: Seq<char>) -> Seq<char>
    decreases s.len(),
{
    if p.len() > 0 && has_prefix(s, p) {
        trim_start(s.skip(p.len() as int), p)
    } else {
        s
    }
}

/// `s` without any copies of `p` at its end.
pub open spec fn trim_end(s: Seq<char>, p: Seq<char>) -> Seq<char>
    decreases s.len(),
{
    if p.len() > 0 && has_suffix(s, p) {
        trim_end(s.take(s.len() - p.len()), p)
    } else {
        s
    }
}

/// The index of the first copy of `p` in `s` that starts at `from` or later.
pub open spec fn first_match(s: Seq<char>, p: Seq<char>, from: int) -> Option<int>
    decreases s.len() - from + 1,
{
    if from < 0 || from + p.len() > s.len() {
        None
    } else if matches_at(s, p, from) {
        Some(from)
    } else {
        first_match(s, p, from + 1)
    }
}

/// The index of the first line feed in `s` at `from` or later; the length of `s` if there is none.
pub open spec fn line_end(s: Seq<char>, from: int) -> int
    decreases s.len() - from,
{
    if from < 0 || from >= s.len() {
        s.len() as int
    } else if s[from] == '\n' {
        from
    } else {
        line_end(s, from + 1)
    }
}

/// Where the text of the line that starts at `from` stops: before the line
/// feed, and before a carriage return that stands right before the line feed.
pub open spec fn line_stop(s: Seq<char>, from: int) -> int {
    let end = line_end(s, from);
    if end < s.len() && from < end && s[end - 1] == '\r' {
        end - 1
    } else {
        end
    }
}

/// The line of `s` that starts at `from`, without its line ending.
pub open spec fn line_at(s: Seq<char>, from: int) -> Seq<char> {
    s.subrange(from, line_stop(s, from))
}

/// The first line of `s`, from the line that starts at `from` on, that begins with `label`.
pub open spec fn labelled_line(s: Seq<char>, label: Seq<char>, from: int) -> Option<Seq<char>>
    decreases s.len() - from + 1,
    via labelled_line_terminates
{
    if from < 0 || from >= s.len() {
        None
    } else if has_prefix(line_at(s, from), label) {
        Some(line_at(s, from))
    } else {
        labelled_line(s, label, line_end(s, from) + 1)
    }
}

#[via_fn]
proof fn labelled_line_terminates(s: Seq<char>, label: Seq<char>, from: int) {
    if 0 <= from < s.len() {
        lemma_line_end_bounds(s, from);
    }
}

/// The line end lies within the text, at or behind where the search began.
pub proof fn lemma_line_end_bounds(s: Seq<char>, from: int)
    requires
        0 <= from <= s.len(),
    ensures
        from <= line_end(s, from) <= s.len(),
        from <= line_stop(s, from) <= line_end(s, from),
    decreases s.len() - from,
{
    if from < s.len() && s[from] != '\n' {
        lemma_line_end_bounds(s, from + 1);
    }
}

/// Whether `p` stands in `s` at index `at`.
pub fn is_at(s: &Vec<char>, p: &Vec<char>, at: usize) -> (found: bool)
    ensures
        found == matches_at(s@, p@, at as int),
{
    if at > s.len() || p.len() > s.len() - at {
        return false;
    }
    let mut k: usize = 0;
    while k < p.len()
        invariant
            0 <= k <= p.len(),
            at + p.len() <= s.len(),
            forall|j: int| 0 <= j < k ==> s@[at + j] == p@[j],
        decreases p.len() - k,
    {
        if s[at + k] != p[k] {
            assert(s@.subrange(at as int, at + p.len())[k as int] != p@[k as int]);
            return false;
        }
        k += 1;
    }
    assert(s@.subrange(at as int, at + p.len()) =~= p@);
    true
}

/// The index of the first copy of `p` in `s` that starts at `from` or later.
pub fn find_from(s: &Vec<char>, p: &Vec<char>, from: usize) -> (found: Option<usize>)
    ensures
        match found {
            Some(at) => first_match(s@, p@, from as int) == Some(at as int) && at + p@.len()
                <= s@.len(),
            None => first_match(s@, p@, from as int) is None,
        },
{
    let mut at: usize = from;
    while at <= s.len() && p.len() <= s.len() - at
        invariant
            from <= at,
            first_match(s@, p@, from as int) == first_match(s@, p@, at as int),
        decreases s.len() + 1 - at,
    {
        if is_at(s, p, at) {
            return Some(at);
        }
        if at == s.len() {
            assert(first_match(s@, p@, at + 1) is None);
            return None;
        }
        at += 1;
    }
    None
}

/// The index of the first line feed in `s` at `from` or later; the length of `s` if there is none.
pub(crate) fn end_of_line(s: &Vec<char>, from: usize) -> (end: usize)
    requires
        from <= s@.len(),
    ensures
        end == line_end(s@, from as int),
        from <= end <= s@.len(),
{
    let mut end: usize = from;
    while end < s.len() && s[end] != '\n'
        invariant
            from <= end <= s.len(),
            line_end(s@, from as int) == line_end(s@, end as int),
        decreases s.len() - end,
    {
        end += 1;
    }
    end
}

/// Where the text of the line that starts at `from` stops.
pub(crate) fn stop_of_line(s: &Vec<char>, from: usize) -> (stop: usize)
    requires
        from <= s@.len(),
    ensures
        stop == line_stop(s@, from as int),
        from <= stop <= s@.len(),
{
    let end = end_of_line(s, from);
    if end < s.len() && from < end && s[end - 1] == '\r' {
        end - 1
    } else {
        end
    }
}

/// The start of `s[lo..hi]` once every copy of `p` at its start is left out.
pub(crate) fn skip_copies(s: &Vec<char>, p: &Vec<char>, lo: usize, hi: usize) -> (start: usize)
    requires
        lo <= hi <= s@.len(),
    ensures
        lo <= start <= hi,
        s@.subrange(start as int, hi as int) == trim_start(s@.subrange(lo as int, hi as int), p@),
{
    let mut start: usize = lo;
    while p.len() > 0 && p.len() <= hi - start && is_at(s, p, start)
        invariant
            lo <= start <= hi <= s.len(),
            trim_start(s@.subrange(lo as int, hi as int), p@) == trim_start(
                s@.subrange(start as int, hi as int),
                p@,
            ),
        decreases hi - start,
    {
        proof {
            let rest = s@.subrange(start as int, hi as int);
            assert(rest.subrange(0, p@.len() as int) =~= s@.subrange(
                start as int,
                start + p@.len(),
            ));
            assert(rest.skip(p@.len() as int) =~= s@.subrange(start + p@.len(), hi as int));
        }
        start += p.len();
    }
    proof {
        let rest = s@.subrange(start as int, hi as int);
        if p@.len() > 0 && p@.len() <= hi - start {
            assert(rest.subrange(0, p@.len() as int) =~= s@.subrange(
                start as int,
                start + p@.len(),
            ));
        }
    }
    start
}

/// The end of `s[lo..hi]` once every copy of `p` at its end is left out.
pub(crate) fn drop_copies(s: &Vec<char>, p: &Vec<char>, lo: usize, hi: usize) -> (stop: usize)
    requires
        lo <= hi <= s@.len(),
    ensures
        lo <= stop <= hi,
        s@.subrange(lo as int, stop as int) == trim_end(s@.subrange(lo as int, hi as int), p@),
{
    let mut stop: usize = hi;
    while p.len() > 0 && p.len() <= stop - lo && is_at(s, p, stop - p.len())
        invariant
            lo <= stop <= hi <= s.len(),
            trim_end(s@.subrange(lo as int, hi as int), p@) == trim_end(
                s@.subrange(lo as int, stop as int),
                p@,
            ),
        decreases stop - lo,
    {
        proof {
            let rest = s@.subrange(lo as int, stop as int);
            assert(rest.subrange(rest.len() - p@.len(), rest.len() as int) =~= s@.subrange(
                stop - p@.len(),
                stop as int,
            ));
            assert(rest.take(rest.len() - p@.len()) =~= s@.subrange(lo as int, stop - p@.len()));
        }
        stop -= p.len();
    }
    proof {
        let rest = s@.subrange(lo as int, stop as int);
        if p@.len() > 0 && p@.len() <= stop - lo {
            assert(rest.subrange(rest.len() - p@.len(), rest.len() as int) =~= s@.subrange(
                stop - p@.len(),
                stop as int,
            ));
        }
    }
    stop
}

/// The bounds of the first line of `s` that begins with `label`.
pub fn find_labelled(s: &Vec<char>, label: &Vec<char>) -> (found: Option<(usize, usize)>)
    ensures
        match found {
            Some((lo, hi)) => lo <= hi <= s@.len() && labelled_line(s@, label@, 0) == Some(
                s@.subrange(lo as int, hi as int),
            ),
            None => labelled_line(s@, label@, 0) is None,
        },
{
    let mut from: usize = 0;
    while from < s.len()
        invariant
            labelled_line(s@, label@, 0) == labelled_line(s@, label@, from as int),
        decreases s.len() + 1 - from,
    {
        let stop = stop_of_line(s, from);
        let ghost line = s@.subrange(from as int, stop as int);
        let starts = label.len() <= stop - from && is_at(s, label, from);
        proof {
            if label@.len() <= stop - from {
                assert(line.subrange(0, label@.len() as int) =~= s@.subrange(
                    from as int,
                    from + label@.len(),
                ));
            }
        }
        if starts {
            return Some((from, stop));
        }
        let end = end_of_line(s, from);
        if end == s.len() {
            assert(labelled_line(s@, label@, end + 1) is None);
            return None;
        }
        from = end + 1;
    }
    None
}

} // verus!
