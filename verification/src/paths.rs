//! Paths as plain text: components, joining, and the final component.
//!
//! A path is read as a sequence of characters split at the platform's separators.
//! Drive prefixes are not interpreted, and nothing here touches the file system.

use vstd::prelude::*;
use crate::platform::Platform;
use crate::text::{chars_of, concat, slice_of};

verus! {

/// The view of an optional text.
pub open spec fn opt_text(o: Option<String>) -> Option<Seq<char>> {
    match o {
        Some(s) => Some(s@),
        None => None,
    }
}

/// The smallest index at or after `from` that holds a separator, or `s.len()`
/// where there is none.
pub open spec fn separator_from(p: Platform, s: Seq<char>, from: int) -> int
    decreases s.len() - from,
{
    if from < 0 || from >= s.len() {
        s.len() as int
    } else if p.separates(s[from]) {
        from
    } else {
        separator_from(p, s, from + 1)
    }
}

/// What `separator_from` finds: the first separator at or after `from`.
pub proof fn lemma_separator_from(p: Platform, s: Seq<char>, from: int)
    requires
        0 <= from <= s.len(),
    ensures
        from <= separator_from(p, s, from) <= s.len(),
        forall|k: int| from <= k < separator_from(p, s, from) ==> !p.separates(#[trigger] s[k]),
        separator_from(p, s, from) < s.len() ==> p.separates(s[separator_from(p, s, from)]),
    decreases s.len() - from,
{
    if from < s.len() && !p.separates(s[from]) {
        lemma_separator_from(p, s, from + 1);
    }
}

/// The first component of a path: nothing for the empty path, the main
/// separator for a path that starts at the root, otherwise the text before the
/// first separator.
pub open spec fn spec_first_component(p: Platform, s: Seq<char>) -> Option<Seq<char>> {
    if s.len() == 0 {
        None
    } else if p.separates(s[0]) {
        Some(p.spec_main_separator())
    } else {
        Some(s.subrange(0, separator_from(p, s, 0)))
    }
}

/// The index just behind the last separator of `s`, or 0 where `s` has none.
pub open spec fn last_segment_start(p: Platform, s: Seq<char>) -> int
    decreases s.len(),
{
    if s.len() == 0 {
        0
    } else if p.separates(s.last()) {
        s.len() as int
    } else {
        last_segment_start(p, s.drop_last())
    }
}

/// The final component of a path: trailing separators and `.` segments are
/// passed over; there is none where nothing is left or where `..` comes last.
pub open spec fn spec_final_component(p: Platform, s: Seq<char>) -> Option<Seq<char>>
    decreases s.len(),
{
    if s.len() == 0 {
        None
    } else if p.separates(s.last()) {
        spec_final_component(p, s.drop_last())
    } else {
        let start = last_segment_start(p, s);
        let segment = s.subrange(start, s.len() as int);
        if 0 <= start < s.len() && segment == seq!['.'] {
            spec_final_component(p, s.subrange(0, start))
        } else if segment == seq!['.', '.'] {
            None
        } else {
            Some(segment)
        }
    }
}

/// `rel` adjoined to `base`: `rel` alone where it starts at the root, else
/// `base`, one main separator unless `base` is empty or ends in a separator,
/// and `rel`.
pub open spec fn spec_join(p: Platform, base: Seq<char>, rel: Seq<char>) -> Seq<char> {
    if rel.len() > 0 && p.separates(rel[0]) {
        rel
    } else if base.len() == 0 || p.separates(base.last()) {
        base + rel
    } else {
        base + p.spec_main_separator() + rel
    }
}

/// The index in `v` of the first separator at or after `from`.
pub(crate) fn find_separator(p: Platform, v: &Vec<char>, from: usize) -> (r: usize)
    requires
        from <= v.len(),
    ensures
        r == separator_from(p, v@, from as int),
        from <= r <= v.len(),
{
    let mut i: usize = from;
    while i < v.len() && !p.is_separator(v[i])
        invariant
            from <= i <= v.len(),
            separator_from(p, v@, i as int) == separator_from(p, v@, from as int),
        decreases v.len() - i,
    {
        i += 1;
    }
    i
}

/// The first component of `path`.
pub fn first_component(p: Platform, path: &str) -> (r: Option<String>)
    ensures
        opt_text(r) == spec_first_component(p, path@),
{
    let v = chars_of(path);
    if v.len() == 0 {
        None
    } else if p.is_separator(v[0]) {
        Some(p.main_separator().to_owned())
    } else {
        let end = find_separator(p, &v, 0);
        Some(slice_of(path, 0, end))
    }
}

/// The final component of `path`.
pub fn final_component(p: Platform, path: &str) -> (r: Option<String>)
    ensures
        opt_text(r) == spec_final_component(p, path@),
{
    let v = chars_of(path);
    let mut end: usize = v.len();
    assert(v@.take(end as int) =~= v@);
    loop
        invariant
            v@ == path@,
            end <= v.len(),
            spec_final_component(p, v@.take(end as int)) == spec_final_component(p, path@),
        decreases end,
    {
        let ghost prefix = v@.take(end as int);
        if end == 0 {
            return None;
        }
        if p.is_separator(v[end - 1]) {
            assert(prefix.drop_last() =~= v@.take(end - 1));
            end -= 1;
            continue;
        }
        let mut start: usize = end;
        while start > 0 && !p.is_separator(v[start - 1])
            invariant
                start <= end <= v.len(),
                prefix == v@.take(end as int),
                last_segment_start(p, prefix) == last_segment_start(p, v@.take(start as int)),
            decreases start,
        {
            assert(v@.take(start as int).drop_last() =~= v@.take(start - 1));
            start -= 1;
        }
        assert(last_segment_start(p, prefix) == start);
        let ghost segment = prefix.subrange(start as int, end as int);
        assert(segment.len() == end - start);
        if end - start == 1 && v[start] == '.' {
            assert(segment =~= seq!['.']);
            assert(prefix.subrange(0, start as int) =~= v@.take(start as int));
            end = start;
            continue;
        }
        if end - start == 2 && v[start] == '.' && v[start + 1] == '.' {
            assert(segment =~= seq!['.', '.']);
            return None;
        }
        assert(segment != seq!['.']) by {
            if segment == seq!['.'] {
                assert(segment.len() == 1);
                assert(segment[0] == '.');
            }
        }
        assert(segment != seq!['.', '.']) by {
            if segment == seq!['.', '.'] {
                assert(segment.len() == 2);
                assert(segment[0] == '.');
                assert(segment[1] == '.');
            }
        }
        assert(segment =~= path@.subrange(start as int, end as int));
        return Some(slice_of(path, start, end));
    }
}

/// `rel` adjoined to `base`. A `rel` that starts at the root replaces `base`;
/// `..` segments are kept as they are.
pub fn join(p: Platform, base: &str, rel: &str) -> (r: String)
    ensures
        r@ == spec_join(p, base@, rel@),
{
    let b = chars_of(base);
    let t = chars_of(rel);
    if t.len() > 0 && p.is_separator(t[0]) {
        rel.to_owned()
    } else if b.len() == 0 || p.is_separator(b[b.len() - 1]) {
        concat(base, rel)
    } else {
        let head = concat(base, p.main_separator());
        concat(head.as_str(), rel)
    }
}

} // verus!
