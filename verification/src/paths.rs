//! Slash-separated paths: the base name a file is known by, and joining.

use vstd::prelude::*;
use vstd::string::*;
use crate::text::{chars_of, concat};

verus! {

/// Where the last segment of `path` begins: just after its last `/`, or at 0.
pub open spec fn last_segment_start(path: Seq<char>) -> int
    decreases path.len(),
{
    if path.len() == 0 || path.last() == '/' {
        path.len() as int
    } else {
        last_segment_start(path.drop_last())
    }
}

/// What follows the last `/` of `path` (all of `path` if it has none).
pub open spec fn last_segment(path: Seq<char>) -> Seq<char> {
    path.subrange(last_segment_start(path), path.len() as int)
}

/// The base name of `path`: its last segment that is neither empty nor `.`.
/// There is none if no such segment exists or if that segment is `..`.
pub open spec fn base_name(path: Seq<char>) -> Option<Seq<char>>
    decreases path.len(),
{
    if path.len() == 0 {
        None
    } else if path.last() == '/' {
        base_name(path.drop_last())
    } else if last_segment(path) =~= seq!['.'] {
        base_name(path.drop_last())
    } else if last_segment(path) =~= seq!['.', '.'] {
        None
    } else {
        Some(last_segment(path))
    }
}

/// `child` below `base`: a `/` is put between them unless `base` is empty or
/// already ends in one; a `child` that starts at the root stands alone.
pub open spec fn joined(base: Seq<char>, child: Seq<char>) -> Seq<char> {
    if child.len() > 0 && child[0] == '/' {
        child
    } else if base.len() == 0 || base.last() == '/' {
        base + child
    } else {
        base + seq!['/'] + child
    }
}

/// A run of characters without `/` that begins at the start of `path` or
/// just after a `/`, and reaches its end, is the last segment.
pub proof fn lemma_last_segment_start(path: Seq<char>, start: int)
    requires
        0 <= start <= path.len(),
        forall|k: int| start <= k < path.len() ==> path[k] != '/',
        start == 0 || path[start - 1] == '/',
    ensures
        last_segment_start(path) == start,
    decreases path.len() - start,
{
    if path.len() > start {
        lemma_last_segment_start(path.drop_last(), start);
    }
}

/// `name` can be the name of a file: one segment, not empty, without `/`,
/// and neither `.` nor `..`.
pub open spec fn is_file_name(name: Seq<char>) -> bool {
    &&& name.len() > 0
    &&& forall|k: int| 0 <= k < name.len() ==> name[k] != '/'
    &&& name != seq!['.']
    &&& name != seq!['.', '.']
}

/// A base name can be the name of a file.
pub proof fn lemma_base_name_is_file_name(path: Seq<char>)
    ensures
        base_name(path) matches Some(name) ==> is_file_name(name),
    decreases path.len(),
{
    if path.len() == 0 {
    } else if path.last() == '/' {
        lemma_base_name_is_file_name(path.drop_last());
    } else if last_segment(path) =~= seq!['.'] {
        lemma_base_name_is_file_name(path.drop_last());
    } else if last_segment(path) =~= seq!['.', '.'] {
    } else {
        lemma_segment_bounds(path);
    }
}

/// The last segment starts inside `path` and holds no `/`.
pub proof fn lemma_segment_bounds(path: Seq<char>)
    ensures
        0 <= last_segment_start(path) <= path.len(),
        forall|k: int| last_segment_start(path) <= k < path.len() ==> path[k] != '/',
        path.len() > 0 && path.last() != '/' ==> last_segment_start(path) < path.len(),
    decreases path.len(),
{
    if path.len() == 0 || path.last() == '/' {
    } else {
        lemma_segment_bounds(path.drop_last());
        assert forall|k: int| last_segment_start(path) <= k < path.len() implies path[k] != '/' by {
            if k < path.len() - 1 {
                assert(path.drop_last()[k] == path[k]);
            }
        }
    }
}

fn segment_start(chars: &Vec<char>, end: usize) -> (start: usize)
    requires
        0 < end <= chars.len(),
        chars[end - 1] != '/',
    ensures
        start < end,
        start == last_segment_start(chars@.take(end as int)),
{
    let mut start: usize = end - 1;
    while start > 0 && chars[start - 1] != '/'
        invariant
            start < end <= chars.len(),
            forall|k: int| start <= k < end ==> chars@[k] != '/',
        decreases start,
    {
        start -= 1;
    }
    proof {
        lemma_last_segment_start(chars@.take(end as int), start as int);
    }
    start
}

/// The base name of `path`, if it has one.
pub fn base_name_of(path: &str) -> (r: Option<String>)
    ensures
        match r {
            Some(name) => base_name(path@) == Some(name@),
            None => base_name(path@) is None,
        },
{
    let chars = chars_of(path);
    let mut end: usize = chars.len();
    assert(chars@.take(end as int) =~= path@);
    while end > 0
        invariant
            end <= chars.len(),
            chars@ == path@,
            base_name(path@) == base_name(chars@.take(end as int)),
        decreases end,
    {
        let ghost current = chars@.take(end as int);
        assert(current.drop_last() =~= chars@.take(end - 1));
        if chars[end - 1] == '/' {
            end -= 1;
        } else {
            let start = segment_start(&chars, end);
            assert(last_segment(current) =~= chars@.subrange(start as int, end as int));
            if end - start == 1 && chars[start] == '.' {
                assert(last_segment(current) =~= seq!['.']);
                end -= 1;
            } else if end - start == 2 && chars[start] == '.' && chars[start + 1] == '.' {
                assert(last_segment(current) =~= seq!['.', '.']);
                return None;
            } else {
                assert(!(last_segment(current) =~= seq!['.'])) by {
                    if last_segment(current) =~= seq!['.'] {
                        assert(last_segment(current)[0] == '.');
                    }
                }
                assert(!(last_segment(current) =~= seq!['.', '.'])) by {
                    if last_segment(current) =~= seq!['.', '.'] {
                        assert(last_segment(current)[0] == '.');
                        assert(last_segment(current)[1] == '.');
                    }
                }
                return Some(String::from_str(path.substring_char(start, end)));
            }
        }
    }
    assert(chars@.take(0) =~= Seq::<char>::empty());
    None
}

/// The path of `child` below `base`.
pub fn join_path(base: &str, child: &str) -> (r: String)
    ensures
        r@ == joined(base@, child@),
{
    let base_chars = chars_of(base);
    let child_chars = chars_of(child);
    if child_chars.len() > 0 && child_chars[0] == '/' {
        String::from_str(child)
    } else if base_chars.len() == 0 || base_chars[base_chars.len() - 1] == '/' {
        concat(base, child)
    } else {
        proof {
            reveal_strlit("/");
            assert("/"@ =~= seq!['/']);
        }
        concat(concat(base, "/").as_str(), child)
    }
}

} // verus!
