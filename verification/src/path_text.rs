//! Slash-separated paths, as the shells that read a `cd` command write them.
use crate::text::{chars_of, same_text};
use vstd::prelude::*;
use vstd::string::{StrSliceExecFns, StringExecFns};

verus! {

/// Whether a path starts at the root.
pub open spec fn absolute(path: Seq<char>) -> bool {
    path.len() > 0 && path[0] == '/'
}

/// `rest` as seen from `base`: an absolute `rest` stands alone, any other is put behind `base`
/// with one separator between the two.
pub open spec fn joined(base: Seq<char>, rest: Seq<char>) -> Seq<char> {
    if absolute(rest) || base.len() == 0 {
        rest
    } else if base.last() == '/' {
        base + rest
    } else {
        base.push('/') + rest
    }
}

/// How many characters stand before the first separator.
pub open spec fn segment_len(path: Seq<char>) -> nat
    decreases path.len(),
{
    if path.len() == 0 || path[0] == '/' {
        0
    } else {
        1 + segment_len(path.drop_first())
    }
}

/// The part of a path before its first separator.
pub open spec fn first_segment(path: Seq<char>) -> Seq<char> {
    path.take(segment_len(path) as int)
}

/// Whether a path starts with the name of an entry: neither with a separator, nor with the
/// names `.` and `..` of the directory itself and its parent.
pub open spec fn starts_with_name(path: Seq<char>) -> bool {
    let head = first_segment(path);
    head.len() > 0 && head != seq!['.'] && head != seq!['.', '.']
}

/// Whether `path` starts at the root.
pub fn is_absolute(path: &str) -> (result: bool)
    ensures
        result == absolute(path@),
{
    path.unicode_len() > 0 && path.get_char(0) == '/'
}

/// `rest` as seen from `base`.
pub fn join(base: &str, rest: &str) -> (path: String)
    ensures
        path@ == joined(base@, rest@),
{
    let n: usize = base.unicode_len();
    if is_absolute(rest) || n == 0 {
        rest.to_owned()
    } else if base.get_char(n - 1) == '/' {
        base.to_owned().concat(rest)
    } else {
        proof {
            reveal_strlit("/");
        }
        let path = base.to_owned().concat("/").concat(rest);
        assert(base@ + "/"@ == base@.push('/'));
        path
    }
}

/// The part of `path` before its first separator.
fn head_segment<'a>(path: &'a str) -> (head: &'a str)
    ensures
        head@ == first_segment(path@),
{
    let chars = chars_of(path);
    let mut n: usize = 0;
    assert(path@.skip(0) == path@);
    while n < chars.len() && chars[n] != '/'
        invariant
            n <= chars@.len(),
            chars@ == path@,
            segment_len(path@) == n + segment_len(path@.skip(n as int)),
        ensures
            n <= chars@.len(),
            segment_len(path@) == n,
        decreases chars@.len() - n,
    {
        assert(path@.skip(n as int).drop_first() == path@.skip(n + 1));
        n = n + 1;
    }
    let head = path.substring_char(0, n);
    assert(head@ == path@.take(n as int));
    head
}

/// Whether `path` starts with the name of an entry.
pub fn begins_with_name(path: &str) -> (result: bool)
    ensures
        result == starts_with_name(path@),
{
    proof {
        reveal_strlit(".");
        reveal_strlit("..");
        assert("."@ == seq!['.']);
        assert(".."@ == seq!['.', '.']);
    }
    let head = head_segment(path);
    head.unicode_len() > 0 && !same_text(head, ".") && !same_text(head, "..")
}

} // verus!
