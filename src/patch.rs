//! Finding the redirect target in a commit patch: the text after `[PATCH]`
//! on the first `Subject:` line that carries that marker.

use crate::text::{
    chars_of, find, find_from, matches_at, starts_with, trim, trim_bounds,
};
use vstd::prelude::*;

verus! {

/// The header prefix a subject line begins with.
pub open spec fn subject_prefix() -> Seq<char> {
    seq!['S', 'u', 'b', 'j', 'e', 'c', 't', ':']
}

/// The marker that a patch subject line carries.
pub open spec fn patch_marker() -> Seq<char> {
    seq!['[', 'P', 'A', 'T', 'C', 'H', ']']
}

/// The end of the line that contains index `i`: the index of the next `'\n'`
/// at or after `i`, or the length of `s` when there is none.
pub open spec fn line_end(s: Seq<char>, i: int) -> int
    decreases s.len() - i,
{
    if i < 0 || i >= s.len() {
        s.len() as int
    } else if s[i] == '\n' {
        i
    } else {
        line_end(s, i + 1)
    }
}

/// A line that begins with `Subject:` and holds `[PATCH]` somewhere.
pub open spec fn is_subject_line(l: Seq<char>) -> bool {
    starts_with(l, subject_prefix()) && find(l, patch_marker()) is Some
}

/// What a subject line yields: the text after its first `[PATCH]`, trimmed.
pub open spec fn subject_of(l: Seq<char>) -> Seq<char> {
    trim(l.subrange(find(l, patch_marker())->0 + patch_marker().len(), l.len() as int))
}

/// The subject found on the first matching line that starts at or after the
/// line start `i`. A trailing `'\r'` of a line is whitespace, so the trim
/// removes it.
pub open spec fn subject_from(s: Seq<char>, i: int) -> Option<Seq<char>>
    decreases s.len() - i,
{
    if i < 0 || i >= s.len() {
        None
    } else {
        let e = line_end(s, i);
        if is_subject_line(s.subrange(i, e)) {
            Some(subject_of(s.subrange(i, e)))
        } else if i <= e < s.len() {
            subject_from(s, e + 1)
        } else {
            None
        }
    }
}

/// The subject of the first matching line of a patch, if any.
pub open spec fn patch_subject(s: Seq<char>) -> Option<Seq<char>> {
    subject_from(s, 0)
}

/// The root path, `/`.
pub open spec fn root_path() -> Seq<char> {
    seq!['/']
}

/// Where a fetched patch sends the client: the repository itself for the root
/// path or a patch without a subject line, else the subject.
pub open spec fn patch_target(path: Seq<char>, patch: Seq<char>, repo: Seq<char>) -> Seq<char> {
    if path == root_path() {
        repo
    } else {
        match patch_subject(patch) {
            Some(t) => t,
            None => repo,
        }
    }
}

/// The end of the line of `v` that contains index `i`.
fn find_line_end(v: &Vec<char>, i: usize) -> (e: usize)
    requires
        i <= v.len(),
    ensures
        i <= e <= v.len(),
        e as int == line_end(v@, i as int),
{
    let mut j: usize = i;
    while j < v.len() && v[j] != '\n'
        invariant
            i <= j <= v.len(),
            line_end(v@, i as int) == line_end(v@, j as int),
        decreases v.len() - j,
    {
        j = j + 1;
    }
    j
}

/// The first index of `p` within the line `v[start..end]`, relative to
/// `start`.
fn find_in_line(v: &Vec<char>, start: usize, end: usize, p: &Vec<char>) -> (r: Option<usize>)
    requires
        start <= end <= v.len(),
        p.len() > 0,
    ensures
        r matches Some(k) ==> k + p.len() <= end - start,
        r matches Some(k) ==> find(v@.subrange(start as int, end as int), p@) == Some(k as int),
        r is None ==> find(v@.subrange(start as int, end as int), p@) is None,
{
    let ghost l = v@.subrange(start as int, end as int);
    let mut k: usize = start;
    while p.len() <= end - k
        invariant
            start <= k <= end <= v.len(),
            p.len() > 0,
            l == v@.subrange(start as int, end as int),
            find(l, p@) == find_from(l, p@, k - start),
        decreases end - k,
    {
        assert(l.subrange(k - start, k - start + p.len()) =~= v@.subrange(
            k as int,
            k + p.len(),
        ));
        if matches_at(v, end, p, k) {
            return Some(k - start);
        }
        k = k + 1;
    }
    None
}

/// The subject of the first line of `patch` that begins with `Subject:` and
/// holds `[PATCH]`: the text after that marker, trimmed; `None` when no line
/// qualifies.
pub fn subject_line(patch: &str) -> (r: Option<String>)
    ensures
        r matches Some(t) ==> patch_subject(patch@) == Some(t@),
        r is None ==> patch_subject(patch@) is None,
{
    let v = chars_of(patch);
    let prefix: Vec<char> = vec!['S', 'u', 'b', 'j', 'e', 'c', 't', ':'];
    let marker: Vec<char> = vec!['[', 'P', 'A', 'T', 'C', 'H', ']'];
    assert(prefix@ =~= subject_prefix());
    assert(marker@ =~= patch_marker());
    let mut i: usize = 0;
    while i < v.len()
        invariant
            i <= v.len(),
            v@ == patch@,
            prefix@ == subject_prefix(),
            marker@ == patch_marker(),
            subject_from(v@, 0) == subject_from(v@, i as int),
        decreases v.len() - i,
    {
        let e = find_line_end(&v, i);
        let ghost l = v@.subrange(i as int, e as int);
        let starts = matches_at(&v, e, &prefix, i);
        assert(starts == starts_with(l, subject_prefix())) by {
            if i + prefix.len() <= e {
                assert(l.subrange(0, prefix.len() as int) =~= v@.subrange(
                    i as int,
                    i + prefix.len(),
                ));
            }
        }
        if starts {
            match find_in_line(&v, i, e, &marker) {
                Some(k) => {
                    let (a, b) = trim_bounds(&v, i + k + 7, e);
                    assert(l.subrange(k + 7, l.len() as int) =~= v@.subrange(i + k + 7, e as int));
                    let t = patch.substring_char(a, b).to_owned();
                    return Some(t);
                },
                None => {},
            }
        }
        if e == v.len() {
            return None;
        }
        i = e + 1;
    }
    None
}

/// Whether `path` is the root path, `/`.
pub fn is_root_path(path: &str) -> (r: bool)
    ensures
        r == (path@ == root_path()),
{
    if path.unicode_len() == 1 && path.get_char(0) == '/' {
        assert(path@ =~= root_path());
        true
    } else {
        false
    }
}

/// Where a fetched patch sends the client requesting `path`, with `repo` the
/// repository's base URL.
pub fn redirect_target(path: &str, patch: &str, repo: &str) -> (r: String)
    ensures
        r@ == patch_target(path@, patch@, repo@),
{
    if is_root_path(path) {
        return repo.to_owned();
    }
    match subject_line(patch) {
        Some(t) => t,
        None => repo.to_owned(),
    }
}

} // verus!
