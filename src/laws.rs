//! What holds of every request, proved over the step functions.

use crate::patch::{is_subject_line, line_end, patch_subject, patch_target, root_path, subject_from, subject_of};
use crate::resolve::{
    fetch_step, key_of, lookup_step, message_of, patch_reply, patch_url, request_step, status_of,
    url_accepts, KvLookup, PatchFetch, ReplyModel, Step,
};
use vstd::prelude::*;

verus! {

/// `s[a..b]` is a whole line of `s`: it starts the text or follows a `'\n'`,
/// holds no `'\n'`, and ends the text or stands before a `'\n'`.
pub open spec fn is_line(s: Seq<char>, a: int, b: int) -> bool {
    &&& 0 <= a <= b <= s.len()
    &&& (a == 0 || s[a - 1] == '\n')
    &&& (b == s.len() || s[b] == '\n')
    &&& forall|k: int| a <= k < b ==> s[k] != '\n'
}

/// `line_end` gives the next newline at or after `i`, or the end of the text.
proof fn lemma_line_end(s: Seq<char>, i: int)
    requires
        0 <= i <= s.len(),
    ensures
        i <= line_end(s, i) <= s.len(),
        line_end(s, i) == s.len() || s[line_end(s, i)] == '\n',
        forall|k: int| i <= k < line_end(s, i) ==> s[k] != '\n',
    decreases s.len() - i,
{
    if i < s.len() && s[i] != '\n' {
        lemma_line_end(s, i + 1);
    }
}

/// From a line start `i`, where no whole line is a subject line, none is found.
proof fn lemma_no_subject_from(s: Seq<char>, i: int)
    requires
        0 <= i,
        i == 0 || (i <= s.len() && s[i - 1] == '\n'),
        forall|a: int, b: int| is_line(s, a, b) ==> !is_subject_line(#[trigger] s.subrange(a, b)),
    ensures
        subject_from(s, i) is None,
    decreases s.len() - i,
{
    if i < s.len() {
        lemma_line_end(s, i);
        let e = line_end(s, i);
        assert(is_line(s, i, e));
        if e < s.len() {
            lemma_no_subject_from(s, e + 1);
        }
    }
}

/// From a line start `i` at or before the subject line `s[a..b]`, with no
/// subject line in between, that line's subject is found.
proof fn lemma_first_subject_from(s: Seq<char>, i: int, a: int, b: int)
    requires
        0 <= i <= a,
        i == 0 || s[i - 1] == '\n',
        is_line(s, a, b),
        is_subject_line(s.subrange(a, b)),
        forall|a2: int, b2: int|
            is_line(s, a2, b2) && i <= a2 < a ==> !is_subject_line(#[trigger] s.subrange(a2, b2)),
    ensures
        subject_from(s, i) == Some(subject_of(s.subrange(a, b))),
    decreases a - i,
{
    lemma_line_end(s, i);
    let e = line_end(s, i);
    if i == a {
        if b < e {
            assert(s[b] != '\n');
        }
        if e < b {
            assert(s[e] != '\n');
        }
        assert(e == b);
    } else {
        if e >= a {
            assert(s[a - 1] != '\n');
        }
        assert(is_line(s, i, e));
        lemma_first_subject_from(s, e + 1, a, b);
    }
}

/// A patch in which no line both begins with `Subject:` and holds `[PATCH]`
/// sends the client to the repository's base URL.
pub proof fn no_subject_line_targets_repo(path: Seq<char>, patch: Seq<char>, repo: Seq<char>)
    requires
        forall|a: int, b: int| is_line(patch, a, b) ==> !is_subject_line(#[trigger] patch.subrange(a, b)),
    ensures
        patch_subject(patch) is None,
        patch_target(path, patch, repo) == repo,
{
    lemma_no_subject_from(patch, 0);
}

/// Of several subject lines, the topmost alone decides where the client goes:
/// the subject of the first line `patch[a..b]` that begins with `Subject:` and
/// holds `[PATCH]`.
pub proof fn first_subject_line_decides(path: Seq<char>, patch: Seq<char>, repo: Seq<char>, a: int, b: int)
    requires
        path != root_path(),
        is_line(patch, a, b),
        is_subject_line(patch.subrange(a, b)),
        forall|a2: int, b2: int|
            is_line(patch, a2, b2) && a2 < a ==> !is_subject_line(#[trigger] patch.subrange(a2, b2)),
    ensures
        patch_subject(patch) == Some(subject_of(patch.subrange(a, b))),
        patch_target(path, patch, repo) == subject_of(patch.subrange(a, b)),
{
    lemma_first_subject_from(patch, 0, a, b);
}

/// Requesting `/{key}` for a key the store maps to `v` looks the key up and
/// then redirects to `v`: no patch is fetched.
pub proof fn stored_key_redirects(home: Option<Seq<char>>, repo: Seq<char>, key: Seq<char>, v: String)
    requires
        key.len() > 0,
        forall|i: int| 0 <= i < key.len() ==> key[i] != '/',
    ensures
        request_step(home, true, seq!['/'] + key) == Step::LookupKey(key),
        lookup_step(repo, seq!['/'] + key, KvLookup::Found(v)) == Step::Respond(
            ReplyModel::Redirect(v@),
        ),
{
    let path = seq!['/'] + key;
    assert(path.subrange(1, path.len() as int) =~= key);
    assert(path != root_path()) by {
        if path.len() == 1 {
            assert(key.len() == 0);
        }
    }
    assert forall|i: int| 1 <= i < path.len() implies path[i] != '/' by {
        assert(path[i] == key[i - 1]);
    }
    assert(key_of(path) == Some(key));
}

/// Requesting `/{key}` for a key the store lacks looks the key up and then
/// fetches the patch whose URL holds the full requested path, `/{key}`.
pub proof fn missing_key_fetches_full_path(home: Option<Seq<char>>, repo: Seq<char>, key: Seq<char>)
    requires
        key.len() > 0,
        forall|i: int| 0 <= i < key.len() ==> key[i] != '/',
    ensures
        request_step(home, true, seq!['/'] + key) == Step::LookupKey(key),
        lookup_step(repo, seq!['/'] + key, KvLookup::Missing) == fetch_step(
            patch_url(repo, seq!['/'] + key),
            url_accepts(patch_url(repo, seq!['/'] + key)),
        ),
        patch_url(repo, seq!['/'] + key).subrange(
            repo.len() + 7 as int,
            repo.len() + 8 + key.len() as int,
        ) == seq!['/'] + key,
{
    let path = seq!['/'] + key;
    assert(path.subrange(1, path.len() as int) =~= key);
    assert(path != root_path()) by {
        if path.len() == 1 {
            assert(key.len() == 0);
        }
    }
    assert forall|i: int| 1 <= i < path.len() implies path[i] != '/' by {
        assert(path[i] == key[i - 1]);
    }
    assert(key_of(path) == Some(key));
    assert(patch_url(repo, path).subrange(repo.len() + 7 as int, repo.len() + 8 + key.len() as int) =~= path);
}

/// The root path redirects to the configured home URL at once: neither the
/// store nor the repository is asked.
pub proof fn root_redirects_home(home: Seq<char>)
    ensures
        request_step(Some(home), true, root_path()) == Step::Respond(ReplyModel::Redirect(home)),
        status_of(ReplyModel::Redirect(home)) == 301,
{
}

/// Without a home URL the root path is a configuration error: not a redirect
/// and not a 404.
pub proof fn root_without_home_is_config_error()
    ensures
        request_step(None, true, root_path()) == Step::Respond(ReplyModel::ConfigMissing),
        status_of(ReplyModel::ConfigMissing) != 301,
        status_of(ReplyModel::ConfigMissing) != 404,
{
}

/// A patch fetch that fails in transport, or answers with a status other than
/// 200, gives the same 404 reply, `Requested url not found`.
pub proof fn failed_fetch_is_not_found(repo: Seq<char>, path: Seq<char>, status: u16, body: String)
    requires
        status != 200,
    ensures
        patch_reply(repo, path, PatchFetch::Received { status, body }) == ReplyModel::NotFound,
        patch_reply(repo, path, PatchFetch::TransportError) == ReplyModel::NotFound,
        status_of(ReplyModel::NotFound) == 404,
        message_of(ReplyModel::NotFound) == "Requested url not found"@,
{
}

} // verus!
