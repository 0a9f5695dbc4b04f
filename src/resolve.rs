//! The decisions of one request, step by step: route the path, act on the
//! key-value lookup, act on the fetched patch. The caller performs each
//! lookup or fetch that a step asks for and hands its outcome to the next.

use crate::patch::{is_root_path, patch_target, redirect_target, root_path};
use crate::text::chars_of;
use vstd::prelude::*;

verus! {

/// Whether `url::Url::parse` accepts the text as a URL.
pub uninterp spec fn url_accepts(s: Seq<char>) -> bool;

/// Relies on `url::Url::parse`, re-exported by `worker`: whether the text
/// parses as a URL. The verdict depends on the text alone.
#[verifier::external_body]
fn parses_as_url(s: &str) -> (r: bool)
    ensures
        r == url_accepts(s@),
{
    match worker::Url::parse(s) {
        Ok(_) => true,
        Err(_) => false,
    }
}

/// The repository whose commits back unmapped keys when none is configured.
pub open spec fn default_repo() -> Seq<char> {
    "https://github.com/longcipher/links"@
}

/// What a client is sent back.
#[derive(Debug)]
pub enum Reply {
    /// A 301 redirect to the URL.
    Redirect(String),
    /// A 404: neither the store nor the repository knows the key.
    NotFound,
    /// A 400: the request names no key.
    BadRequest,
    /// A server error: the home URL is not configured.
    ConfigMissing,
    /// A server error: the key-value store could not be read.
    LookupFailed,
}

/// A reply, with the redirect URL as a character sequence.
pub enum ReplyModel {
    Redirect(Seq<char>),
    NotFound,
    BadRequest,
    ConfigMissing,
    LookupFailed,
}

impl View for Reply {
    type V = ReplyModel;

    open spec fn view(&self) -> ReplyModel {
        match self {
            Reply::Redirect(u) => ReplyModel::Redirect(u@),
            Reply::NotFound => ReplyModel::NotFound,
            Reply::BadRequest => ReplyModel::BadRequest,
            Reply::ConfigMissing => ReplyModel::ConfigMissing,
            Reply::LookupFailed => ReplyModel::LookupFailed,
        }
    }
}

/// What the caller is to do next for a request.
#[derive(Debug)]
pub enum Action {
    /// Read this key from the key-value store.
    LookupKey(String),
    /// Fetch the patch at this URL.
    FetchPatch(String),
    /// Send this reply; the request is done.
    Respond(Reply),
}

/// An action, with its strings as character sequences.
pub enum Step {
    LookupKey(Seq<char>),
    FetchPatch(Seq<char>),
    Respond(ReplyModel),
}

impl View for Action {
    type V = Step;

    open spec fn view(&self) -> Step {
        match self {
            Action::LookupKey(k) => Step::LookupKey(k@),
            Action::FetchPatch(u) => Step::FetchPatch(u@),
            Action::Respond(r) => Step::Respond(r@),
        }
    }
}

/// The outcome of reading a key from the key-value store.
pub enum KvLookup {
    /// The store holds this value for the key.
    Found(String),
    /// The store holds nothing for the key.
    Missing,
    /// The store could not be read.
    Failed,
}

/// The outcome of fetching a patch.
pub enum PatchFetch {
    /// No response came back: connection, DNS or timeout failure.
    TransportError,
    /// A response came back; `body` is its text when `status` is 200.
    Received { status: u16, body: String },
}

/// The settings that every request reads.
pub struct Config {
    /// Where the root path redirects; `None` when not configured.
    pub home: Option<String>,
    /// Base URL of the repository whose patches back unmapped keys.
    pub git_repo: String,
}

/// An optional string as an optional character sequence.
pub open spec fn opt_view(o: Option<String>) -> Option<Seq<char>> {
    match o {
        Some(s) => Some(s@),
        None => None,
    }
}

impl Config {
    /// Settings from the configured values; the repository falls back to the
    /// default one.
    pub fn new(home: Option<String>, git_repo: Option<String>) -> (r: Config)
        ensures
            r.home == home,
            r.git_repo@ == match git_repo {
                Some(g) => g@,
                None => default_repo(),
            },
    {
        let repo = match git_repo {
            Some(g) => g,
            None => "https://github.com/longcipher/links".to_owned(),
        };
        Config { home, git_repo: repo }
    }
}

/// The key a path names: the one non-empty segment after the leading `/`.
pub open spec fn key_of(path: Seq<char>) -> Option<Seq<char>> {
    if path.len() >= 2 && path[0] == '/' && forall|i: int| 1 <= i < path.len() ==> path[i] != '/' {
        Some(path.subrange(1, path.len() as int))
    } else {
        None
    }
}

/// The first step for a request with method GET or not, for `path`.
pub open spec fn request_step(home: Option<Seq<char>>, is_get: bool, path: Seq<char>) -> Step {
    if !is_get {
        Step::Respond(ReplyModel::BadRequest)
    } else if path == root_path() {
        Step::Respond(
            match home {
                Some(h) => ReplyModel::Redirect(h),
                None => ReplyModel::ConfigMissing,
            },
        )
    } else {
        match key_of(path) {
            Some(k) => Step::LookupKey(k),
            None => Step::Respond(ReplyModel::BadRequest),
        }
    }
}

/// The URL of the patch of the commit that `path` names: `{repo}/commit{path}.patch`.
pub open spec fn patch_url(repo: Seq<char>, path: Seq<char>) -> Seq<char> {
    repo + seq!['/', 'c', 'o', 'm', 'm', 'i', 't'] + path + seq!['.', 'p', 'a', 't', 'c', 'h']
}

/// What to do with a patch URL, given whether it parses.
pub open spec fn fetch_step(url: Seq<char>, accepted: bool) -> Step {
    if accepted {
        Step::FetchPatch(url)
    } else {
        Step::Respond(ReplyModel::NotFound)
    }
}

/// The step after the key-value store answered for the request of `path`.
pub open spec fn lookup_step(repo: Seq<char>, path: Seq<char>, kv: KvLookup) -> Step {
    match kv {
        KvLookup::Found(v) => Step::Respond(ReplyModel::Redirect(v@)),
        KvLookup::Missing => fetch_step(
            patch_url(repo, path),
            url_accepts(patch_url(repo, path)),
        ),
        KvLookup::Failed => Step::Respond(ReplyModel::LookupFailed),
    }
}

/// The reply once the patch fetch for the request of `path` has come back.
pub open spec fn patch_reply(repo: Seq<char>, path: Seq<char>, fetched: PatchFetch) -> ReplyModel {
    match fetched {
        PatchFetch::TransportError => ReplyModel::NotFound,
        PatchFetch::Received { status, body } => if status == 200 {
            ReplyModel::Redirect(patch_target(path, body@, repo))
        } else {
            ReplyModel::NotFound
        },
    }
}

/// The first step for a request: the root path redirects home, a one-segment
/// path is looked up, anything else is a bad request.
pub fn on_request(config: &Config, is_get: bool, path: &str) -> (r: Action)
    ensures
        r@ == request_step(opt_view(config.home), is_get, path@),
{
    if !is_get {
        return Action::Respond(Reply::BadRequest);
    }
    if is_root_path(path) {
        return Action::Respond(
            match &config.home {
                Some(h) => Reply::Redirect(h.clone()),
                None => Reply::ConfigMissing,
            },
        );
    }
    let v = chars_of(path);
    if v.len() < 2 || v[0] != '/' {
        return Action::Respond(Reply::BadRequest);
    }
    let mut i: usize = 1;
    while i < v.len()
        invariant
            1 <= i <= v.len(),
            v@ == path@,
            forall|j: int| 1 <= j < i ==> v@[j] != '/',
        decreases v.len() - i,
    {
        if v[i] == '/' {
            return Action::Respond(Reply::BadRequest);
        }
        i = i + 1;
    }
    let key = path.substring_char(1, v.len()).to_owned();
    Action::LookupKey(key)
}

/// The URL of the patch for the request of `path`.
pub fn make_patch_url(repo: &str, path: &str) -> (r: String)
    ensures
        r@ == patch_url(repo@, path@),
{
    let r = repo.to_owned().concat("/commit").concat(path).concat(".patch");
    proof {
        reveal_strlit("/commit");
        reveal_strlit(".patch");
    }
    assert(r@ =~= patch_url(repo@, path@));
    r
}

/// Fetch the patch at `url` when it parsed as a URL; else the key is not found.
pub fn fetch_or_not_found(url: String, accepted: bool) -> (r: Action)
    ensures
        r@ == fetch_step(url@, accepted),
{
    if accepted {
        Action::FetchPatch(url)
    } else {
        Action::Respond(Reply::NotFound)
    }
}

/// The step after the key-value store answered: a stored value redirects, a
/// miss fetches the patch of the commit named by the full path, a failed read
/// is reported as such.
pub fn on_lookup(config: &Config, path: &str, kv: KvLookup) -> (r: Action)
    ensures
        r@ == lookup_step(config.git_repo@, path@, kv),
{
    match kv {
        KvLookup::Found(v) => Action::Respond(Reply::Redirect(v)),
        KvLookup::Missing => {
            let url = make_patch_url(config.git_repo.as_str(), path);
            let accepted = parses_as_url(url.as_str());
            fetch_or_not_found(url, accepted)
        },
        KvLookup::Failed => Action::Respond(Reply::LookupFailed),
    }
}

/// The reply once the patch fetch came back: a 200 redirects to the target
/// the patch gives; any other status or a transport failure is not found.
pub fn on_patch(config: &Config, path: &str, fetched: &PatchFetch) -> (r: Reply)
    ensures
        r@ == patch_reply(config.git_repo@, path@, *fetched),
{
    match fetched {
        PatchFetch::TransportError => Reply::NotFound,
        PatchFetch::Received { status, body } => {
            if *status == 200 {
                Reply::Redirect(redirect_target(path, body.as_str(), config.git_repo.as_str()))
            } else {
                Reply::NotFound
            }
        },
    }
}

/// The HTTP status of a reply.
pub open spec fn status_of(m: ReplyModel) -> u16 {
    match m {
        ReplyModel::Redirect(_) => 301,
        ReplyModel::NotFound => 404,
        ReplyModel::BadRequest => 400,
        ReplyModel::ConfigMissing => 500,
        ReplyModel::LookupFailed => 500,
    }
}

/// The body text of a reply; a redirect has none.
pub open spec fn message_of(m: ReplyModel) -> Seq<char> {
    match m {
        ReplyModel::Redirect(_) => Seq::empty(),
        ReplyModel::NotFound => "Requested url not found"@,
        ReplyModel::BadRequest => "Bad Request"@,
        ReplyModel::ConfigMissing => "Missing configuration: HOME"@,
        ReplyModel::LookupFailed => "Key-value lookup failed"@,
    }
}

impl Reply {
    /// The HTTP status to send.
    pub fn status(&self) -> (r: u16)
        ensures
            r == status_of(self@),
    {
        match self {
            Reply::Redirect(_) => 301,
            Reply::NotFound => 404,
            Reply::BadRequest => 400,
            Reply::ConfigMissing => 500,
            Reply::LookupFailed => 500,
        }
    }

    /// The body text to send.
    pub fn message(&self) -> (r: String)
        ensures
            r@ == message_of(self@),
    {
        match self {
            Reply::Redirect(_) => String::new(),
            Reply::NotFound => "Requested url not found".to_owned(),
            Reply::BadRequest => "Bad Request".to_owned(),
            Reply::ConfigMissing => "Missing configuration: HOME".to_owned(),
            Reply::LookupFailed => "Key-value lookup failed".to_owned(),
        }
    }
}

} // verus!
