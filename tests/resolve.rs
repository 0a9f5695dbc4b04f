use links::resolve::{
    fetch_or_not_found, make_patch_url, on_lookup, on_patch, on_request, Action, Config, KvLookup,
    PatchFetch, Reply,
};

const REPO: &str = "https://github.com/longcipher/links";

fn config(home: Option<&str>) -> Config {
    Config::new(home.map(|h| h.to_string()), None)
}

fn redirect_of(r: &Reply) -> Option<String> {
    match r {
        Reply::Redirect(u) => Some(u.clone()),
        _ => None,
    }
}

fn received(status: u16, body: &str) -> PatchFetch {
    PatchFetch::Received { status, body: body.to_string() }
}

#[test]
fn default_repo_when_unset() {
    assert_eq!(config(None).git_repo, REPO);
    let c = Config::new(None, Some("https://example.org/r".to_string()));
    assert_eq!(c.git_repo, "https://example.org/r");
}

#[test]
fn stored_key_redirects_to_value() {
    let c = config(Some("https://home.example"));
    match on_request(&c, true, "/abc") {
        Action::LookupKey(k) => assert_eq!(k, "abc"),
        other => panic!("unexpected {:?}", other),
    }
    match on_lookup(&c, "/abc", KvLookup::Found("https://target.example/x".to_string())) {
        Action::Respond(r) => {
            assert_eq!(r.status(), 301);
            assert_eq!(redirect_of(&r).unwrap(), "https://target.example/x");
        }
        other => panic!("unexpected {:?}", other),
    }
}

#[test]
fn stored_empty_value_still_redirects() {
    let c = config(None);
    match on_lookup(&c, "/abc", KvLookup::Found(String::new())) {
        Action::Respond(r) => assert_eq!(redirect_of(&r).unwrap(), ""),
        other => panic!("unexpected {:?}", other),
    }
}

#[test]
fn missing_key_fetches_patch_of_full_path() {
    let c = config(None);
    match on_lookup(&c, "/abc123", KvLookup::Missing) {
        Action::FetchPatch(u) => {
            assert_eq!(u, "https://github.com/longcipher/links/commit/abc123.patch")
        }
        other => panic!("unexpected {:?}", other),
    }
    let c2 = Config::new(None, Some("https://git.example/repo".to_string()));
    match on_lookup(&c2, "/deadbeef", KvLookup::Missing) {
        Action::FetchPatch(u) => assert_eq!(u, "https://git.example/repo/commit/deadbeef.patch"),
        other => panic!("unexpected {:?}", other),
    }
}

#[test]
fn malformed_patch_url_is_not_found() {
    let c = Config::new(None, Some("not a url".to_string()));
    match on_lookup(&c, "/abc", KvLookup::Missing) {
        Action::Respond(r) => assert!(matches!(r, Reply::NotFound)),
        other => panic!("unexpected {:?}", other),
    }
}

#[test]
fn patch_url_is_built_verbatim() {
    assert_eq!(make_patch_url("https://a.b", "/x%20y"), "https://a.b/commit/x%20y.patch");
}

#[test]
fn fetch_only_when_url_parses() {
    assert!(matches!(fetch_or_not_found("u".to_string(), true), Action::FetchPatch(ref u) if u == "u"));
    assert!(matches!(
        fetch_or_not_found("u".to_string(), false),
        Action::Respond(Reply::NotFound)
    ));
}

#[test]
fn failed_lookup_is_not_a_miss() {
    let c = config(None);
    match on_lookup(&c, "/abc", KvLookup::Failed) {
        Action::Respond(r) => {
            assert!(matches!(r, Reply::LookupFailed));
            assert_eq!(r.status(), 500);
            assert_eq!(r.message(), "Key-value lookup failed");
        }
        other => panic!("unexpected {:?}", other),
    }
}

#[test]
fn subject_after_marker_is_the_target() {
    let c = config(None);
    let body = "From 1234 Mon Sep 17 00:00:00 2001\nFrom: A <a@b.c>\nSubject: [PATCH] Fix the bug\n\n---\n";
    let r = on_patch(&c, "/abc123", &received(200, body));
    assert_eq!(r.status(), 301);
    assert_eq!(redirect_of(&r).unwrap(), "Fix the bug");
}

#[test]
fn no_subject_line_targets_repo() {
    let c = config(None);
    let body = "From 1234\nSubject: Fix the bug\n[PATCH] elsewhere\n";
    let r = on_patch(&c, "/abc123", &received(200, body));
    assert_eq!(redirect_of(&r).unwrap(), REPO);
    let c2 = Config::new(None, Some("https://git.example/repo".to_string()));
    let r2 = on_patch(&c2, "/abc123", &received(200, ""));
    assert_eq!(redirect_of(&r2).unwrap(), "https://git.example/repo");
}

#[test]
fn marker_with_tags_does_not_match() {
    let c = config(None);
    let r = on_patch(&c, "/abc", &received(200, "Subject: [PATCH v2] Other\n"));
    assert_eq!(redirect_of(&r).unwrap(), REPO);
}

#[test]
fn not_found_on_non_200() {
    let c = config(None);
    let r = on_patch(&c, "/abc", &received(404, "Subject: [PATCH] x"));
    assert!(matches!(r, Reply::NotFound));
    assert_eq!(r.status(), 404);
    assert_eq!(r.message(), "Requested url not found");
    assert!(matches!(on_patch(&c, "/abc", &received(500, "")), Reply::NotFound));
}

#[test]
fn not_found_on_transport_error() {
    let c = config(None);
    let r = on_patch(&c, "/abc", &PatchFetch::TransportError);
    assert!(matches!(r, Reply::NotFound));
    assert_eq!(r.status(), 404);
    assert_eq!(r.message(), "Requested url not found");
}

#[test]
fn root_redirects_home() {
    let c = config(Some("https://home.example"));
    match on_request(&c, true, "/") {
        Action::Respond(r) => {
            assert_eq!(r.status(), 301);
            assert_eq!(redirect_of(&r).unwrap(), "https://home.example");
        }
        other => panic!("unexpected {:?}", other),
    }
}

#[test]
fn root_without_home_is_config_error() {
    let c = config(None);
    match on_request(&c, true, "/") {
        Action::Respond(r) => {
            assert!(matches!(r, Reply::ConfigMissing));
            assert_eq!(r.status(), 500);
            assert_eq!(r.message(), "Missing configuration: HOME");
        }
        other => panic!("unexpected {:?}", other),
    }
}

#[test]
fn first_subject_line_wins() {
    let c = config(None);
    let body = "Subject: [PATCH] first\nSubject: [PATCH] second\n";
    let r = on_patch(&c, "/abc", &received(200, body));
    assert_eq!(redirect_of(&r).unwrap(), "first");
}

#[test]
fn root_path_in_patch_targets_repo() {
    let c = config(None);
    let r = on_patch(&c, "/", &received(200, "Subject: [PATCH] x\n"));
    assert_eq!(redirect_of(&r).unwrap(), REPO);
}

#[test]
fn bad_requests() {
    let c = config(Some("https://home.example"));
    for (get, path) in [(false, "/abc"), (false, "/"), (true, "/a/b"), (true, "/abc/"), (true, ""), (true, "abc"), (true, "//")] {
        match on_request(&c, get, path) {
            Action::Respond(r) => {
                assert!(matches!(r, Reply::BadRequest), "{}", path);
                assert_eq!(r.status(), 400);
                assert_eq!(r.message(), "Bad Request");
            }
            other => panic!("unexpected {:?} for {}", other, path),
        }
    }
}
