use std::collections::BTreeMap;
use url_shortener::auth::{verify, HeaderValue, Request};
use url_shortener::routes::{
    advance, delete_slug, get_slug, get_slugs, home, post_slug, post_user, reply_to, ErrorKind,
    Failure, Handling, Reply, HOME_TEXT,
};
use url_shortener::store::{Fetched, Outcome, StoreAnswer, StoreCommand, StoreError};
use url_shortener::structs::{SlugPayload, SlugValue, UserPayload};

const ADMIN: &str = "ADMIN";
const SECRET: &str = "signing-secret";

fn with_header(value: &str) -> Request {
    Request { authorization: HeaderValue::Single(value.to_string()) }
}

fn without_header() -> Request {
    Request { authorization: HeaderValue::Missing }
}

fn user(username: &str) -> Option<UserPayload> {
    Some(UserPayload { username: username.to_string() })
}

fn slug(name: &str, url: &str) -> Option<SlugPayload> {
    Some(SlugPayload { name: name.to_string(), url: url.to_string() })
}

fn perform(store: &mut BTreeMap<String, SlugValue>, command: StoreCommand) -> StoreAnswer {
    match command {
        StoreCommand::Put { key, value } => {
            store.insert(key, value);
            StoreAnswer::Done
        }
        StoreCommand::Get { key } => StoreAnswer::Value(match store.get(&key) {
            Some(value) => Fetched::Found(value.clone()),
            None => Fetched::Missing,
        }),
        StoreCommand::Delete { key } => {
            store.remove(&key);
            StoreAnswer::Done
        }
        StoreCommand::ListKeys => StoreAnswer::Keys(store.keys().cloned().collect()),
    }
}

fn serve(store: &mut BTreeMap<String, SlugValue>, mut handling: Handling) -> Reply {
    loop {
        match handling {
            Handling::Reply(reply) => return reply,
            Handling::Store(command, operation) => {
                let answer = perform(store, command);
                handling = advance(operation, answer);
            }
        }
    }
}

fn token_for(username: &str) -> String {
    match post_user(user(username), &with_header(ADMIN), ADMIN, SECRET.to_string()) {
        Reply::User(issued) => issued.token,
        other => panic!("unexpected reply {:?}", other),
    }
}

fn failure(reply: &Reply) -> Failure {
    match reply {
        Reply::Failure(failure) => *failure,
        other => panic!("unexpected reply {:?}", other),
    }
}

#[test]
fn end_to_end_scenario() {
    let mut store = BTreeMap::new();

    let issued = match post_user(user("alice"), &with_header(ADMIN), ADMIN, SECRET.to_string()) {
        Reply::User(issued) => issued,
        other => panic!("unexpected reply {:?}", other),
    };
    assert_eq!(issued.username, "alice");
    let token = issued.token;

    let created = serve(
        &mut store,
        post_slug(slug("blog", "https://alice.dev"), &with_header(&token), SECRET.to_string(), "now".to_string()),
    );
    assert!(matches!(created, Reply::Empty));
    assert_eq!(created.status(), 200);
    assert_eq!(store["blog"].creator, "alice");
    assert_eq!(store["blog"].created_at, "now");

    let resolved = serve(&mut store, get_slug(Some("blog".to_string())));
    assert_eq!(resolved.status(), 302);
    match resolved {
        Reply::Redirect(target) => assert_eq!(target, "https://alice.dev"),
        other => panic!("unexpected reply {:?}", other),
    }

    let deleted = serve(&mut store, delete_slug(Some("blog".to_string()), &with_header(&token), SECRET.to_string()));
    assert!(matches!(deleted, Reply::Empty));
    assert_eq!(deleted.status(), 200);

    let gone = serve(&mut store, get_slug(Some("blog".to_string())));
    assert_eq!(failure(&gone), Failure::NotFound);
    assert_eq!(gone.status(), 404);
}

#[test]
fn home_says_the_home_text() {
    let reply = home();
    assert!(matches!(reply, Reply::Home));
    assert_eq!(reply.status(), 200);
    assert!(!HOME_TEXT.is_empty());
}

#[test]
fn user_route_issues_a_token_that_verifies() {
    let token = token_for("alice");
    let verdict = verify(&token, SECRET);
    assert!(verdict.success);
    assert_eq!(verdict.username, "alice");
}

#[test]
fn user_route_with_bad_body_is_a_bad_request() {
    let reply = post_user(None, &with_header(ADMIN), ADMIN, SECRET.to_string());
    assert_eq!(failure(&reply), Failure::MalformedBody);
    assert_eq!(reply.status(), 400);
}

#[test]
fn user_route_without_header_is_a_bad_request() {
    let reply = post_user(user("alice"), &without_header(), ADMIN, SECRET.to_string());
    assert_eq!(failure(&reply), Failure::MissingAuthorization);
    assert_eq!(reply.status(), 400);
    let reply = post_user(user("alice"), &Request { authorization: HeaderValue::Ambiguous }, ADMIN, SECRET.to_string());
    assert_eq!(failure(&reply), Failure::MissingAuthorization);
}

#[test]
fn user_route_with_wrong_key_is_unauthorized() {
    for presented in ["admin", "ADMIN ", "", "ADMI", "Bearer ADMIN"] {
        let reply = post_user(user("alice"), &with_header(presented), ADMIN, SECRET.to_string());
        assert_eq!(failure(&reply), Failure::Unauthorized);
        assert_eq!(reply.status(), 401);
    }
}

#[test]
fn user_route_looks_at_the_body_first() {
    let reply = post_user(None, &without_header(), ADMIN, SECRET.to_string());
    assert_eq!(failure(&reply), Failure::MalformedBody);
}

#[test]
fn user_token_is_no_admin_key() {
    let token = token_for("alice");
    let reply = post_user(user("mallory"), &with_header(&token), ADMIN, SECRET.to_string());
    assert_eq!(failure(&reply), Failure::Unauthorized);
}

#[test]
fn slug_route_with_bad_body_is_a_bad_request() {
    let token = token_for("alice");
    let handling = post_slug(None, &with_header(&token), SECRET.to_string(), "now".to_string());
    match handling {
        Handling::Reply(reply) => {
            assert_eq!(failure(&reply), Failure::MalformedBody);
            assert_eq!(reply.status(), 400);
        }
        other => panic!("unexpected handling {:?}", other),
    }
}

#[test]
fn slug_route_without_token_is_unauthorized() {
    let mut store = BTreeMap::new();
    for request in [without_header(), with_header("garbage"), with_header(ADMIN)] {
        let reply = serve(
            &mut store,
            post_slug(slug("blog", "https://alice.dev"), &request, SECRET.to_string(), "now".to_string()),
        );
        assert_eq!(failure(&reply), Failure::Unauthorized);
        assert_eq!(reply.status(), 401);
    }
    assert!(store.is_empty());
}

#[test]
fn slug_route_with_token_of_another_secret_is_unauthorized() {
    let token = token_for("alice");
    let handling = post_slug(slug("blog", "https://alice.dev"), &with_header(&token), "other".to_string(), "now".to_string());
    match handling {
        Handling::Reply(reply) => assert_eq!(failure(&reply), Failure::Unauthorized),
        other => panic!("unexpected handling {:?}", other),
    }
}

#[test]
fn slug_route_refuses_bad_slugs() {
    let mut store = BTreeMap::new();
    let token = token_for("alice");
    let cases = [
        ("", "https://alice.dev", Failure::EmptyName),
        ("slugs", "https://alice.dev", Failure::ReservedName),
        ("user", "https://alice.dev", Failure::ReservedName),
        ("blog", "not-a-url", Failure::InvalidUrl),
        ("blog", "ftp://x.com", Failure::InvalidUrl),
        ("", "not-a-url", Failure::EmptyName),
    ];
    for (name, url, expected) in cases {
        let reply = serve(
            &mut store,
            post_slug(slug(name, url), &with_header(&token), SECRET.to_string(), "now".to_string()),
        );
        assert_eq!(failure(&reply), expected);
        assert_eq!(reply.status(), 400);
    }
    assert!(store.is_empty());
}

#[test]
fn slug_route_checks_credentials_before_the_slug() {
    let handling = post_slug(slug("", "not-a-url"), &without_header(), SECRET.to_string(), "now".to_string());
    match handling {
        Handling::Reply(reply) => assert_eq!(failure(&reply), Failure::Unauthorized),
        other => panic!("unexpected handling {:?}", other),
    }
}

#[test]
fn creator_is_the_user_of_the_token() {
    let mut store = BTreeMap::new();
    let token = token_for("bob");
    serve(
        &mut store,
        post_slug(slug("docs", "https://docs.example.com"), &with_header(&token), SECRET.to_string(), "t9".to_string()),
    );
    assert_eq!(store["docs"].creator, "bob");
    assert_eq!(store["docs"].url, "https://docs.example.com");
    assert_eq!(store["docs"].created_at, "t9");
}

#[test]
fn second_registration_overwrites() {
    let mut store = BTreeMap::new();
    let alice = token_for("alice");
    let bob = token_for("bob");
    let first = serve(
        &mut store,
        post_slug(slug("a", "https://one.example.com"), &with_header(&alice), SECRET.to_string(), "t1".to_string()),
    );
    assert!(matches!(first, Reply::Empty));
    let second = serve(
        &mut store,
        post_slug(slug("a", "https://two.example.com"), &with_header(&bob), SECRET.to_string(), "t2".to_string()),
    );
    assert!(matches!(second, Reply::Empty));
    match serve(&mut store, get_slug(Some("a".to_string()))) {
        Reply::Redirect(target) => assert_eq!(target, "https://two.example.com"),
        other => panic!("unexpected reply {:?}", other),
    }
    assert_eq!(store["a"].creator, "bob");
}

#[test]
fn list_route_needs_a_token() {
    let mut store = BTreeMap::new();
    let reply = serve(&mut store, get_slugs(&without_header(), SECRET.to_string()));
    assert_eq!(failure(&reply), Failure::Unauthorized);
    assert_eq!(reply.status(), 401);
}

#[test]
fn list_route_lists_all_slugs() {
    let mut store = BTreeMap::new();
    let token = token_for("alice");
    for (name, url) in [("a", "https://a.example.com"), ("b", "https://b.example.com")] {
        serve(&mut store, post_slug(slug(name, url), &with_header(&token), SECRET.to_string(), "t".to_string()));
    }
    let reply = serve(&mut store, get_slugs(&with_header(&token), SECRET.to_string()));
    assert_eq!(reply.status(), 200);
    match reply {
        Reply::Listing(listing) => {
            assert_eq!(listing.len(), 2);
            assert_eq!(listing.get("a").unwrap().url, "https://a.example.com");
            assert_eq!(listing.get("b").unwrap().creator, "alice");
        }
        other => panic!("unexpected reply {:?}", other),
    }
}

#[test]
fn resolve_route_without_parameter_is_a_bad_request() {
    match get_slug(None) {
        Handling::Reply(reply) => {
            assert_eq!(failure(&reply), Failure::MissingParameter);
            assert_eq!(reply.status(), 400);
        }
        other => panic!("unexpected handling {:?}", other),
    }
}

#[test]
fn resolve_route_of_unknown_slug_is_not_found() {
    let mut store = BTreeMap::new();
    let reply = serve(&mut store, get_slug(Some("nope".to_string())));
    assert_eq!(failure(&reply), Failure::NotFound);
    assert_eq!(reply.status(), 404);
}

#[test]
fn delete_route_needs_a_token_before_a_parameter() {
    match delete_slug(None, &without_header(), SECRET.to_string()) {
        Handling::Reply(reply) => assert_eq!(failure(&reply), Failure::Unauthorized),
        other => panic!("unexpected handling {:?}", other),
    }
    let token = token_for("alice");
    match delete_slug(None, &with_header(&token), SECRET.to_string()) {
        Handling::Reply(reply) => {
            assert_eq!(failure(&reply), Failure::MissingParameter);
            assert_eq!(reply.status(), 400);
        }
        other => panic!("unexpected handling {:?}", other),
    }
}

#[test]
fn delete_route_of_missing_slug_succeeds() {
    let mut store = BTreeMap::new();
    let token = token_for("alice");
    let reply = serve(&mut store, delete_slug(Some("missing-key".to_string()), &with_header(&token), SECRET.to_string()));
    assert!(matches!(reply, Reply::Empty));
    assert_eq!(reply.status(), 200);
}

#[test]
fn store_failure_is_reported() {
    match get_slug(Some("blog".to_string())) {
        Handling::Store(_, operation) => match advance(operation, StoreAnswer::Failed) {
            Handling::Reply(reply) => {
                assert_eq!(failure(&reply), Failure::StoreUnavailable);
                assert_eq!(reply.status(), 500);
            }
            other => panic!("unexpected handling {:?}", other),
        },
        other => panic!("unexpected handling {:?}", other),
    }
}

#[test]
fn reply_to_each_outcome() {
    assert!(matches!(reply_to(Ok(Outcome::Created)), Reply::Empty));
    assert!(matches!(reply_to(Ok(Outcome::Deleted)), Reply::Empty));
    assert_eq!(failure(&reply_to(Ok(Outcome::Read(None)))), Failure::NotFound);
    assert_eq!(failure(&reply_to(Err(StoreError::Unavailable))), Failure::StoreUnavailable);
    let record = SlugValue { url: "https://alice.dev".to_string(), creator: "a".to_string(), created_at: "t".to_string() };
    match reply_to(Ok(Outcome::Read(Some(record)))) {
        Reply::Redirect(target) => assert_eq!(target, "https://alice.dev"),
        other => panic!("unexpected reply {:?}", other),
    }
}

#[test]
fn failures_have_fixed_kinds_codes_and_messages() {
    let table = [
        (Failure::MalformedBody, ErrorKind::BadRequest, 400, "bad request request has to be of 'Content-Type' 'application/json'"),
        (Failure::MissingAuthorization, ErrorKind::BadRequest, 400, "bad request missing authorization header"),
        (Failure::Unauthorized, ErrorKind::Unauthorized, 401, "unauthorized"),
        (Failure::EmptyName, ErrorKind::BadRequest, 400, "bad request value of 'name' length has to be greater then or equal to 1"),
        (Failure::ReservedName, ErrorKind::BadRequest, 400, "bad request value of 'name' is a blacklisted term"),
        (Failure::InvalidUrl, ErrorKind::BadRequest, 400, "bad request invalid url"),
        (Failure::MissingParameter, ErrorKind::BadRequest, 400, "bad request"),
        (Failure::NotFound, ErrorKind::NotFound, 404, "404 does not exist"),
        (Failure::StoreUnavailable, ErrorKind::StoreUnavailable, 500, "store unavailable"),
    ];
    for (failure, kind, status, message) in table {
        assert_eq!(failure.kind(), kind);
        assert_eq!(failure.status(), status);
        assert_eq!(failure.message(), message);
    }
}
