use std::collections::HashMap;

use sched_bird::gateway::{begin, step, Event, GatewayConfig, InboundRequest, Pending, Step};
use sched_bird::response::{bearer_header, cleared_session_cookie, session_cookies};
use sched_bird::token::{issue_at, verify_at, TokenError};
use sched_bird::user::User;

const SECRET: &[u8] = b"gateway secret";
const AUTHORIZE_URL: &str = "https://github.com/login/oauth/authorize?client_id=id&state=xyz";

fn config() -> GatewayConfig {
    GatewayConfig {
        secret: SECRET.to_vec(),
        ttl: 600,
        default_scope: "home".to_string(),
        authorize_url: AUTHORIZE_URL.to_string(),
        expected_state: "xyz".to_string(),
    }
}

fn request(authorization: Option<&str>, cookie: Option<&str>, query: Option<&str>) -> InboundRequest {
    InboundRequest {
        scope_header: None,
        authorization: authorization.map(String::from),
        session_cookie: cookie.map(String::from),
        query: query.map(String::from),
    }
}

/// A user table keyed by id: (scope, live token).
type Table = HashMap<String, (String, String)>;

fn copy(u: &User) -> User {
    User { id: u.id.clone(), scope: u.scope.clone(), live_token: u.live_token.clone() }
}

/// Performs one store request against `table`; `None` for a step that is not one.
fn answer(table: &mut Table, s: &Step) -> Option<Event> {
    match s {
        Step::FindUser { id } => Some(match table.get(id) {
            Some((scope, tok)) => Event::UserFound {
                user: User { id: id.clone(), scope: scope.clone(), live_token: tok.clone() },
            },
            None => Event::UserAbsent,
        }),
        Step::InsertUser { user } => Some(if table.contains_key(&user.id) {
            Event::InsertConflict
        } else {
            table.insert(user.id.clone(), (user.scope.clone(), user.live_token.clone()));
            Event::Inserted
        }),
        Step::UpdateUser { user } => {
            table.insert(user.id.clone(), (user.scope.clone(), user.live_token.clone()));
            Some(Event::Updated)
        }
        _ => None,
    }
}

/// Runs a request through the gateway; the provider answers every exchange
/// with `provider`.
fn run(table: &mut Table, req: &InboundRequest, provider: fn(&str) -> Event, now: u64) -> Step {
    let cfg = config();
    let (mut pending, mut next) = begin(&cfg, req, now);
    loop {
        let ev = match &next {
            Step::Exchange { code } => provider(code),
            other => match answer(table, other) {
                Some(ev) => ev,
                None => return next,
            },
        };
        let (p, s) = step(&cfg, pending, ev, now);
        pending = p;
        next = s;
    }
}

fn alice_provider(code: &str) -> Event {
    if code == "abc" {
        Event::Exchanged { id: "alice".to_string(), live_token: "tok1".to_string() }
    } else {
        Event::ExchangeFailed
    }
}

fn unreachable_provider(_code: &str) -> Event {
    panic!("the provider must not be called")
}

#[test]
fn first_visit_is_redirected_to_the_provider() {
    let mut table = Table::new();
    match run(&mut table, &request(None, None, None), unreachable_provider, 1_000) {
        Step::Redirect { location, clear_session } => {
            assert_eq!(location, AUTHORIZE_URL);
            assert!(!clear_session);
        }
        _ => panic!("expected a redirect"),
    }
    assert!(table.is_empty());
}

#[test]
fn callback_for_new_user_creates_record_and_session() {
    let mut table = Table::new();
    let req = request(None, None, Some("code=abc&state=xyz"));
    match run(&mut table, &req, alice_provider, 1_000) {
        Step::Proceed { user, session } => {
            assert_eq!(user.id, "alice");
            assert_eq!(user.scope, "home");
            assert_eq!(user.live_token, "tok1");
            let cookies = session_cookies(&user, &session, 600);
            let token_cookie = &cookies[2];
            assert!(token_cookie.starts_with("auth_token="));
            let value = &token_cookie["auth_token=".len()..token_cookie.find(';').unwrap()];
            assert_eq!(verify_at(value, SECRET, "home", 1_000).unwrap().user, "alice");
        }
        _ => panic!("expected the request to proceed"),
    }
    assert_eq!(table.len(), 1);
    assert_eq!(table.get("alice"), Some(&("home".to_string(), "tok1".to_string())));
}

#[test]
fn valid_bearer_token_proceeds_with_a_renewed_session() {
    let mut table = Table::new();
    let old = issue_at("alice", "home", "tok1", SECRET, 600, 1_000).unwrap();
    let header = format!("Bearer {}", old);
    let req = request(Some(&header), None, None);
    match run(&mut table, &req, unreachable_provider, 1_100) {
        Step::Proceed { user, session } => {
            assert_eq!(user.id, "alice");
            assert_eq!(user.scope, "home");
            assert_eq!(user.live_token, "tok1");
            let renewed = verify_at(&session, SECRET, "home", 1_100).unwrap();
            let previous = verify_at(&old, SECRET, "home", 1_100).unwrap();
            assert!(renewed.exp > previous.exp);
            assert_eq!(renewed.exp, 1_700);
            assert_eq!(verify_at(&old, SECRET, "home", 1_650).err(), Some(TokenError::Expired));
        }
        _ => panic!("expected the request to proceed"),
    }
    assert!(table.is_empty());
}

#[test]
fn expired_cookie_without_callback_is_redirected() {
    let mut table = Table::new();
    let old = issue_at("alice", "home", "tok1", SECRET, 600, 1_000).unwrap();
    let req = request(None, Some(&old), None);
    match run(&mut table, &req, unreachable_provider, 5_000) {
        Step::Redirect { location, clear_session } => {
            assert_eq!(location, AUTHORIZE_URL);
            assert!(clear_session);
        }
        _ => panic!("expected a redirect"),
    }
}

#[test]
fn expired_cookie_with_callback_logs_in_again() {
    let mut table = Table::new();
    let old = issue_at("alice", "home", "tok0", SECRET, 600, 1_000).unwrap();
    let req = request(None, Some(&old), Some("code=abc&state=xyz"));
    match run(&mut table, &req, alice_provider, 5_000) {
        Step::Proceed { user, .. } => assert_eq!(user.live_token, "tok1"),
        _ => panic!("expected the request to proceed"),
    }
}

#[test]
fn failed_exchange_is_unauthorized() {
    let mut table = Table::new();
    let req = request(None, None, Some("code=bad&state=xyz"));
    match run(&mut table, &req, alice_provider, 1_000) {
        Step::Unauthorized { clear_session } => assert!(!clear_session),
        _ => panic!("expected 401"),
    }
    assert!(table.is_empty());
}

#[test]
fn failed_profile_fetch_is_unauthorized() {
    let mut table = Table::new();
    let req = request(None, None, Some("code=abc&state=xyz"));
    match run(&mut table, &req, |_| Event::ProfileFetchFailed, 1_000) {
        Step::Unauthorized { .. } => {}
        _ => panic!("expected 401"),
    }
}

#[test]
fn wrong_state_is_unauthorized() {
    let mut table = Table::new();
    let req = request(Some("Bearer junk"), None, Some("code=abc&state=forged"));
    match run(&mut table, &req, unreachable_provider, 1_000) {
        Step::Unauthorized { clear_session } => assert!(clear_session),
        _ => panic!("expected 401"),
    }
}

#[test]
fn token_from_other_scope_falls_through() {
    let mut table = Table::new();
    let old = issue_at("alice", "work", "tok1", SECRET, 600, 1_000).unwrap();
    let header = format!("Bearer {}", old);
    let req = request(Some(&header), None, None);
    match run(&mut table, &req, unreachable_provider, 1_000) {
        Step::Redirect { clear_session, .. } => assert!(clear_session),
        _ => panic!("expected a redirect"),
    }
}

#[test]
fn scope_header_selects_the_scope() {
    let cfg = config();
    let old = issue_at("alice", "work", "tok1", SECRET, 600, 1_000).unwrap();
    let mut req = request(None, Some(&old), None);
    req.scope_header = Some("work".to_string());
    match begin(&cfg, &req, 1_000).1 {
        Step::Proceed { user, session } => {
            assert_eq!(user.scope, "work");
            assert!(verify_at(&session, SECRET, "work", 1_000).is_ok());
        }
        _ => panic!("expected the request to proceed"),
    }
}

#[test]
fn storage_failure_is_a_server_error() {
    let cfg = config();
    let req = request(None, None, Some("code=abc&state=xyz"));
    let (p, s) = begin(&cfg, &req, 1_000);
    assert!(matches!(s, Step::Exchange { ref code } if code == "abc"));
    let (p, s) = step(&cfg, p, alice_provider("abc"), 1_000);
    assert!(matches!(s, Step::FindUser { ref id } if id == "alice"));
    let (_, s) = step(&cfg, p, Event::StorageFailed, 1_000);
    assert!(matches!(s, Step::ServerError { clear_session: false }));
}

#[test]
fn event_out_of_turn_is_a_server_error() {
    let cfg = config();
    let p = Pending { scope: "home".to_string(), clear_session: true, phase: sched_bird::gateway::Phase::Finished };
    let (_, s) = step(&cfg, p, Event::Updated, 1_000);
    assert!(matches!(s, Step::ServerError { clear_session: true }));
}

#[test]
fn session_that_cannot_expire_in_range_is_a_server_error() {
    let cfg = config();
    let req = request(None, None, Some("code=abc&state=xyz"));
    let now = u64::MAX - 10;
    let (p, _) = begin(&cfg, &req, now);
    let (p, _) = step(&cfg, p, alice_provider("abc"), now);
    let (p, _) = step(&cfg, p, Event::UserAbsent, now);
    let (_, s) = step(&cfg, p, Event::Inserted, now);
    assert!(matches!(s, Step::ServerError { .. }));
}

#[test]
fn repeated_login_keeps_one_record_with_latest_token() {
    let mut table = Table::new();
    table.insert("bob".to_string(), ("home".to_string(), "b".to_string()));
    let req = request(None, None, Some("code=abc&state=xyz"));
    assert!(matches!(run(&mut table, &req, alice_provider, 1_000), Step::Proceed { .. }));
    let after_first = table.clone();
    assert!(matches!(run(&mut table, &req, alice_provider, 2_000), Step::Proceed { .. }));
    assert_eq!(table, after_first);
    let second = |_: &str| Event::Exchanged { id: "alice".to_string(), live_token: "tok2".to_string() };
    assert!(matches!(run(&mut table, &req, second, 3_000), Step::Proceed { .. }));
    assert_eq!(table.len(), 2);
    assert_eq!(table.get("alice"), Some(&("home".to_string(), "tok2".to_string())));
    assert_eq!(table.get("bob"), Some(&("home".to_string(), "b".to_string())));
}

#[test]
fn concurrent_first_logins_create_one_record() {
    let cfg = config();
    let mut table = Table::new();
    let req = request(None, None, Some("code=abc&state=xyz"));
    let (a, _) = begin(&cfg, &req, 1_000);
    let (b, _) = begin(&cfg, &req, 1_000);
    let ex = |tok: &str| Event::Exchanged { id: "alice".to_string(), live_token: tok.to_string() };
    let (a, a_find) = step(&cfg, a, ex("tokA"), 1_000);
    let (b, b_find) = step(&cfg, b, ex("tokB"), 1_000);
    // both look before either inserts
    let a_seen = answer(&mut table, &a_find).unwrap();
    let b_seen = answer(&mut table, &b_find).unwrap();
    let (a, a_insert) = step(&cfg, a, a_seen, 1_000);
    let (b, b_insert) = step(&cfg, b, b_seen, 1_000);
    assert!(matches!(a_insert, Step::InsertUser { .. }));
    assert!(matches!(b_insert, Step::InsertUser { .. }));
    let a_done = answer(&mut table, &a_insert).unwrap();
    let b_done = answer(&mut table, &b_insert).unwrap();
    assert!(matches!(b_done, Event::InsertConflict));
    let (_, a_final) = step(&cfg, a, a_done, 1_000);
    let (mut b, mut b_next) = step(&cfg, b, b_done, 1_000);
    while let Some(ev) = answer(&mut table, &b_next) {
        let (p, s) = step(&cfg, b, ev, 1_000);
        b = p;
        b_next = s;
    }
    match (&a_final, &b_next) {
        (Step::Proceed { user: ua, .. }, Step::Proceed { user: ub, .. }) => {
            assert_eq!(ua.id, "alice");
            assert_eq!(ub.id, "alice");
        }
        _ => panic!("both requests must proceed"),
    }
    assert_eq!(table.len(), 1);
    assert_eq!(table.get("alice"), Some(&("home".to_string(), "tokB".to_string())));
}

#[test]
fn granted_response_carries_bearer_header_and_cookies() {
    let user = User { id: "alice".to_string(), scope: "home".to_string(), live_token: "tok1".to_string() };
    let cookies = session_cookies(&copy(&user), "a.b.c", 600);
    assert_eq!(cookies[0], "user=alice; Secure; HttpOnly; SameSite=None; Path=/; Max-Age=600");
    assert_eq!(cookies[1], "channel=home; Secure; HttpOnly; SameSite=None; Path=/; Max-Age=600");
    assert_eq!(cookies[2], "auth_token=a.b.c; Secure; HttpOnly; SameSite=None; Path=/; Max-Age=600");
    assert_eq!(bearer_header("a.b.c"), "Bearer a.b.c");
    assert_eq!(cleared_session_cookie(), "auth_token=; Secure; HttpOnly; SameSite=None; Path=/; Max-Age=0");
}
