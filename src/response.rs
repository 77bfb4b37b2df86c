//! What the gateway writes on responses: the session cookies and the
//! `Authorization` header.
use vstd::prelude::*;
use crate::text::{decimal, decimal_string};
use crate::user::User;

verus! {

/// The attributes every session cookie carries, with its lifetime in seconds.
pub open spec fn cookie_attributes(max_age: u64) -> Seq<char> {
    "; Secure; HttpOnly; SameSite=None; Path=/; Max-Age="@ + decimal(max_age as nat)
}

/// A `Set-Cookie` value for `name` holding `value`.
pub open spec fn cookie_line(name: Seq<char>, value: Seq<char>, max_age: u64) -> Seq<char> {
    name + "="@ + value + cookie_attributes(max_age)
}

/// Name of the cookie that holds the session token.
pub fn session_cookie_name() -> (r: &'static str)
    ensures
        r@ == "auth_token"@,
{
    "auth_token"
}

/// The `Set-Cookie` value that stores `value` under `name` for `max_age` seconds.
pub fn cookie(name: &str, value: &str, max_age: u64) -> (r: String)
    ensures
        r@ == cookie_line(name@, value@, max_age),
{
    let mut s = name.to_owned();
    s.append("=");
    s.append(value);
    s.append("; Secure; HttpOnly; SameSite=None; Path=/; Max-Age=");
    let age = decimal_string(max_age);
    s.append(age.as_str());
    s
}

/// The cookies set on a granted request: the user id, the scope (under the
/// `channel` name that the web client reads) and the session token, each
/// living as long as the token.
pub fn session_cookies(user: &User, session: &str, ttl: u64) -> (r: Vec<String>)
    ensures
        r@.len() == 3,
        r@[0]@ == cookie_line("user"@, user.id@, ttl),
        r@[1]@ == cookie_line("channel"@, user.scope@, ttl),
        r@[2]@ == cookie_line("auth_token"@, session@, ttl),
{
    let mut r: Vec<String> = Vec::new();
    r.push(cookie("user", user.id.as_str(), ttl));
    r.push(cookie("channel", user.scope.as_str(), ttl));
    r.push(cookie(session_cookie_name(), session, ttl));
    r
}

/// The cookie that removes a session token which did not verify.
pub fn cleared_session_cookie() -> (r: String)
    ensures
        r@ == cookie_line("auth_token"@, ""@, 0),
{
    cookie(session_cookie_name(), "", 0)
}

/// The `Authorization` header value that hands the session token back.
pub fn bearer_header(session: &str) -> (r: String)
    ensures
        r@ == "Bearer "@ + session@,
{
    let mut s = "Bearer ".to_owned();
    s.append(session);
    s
}

} // verus!
