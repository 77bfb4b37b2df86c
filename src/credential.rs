//! Finding the credential and the scope that an inbound request presents.
//!
//! Credentials are looked for in a fixed order: an `Authorization: Bearer`
//! header first, then the session cookie. The first source that yields a
//! token wins.
use vstd::prelude::*;
use crate::text::{drop_chars, has_prefix, strip_prefix};

verus! {

/// The token in an `Authorization` header value, if it has the `Bearer ` form.
pub open spec fn bearer_token(header: Option<Seq<char>>) -> Option<Seq<char>> {
    match header {
        Some(h) => if has_prefix(h, "Bearer "@) {
            Some(drop_chars(h, "Bearer "@.len()))
        } else {
            None
        },
        None => None,
    }
}

/// The credential a request presents: the bearer token if there is one, else
/// the session cookie's value.
pub open spec fn presented_credential(header: Option<Seq<char>>, cookie: Option<Seq<char>>) -> Option<Seq<char>> {
    match bearer_token(header) {
        Some(t) => Some(t),
        None => cookie,
    }
}

/// The scope a request runs in: the one its scope header names, else the default.
pub open spec fn request_scope(header: Option<Seq<char>>, default_scope: Seq<char>) -> Seq<char> {
    match header {
        Some(s) => s,
        None => default_scope,
    }
}

/// The view of an optional string.
pub open spec fn opt_view(s: Option<String>) -> Option<Seq<char>> {
    match s {
        Some(s) => Some(s@),
        None => None,
    }
}

/// The view of an optional string slice.
pub open spec fn opt_str_view(s: Option<&str>) -> Option<Seq<char>> {
    match s {
        Some(s) => Some(s@),
        None => None,
    }
}

/// The scope named by the request's scope header, or `default_scope`.
pub fn scope_from_header(header: Option<&str>, default_scope: &str) -> (r: String)
    ensures
        r@ == request_scope(opt_str_view(header), default_scope@),
{
    match header {
        Some(s) => s.to_owned(),
        None => default_scope.to_owned(),
    }
}

/// The token of an `Authorization: Bearer <token>` header.
pub fn jwt_from_header(header: Option<&str>) -> (r: Option<String>)
    ensures
        opt_view(r) == bearer_token(opt_str_view(header)),
{
    match header {
        Some(h) => strip_prefix(h, "Bearer "),
        None => None,
    }
}

/// The value of the session cookie, if the request carries one.
pub fn jwt_from_cookie(cookie: Option<&str>) -> (r: Option<String>)
    ensures
        opt_view(r) == opt_str_view(cookie),
{
    match cookie {
        Some(c) => Some(c.to_owned()),
        None => None,
    }
}

/// The credential the request presents, trying the bearer header before the
/// session cookie.
pub fn resolve_credential(header: Option<&str>, cookie: Option<&str>) -> (r: Option<String>)
    ensures
        opt_view(r) == presented_credential(opt_str_view(header), opt_str_view(cookie)),
{
    match jwt_from_header(header) {
        Some(t) => Some(t),
        None => jwt_from_cookie(cookie),
    }
}

} // verus!
