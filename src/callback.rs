//! Reading the OAuth2 authorization-code callback out of a query string.
//!
//! A callback carries `code` and `state` parameters. Both must be present;
//! `state` must also be the value that was sent out with the authorize URL.
use vstd::prelude::*;

verus! {

/// The name/value pairs of an `application/x-www-form-urlencoded` string,
/// decoded, in the order they appear.
pub uninterp spec fn form_pairs(query: Seq<char>) -> Seq<(Seq<char>, Seq<char>)>;

/// The view of a list of decoded pairs.
pub open spec fn pairs_view(pairs: Seq<(String, String)>) -> Seq<(Seq<char>, Seq<char>)> {
    pairs.map_values(|p: (String, String)| (p.0@, p.1@))
}

/// Relies on `url::form_urlencoded::parse(..).into_owned()`: the decoded
/// pairs of the query string, in order; an empty string has none.
#[verifier::external_body]
fn query_pairs(query: &str) -> (r: Vec<(String, String)>)
    ensures
        pairs_view(r@) == form_pairs(query@),
        query@.len() == 0 ==> r@.len() == 0,
{
    url::form_urlencoded::parse(query.as_bytes()).into_owned().collect()
}

/// The value of the first pair named `key`.
pub open spec fn param_value(pairs: Seq<(Seq<char>, Seq<char>)>, key: Seq<char>) -> Option<Seq<char>>
    decreases pairs.len(),
{
    if pairs.len() == 0 {
        None
    } else if pairs[0].0 == key {
        Some(pairs[0].1)
    } else {
        param_value(pairs.drop_first(), key)
    }
}

/// Why a query string is not a usable callback.
#[derive(Debug, Clone, Copy, PartialEq, Eq, Structural)]
pub enum CallbackError {
    /// `code` or `state` is absent: this is a first visit, not a callback.
    MissingCredential,
    /// `state` is not the value sent out with the authorize URL.
    StateMismatch,
}

/// The authorization code a callback with these pairs delivers.
pub open spec fn callback_outcome(
    pairs: Seq<(Seq<char>, Seq<char>)>,
    expected_state: Seq<char>,
) -> Result<Seq<char>, CallbackError> {
    match (param_value(pairs, "code"@), param_value(pairs, "state"@)) {
        (Some(code), Some(state)) => if state == expected_state {
            Ok(code)
        } else {
            Err(CallbackError::StateMismatch)
        },
        _ => Err(CallbackError::MissingCredential),
    }
}

/// The view of a callback result.
pub open spec fn outcome_view(r: Result<String, CallbackError>) -> Result<Seq<char>, CallbackError> {
    match r {
        Ok(c) => Ok(c@),
        Err(e) => Err(e),
    }
}

proof fn lemma_param_value_skip(pairs: Seq<(Seq<char>, Seq<char>)>, key: Seq<char>, i: int)
    requires
        0 <= i < pairs.len(),
        pairs[i].0 != key,
    ensures
        param_value(pairs.subrange(i, pairs.len() as int), key)
            == param_value(pairs.subrange(i + 1, pairs.len() as int), key),
{
    assert(pairs.subrange(i, pairs.len() as int).drop_first() =~= pairs.subrange(i + 1, pairs.len() as int));
}

/// The value of the first pair named `key`.
pub fn find_param(pairs: &Vec<(String, String)>, key: &str) -> (r: Option<String>)
    ensures
        match r {
            Some(v) => param_value(pairs_view(pairs@), key@) == Some(v@),
            None => param_value(pairs_view(pairs@), key@) is None,
        },
{
    let ghost ps = pairs_view(pairs@);
    let wanted = key.to_owned();
    let mut i: usize = 0;
    assert(ps.subrange(0, ps.len() as int) =~= ps);
    while i < pairs.len()
        invariant
            ps == pairs_view(pairs@),
            ps.len() == pairs@.len(),
            wanted@ == key@,
            i <= pairs.len(),
            param_value(ps, key@) == param_value(ps.subrange(i as int, ps.len() as int), key@),
        decreases pairs.len() - i,
    {
        if pairs[i].0 == wanted {
            assert(ps[i as int].0 == key@);
            return Some(pairs[i].1.clone());
        }
        proof {
            lemma_param_value_skip(ps, key@, i as int);
        }
        i = i + 1;
    }
    None
}

/// The authorization code of a callback whose query decoded to `pairs`.
pub fn callback_code_from_pairs(pairs: &Vec<(String, String)>, expected_state: &str) -> (r: Result<String, CallbackError>)
    ensures
        outcome_view(r) == callback_outcome(pairs_view(pairs@), expected_state@),
{
    let code = find_param(pairs, "code");
    let state = find_param(pairs, "state");
    match (code, state) {
        (Some(code), Some(state)) => {
            let expected = expected_state.to_owned();
            if state == expected {
                Ok(code)
            } else {
                Err(CallbackError::StateMismatch)
            }
        },
        _ => Err(CallbackError::MissingCredential),
    }
}

/// The authorization code of the callback in `query`, if it is one.
pub fn callback_code(query: &str, expected_state: &str) -> (r: Result<String, CallbackError>)
    ensures
        outcome_view(r) == callback_outcome(form_pairs(query@), expected_state@),
        query@.len() == 0 ==> r == Err::<String, CallbackError>(CallbackError::MissingCredential),
{
    let pairs = query_pairs(query);
    callback_code_from_pairs(&pairs, expected_state)
}

} // verus!
