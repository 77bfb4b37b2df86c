//! Reading the answer of the query-writing chat service.
use vstd::prelude::*;
use crate::text::{has_prefix, strip_prefix};

verus! {

/// One message of a chat answer.
pub struct Message {
    pub role: String,
    pub content: String,
}

/// One candidate answer.
pub struct Choice {
    pub finish_reason: String,
    pub message: Message,
}

/// A chat-completion answer.
pub struct OpenAiResponse {
    pub id: String,
    pub object: String,
    pub created: i64,
    pub model: String,
    pub choices: Vec<Choice>,
}

/// The finish reason and the content of each choice.
pub open spec fn choices_view(choices: Seq<Choice>) -> Seq<(Seq<char>, Seq<char>)> {
    choices.map_values(|c: Choice| (c.finish_reason@, c.message.content@))
}

/// The content of the first choice that finished with `stop`; empty if none did.
pub open spec fn first_stopped(choices: Seq<(Seq<char>, Seq<char>)>) -> Seq<char>
    decreases choices.len(),
{
    if choices.len() == 0 {
        Seq::empty()
    } else if choices[0].0 == "stop"@ {
        choices[0].1
    } else {
        first_stopped(choices.drop_first())
    }
}

/// The query the answer proposes: the content of its first complete choice.
pub fn extract_query(resp: &OpenAiResponse) -> (r: String)
    ensures
        r@ == first_stopped(choices_view(resp.choices@)),
{
    let ghost cs = choices_view(resp.choices@);
    let stop = "stop".to_owned();
    let mut i: usize = 0;
    assert(cs.subrange(0, cs.len() as int) =~= cs);
    while i < resp.choices.len()
        invariant
            cs == choices_view(resp.choices@),
            cs.len() == resp.choices@.len(),
            stop@ == "stop"@,
            i <= resp.choices.len(),
            first_stopped(cs) == first_stopped(cs.subrange(i as int, cs.len() as int)),
        decreases resp.choices.len() - i,
    {
        if resp.choices[i].finish_reason == stop {
            return resp.choices[i].message.content.clone();
        }
        assert(cs.subrange(i as int, cs.len() as int).drop_first() =~= cs.subrange(i + 1, cs.len() as int));
        i = i + 1;
    }
    String::new()
}

/// Why a proposed query is refused.
#[derive(Debug, Clone, Copy, PartialEq, Eq, Structural)]
pub enum QueryError {
    /// Only `INSERT` statements are run.
    NotInsert,
}

/// The proposed query, if it is an `INSERT` statement.
pub fn insert_query(resp: &OpenAiResponse) -> (r: Result<String, QueryError>)
    ensures
        has_prefix(first_stopped(choices_view(resp.choices@)), "INSERT"@)
            ==> (r matches Ok(q) && q@ == first_stopped(choices_view(resp.choices@))),
        !has_prefix(first_stopped(choices_view(resp.choices@)), "INSERT"@)
            ==> r == Err::<String, QueryError>(QueryError::NotInsert),
{
    let query = extract_query(resp);
    if strip_prefix(query.as_str(), "INSERT").is_some() {
        Ok(query)
    } else {
        Err(QueryError::NotInsert)
    }
}

} // verus!
