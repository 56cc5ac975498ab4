//! Records that stand in for a lookup that found nothing or failed, for
//! callers that expect a record in every case.

use vstd::prelude::*;
use crate::model::{Conversation, Lookup, Message};

verus! {

/// A conversation with only an id and a title, which here says what
/// happened to the lookup.
pub open spec fn is_conversation_marker(c: Conversation, id: Seq<char>, title: Seq<char>) -> bool {
    &&& c.id@ == id
    &&& c.title@ == title
    &&& c.created_at == 0
    &&& c.title_generated == 0
    &&& c.profile_name is None
    &&& c.messages@.len() == 0
}

/// A message with only an id, a role `error`, and a conversation id and
/// content that say what happened to the lookup.
pub open spec fn is_message_marker(
    m: Message,
    id: i64,
    conversation_id: Seq<char>,
    content: Seq<char>,
) -> bool {
    &&& m.id == id
    &&& m.conversation_id@ == conversation_id
    &&& m.role@ == "error"@
    &&& m.content@ == content
    &&& m.created_at == 0
    &&& m.tool_calls is None
    &&& m.tool_call_id is None
    &&& m.tool_name is None
    &&& m.tool_status is None
    &&& m.tool_params_json is None
    &&& m.tool_result_json is None
    &&& m.reasoning_content is None
}

fn conversation_marker(id: &str, title: &str) -> (r: Conversation)
    ensures
        is_conversation_marker(r, id@, title@),
{
    Conversation {
        id: String::from_str(id),
        title: String::from_str(title),
        created_at: 0,
        title_generated: 0,
        profile_name: None,
        messages: Vec::new(),
    }
}

fn message_marker(id: i64, conversation_id: &str, content: &str) -> (r: Message)
    ensures
        is_message_marker(r, id, conversation_id@, content@),
{
    Message {
        id,
        conversation_id: String::from_str(conversation_id),
        role: String::from_str("error"),
        content: String::from_str(content),
        created_at: 0,
        tool_calls: None,
        tool_call_id: None,
        tool_name: None,
        tool_status: None,
        tool_params_json: None,
        tool_result_json: None,
        reasoning_content: None,
    }
}

/// The conversation found, else a marker with the requested id titled
/// `NOT_FOUND` or `ERROR`.
pub fn conversation_or_marker(l: Lookup<Conversation>, id: &str) -> (r: Conversation)
    ensures
        l matches Lookup::Found(c) ==> r == c,
        l is NotFound ==> is_conversation_marker(r, id@, "NOT_FOUND"@),
        l is Failed ==> is_conversation_marker(r, id@, "ERROR"@),
{
    match l {
        Lookup::Found(c) => c,
        Lookup::NotFound => conversation_marker(id, "NOT_FOUND"),
        Lookup::Failed => conversation_marker(id, "ERROR"),
    }
}

/// The message found, else a marker with the requested id whose
/// conversation id is `NOT_FOUND` or `ERROR`.
pub fn message_or_marker(l: Lookup<Message>, id: i64) -> (r: Message)
    ensures
        l matches Lookup::Found(m) ==> r == m,
        l is NotFound ==> is_message_marker(r, id, "NOT_FOUND"@, "Message not found"@),
        l is Failed ==> is_message_marker(r, id, "ERROR"@, "Database error"@),
{
    match l {
        Lookup::Found(m) => m,
        Lookup::NotFound => message_marker(id, "NOT_FOUND", "Message not found"),
        Lookup::Failed => message_marker(id, "ERROR", "Database error"),
    }
}

/// The record that stands for a missing conversation can be told from the
/// one that stands for a failed lookup of the same id.
pub proof fn lemma_markers_distinct(id: Seq<char>, missing: Conversation, failed: Conversation)
    requires
        is_conversation_marker(missing, id, "NOT_FOUND"@),
        is_conversation_marker(failed, id, "ERROR"@),
    ensures
        missing.title@ != failed.title@,
{
    reveal_strlit("NOT_FOUND");
    reveal_strlit("ERROR");
    assert("NOT_FOUND"@.len() != "ERROR"@.len());
}

} // verus!
