use vstd::prelude::*;

verus! {

/// Keywords to look for in conversation messages; any one of them may match.
#[derive(Debug, Clone, PartialEq, Eq)]
pub struct SearchConversationsRequest {
    pub keywords: Vec<String>,
}

/// The id of the conversation to fetch.
#[derive(Debug, Clone, PartialEq, Eq)]
pub struct GetConversationRequest {
    pub conversation_id: String,
}

/// A fragment to look for in conversation titles.
#[derive(Debug, Clone, PartialEq, Eq)]
pub struct SearchTitlesRequest {
    pub query: String,
}

/// A page of conversations: at most `limit` (default 50, never above 200),
/// after skipping `offset` (default 0).
#[derive(Debug, Clone, PartialEq, Eq)]
pub struct ListConversationsRequest {
    pub limit: Option<u32>,
    pub offset: Option<u32>,
}

/// The id of the message to fetch.
#[derive(Debug, Clone, PartialEq, Eq)]
pub struct GetMessageRequest {
    pub message_id: i64,
}

/// One message that matched a keyword search.
#[derive(Debug, Clone, PartialEq, Eq)]
pub struct SearchResult {
    pub conversation_id: String,
    pub message_id: i64,
    pub role: String,
    pub content_preview: String,
    pub created_at: i64,
}

#[derive(Debug, Clone, PartialEq, Eq)]
pub struct SearchResultsResponse {
    pub items: Vec<SearchResult>,
}

/// A conversation with its messages in chronological order.
#[derive(Debug, Clone, PartialEq, Eq)]
pub struct Conversation {
    pub id: String,
    pub title: String,
    pub created_at: i64,
    pub title_generated: i32,
    pub profile_name: Option<String>,
    pub messages: Vec<Message>,
}

#[derive(Debug, Clone, PartialEq, Eq)]
pub struct Message {
    pub id: i64,
    pub conversation_id: String,
    pub role: String,
    pub content: String,
    pub created_at: i64,
    pub tool_calls: Option<String>,
    pub tool_call_id: Option<String>,
    pub tool_name: Option<String>,
    pub tool_status: Option<String>,
    pub tool_params_json: Option<String>,
    pub tool_result_json: Option<String>,
    pub reasoning_content: Option<String>,
}

/// A conversation without its messages, with the number of messages it holds.
#[derive(Debug, Clone, PartialEq, Eq)]
pub struct ConversationSummary {
    pub id: String,
    pub title: String,
    pub created_at: i64,
    pub title_generated: i32,
    pub profile_name: Option<String>,
    pub message_count: i64,
}

#[derive(Debug, Clone, PartialEq, Eq)]
pub struct ConversationSummariesResponse {
    pub items: Vec<ConversationSummary>,
}

/// A note to remember; `importance` defaults to 5.
#[derive(Debug, Clone, PartialEq, Eq)]
pub struct StoreMemoryRequest {
    pub content: String,
    pub category: Option<String>,
    pub importance: Option<i32>,
}

/// Keywords to look for in memory notes; any one of them may match.
#[derive(Debug, Clone, PartialEq, Eq)]
pub struct SearchMemoryRequest {
    pub keywords: Vec<String>,
}

#[derive(Debug, Clone, PartialEq, Eq)]
pub struct SearchMemoryByCategoryRequest {
    pub category: String,
}

#[derive(Debug, Clone, PartialEq, Eq)]
pub struct DeleteMemoryRequest {
    pub memory_id: i64,
}

/// A stored memory note.
#[derive(Debug, Clone, PartialEq, Eq)]
pub struct MemoryEntry {
    pub id: i64,
    pub content: String,
    pub category: Option<String>,
    pub importance: i32,
    pub created_at: i64,
}

#[derive(Debug, Clone, PartialEq, Eq)]
pub struct MemorySearchResponse {
    pub items: Vec<MemoryEntry>,
}

/// Whether a note was stored: the note as stored, or why it was not.
#[derive(Debug, Clone, PartialEq, Eq)]
pub struct StoreMemoryResponse {
    pub success: bool,
    pub entry: Option<MemoryEntry>,
    pub error: Option<String>,
}

/// Whether a deletion removed a note, and why not when it did not.
#[derive(Debug, Clone, PartialEq, Eq)]
pub struct DeleteMemoryResponse {
    pub success: bool,
    pub error: Option<String>,
}

/// The outcome of an exact lookup: the record, a marker that no record has
/// that id, or a failure of the store.
#[derive(Debug, Clone, PartialEq, Eq)]
pub enum Lookup<T> {
    Found(T),
    NotFound,
    Failed,
}

} // verus!
