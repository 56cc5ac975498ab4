//! The operations over the store. Each runs as one unit of work on the
//! store's single connection, which is opened, and brought to the memory
//! schema, on first use.

use vstd::prelude::*;
use crate::model::{
    Conversation, ConversationSummary, DeleteMemoryRequest, DeleteMemoryResponse,
    GetConversationRequest, GetMessageRequest, ListConversationsRequest, Lookup, MemoryEntry,
    Message, SearchConversationsRequest, SearchMemoryByCategoryRequest, SearchMemoryRequest,
    SearchResult, SearchTitlesRequest, StoreMemoryRequest, StoreMemoryResponse,
};
use crate::query::{
    all_blank, contains_pattern, importance_or_default, match_expression, page_limit,
    page_limit_of, page_offset, DEFAULT_IMPORTANCE, MAX_CATEGORY_HITS, MAX_MEMORY_HITS,
    MAX_MESSAGE_HITS, MAX_PAGE_SIZE, MAX_TITLE_HITS, PREVIEW_CHARS,
};
use crate::rows::{
    conversation_lookup, header_found, int_cell, int_or_zero, memory_entries_of, message_lookup,
    rows_of_width, search_results_of, summaries_of, Cell,
};
use crate::schema::{init_memory_schema, SetupError, SetupStage};
use crate::sqlite::{cells_of, error_text, execute_sql, integer_value, open_connection, query_values, text_value};

verus! {

/// The text of a deletion that found no note with the id.
pub open spec fn not_found_text() -> Seq<char> {
    "Memory entry not found"@
}

/// What a deletion reports for what the store said of it: the number of
/// rows removed, or the store's description of its failure.
pub open spec fn delete_response_for(r: DeleteMemoryResponse, outcome: Result<usize, String>) -> bool {
    match outcome {
        Ok(n) => if n > 0 {
            r.success && r.error is None
        } else {
            !r.success && (r.error matches Some(m) && m@ == not_found_text())
        },
        Err(_) => !r.success && (r.error matches Some(m) && m@ != not_found_text()),
    }
}

/// The response to a deletion: success when a row was removed, "not found"
/// when none was, and a report of the failure, distinct from "not found",
/// when the store failed.
pub fn delete_response(outcome: Result<usize, String>) -> (r: DeleteMemoryResponse)
    ensures
        delete_response_for(r, outcome),
{
    proof {
        reveal_strlit("Memory entry not found");
        reveal_strlit("Failed to delete memory entry: ");
    }
    match outcome {
        Ok(n) => if n > 0 {
            DeleteMemoryResponse { success: true, error: None }
        } else {
            DeleteMemoryResponse {
                success: false,
                error: Some(String::from_str("Memory entry not found")),
            }
        },
        Err(detail) => {
            let mut m = String::from_str("Failed to delete memory entry: ");
            m.append(detail.as_str());
            assert(m@[0] == 'F');
            assert(not_found_text()[0] == 'M');
            DeleteMemoryResponse { success: false, error: Some(m) }
        },
    }
}

/// The text of a note that could not be stored.
pub open spec fn store_failed_text() -> Seq<char> {
    "Failed to store memory entry"@
}

/// The note a request stored, from the row `[id, created_at]` that the
/// insert returned: the content, category and importance (5 when absent)
/// of the request, with the id and time the store gave it. `None` when the
/// insert failed or returned no row.
pub fn inserted_entry(req: &StoreMemoryRequest, fetched: &Option<Vec<Vec<Cell>>>) -> (r: Option<
    MemoryEntry,
>)
    requires
        fetched matches Some(rows) ==> rows_of_width(rows@, 2),
    ensures
        fetched is None ==> r is None,
        fetched matches Some(rows) ==> (rows@.len() == 0 <==> r is None),
        r matches Some(e) ==> (fetched matches Some(rows) && rows@.len() > 0 && e.id == int_or_zero(
            rows@[0]@[0],
        ) && e.created_at == int_or_zero(rows@[0]@[1])),
        r matches Some(e) ==> {
            &&& e.content == req.content
            &&& e.category == req.category
            &&& e.importance == match req.importance {
                Some(n) => n,
                None => DEFAULT_IMPORTANCE,
            }
        },
{
    let rows = match fetched {
        None => return None,
        Some(rows) => rows,
    };
    if rows.len() == 0 {
        return None;
    }
    let row = &rows[0];
    assert(rows@[0]@.len() == 2);
    let category = match &req.category {
        Some(c) => Some(c.clone()),
        None => None,
    };
    Some(
        MemoryEntry {
            id: int_cell(&row[0]),
            content: req.content.clone(),
            category,
            importance: importance_or_default(req.importance),
            created_at: int_cell(&row[1]),
        },
    )
}

/// The response to a request to store a note: success with the note, or
/// failure with a message when it could not be stored.
pub fn store_response(entry: Option<MemoryEntry>) -> (r: StoreMemoryResponse)
    ensures
        entry is Some ==> r.success && r.entry == entry && r.error is None,
        entry is None ==> !r.success && r.entry is None && (r.error matches Some(m) && m@
            == store_failed_text()),
{
    match entry {
        Some(e) => StoreMemoryResponse { success: true, entry: Some(e), error: None },
        None => StoreMemoryResponse {
            success: false,
            entry: None,
            error: Some(String::from_str("Failed to store memory entry")),
        },
    }
}

/// The store of conversations and memory notes at one path. The connection
/// is opened, and the memory schema applied, by the first operation that
/// needs the store; every later operation uses that same connection.
pub struct ConversationService {
    path: String,
    conn: Option<rusqlite::Connection>,
    schema_applied: Ghost<bool>,
}

impl ConversationService {
    /// A connection is only ever held once the memory schema was applied on it.
    #[verifier::type_invariant]
    spec fn holds_schema(self) -> bool {
        self.conn is Some ==> self.schema_applied@
    }

    /// The connection is open.
    pub closed spec fn opened(self) -> bool {
        self.conn is Some
    }

    /// `init_memory_schema` succeeded on the open connection.
    pub closed spec fn schema_ready(self) -> bool {
        self.schema_applied@
    }

    /// The path of the store.
    pub closed spec fn db_path(self) -> Seq<char> {
        self.path@
    }

    /// `after` is `before` after one operation: the same path and, once the
    /// store is open, the very same connection.
    pub open spec fn keeps_handle(before: Self, after: Self) -> bool {
        &&& after.db_path() == before.db_path()
        &&& before.opened() ==> after == before
    }

    /// Over any run of operations the store is opened at most once: once
    /// open, every later operation keeps the very same connection.
    pub proof fn lemma_opened_once(before: Self, middle: Self, after: Self)
        requires
            Self::keeps_handle(before, middle),
            Self::keeps_handle(middle, after),
        ensures
            Self::keeps_handle(before, after),
            before.opened() ==> after == before,
    {
    }

    /// A service over the store at `db_path`, not opened yet.
    pub fn new(db_path: &str) -> (r: Self)
        ensures
            !r.opened(),
            !r.schema_ready(),
            r.db_path() == db_path@,
    {
        ConversationService {
            path: String::from_str(db_path),
            conn: None,
            schema_applied: Ghost(false),
        }
    }

    /// Whether the store has been opened.
    pub fn is_open(&self) -> (r: bool)
        ensures
            r == self.opened(),
    {
        self.conn.is_some()
    }

    /// Opens the store and applies the schema unless that was done before;
    /// a connection whose schema failed is dropped.
    fn ensure_open(&mut self) -> (r: Result<(), SetupError>)
        ensures
            Self::keeps_handle(*old(self), *final(self)),
            r is Ok <==> final(self).opened(),
            r is Ok ==> final(self).schema_ready() && final(self).conn is Some,
    {
        proof {
            use_type_invariant(&*self);
        }
        if self.conn.is_some() {
            return Ok(());
        }
        match open_connection(self.path.as_str()) {
            Err(e) => Err(SetupError { stage: SetupStage::Open, detail: error_text(&e) }),
            Ok(conn) => match init_memory_schema(&conn) {
                Err(e) => Err(e),
                Ok(()) => {
                    self.schema_applied = Ghost(true);
                    self.conn = Some(conn);
                    Ok(())
                },
            },
        }
    }

    /// Runs a query on the store, once the schema is applied; `Ok(None)`
    /// when the query itself failed.
    fn fetch(&mut self, sql: &str, params: Vec<rusqlite::types::Value>, width: usize) -> (r: Result<
        Option<Vec<Vec<Cell>>>,
        SetupError,
    >)
        ensures
            Self::keeps_handle(*old(self), *final(self)),
            r is Ok <==> final(self).opened(),
            r is Ok ==> final(self).schema_ready(),
            r matches Ok(Some(rows)) ==> rows_of_width(rows@, width as nat),
    {
        if let Err(e) = self.ensure_open() {
            return Err(e);
        }
        let conn = self.conn.as_ref().unwrap();
        match query_values(conn, sql, params, width) {
            Ok(values) => Ok(Some(cells_of(&values, width))),
            Err(_) => Ok(None),
        }
    }

    /// Runs a statement on the store, once the schema is applied: the number
    /// of rows it changed, or the store's description of its failure.
    fn run(&mut self, sql: &str, params: Vec<rusqlite::types::Value>) -> (r: Result<
        Result<usize, String>,
        SetupError,
    >)
        ensures
            Self::keeps_handle(*old(self), *final(self)),
            r is Ok <==> final(self).opened(),
            r is Ok ==> final(self).schema_ready(),
    {
        if let Err(e) = self.ensure_open() {
            return Err(e);
        }
        let conn = self.conn.as_ref().unwrap();
        match execute_sql(conn, sql, params) {
            Ok(n) => Ok(Ok(n)),
            Err(e) => Ok(Err(error_text(&e))),
        }
    }

    /// Messages holding any of the non-empty keywords, newest first, at most
    /// 50, each with its content cut to 200 characters (see
    /// `search_results_of`). With no non-empty keyword the store is not
    /// touched and the result is empty; a failed query gives an empty result.
    pub fn search_conversations(&mut self, req: &SearchConversationsRequest) -> (r: Result<
        Vec<SearchResult>,
        SetupError,
    >)
        ensures
            Self::keeps_handle(*old(self), *final(self)),
            all_blank(req.keywords@) ==> (r matches Ok(v) && v@.len() == 0 && *final(self)
                == *old(self)),
            !all_blank(req.keywords@) ==> (r is Ok <==> final(self).opened()),
            !all_blank(req.keywords@) ==> (r is Ok ==> final(self).schema_ready()),
            r matches Ok(v) ==> v@.len() <= MAX_MESSAGE_HITS,
            r matches Ok(v) ==> forall|i: int|
                0 <= i < v@.len() ==> (#[trigger] v@[i]).content_preview@.len() <= PREVIEW_CHARS,
    {
        let query = match match_expression(&req.keywords) {
            None => return Ok(Vec::new()),
            Some(q) => q,
        };
        let mut params: Vec<rusqlite::types::Value> = Vec::new();
        params.push(text_value(Some(query)));
        match self.fetch(
            "SELECT DISTINCT m.id, m.conversation_id, m.role, m.content, m.created_at
             FROM messages m
             JOIN messages_fts ON m.id = messages_fts.rowid
             WHERE messages_fts MATCH ?1
             ORDER BY m.created_at DESC
             LIMIT 50",
            params,
            5,
        ) {
            Err(e) => Err(e),
            Ok(fetched) => Ok(search_results_of(&fetched, MAX_MESSAGE_HITS)),
        }
    }

    /// The conversation with the id and all its messages, oldest first, as
    /// `conversation_lookup` reads it from the two queries: `Failed` when the
    /// header query failed, `NotFound` when no conversation has the id.
    pub fn get_conversation(&mut self, req: &GetConversationRequest) -> (r: Result<
        Lookup<Conversation>,
        SetupError,
    >)
        ensures
            Self::keeps_handle(*old(self), *final(self)),
            r is Ok <==> final(self).opened(),
            r is Ok ==> final(self).schema_ready(),
    {
        let mut params: Vec<rusqlite::types::Value> = Vec::new();
        params.push(text_value(Some(req.conversation_id.clone())));
        let header = match self.fetch(
            "SELECT id, title, created_at, title_generated, profile_name
             FROM conversations
             WHERE id = ?1",
            params,
            5,
        ) {
            Err(e) => return Err(e),
            Ok(fetched) => fetched,
        };
        let messages = if header_found(&header) {
            let mut params: Vec<rusqlite::types::Value> = Vec::new();
            params.push(text_value(Some(req.conversation_id.clone())));
            match self.fetch(
                "SELECT id, conversation_id, role, content, created_at,
                        tool_calls, tool_call_id, tool_name, tool_status,
                        tool_params_json, tool_result_json, reasoning_content
                 FROM messages
                 WHERE conversation_id = ?1
                 ORDER BY created_at ASC, id ASC",
                params,
                12,
            ) {
                Err(e) => return Err(e),
                Ok(fetched) => fetched,
            }
        } else {
            None
        };
        Ok(conversation_lookup(&header, &messages))
    }

    /// Conversations whose title holds the query (as SQL `LIKE` matches it),
    /// newest first, at most 100, each with its number of messages; none when
    /// the query failed (see `summaries_of`).
    pub fn search_conversation_titles(&mut self, req: &SearchTitlesRequest) -> (r: Result<
        Vec<ConversationSummary>,
        SetupError,
    >)
        ensures
            Self::keeps_handle(*old(self), *final(self)),
            r is Ok <==> final(self).opened(),
            r is Ok ==> final(self).schema_ready(),
            r matches Ok(v) ==> v@.len() <= MAX_TITLE_HITS,
    {
        let mut params: Vec<rusqlite::types::Value> = Vec::new();
        params.push(text_value(Some(contains_pattern(req.query.as_str()))));
        match self.fetch(
            "SELECT c.id, c.title, c.created_at, c.title_generated, c.profile_name,
                    COUNT(m.id) AS message_count
             FROM conversations c
             LEFT JOIN messages m ON c.id = m.conversation_id
             WHERE c.title LIKE ?1
             GROUP BY c.id, c.title, c.created_at, c.title_generated, c.profile_name
             ORDER BY c.created_at DESC
             LIMIT 100",
            params,
            6,
        ) {
            Err(e) => Err(e),
            Ok(fetched) => Ok(summaries_of(&fetched, MAX_TITLE_HITS)),
        }
    }

    /// A page of conversations, newest first, each with its number of
    /// messages: at most the requested size (50 when absent, never more than
    /// 200), after skipping the requested number (0 when absent); none when
    /// the query failed (see `summaries_of`).
    pub fn list_conversations(&mut self, req: &ListConversationsRequest) -> (r: Result<
        Vec<ConversationSummary>,
        SetupError,
    >)
        ensures
            Self::keeps_handle(*old(self), *final(self)),
            r is Ok <==> final(self).opened(),
            r is Ok ==> final(self).schema_ready(),
            r matches Ok(v) ==> v@.len() <= page_limit_of(req.limit) <= MAX_PAGE_SIZE,
            r matches Ok(v) ==> (req.limit matches Some(n) ==> v@.len() <= n),
    {
        let limit = page_limit(req.limit);
        let offset = page_offset(req.offset);
        let mut params: Vec<rusqlite::types::Value> = Vec::new();
        params.push(integer_value(limit as i64));
        params.push(integer_value(offset as i64));
        match self.fetch(
            "SELECT c.id, c.title, c.created_at, c.title_generated, c.profile_name,
                    COUNT(m.id) AS message_count
             FROM conversations c
             LEFT JOIN messages m ON c.id = m.conversation_id
             GROUP BY c.id, c.title, c.created_at, c.title_generated, c.profile_name
             ORDER BY c.created_at DESC
             LIMIT ?1 OFFSET ?2",
            params,
            6,
        ) {
            Err(e) => Err(e),
            Ok(fetched) => Ok(summaries_of(&fetched, limit as usize)),
        }
    }

    /// The message with the id, as `message_lookup` reads it: `NotFound` when
    /// there is none, `Failed` when the query failed.
    pub fn get_message(&mut self, req: &GetMessageRequest) -> (r: Result<Lookup<Message>, SetupError>)
        ensures
            Self::keeps_handle(*old(self), *final(self)),
            r is Ok <==> final(self).opened(),
            r is Ok ==> final(self).schema_ready(),
    {
        let mut params: Vec<rusqlite::types::Value> = Vec::new();
        params.push(integer_value(req.message_id));
        match self.fetch(
            "SELECT id, conversation_id, role, content, created_at,
                    tool_calls, tool_call_id, tool_name, tool_status,
                    tool_params_json, tool_result_json, reasoning_content
             FROM messages
             WHERE id = ?1",
            params,
            12,
        ) {
            Err(e) => Err(e),
            Ok(fetched) => Ok(message_lookup(&fetched)),
        }
    }

    /// Stores a new note, stamped by the store with the current time, and
    /// returns it with the id the store gave it (see `inserted_entry`), or a
    /// failure with a message when the store could not insert it.
    pub fn store_memory(&mut self, req: &StoreMemoryRequest) -> (r: Result<
        StoreMemoryResponse,
        SetupError,
    >)
        ensures
            Self::keeps_handle(*old(self), *final(self)),
            r is Ok <==> final(self).opened(),
            r is Ok ==> final(self).schema_ready(),
            r matches Ok(resp) ==> (resp.success <==> resp.entry is Some),
            r matches Ok(resp) ==> (resp.entry matches Some(e) ==> {
                &&& e.content == req.content
                &&& e.category == req.category
                &&& e.importance == match req.importance {
                    Some(n) => n,
                    None => DEFAULT_IMPORTANCE,
                }
            }),
    {
        let category = match &req.category {
            Some(c) => Some(c.clone()),
            None => None,
        };
        let mut params: Vec<rusqlite::types::Value> = Vec::new();
        params.push(text_value(Some(req.content.clone())));
        params.push(text_value(category));
        params.push(integer_value(importance_or_default(req.importance) as i64));
        match self.fetch(
            "INSERT INTO memory (content, category, importance, created_at)
             VALUES (?1, ?2, ?3, CAST(strftime('%s', 'now') AS INTEGER))
             RETURNING id, created_at",
            params,
            2,
        ) {
            Err(e) => Err(e),
            Ok(fetched) => Ok(store_response(inserted_entry(req, &fetched))),
        }
    }

    /// Notes holding any of the non-empty keywords, best match first, at most
    /// 10. With no non-empty keyword the store is not touched and the result
    /// is empty; a failed query gives an empty result (see
    /// `memory_entries_of`).
    pub fn search_memory(&mut self, req: &SearchMemoryRequest) -> (r: Result<
        Vec<MemoryEntry>,
        SetupError,
    >)
        ensures
            Self::keeps_handle(*old(self), *final(self)),
            all_blank(req.keywords@) ==> (r matches Ok(v) && v@.len() == 0 && *final(self)
                == *old(self)),
            !all_blank(req.keywords@) ==> (r is Ok <==> final(self).opened()),
            !all_blank(req.keywords@) ==> (r is Ok ==> final(self).schema_ready()),
            r matches Ok(v) ==> v@.len() <= MAX_MEMORY_HITS,
    {
        let query = match match_expression(&req.keywords) {
            None => return Ok(Vec::new()),
            Some(q) => q,
        };
        let mut params: Vec<rusqlite::types::Value> = Vec::new();
        params.push(text_value(Some(query)));
        match self.fetch(
            "SELECT m.id, m.content, m.category, m.importance, m.created_at
             FROM memory m
             JOIN memory_fts ON m.id = memory_fts.rowid
             WHERE memory_fts MATCH ?1
             ORDER BY memory_fts.rank
             LIMIT 10",
            params,
            5,
        ) {
            Err(e) => Err(e),
            Ok(fetched) => Ok(memory_entries_of(&fetched, MAX_MEMORY_HITS)),
        }
    }

    /// Notes of exactly this category, most important first and, among
    /// equally important ones, newest first, at most 50. An empty category
    /// does not touch the store and gives an empty result; a failed query
    /// gives an empty result (see `memory_entries_of`).
    pub fn search_memory_by_category(&mut self, req: &SearchMemoryByCategoryRequest) -> (r: Result<
        Vec<MemoryEntry>,
        SetupError,
    >)
        ensures
            Self::keeps_handle(*old(self), *final(self)),
            req.category@.len() == 0 ==> (r matches Ok(v) && v@.len() == 0 && *final(self)
                == *old(self)),
            req.category@.len() > 0 ==> (r is Ok <==> final(self).opened()),
            req.category@.len() > 0 ==> (r is Ok ==> final(self).schema_ready()),
            r matches Ok(v) ==> v@.len() <= MAX_CATEGORY_HITS,
    {
        if req.category.as_str().unicode_len() == 0 {
            return Ok(Vec::new());
        }
        let mut params: Vec<rusqlite::types::Value> = Vec::new();
        params.push(text_value(Some(req.category.clone())));
        match self.fetch(
            "SELECT id, content, category, importance, created_at
             FROM memory
             WHERE category = ?1
             ORDER BY importance DESC, created_at DESC, id DESC
             LIMIT 50",
            params,
            5,
        ) {
            Err(e) => Err(e),
            Ok(fetched) => Ok(memory_entries_of(&fetched, MAX_CATEGORY_HITS)),
        }
    }

    /// Deletes the note with the id and reports it as `delete_response` does:
    /// success when the store removed a row, "not found" when it removed none,
    /// and a distinct report when the store failed.
    pub fn delete_memory(&mut self, req: &DeleteMemoryRequest) -> (r: Result<
        DeleteMemoryResponse,
        SetupError,
    >)
        ensures
            Self::keeps_handle(*old(self), *final(self)),
            r is Ok <==> final(self).opened(),
            r is Ok ==> final(self).schema_ready(),
            r matches Ok(resp) ==> (resp.success <==> resp.error is None),
    {
        let mut params: Vec<rusqlite::types::Value> = Vec::new();
        params.push(integer_value(req.memory_id));
        match self.run("DELETE FROM memory WHERE id = ?1", params) {
            Err(e) => Err(e),
            Ok(outcome) => Ok(delete_response(outcome)),
        }
    }
}

} // verus!
