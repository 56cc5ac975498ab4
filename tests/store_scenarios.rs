use chat_memory::model::{
    DeleteMemoryRequest, GetConversationRequest, GetMessageRequest, ListConversationsRequest,
    Lookup, MemoryEntry, SearchConversationsRequest, SearchMemoryByCategoryRequest,
    SearchMemoryRequest, SearchTitlesRequest, StoreMemoryRequest,
};
use chat_memory::schema::{SchemaStep, SetupStage};
use chat_memory::service::ConversationService;
use rusqlite::Connection;

/// A shared in-memory database, alive while the returned connection is.
fn archive(name: &str) -> (String, Connection) {
    let path = format!("file:{}?mode=memory&cache=shared", name);
    let conn = Connection::open(&path).unwrap();
    conn.execute_batch(
        "CREATE TABLE conversations (
            id TEXT PRIMARY KEY, title TEXT, created_at INTEGER,
            title_generated INTEGER, profile_name TEXT);
         CREATE TABLE messages (
            id INTEGER PRIMARY KEY, conversation_id TEXT, role TEXT, content TEXT,
            created_at INTEGER, tool_calls TEXT, tool_call_id TEXT, tool_name TEXT,
            tool_status TEXT, tool_params_json TEXT, tool_result_json TEXT,
            reasoning_content TEXT);
         CREATE VIRTUAL TABLE messages_fts USING fts5(
            content, content='messages', content_rowid='id');",
    )
    .unwrap();
    (path, conn)
}

fn add_conversation(conn: &Connection, id: &str, title: &str, created_at: i64) {
    conn.execute(
        "INSERT INTO conversations (id, title, created_at, title_generated, profile_name)
         VALUES (?1, ?2, ?3, 0, NULL)",
        (id, title, created_at),
    )
    .unwrap();
}

fn add_message(conn: &Connection, id: i64, conversation: &str, content: &str, created_at: i64) {
    conn.execute(
        "INSERT INTO messages (id, conversation_id, role, content, created_at)
         VALUES (?1, ?2, 'user', ?3, ?4)",
        (id, conversation, content, created_at),
    )
    .unwrap();
}

fn reindex(conn: &Connection) {
    conn.execute("INSERT INTO messages_fts(messages_fts) VALUES ('rebuild')", []).unwrap();
}

fn keywords(ws: &[&str]) -> Vec<String> {
    ws.iter().map(|w| w.to_string()).collect()
}

fn store(svc: &mut ConversationService, content: &str, category: Option<&str>, importance: Option<i32>) -> MemoryEntry {
    svc.store_memory(&StoreMemoryRequest {
        content: content.to_string(),
        category: category.map(|c| c.to_string()),
        importance,
    })
    .unwrap()
    .entry
    .unwrap()
}

fn now() -> i64 {
    std::time::SystemTime::now().duration_since(std::time::UNIX_EPOCH).unwrap().as_secs() as i64
}

#[test]
fn blank_keywords_give_empty_results_without_opening() {
    let mut svc = ConversationService::new("/nonexistent-directory/archive.db");
    let none = svc.search_conversations(&SearchConversationsRequest { keywords: Vec::new() }).unwrap();
    assert!(none.is_empty());
    let blank = svc.search_memory(&SearchMemoryRequest { keywords: keywords(&["", ""]) }).unwrap();
    assert!(blank.is_empty());
    let by_cat = svc
        .search_memory_by_category(&SearchMemoryByCategoryRequest { category: String::new() })
        .unwrap();
    assert!(by_cat.is_empty());
    assert!(!svc.is_open());
}

#[test]
fn unopenable_store_reports_setup_failure() {
    let mut svc = ConversationService::new("/nonexistent-directory/archive.db");
    let err = svc.search_memory(&SearchMemoryRequest { keywords: keywords(&["x"]) }).unwrap_err();
    assert_eq!(err.stage, SetupStage::Open);
    assert!(err.message().starts_with("Failed to open database connection"));
    assert!(!svc.is_open());
}

#[test]
fn store_opens_lazily_once() {
    let (path, _keep) = archive("lazy_open");
    let mut svc = ConversationService::new(&path);
    assert!(!svc.is_open());
    store(&mut svc, "first note", None, None);
    assert!(svc.is_open());
    store(&mut svc, "second note", None, None);
    assert!(svc.is_open());
}

#[test]
fn schema_steps_run_in_order() {
    let mut step = SchemaStep::first();
    let mut seen = vec![step];
    while let Some(next) = step.next() {
        seen.push(next);
        step = next;
    }
    assert_eq!(
        seen,
        vec![
            SchemaStep::MemoryTable,
            SchemaStep::MemoryIndex,
            SchemaStep::InsertHook,
            SchemaStep::DeleteHook,
            SchemaStep::RebuildIndex
        ]
    );
    assert_eq!(SchemaStep::MemoryTable.description(), "create memory table");
}

#[test]
fn schema_indexes_notes_written_before_it() {
    let (path, keep) = archive("prior_notes");
    keep.execute_batch(
        "CREATE TABLE memory (id INTEGER PRIMARY KEY AUTOINCREMENT, content TEXT NOT NULL,
            category TEXT, importance INTEGER DEFAULT 5, created_at INTEGER);
         INSERT INTO memory (content, category, importance, created_at)
            VALUES ('legacy fact about gardening', NULL, 5, 1);",
    )
    .unwrap();
    let mut svc = ConversationService::new(&path);
    let hits = svc.search_memory(&SearchMemoryRequest { keywords: keywords(&["gardening"]) }).unwrap();
    assert_eq!(hits.len(), 1);
    assert_eq!(hits[0].content, "legacy fact about gardening");
}

#[test]
fn memory_search_round_trip() {
    let (path, _keep) = archive("round_trip");
    let mut svc = ConversationService::new(&path);
    let entry = store(&mut svc, "the deploy key lives in the vault", Some("ops"), Some(6));
    let found = svc.search_memory(&SearchMemoryRequest { keywords: keywords(&["vault"]) }).unwrap();
    assert_eq!(found, vec![entry.clone()]);
    let deleted = svc.delete_memory(&DeleteMemoryRequest { memory_id: entry.id }).unwrap();
    assert!(deleted.success);
    let again = svc.search_memory(&SearchMemoryRequest { keywords: keywords(&["vault"]) }).unwrap();
    assert!(again.is_empty());
}

#[test]
fn memory_search_matches_any_keyword_and_caps_at_ten() {
    let (path, _keep) = archive("memory_cap");
    let mut svc = ConversationService::new(&path);
    for i in 0..12 {
        store(&mut svc, &format!("alpha note {}", i), None, None);
    }
    store(&mut svc, "beta only", None, None);
    store(&mut svc, "gamma only", None, None);
    let hits = svc.search_memory(&SearchMemoryRequest { keywords: keywords(&["alpha", "beta"]) }).unwrap();
    assert_eq!(hits.len(), 10);
    let few = svc.search_memory(&SearchMemoryRequest { keywords: keywords(&["beta", "gamma"]) }).unwrap();
    assert_eq!(few.len(), 2);
}

#[test]
fn get_conversation_unknown_id_is_not_found() {
    let (path, keep) = archive("missing_conversation");
    add_conversation(&keep, "c1", "Existing", 10);
    let mut svc = ConversationService::new(&path);
    let r = svc.get_conversation(&GetConversationRequest { conversation_id: "nope".to_string() }).unwrap();
    assert_eq!(r, Lookup::NotFound);
}

#[test]
fn get_conversation_returns_messages_oldest_first() {
    let (path, keep) = archive("full_conversation");
    add_conversation(&keep, "c1", "Chat", 10);
    add_message(&keep, 1, "c1", "later", 30);
    add_message(&keep, 2, "c1", "earlier", 20);
    add_message(&keep, 3, "c2", "elsewhere", 25);
    let mut svc = ConversationService::new(&path);
    match svc.get_conversation(&GetConversationRequest { conversation_id: "c1".to_string() }).unwrap() {
        Lookup::Found(c) => {
            assert_eq!(c.title, "Chat");
            assert_eq!(c.created_at, 10);
            let contents: Vec<&str> = c.messages.iter().map(|m| m.content.as_str()).collect();
            assert_eq!(contents, vec!["earlier", "later"]);
        }
        other => panic!("unexpected {:?}", other),
    }
}

#[test]
fn missing_conversation_tables_fail_only_their_operations() {
    let path = "file:no_conversations?mode=memory&cache=shared".to_string();
    let _keep = Connection::open(&path).unwrap();
    let mut svc = ConversationService::new(&path);
    let r = svc.get_conversation(&GetConversationRequest { conversation_id: "c1".to_string() }).unwrap();
    assert_eq!(r, Lookup::Failed);
    let m = svc.get_message(&GetMessageRequest { message_id: 1 }).unwrap();
    assert_eq!(m, Lookup::Failed);
    let listed = svc.list_conversations(&ListConversationsRequest { limit: None, offset: None }).unwrap();
    assert!(listed.is_empty());
    let stored = store(&mut svc, "still works", None, None);
    assert_eq!(stored.content, "still works");
}

#[test]
fn get_message_by_id() {
    let (path, keep) = archive("single_message");
    add_conversation(&keep, "c1", "Chat", 10);
    add_message(&keep, 7, "c1", "hello there", 11);
    let mut svc = ConversationService::new(&path);
    match svc.get_message(&GetMessageRequest { message_id: 7 }).unwrap() {
        Lookup::Found(m) => {
            assert_eq!(m.conversation_id, "c1");
            assert_eq!(m.content, "hello there");
            assert_eq!(m.tool_calls, None);
        }
        other => panic!("unexpected {:?}", other),
    }
    assert_eq!(svc.get_message(&GetMessageRequest { message_id: 8 }).unwrap(), Lookup::NotFound);
}

#[test]
fn list_conversations_pages_by_recency() {
    let (path, keep) = archive("paging");
    for i in 0..5 {
        add_conversation(&keep, &format!("c{}", i), &format!("T{}", i), 100 + i);
    }
    add_message(&keep, 1, "c4", "a", 1);
    add_message(&keep, 2, "c4", "b", 2);
    let mut svc = ConversationService::new(&path);
    let all = svc.list_conversations(&ListConversationsRequest { limit: None, offset: None }).unwrap();
    let ids: Vec<&str> = all.iter().map(|c| c.id.as_str()).collect();
    assert_eq!(ids, vec!["c4", "c3", "c2", "c1", "c0"]);
    assert_eq!(all[0].message_count, 2);
    assert_eq!(all[1].message_count, 0);
    let page = svc.list_conversations(&ListConversationsRequest { limit: Some(2), offset: Some(1) }).unwrap();
    let ids: Vec<&str> = page.iter().map(|c| c.id.as_str()).collect();
    assert_eq!(ids, vec!["c3", "c2"]);
    let zero = svc.list_conversations(&ListConversationsRequest { limit: Some(0), offset: None }).unwrap();
    assert!(zero.is_empty());
}

#[test]
fn list_conversations_never_exceeds_two_hundred() {
    let (path, keep) = archive("page_cap");
    for i in 0..205 {
        add_conversation(&keep, &format!("c{}", i), "t", i);
    }
    let mut svc = ConversationService::new(&path);
    let big = svc.list_conversations(&ListConversationsRequest { limit: Some(1000), offset: None }).unwrap();
    assert_eq!(big.len(), 200);
    let default = svc.list_conversations(&ListConversationsRequest { limit: None, offset: None }).unwrap();
    assert_eq!(default.len(), 50);
    let tail = svc.list_conversations(&ListConversationsRequest { limit: Some(200), offset: Some(200) }).unwrap();
    assert_eq!(tail.len(), 5);
}

#[test]
fn search_titles_matches_fragment() {
    let (path, keep) = archive("titles");
    add_conversation(&keep, "a", "Rust lifetimes", 1);
    add_conversation(&keep, "b", "Cooking pasta", 2);
    add_conversation(&keep, "c", "More rust tips", 3);
    let mut svc = ConversationService::new(&path);
    let hits = svc.search_conversation_titles(&SearchTitlesRequest { query: "rust".to_string() }).unwrap();
    let ids: Vec<&str> = hits.iter().map(|c| c.id.as_str()).collect();
    assert_eq!(ids, vec!["c", "a"]);
}

#[test]
fn delete_unknown_memory_is_not_found() {
    let (path, _keep) = archive("delete_missing");
    let mut svc = ConversationService::new(&path);
    let r = svc.delete_memory(&DeleteMemoryRequest { memory_id: 12345 }).unwrap();
    assert!(!r.success);
    assert_eq!(r.error, Some("Memory entry not found".to_string()));
}

#[test]
fn delete_existing_memory_removes_it() {
    let (path, _keep) = archive("delete_existing");
    let mut svc = ConversationService::new(&path);
    let e = store(&mut svc, "temporary reminder", Some("todo"), None);
    let r = svc.delete_memory(&DeleteMemoryRequest { memory_id: e.id }).unwrap();
    assert!(r.success);
    assert_eq!(r.error, None);
    let left = svc
        .search_memory_by_category(&SearchMemoryByCategoryRequest { category: "todo".to_string() })
        .unwrap();
    assert!(left.is_empty());
    let again = svc.delete_memory(&DeleteMemoryRequest { memory_id: e.id }).unwrap();
    assert!(!again.success);
}

#[test]
fn store_memory_preference_scenario() {
    let (path, _keep) = archive("preferences");
    let mut svc = ConversationService::new(&path);
    let lower = store(&mut svc, "user likes tabs", Some("preferences"), Some(3));
    let before = now();
    let e = store(&mut svc, "user prefers dark mode", Some("preferences"), Some(8));
    let after = now();
    assert!(e.id > 0);
    assert_ne!(e.id, lower.id);
    assert_eq!(e.content, "user prefers dark mode");
    assert_eq!(e.category, Some("preferences".to_string()));
    assert_eq!(e.importance, 8);
    assert!(before <= e.created_at && e.created_at <= after);
    store(&mut svc, "other category", Some("work"), Some(10));
    let ranked = svc
        .search_memory_by_category(&SearchMemoryByCategoryRequest { category: "preferences".to_string() })
        .unwrap();
    assert_eq!(ranked, vec![e, lower]);
}

#[test]
fn store_memory_defaults_importance() {
    let (path, _keep) = archive("default_importance");
    let mut svc = ConversationService::new(&path);
    let e = store(&mut svc, "no importance given", None, None);
    assert_eq!(e.importance, 5);
    assert_eq!(e.category, None);
}

#[test]
fn search_conversations_rust_async_scenario() {
    let (path, keep) = archive("rust_async");
    add_conversation(&keep, "c1", "One", 1);
    add_conversation(&keep, "c2", "Two", 2);
    let long = format!("async {}", "x".repeat(400));
    add_message(&keep, 1, "c1", "I love rust", 10);
    add_message(&keep, 2, "c2", &long, 20);
    add_message(&keep, 3, "c2", "nothing relevant here", 30);
    reindex(&keep);
    let mut svc = ConversationService::new(&path);
    let hits = svc
        .search_conversations(&SearchConversationsRequest { keywords: keywords(&["rust", "async"]) })
        .unwrap();
    let ids: Vec<i64> = hits.iter().map(|h| h.message_id).collect();
    assert_eq!(ids, vec![2, 1]);
    assert_eq!(hits[0].conversation_id, "c2");
    assert_eq!(hits[0].content_preview.chars().count(), 200);
    assert_eq!(hits[1].content_preview, "I love rust");
    assert!(hits.iter().all(|h| h.content_preview.chars().count() <= 200));
}

#[test]
fn memory_schema_is_idempotent() {
    let conn = Connection::open_in_memory().unwrap();
    chat_memory::schema::init_memory_schema(&conn).unwrap();
    conn.execute("INSERT INTO memory (content, importance, created_at) VALUES ('kept note', 5, 1)", [])
        .unwrap();
    chat_memory::schema::init_memory_schema(&conn).unwrap();
    let n: i64 = conn.query_row("SELECT COUNT(*) FROM memory_fts WHERE memory_fts MATCH 'kept'", [], |r| r.get(0)).unwrap();
    assert_eq!(n, 1);
}

#[test]
fn setup_error_message_names_the_step() {
    let e = chat_memory::schema::SetupError {
        stage: SetupStage::Schema(SchemaStep::InsertHook),
        detail: "no such table: memory".to_string(),
    };
    assert_eq!(e.message(), "Failed to create memory_ai trigger: no such table: memory");
}

#[test]
fn failed_insert_reports_failure() {
    let path = "file:read_only_memory?mode=memory&cache=shared".to_string();
    let keep = Connection::open(&path).unwrap();
    let mut svc = ConversationService::new(&path);
    store(&mut svc, "first", None, None);
    keep.execute_batch(
        "CREATE TRIGGER refuse BEFORE INSERT ON memory BEGIN SELECT RAISE(ABORT, 'refused'); END;",
    )
    .unwrap();
    let r = svc
        .store_memory(&StoreMemoryRequest { content: "second".to_string(), category: None, importance: None })
        .unwrap();
    assert!(!r.success);
    assert_eq!(r.entry, None);
    assert_eq!(r.error, Some("Failed to store memory entry".to_string()));
}

#[test]
fn failed_queries_give_empty_results() {
    let path = "file:no_archive_tables?mode=memory&cache=shared".to_string();
    let _keep = Connection::open(&path).unwrap();
    let mut svc = ConversationService::new(&path);
    let hits = svc
        .search_conversations(&SearchConversationsRequest { keywords: keywords(&["rust"]) })
        .unwrap();
    assert!(hits.is_empty());
    let titles = svc.search_conversation_titles(&SearchTitlesRequest { query: "x".to_string() }).unwrap();
    assert!(titles.is_empty());
    let bad = svc.search_memory(&SearchMemoryRequest { keywords: keywords(&["\"unbalanced"]) }).unwrap();
    assert!(bad.is_empty());
}
