use vstd::prelude::*;
use crate::model::{Conversation, ConversationSummary, Lookup, MemoryEntry, Message, SearchResult};
use crate::query::{preview, preview_of};

verus! {

/// One column of a row read from the store: the values the library reads,
/// and `Other` for a real number or a blob.
#[derive(Debug, Clone, PartialEq, Eq)]
pub enum Cell {
    Null,
    Integer(i64),
    Text(String),
    Other,
}

/// An integer column, 0 when it holds no integer.
pub open spec fn int_or_zero(c: Cell) -> i64 {
    match c {
        Cell::Integer(v) => v,
        _ => 0,
    }
}

/// A 32-bit integer column, 0 when it holds no integer in that range.
pub open spec fn small_int_or_zero(c: Cell) -> i32 {
    match c {
        Cell::Integer(v) => if i32::MIN <= v <= i32::MAX { v as i32 } else { 0 },
        _ => 0,
    }
}

/// A text column, empty when it holds no text.
pub open spec fn text_or_empty(c: Cell) -> Seq<char> {
    match c {
        Cell::Text(s) => s@,
        _ => Seq::empty(),
    }
}

/// A nullable text column: `None` when it holds no text.
pub open spec fn text_or_none(c: Cell) -> Option<Seq<char>> {
    match c {
        Cell::Text(s) => Some(s@),
        _ => None,
    }
}

pub open spec fn opt_view(o: Option<String>) -> Option<Seq<char>> {
    match o {
        Some(s) => Some(s@),
        None => None,
    }
}

pub fn int_cell(c: &Cell) -> (r: i64)
    ensures
        r == int_or_zero(*c),
{
    match c {
        Cell::Integer(v) => *v,
        _ => 0,
    }
}

pub fn small_int_cell(c: &Cell) -> (r: i32)
    ensures
        r == small_int_or_zero(*c),
{
    match c {
        Cell::Integer(v) => if i32::MIN as i64 <= *v && *v <= i32::MAX as i64 {
            *v as i32
        } else {
            0
        },
        _ => 0,
    }
}

pub fn text_cell(c: &Cell) -> (r: String)
    ensures
        r@ == text_or_empty(*c),
{
    match c {
        Cell::Text(s) => s.clone(),
        _ => String::new(),
    }
}

pub fn optional_text_cell(c: &Cell) -> (r: Option<String>)
    ensures
        opt_view(r) == text_or_none(*c),
{
    match c {
        Cell::Text(s) => Some(s.clone()),
        _ => None,
    }
}

/// Every row has exactly `width` columns.
pub open spec fn rows_of_width(rows: Seq<Vec<Cell>>, width: nat) -> bool {
    forall|i: int| 0 <= i < rows.len() ==> (#[trigger] rows[i])@.len() == width
}

/// `r` is read from a row `[id, conversation_id, role, content, created_at]`
/// of a message, with the content cut to its preview.
pub open spec fn search_result_from(r: SearchResult, row: Seq<Cell>) -> bool {
    &&& r.message_id == int_or_zero(row[0])
    &&& r.conversation_id@ == text_or_empty(row[1])
    &&& r.role@ == text_or_empty(row[2])
    &&& r.content_preview@ == preview_of(text_or_empty(row[3]))
    &&& r.created_at == int_or_zero(row[4])
}

/// `s` is read from a row
/// `[id, title, created_at, title_generated, profile_name, message_count]`.
pub open spec fn summary_from(s: ConversationSummary, row: Seq<Cell>) -> bool {
    &&& s.id@ == text_or_empty(row[0])
    &&& s.title@ == text_or_empty(row[1])
    &&& s.created_at == int_or_zero(row[2])
    &&& s.title_generated == small_int_or_zero(row[3])
    &&& opt_view(s.profile_name) == text_or_none(row[4])
    &&& s.message_count == int_or_zero(row[5])
}

/// `m` is read from a row `[id, conversation_id, role, content, created_at,
/// tool_calls, tool_call_id, tool_name, tool_status, tool_params_json,
/// tool_result_json, reasoning_content]`.
pub open spec fn message_from(m: Message, row: Seq<Cell>) -> bool {
    &&& m.id == int_or_zero(row[0])
    &&& m.conversation_id@ == text_or_empty(row[1])
    &&& m.role@ == text_or_empty(row[2])
    &&& m.content@ == text_or_empty(row[3])
    &&& m.created_at == int_or_zero(row[4])
    &&& opt_view(m.tool_calls) == text_or_none(row[5])
    &&& opt_view(m.tool_call_id) == text_or_none(row[6])
    &&& opt_view(m.tool_name) == text_or_none(row[7])
    &&& opt_view(m.tool_status) == text_or_none(row[8])
    &&& opt_view(m.tool_params_json) == text_or_none(row[9])
    &&& opt_view(m.tool_result_json) == text_or_none(row[10])
    &&& opt_view(m.reasoning_content) == text_or_none(row[11])
}

/// `e` is read from a row `[id, content, category, importance, created_at]`.
pub open spec fn memory_entry_from(e: MemoryEntry, row: Seq<Cell>) -> bool {
    &&& e.id == int_or_zero(row[0])
    &&& e.content@ == text_or_empty(row[1])
    &&& opt_view(e.category) == text_or_none(row[2])
    &&& e.importance == small_int_or_zero(row[3])
    &&& e.created_at == int_or_zero(row[4])
}

/// `c` is read from a row `[id, title, created_at, title_generated,
/// profile_name]` and holds no messages yet.
pub open spec fn conversation_header_from(c: Conversation, row: Seq<Cell>) -> bool {
    &&& c.id@ == text_or_empty(row[0])
    &&& c.title@ == text_or_empty(row[1])
    &&& c.created_at == int_or_zero(row[2])
    &&& c.title_generated == small_int_or_zero(row[3])
    &&& opt_view(c.profile_name) == text_or_none(row[4])
}

pub fn search_result_of(row: &Vec<Cell>) -> (r: SearchResult)
    requires
        row@.len() == 5,
    ensures
        search_result_from(r, row@),
{
    let content = text_cell(&row[3]);
    SearchResult {
        message_id: int_cell(&row[0]),
        conversation_id: text_cell(&row[1]),
        role: text_cell(&row[2]),
        content_preview: preview(content.as_str()),
        created_at: int_cell(&row[4]),
    }
}

pub fn summary_of(row: &Vec<Cell>) -> (r: ConversationSummary)
    requires
        row@.len() == 6,
    ensures
        summary_from(r, row@),
{
    ConversationSummary {
        id: text_cell(&row[0]),
        title: text_cell(&row[1]),
        created_at: int_cell(&row[2]),
        title_generated: small_int_cell(&row[3]),
        profile_name: optional_text_cell(&row[4]),
        message_count: int_cell(&row[5]),
    }
}

pub fn message_of(row: &Vec<Cell>) -> (r: Message)
    requires
        row@.len() == 12,
    ensures
        message_from(r, row@),
{
    Message {
        id: int_cell(&row[0]),
        conversation_id: text_cell(&row[1]),
        role: text_cell(&row[2]),
        content: text_cell(&row[3]),
        created_at: int_cell(&row[4]),
        tool_calls: optional_text_cell(&row[5]),
        tool_call_id: optional_text_cell(&row[6]),
        tool_name: optional_text_cell(&row[7]),
        tool_status: optional_text_cell(&row[8]),
        tool_params_json: optional_text_cell(&row[9]),
        tool_result_json: optional_text_cell(&row[10]),
        reasoning_content: optional_text_cell(&row[11]),
    }
}

pub fn memory_entry_of(row: &Vec<Cell>) -> (r: MemoryEntry)
    requires
        row@.len() == 5,
    ensures
        memory_entry_from(r, row@),
{
    MemoryEntry {
        id: int_cell(&row[0]),
        content: text_cell(&row[1]),
        category: optional_text_cell(&row[2]),
        importance: small_int_cell(&row[3]),
        created_at: int_cell(&row[4]),
    }
}

pub open spec fn min_len(n: nat, cap: nat) -> nat {
    if n <= cap { n } else { cap }
}

/// `v` is the first `cap` of the message rows, in their order, read as
/// search results.
pub open spec fn search_results_read(v: Seq<SearchResult>, rows: Seq<Vec<Cell>>, cap: nat) -> bool {
    &&& rows_of_width(rows, 5)
    &&& v.len() == min_len(rows.len(), cap)
    &&& forall|i: int| 0 <= i < v.len() ==> search_result_from(#[trigger] v[i], rows[i]@)
}

/// `v` is the first `cap` of the conversation rows, in their order, read as
/// summaries.
pub open spec fn summaries_read(v: Seq<ConversationSummary>, rows: Seq<Vec<Cell>>, cap: nat) -> bool {
    &&& rows_of_width(rows, 6)
    &&& v.len() == min_len(rows.len(), cap)
    &&& forall|i: int| 0 <= i < v.len() ==> summary_from(#[trigger] v[i], rows[i]@)
}

/// `v` is the first `cap` of the note rows, in their order, read as memory
/// entries.
pub open spec fn memory_entries_read(v: Seq<MemoryEntry>, rows: Seq<Vec<Cell>>, cap: nat) -> bool {
    &&& rows_of_width(rows, 5)
    &&& v.len() == min_len(rows.len(), cap)
    &&& forall|i: int| 0 <= i < v.len() ==> memory_entry_from(#[trigger] v[i], rows[i]@)
}

/// What the lookup of one message yields from the rows with its id.
pub open spec fn message_lookup_from(r: Lookup<Message>, rows: Seq<Vec<Cell>>) -> bool {
    &&& rows_of_width(rows, 12)
    &&& (rows.len() == 0 ==> r == Lookup::<Message>::NotFound)
    &&& (rows.len() > 0 ==> (r matches Lookup::Found(m) && message_from(m, rows[0]@)))
}

/// The first `cap` message rows, in their order, as search results.
pub fn search_results_from_rows(rows: &Vec<Vec<Cell>>, cap: usize) -> (r: Vec<SearchResult>)
    requires
        rows_of_width(rows@, 5),
    ensures
        search_results_read(r@, rows@, cap as nat),
{
    let mut out: Vec<SearchResult> = Vec::new();
    let mut i: usize = 0;
    while i < rows.len() && i < cap
        invariant
            i <= rows@.len(),
            i <= cap,
            rows_of_width(rows@, 5),
            out@.len() == i,
            forall|j: int| 0 <= j < i ==> search_result_from(#[trigger] out@[j], rows@[j]@),
        decreases rows@.len() - i,
    {
        assert(rows@[i as int]@.len() == 5);
        out.push(search_result_of(&rows[i]));
        i += 1;
    }
    out
}

/// The first `cap` conversation rows, in their order, as summaries.
pub fn summaries_from_rows(rows: &Vec<Vec<Cell>>, cap: usize) -> (r: Vec<ConversationSummary>)
    requires
        rows_of_width(rows@, 6),
    ensures
        summaries_read(r@, rows@, cap as nat),
{
    let mut out: Vec<ConversationSummary> = Vec::new();
    let mut i: usize = 0;
    while i < rows.len() && i < cap
        invariant
            i <= rows@.len(),
            i <= cap,
            rows_of_width(rows@, 6),
            out@.len() == i,
            forall|j: int| 0 <= j < i ==> summary_from(#[trigger] out@[j], rows@[j]@),
        decreases rows@.len() - i,
    {
        assert(rows@[i as int]@.len() == 6);
        out.push(summary_of(&rows[i]));
        i += 1;
    }
    out
}

/// All message rows, in their order, as messages.
pub fn messages_from_rows(rows: &Vec<Vec<Cell>>) -> (r: Vec<Message>)
    requires
        rows_of_width(rows@, 12),
    ensures
        r@.len() == rows@.len(),
        forall|i: int| 0 <= i < r@.len() ==> message_from(#[trigger] r@[i], rows@[i]@),
{
    let mut out: Vec<Message> = Vec::new();
    let mut i: usize = 0;
    while i < rows.len()
        invariant
            i <= rows@.len(),
            rows_of_width(rows@, 12),
            out@.len() == i,
            forall|j: int| 0 <= j < i ==> message_from(#[trigger] out@[j], rows@[j]@),
        decreases rows@.len() - i,
    {
        assert(rows@[i as int]@.len() == 12);
        out.push(message_of(&rows[i]));
        i += 1;
    }
    out
}

/// The first `cap` note rows, in their order, as memory entries.
pub fn memory_entries_from_rows(rows: &Vec<Vec<Cell>>, cap: usize) -> (r: Vec<MemoryEntry>)
    requires
        rows_of_width(rows@, 5),
    ensures
        memory_entries_read(r@, rows@, cap as nat),
{
    let mut out: Vec<MemoryEntry> = Vec::new();
    let mut i: usize = 0;
    while i < rows.len() && i < cap
        invariant
            i <= rows@.len(),
            i <= cap,
            rows_of_width(rows@, 5),
            out@.len() == i,
            forall|j: int| 0 <= j < i ==> memory_entry_from(#[trigger] out@[j], rows@[j]@),
        decreases rows@.len() - i,
    {
        assert(rows@[i as int]@.len() == 5);
        out.push(memory_entry_of(&rows[i]));
        i += 1;
    }
    out
}

/// What the lookup of one conversation yields from its header rows and the
/// rows of its messages.
pub open spec fn conversation_lookup_from(
    r: Lookup<Conversation>,
    header: Seq<Vec<Cell>>,
    messages: Seq<Vec<Cell>>,
) -> bool {
    if header.len() == 0 {
        r == Lookup::<Conversation>::NotFound
    } else {
        r matches Lookup::Found(c) && conversation_header_from(c, header[0]@) && c.messages@.len()
            == messages.len() && forall|i: int|
            0 <= i < messages.len() ==> message_from(#[trigger] c.messages@[i], messages[i]@)
    }
}

/// The conversation described by the first header row, holding the given
/// message rows in their order; `NotFound` when there is no header row.
pub fn conversation_from_rows(header: &Vec<Vec<Cell>>, messages: &Vec<Vec<Cell>>) -> (r: Lookup<
    Conversation,
>)
    requires
        rows_of_width(header@, 5),
        rows_of_width(messages@, 12),
    ensures
        conversation_lookup_from(r, header@, messages@),
{
    if header.len() == 0 {
        return Lookup::NotFound;
    }
    let row = &header[0];
    assert(header@[0]@.len() == 5);
    Lookup::Found(
        Conversation {
            id: text_cell(&row[0]),
            title: text_cell(&row[1]),
            created_at: int_cell(&row[2]),
            title_generated: small_int_cell(&row[3]),
            profile_name: optional_text_cell(&row[4]),
            messages: messages_from_rows(messages),
        },
    )
}

/// The message described by the first row; `NotFound` when there is none.
pub fn message_from_rows(rows: &Vec<Vec<Cell>>) -> (r: Lookup<Message>)
    requires
        rows_of_width(rows@, 12),
    ensures
        message_lookup_from(r, rows@),
{
    if rows.len() == 0 {
        return Lookup::NotFound;
    }
    assert(rows@[0]@.len() == 12);
    Lookup::Found(message_of(&rows[0]))
}

/// The search results read from what the query returned: none when the
/// query failed.
pub fn search_results_of(fetched: &Option<Vec<Vec<Cell>>>, cap: usize) -> (r: Vec<SearchResult>)
    requires
        fetched matches Some(rows) ==> rows_of_width(rows@, 5),
    ensures
        fetched is None ==> r@.len() == 0,
        fetched matches Some(rows) ==> search_results_read(r@, rows@, cap as nat),
        forall|i: int| 0 <= i < r@.len() ==> (#[trigger] r@[i]).content_preview@.len() <= 200,
{
    match fetched {
        None => Vec::new(),
        Some(rows) => {
            let r = search_results_from_rows(rows, cap);
            assert forall|i: int| 0 <= i < r@.len() implies (
            #[trigger] r@[i]).content_preview@.len() <= 200 by {
                assert(search_result_from(r@[i], rows@[i]@));
            }
            r
        },
    }
}

/// The summaries read from what the query returned: none when the query
/// failed.
pub fn summaries_of(fetched: &Option<Vec<Vec<Cell>>>, cap: usize) -> (r: Vec<ConversationSummary>)
    requires
        fetched matches Some(rows) ==> rows_of_width(rows@, 6),
    ensures
        fetched is None ==> r@.len() == 0,
        fetched matches Some(rows) ==> summaries_read(r@, rows@, cap as nat),
{
    match fetched {
        None => Vec::new(),
        Some(rows) => summaries_from_rows(rows, cap),
    }
}

/// The notes read from what the query returned: none when the query failed.
pub fn memory_entries_of(fetched: &Option<Vec<Vec<Cell>>>, cap: usize) -> (r: Vec<MemoryEntry>)
    requires
        fetched matches Some(rows) ==> rows_of_width(rows@, 5),
    ensures
        fetched is None ==> r@.len() == 0,
        fetched matches Some(rows) ==> memory_entries_read(r@, rows@, cap as nat),
{
    match fetched {
        None => Vec::new(),
        Some(rows) => memory_entries_from_rows(rows, cap),
    }
}

/// The lookup of one message from what its query returned: `Failed` when
/// the query failed.
pub fn message_lookup(fetched: &Option<Vec<Vec<Cell>>>) -> (r: Lookup<Message>)
    requires
        fetched matches Some(rows) ==> rows_of_width(rows@, 12),
    ensures
        fetched is None ==> r == Lookup::<Message>::Failed,
        fetched matches Some(rows) ==> message_lookup_from(r, rows@),
{
    match fetched {
        None => Lookup::Failed,
        Some(rows) => message_from_rows(rows),
    }
}

/// Whether the messages of a conversation are to be fetched: only when its
/// header was found.
pub fn header_found(header: &Option<Vec<Vec<Cell>>>) -> (r: bool)
    ensures
        r == (header matches Some(rows) && rows@.len() > 0),
{
    match header {
        None => false,
        Some(rows) => rows.len() > 0,
    }
}

/// The lookup of one conversation from what its two queries returned:
/// `Failed` when the header query failed, `NotFound` when it found no row
/// (the messages are then not fetched), and otherwise the conversation of
/// the first header row with the messages read, or no messages when their
/// query failed.
pub fn conversation_lookup(
    header: &Option<Vec<Vec<Cell>>>,
    messages: &Option<Vec<Vec<Cell>>>,
) -> (r: Lookup<Conversation>)
    requires
        header matches Some(rows) ==> rows_of_width(rows@, 5),
        messages matches Some(rows) ==> rows_of_width(rows@, 12),
    ensures
        header is None ==> r == Lookup::<Conversation>::Failed,
        header matches Some(h) ==> (messages matches Some(m) ==> conversation_lookup_from(
            r,
            h@,
            m@,
        )),
        messages is None ==> (header matches Some(h) ==> conversation_lookup_from(
            r,
            h@,
            Seq::empty(),
        )),
{
    match header {
        None => Lookup::Failed,
        Some(h) => match messages {
            Some(m) => conversation_from_rows(h, m),
            None => {
                let none: Vec<Vec<Cell>> = Vec::new();
                let r = conversation_from_rows(h, &none);
                assert(none@ =~= Seq::<Vec<Cell>>::empty());
                r
            },
        },
    }
}

/// A search keeps every row the store returned within the cap, in the
/// order the store returned them: each message reaches the results with its
/// id and conversation, and rows that come newest first stay newest first.
pub proof fn lemma_search_keeps_rows(v: Seq<SearchResult>, rows: Seq<Vec<Cell>>, cap: nat)
    requires
        search_results_read(v, rows, cap),
        rows.len() <= cap,
    ensures
        v.len() == rows.len(),
        forall|i: int|
            0 <= i < rows.len() ==> (#[trigger] v[i]).message_id == int_or_zero(rows[i]@[0])
                && v[i].conversation_id@ == text_or_empty(rows[i]@[1]),
        (forall|i: int, j: int|
            0 <= i < j < rows.len() ==> int_or_zero(#[trigger] rows[i]@[4]) >= int_or_zero(
                #[trigger] rows[j]@[4],
            )) ==> (forall|i: int, j: int|
            0 <= i < j < v.len() ==> (#[trigger] v[i]).created_at >= (#[trigger] v[j]).created_at),
{
}

} // verus!
