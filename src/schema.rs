//! The memory table, its full-text index, and the hooks that keep the index
//! equal to the table.

use vstd::prelude::*;
use crate::sqlite::{error_text, execute_sql};

verus! {

/// The statements that bring a store to the memory schema, in the order
/// they run. Each is safe to run again on a store that already has it.
#[derive(Debug, Clone, Copy, PartialEq, Eq)]
pub enum SchemaStep {
    MemoryTable,
    MemoryIndex,
    InsertHook,
    DeleteHook,
    RebuildIndex,
}

/// Where setting up the store failed.
#[derive(Debug, Clone, Copy, PartialEq, Eq)]
pub enum SetupStage {
    Open,
    Schema(SchemaStep),
}

/// The store could not be opened or brought to the schema.
#[derive(Debug, Clone, PartialEq, Eq)]
pub struct SetupError {
    pub stage: SetupStage,
    pub detail: String,
}

impl SchemaStep {
    /// Position of the step in the order the steps run.
    pub open spec fn position(self) -> nat {
        match self {
            SchemaStep::MemoryTable => 0,
            SchemaStep::MemoryIndex => 1,
            SchemaStep::InsertHook => 2,
            SchemaStep::DeleteHook => 3,
            SchemaStep::RebuildIndex => 4,
        }
    }

    /// The step that runs first.
    pub fn first() -> (r: SchemaStep)
        ensures
            r.position() == 0,
    {
        SchemaStep::MemoryTable
    }

    /// The step that runs after this one, `None` after the last.
    pub fn next(self) -> (r: Option<SchemaStep>)
        ensures
            self.position() < 4 ==> (r matches Some(s) && s.position() == self.position() + 1),
            self.position() == 4 ==> r is None,
    {
        match self {
            SchemaStep::MemoryTable => Some(SchemaStep::MemoryIndex),
            SchemaStep::MemoryIndex => Some(SchemaStep::InsertHook),
            SchemaStep::InsertHook => Some(SchemaStep::DeleteHook),
            SchemaStep::DeleteHook => Some(SchemaStep::RebuildIndex),
            SchemaStep::RebuildIndex => None,
        }
    }

    /// The statement of this step.
    pub open spec fn statement_of(self) -> Seq<char> {
        match self {
            SchemaStep::MemoryTable =>
                "CREATE TABLE IF NOT EXISTS memory (
                    id INTEGER PRIMARY KEY AUTOINCREMENT,
                    content TEXT NOT NULL,
                    category TEXT,
                    importance INTEGER DEFAULT 5,
                    created_at INTEGER
                )"@,
            SchemaStep::MemoryIndex =>
                "CREATE VIRTUAL TABLE IF NOT EXISTS memory_fts USING fts5(
                    content,
                    content='memory',
                    content_rowid='id'
                )"@,
            SchemaStep::InsertHook =>
                "CREATE TRIGGER IF NOT EXISTS memory_ai AFTER INSERT ON memory BEGIN
                    INSERT INTO memory_fts(rowid, content) VALUES (new.id, new.content);
                END"@,
            SchemaStep::DeleteHook =>
                "CREATE TRIGGER IF NOT EXISTS memory_ad AFTER DELETE ON memory BEGIN
                    INSERT INTO memory_fts(memory_fts, rowid, content)
                    VALUES ('delete', old.id, old.content);
                END"@,
            SchemaStep::RebuildIndex => "INSERT INTO memory_fts(memory_fts) VALUES ('rebuild')"@,
        }
    }


    /// The statement of this step.
    pub fn sql(self) -> (r: &'static str)
        ensures
            r@ == self.statement_of(),
    {
        match self {
            SchemaStep::MemoryTable =>
                "CREATE TABLE IF NOT EXISTS memory (
                    id INTEGER PRIMARY KEY AUTOINCREMENT,
                    content TEXT NOT NULL,
                    category TEXT,
                    importance INTEGER DEFAULT 5,
                    created_at INTEGER
                )",
            SchemaStep::MemoryIndex =>
                "CREATE VIRTUAL TABLE IF NOT EXISTS memory_fts USING fts5(
                    content,
                    content='memory',
                    content_rowid='id'
                )",
            SchemaStep::InsertHook =>
                "CREATE TRIGGER IF NOT EXISTS memory_ai AFTER INSERT ON memory BEGIN
                    INSERT INTO memory_fts(rowid, content) VALUES (new.id, new.content);
                END",
            SchemaStep::DeleteHook =>
                "CREATE TRIGGER IF NOT EXISTS memory_ad AFTER DELETE ON memory BEGIN
                    INSERT INTO memory_fts(memory_fts, rowid, content)
                    VALUES ('delete', old.id, old.content);
                END",
            SchemaStep::RebuildIndex => "INSERT INTO memory_fts(memory_fts) VALUES ('rebuild')",
        }
    }

    /// What this step does, for a report of its failure.
    pub open spec fn description_of(self) -> Seq<char> {
        match self {
            SchemaStep::MemoryTable => "create memory table"@,
            SchemaStep::MemoryIndex => "create memory_fts virtual table"@,
            SchemaStep::InsertHook => "create memory_ai trigger"@,
            SchemaStep::DeleteHook => "create memory_ad trigger"@,
            SchemaStep::RebuildIndex => "rebuild memory_fts index"@,
        }
    }

    /// What this step does, for a report of its failure.
    pub fn description(self) -> (r: &'static str)
        ensures
            r@ == self.description_of(),
    {
        match self {
            SchemaStep::MemoryTable => "create memory table",
            SchemaStep::MemoryIndex => "create memory_fts virtual table",
            SchemaStep::InsertHook => "create memory_ai trigger",
            SchemaStep::DeleteHook => "create memory_ad trigger",
            SchemaStep::RebuildIndex => "rebuild memory_fts index",
        }
    }
}

impl SetupStage {
    /// What was being done when setup failed.
    pub open spec fn description_of(self) -> Seq<char> {
        match self {
            SetupStage::Open => "open database connection"@,
            SetupStage::Schema(step) => step.description_of(),
        }
    }
}

impl SetupError {
    /// `Failed to <what was being done>: <the store's own description>`.
    pub fn message(&self) -> (r: String)
        ensures
            r@ == "Failed to "@ + self.stage.description_of() + ": "@ + self.detail@,
    {
        let mut m = String::from_str("Failed to ");
        match self.stage {
            SetupStage::Open => m.append("open database connection"),
            SetupStage::Schema(step) => m.append(step.description()),
        }
        m.append(": ");
        m.append(self.detail.as_str());
        m
    }
}

/// What follows one schema step from what the store said of its statement:
/// the next step, `None` after the last, or, when the statement failed, an
/// error that names this step and carries the store's description.
pub fn after_step(step: SchemaStep, outcome: Result<usize, String>) -> (r: Result<
    Option<SchemaStep>,
    SetupError,
>)
    ensures
        outcome matches Err(d) ==> (r matches Err(e) && e.stage == SetupStage::Schema(step)
            && e.detail@ == d@),
        outcome is Ok && step.position() < 4 ==> (r matches Ok(Some(s)) && s.position()
            == step.position() + 1),
        outcome is Ok && step.position() == 4 ==> r == Ok::<Option<SchemaStep>, SetupError>(None),
{
    match outcome {
        Err(detail) => Err(SetupError { stage: SetupStage::Schema(step), detail }),
        Ok(_) => Ok(step.next()),
    }
}

/// Brings the store behind `conn` to the memory schema: runs the schema
/// statements in order, stopping at the first that fails, which the error
/// names. Running it again on a store that has the schema changes nothing.
pub fn init_memory_schema(conn: &rusqlite::Connection) -> (r: Result<(), SetupError>)
    ensures
        r matches Err(e) ==> e.stage is Schema,
{
    let mut step = SchemaStep::first();
    loop
        decreases 4 - step.position(),
    {
        let outcome = match execute_sql(conn, step.sql(), Vec::new()) {
            Ok(n) => Ok(n),
            Err(e) => Err(error_text(&e)),
        };
        match after_step(step, outcome) {
            Err(e) => return Err(e),
            Ok(None) => return Ok(()),
            Ok(Some(s)) => step = s,
        }
    }
}

} // verus!
