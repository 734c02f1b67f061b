//! The three stores, and the transaction context handed to each operation.
use vstd::prelude::*;
use crate::rows::{Run, RunPayload, RunPayloadView, RunView, Template, TemplateView};
use crate::table::Table;

verus! {

/// The abstract contents of the database: each store as a map from primary
/// key to row.
pub struct DatabaseView {
    pub templates: Map<Seq<char>, TemplateView>,
    pub runs: Map<Seq<char>, RunView>,
    pub payloads: Map<Seq<char>, RunPayloadView>,
}

/// The template, run and run-payload stores.
pub struct Database {
    pub template: Table<Template>,
    pub run: Table<Run>,
    pub run_payload: Table<RunPayload>,
}

impl View for Database {
    type V = DatabaseView;

    open spec fn view(&self) -> DatabaseView {
        DatabaseView { templates: self.template@, runs: self.run@, payloads: self.run_payload@ }
    }
}

impl Database {
    pub open spec fn wf(&self) -> bool {
        &&& self.template.wf()
        &&& self.run.wf()
        &&& self.run_payload.wf()
    }

    /// A database whose three stores are empty.
    pub fn new() -> (d: Database)
        ensures
            d.wf(),
            d@.templates.is_empty(),
            d@.runs.is_empty(),
            d@.payloads.is_empty(),
    {
        Database { template: Table::new(), run: Table::new(), run_payload: Table::new() }
    }
}

/// What a transaction sees: its timestamp, as an ISO-8601 string supplied by
/// the host, and the stores.
pub struct TxContext {
    pub timestamp: String,
    pub db: Database,
}

impl TxContext {
    /// A context over an empty database at the given timestamp.
    pub fn new(timestamp: String) -> (ctx: TxContext)
        ensures
            ctx.db.wf(),
            ctx.timestamp == timestamp,
            ctx.db@.templates.is_empty(),
            ctx.db@.runs.is_empty(),
            ctx.db@.payloads.is_empty(),
    {
        TxContext { timestamp, db: Database::new() }
    }
}

/// The current transaction's timestamp.
pub fn now_iso(ctx: &TxContext) -> (r: String)
    ensures
        r == ctx.timestamp,
{
    ctx.timestamp.clone()
}

} // verus!
