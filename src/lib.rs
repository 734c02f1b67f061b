//! Transactional bookkeeping for document-extraction runs and templates.
//!
//! Three keyed stores (templates, runs, run payloads) live in a [`Database`]
//! that is handed explicitly to each operation through a [`TxContext`], which
//! also carries the transaction's timestamp. Every operation states, as a
//! function on the abstract contents of the stores, exactly what it does.
pub mod db;
pub mod laws;
pub mod operations;
pub mod rows;
pub mod table;

pub use db::{now_iso, Database, DatabaseView, TxContext};
pub use operations::{
    init, on_connect, on_disconnect, run_create, run_delete, run_mark_completed, run_mark_failed,
    run_mark_processing, run_store_payload, template_deactivate, template_upsert,
};
pub use rows::{
    Run, RunCreateArgs, RunDeleteArgs, RunMarkCompletedArgs, RunMarkFailedArgs,
    RunMarkProcessingArgs, RunPayload, RunPayloadView, RunStatus, RunStorePayloadArgs, RunView,
    Template, TemplateDeactivateArgs, TemplateUpsertArgs, TemplateView,
};
pub use table::{KeyedRow, Table};
