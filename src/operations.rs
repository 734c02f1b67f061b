//! The operations on the stores. Each is one transaction: it reads rows by
//! key, computes new rows, and writes them back. Each one's effect on the
//! abstract database is stated by a spec function of the same name with a
//! `_spec` suffix.
use vstd::prelude::*;
use crate::db::{now_iso, DatabaseView, TxContext};
use crate::rows::{
    opt_view, Run, RunCreateArgs, RunDeleteArgs, RunMarkCompletedArgs, RunMarkFailedArgs,
    RunMarkProcessingArgs, RunPayload, RunPayloadView, RunStatus, RunStorePayloadArgs, RunView,
    Template, TemplateDeactivateArgs, TemplateUpsertArgs, TemplateView,
};

verus! {

/// A caller-supplied timestamp, where the empty string stands for "not
/// supplied" and `fallback` is taken instead.
pub open spec fn resolve_timestamp_spec(supplied: Seq<char>, fallback: Seq<char>) -> Seq<char> {
    if supplied.len() == 0 {
        fallback
    } else {
        supplied
    }
}

/// The value stored under `k`, if any.
pub open spec fn lookup<V>(m: Map<Seq<char>, V>, k: Seq<char>) -> Option<V> {
    if m.contains_key(k) {
        Some(m[k])
    } else {
        None
    }
}

/// The template row written by an upsert, given the row already stored under
/// its id (if any) and the transaction time.
pub open spec fn upserted_template(
    input: TemplateUpsertArgs,
    prior: Option<TemplateView>,
    now: Seq<char>,
) -> TemplateView {
    TemplateView {
        id: input.id@,
        name: input.name@,
        description: input.description@,
        schema_json: input.schema_json@,
        extraction_rules: input.extraction_rules@,
        is_active: input.is_active,
        created_at: resolve_timestamp_spec(
            input.created_at@,
            match prior {
                Some(row) => row.created_at,
                None => now,
            },
        ),
        updated_at: resolve_timestamp_spec(input.updated_at@, now),
    }
}

pub open spec fn template_upsert_spec(
    db: DatabaseView,
    input: TemplateUpsertArgs,
    now: Seq<char>,
) -> DatabaseView {
    DatabaseView {
        templates: db.templates.insert(
            input.id@,
            upserted_template(input, lookup(db.templates, input.id@), now),
        ),
        ..db
    }
}

pub open spec fn template_deactivate_spec(
    db: DatabaseView,
    input: TemplateDeactivateArgs,
    now: Seq<char>,
) -> DatabaseView {
    if db.templates.contains_key(input.id@) {
        DatabaseView {
            templates: db.templates.insert(
                input.id@,
                TemplateView { is_active: false, updated_at: now, ..db.templates[input.id@] },
            ),
            ..db
        }
    } else {
        db
    }
}

/// The run row written by a create: every field from the arguments, the
/// progress fields at their defaults.
pub open spec fn created_run(input: RunCreateArgs, now: Seq<char>) -> RunView {
    RunView {
        id: input.id@,
        mode: input.mode@,
        template_id: input.template_id@,
        status: input.status@,
        filename: input.filename@,
        mime_type: input.mime_type@,
        byte_size: input.byte_size,
        page_count: 0,
        timing_json: "{}"@,
        stats_json: "{}"@,
        error_message: Seq::empty(),
        created_at: resolve_timestamp_spec(input.created_at@, now),
        started_at: Seq::empty(),
        completed_at: Seq::empty(),
        provider: Some(input.provider@),
        document_key: opt_view(input.document_key),
    }
}

pub open spec fn run_create_spec(db: DatabaseView, input: RunCreateArgs, now: Seq<char>) -> DatabaseView {
    DatabaseView { runs: db.runs.insert(input.id@, created_run(input, now)), ..db }
}

pub open spec fn run_mark_processing_spec(
    db: DatabaseView,
    input: RunMarkProcessingArgs,
) -> DatabaseView {
    if db.runs.contains_key(input.id@) {
        DatabaseView {
            runs: db.runs.insert(
                input.id@,
                RunView {
                    status: RunStatus::Processing.spec_text(),
                    started_at: input.started_at@,
                    ..db.runs[input.id@]
                },
            ),
            ..db
        }
    } else {
        db
    }
}

/// The payload row written by a store-payload operation.
pub open spec fn stored_payload(input: RunStorePayloadArgs) -> RunPayloadView {
    RunPayloadView {
        run_id: input.id@,
        md_results: input.md_results@,
        layout_details_json: input.layout_details_json@,
        layout_visualization_json: input.layout_visualization_json@,
        extracted_fields_json: input.extracted_fields_json@,
        raw_provider_json: input.raw_provider_json@,
    }
}

pub open spec fn run_store_payload_spec(db: DatabaseView, input: RunStorePayloadArgs) -> DatabaseView {
    DatabaseView {
        templates: db.templates,
        runs: if db.runs.contains_key(input.id@) {
            db.runs.insert(input.id@, RunView { page_count: input.page_count, ..db.runs[input.id@] })
        } else {
            db.runs
        },
        payloads: db.payloads.insert(input.id@, stored_payload(input)),
    }
}

pub open spec fn run_mark_completed_spec(
    db: DatabaseView,
    input: RunMarkCompletedArgs,
) -> DatabaseView {
    if db.runs.contains_key(input.id@) {
        DatabaseView {
            runs: db.runs.insert(
                input.id@,
                RunView {
                    status: RunStatus::Completed.spec_text(),
                    completed_at: input.completed_at@,
                    timing_json: input.timing_json@,
                    stats_json: input.stats_json@,
                    ..db.runs[input.id@]
                },
            ),
            ..db
        }
    } else {
        db
    }
}

pub open spec fn run_mark_failed_spec(db: DatabaseView, input: RunMarkFailedArgs) -> DatabaseView {
    if db.runs.contains_key(input.id@) {
        DatabaseView {
            runs: db.runs.insert(
                input.id@,
                RunView {
                    status: RunStatus::Failed.spec_text(),
                    completed_at: input.completed_at@,
                    timing_json: input.timing_json@,
                    error_message: input.error_message@,
                    ..db.runs[input.id@]
                },
            ),
            ..db
        }
    } else {
        db
    }
}

pub open spec fn run_delete_spec(db: DatabaseView, input: RunDeleteArgs) -> DatabaseView {
    DatabaseView {
        templates: db.templates,
        runs: db.runs.remove(input.id@),
        payloads: db.payloads.remove(input.id@),
    }
}

/// Resolves a caller-supplied timestamp against its fallback.
pub fn resolve_timestamp(supplied: String, fallback: String) -> (r: String)
    ensures
        r@ == resolve_timestamp_spec(supplied@, fallback@),
{
    if supplied.as_str().is_empty() {
        fallback
    } else {
        supplied
    }
}

/// Runs when the module starts; it touches nothing.
pub fn init(_ctx: &TxContext) {
}

/// Runs when a client connects; it touches nothing.
pub fn on_connect(_ctx: &TxContext) {
}

/// Runs when a client disconnects; it touches nothing.
pub fn on_disconnect(_ctx: &TxContext) {
}

/// Creates the template, or replaces the one stored under the same id.
pub fn template_upsert(ctx: &mut TxContext, input: TemplateUpsertArgs)
    requires
        old(ctx).db.wf(),
    ensures
        final(ctx).db.wf(),
        final(ctx).timestamp == old(ctx).timestamp,
        final(ctx).db@ == template_upsert_spec(old(ctx).db@, input, old(ctx).timestamp@),
{
    let now = now_iso(ctx);
    let (exists, prior_created_at) = match ctx.db.template.find(&input.id) {
        Some(row) => (true, row.created_at.clone()),
        None => (false, now.clone()),
    };
    let created_at = resolve_timestamp(input.created_at, prior_created_at);
    let updated_at = resolve_timestamp(input.updated_at, now);
    let row = Template {
        id: input.id,
        name: input.name,
        description: input.description,
        schema_json: input.schema_json,
        extraction_rules: input.extraction_rules,
        is_active: input.is_active,
        created_at,
        updated_at,
    };
    if exists {
        ctx.db.template.update(row);
    } else {
        ctx.db.template.insert(row);
    }
    assert(ctx.db@ =~= template_upsert_spec(old(ctx).db@, input, old(ctx).timestamp@));
}

/// Marks the template inactive and refreshes its `updated_at`; does nothing
/// if no template has that id.
pub fn template_deactivate(ctx: &mut TxContext, input: TemplateDeactivateArgs)
    requires
        old(ctx).db.wf(),
    ensures
        final(ctx).db.wf(),
        final(ctx).timestamp == old(ctx).timestamp,
        final(ctx).db@ == template_deactivate_spec(old(ctx).db@, input, old(ctx).timestamp@),
{
    let found = match ctx.db.template.find(&input.id) {
        Some(row) => Some(row.copy()),
        None => None,
    };
    match found {
        Some(mut row) => {
            row.is_active = false;
            row.updated_at = now_iso(ctx);
            ctx.db.template.update(row);
            assert(ctx.db@ =~= template_deactivate_spec(old(ctx).db@, input, old(ctx).timestamp@));
        },
        None => {},
    }
}

/// Creates the run in its initial state, replacing any run stored under the
/// same id.
pub fn run_create(ctx: &mut TxContext, input: RunCreateArgs)
    requires
        old(ctx).db.wf(),
    ensures
        final(ctx).db.wf(),
        final(ctx).timestamp == old(ctx).timestamp,
        final(ctx).db@ == run_create_spec(old(ctx).db@, input, old(ctx).timestamp@),
{
    let now = now_iso(ctx);
    let created_at = resolve_timestamp(input.created_at, now);
    let row = Run {
        id: input.id,
        mode: input.mode,
        template_id: input.template_id,
        status: input.status,
        filename: input.filename,
        mime_type: input.mime_type,
        byte_size: input.byte_size,
        page_count: 0,
        timing_json: "{}".to_string(),
        stats_json: "{}".to_string(),
        error_message: String::new(),
        created_at,
        started_at: String::new(),
        completed_at: String::new(),
        provider: Some(input.provider),
        document_key: input.document_key,
    };
    let exists = match ctx.db.run.find(&row.id) {
        Some(_) => true,
        None => false,
    };
    if exists {
        ctx.db.run.update(row);
    } else {
        ctx.db.run.insert(row);
    }
    assert(ctx.db@ =~= run_create_spec(old(ctx).db@, input, old(ctx).timestamp@));
}

/// Moves the run to `processing` and records when it started; does nothing
/// if no run has that id.
pub fn run_mark_processing(ctx: &mut TxContext, input: RunMarkProcessingArgs)
    requires
        old(ctx).db.wf(),
    ensures
        final(ctx).db.wf(),
        final(ctx).timestamp == old(ctx).timestamp,
        final(ctx).db@ == run_mark_processing_spec(old(ctx).db@, input),
{
    let found = match ctx.db.run.find(&input.id) {
        Some(row) => Some(row.copy()),
        None => None,
    };
    match found {
        Some(mut row) => {
            row.status = RunStatus::Processing.to_text();
            row.started_at = input.started_at;
            ctx.db.run.update(row);
            assert(ctx.db@ =~= run_mark_processing_spec(old(ctx).db@, input));
        },
        None => {},
    }
}

/// Records the run's page count, if the run exists, and writes its payload
/// whether or not it does.
pub fn run_store_payload(ctx: &mut TxContext, input: RunStorePayloadArgs)
    requires
        old(ctx).db.wf(),
    ensures
        final(ctx).db.wf(),
        final(ctx).timestamp == old(ctx).timestamp,
        final(ctx).db@ == run_store_payload_spec(old(ctx).db@, input),
{
    let found = match ctx.db.run.find(&input.id) {
        Some(row) => Some(row.copy()),
        None => None,
    };
    match found {
        Some(mut row) => {
            row.page_count = input.page_count;
            ctx.db.run.update(row);
        },
        None => {},
    }
    let payload = RunPayload {
        run_id: input.id,
        md_results: input.md_results,
        layout_details_json: input.layout_details_json,
        layout_visualization_json: input.layout_visualization_json,
        extracted_fields_json: input.extracted_fields_json,
        raw_provider_json: input.raw_provider_json,
    };
    let exists = match ctx.db.run_payload.find(&payload.run_id) {
        Some(_) => true,
        None => false,
    };
    if exists {
        ctx.db.run_payload.update(payload);
    } else {
        ctx.db.run_payload.insert(payload);
    }
    assert(ctx.db@ =~= run_store_payload_spec(old(ctx).db@, input));
}

/// Moves the run to `completed` with its completion time and metrics; does
/// nothing if no run has that id.
pub fn run_mark_completed(ctx: &mut TxContext, input: RunMarkCompletedArgs)
    requires
        old(ctx).db.wf(),
    ensures
        final(ctx).db.wf(),
        final(ctx).timestamp == old(ctx).timestamp,
        final(ctx).db@ == run_mark_completed_spec(old(ctx).db@, input),
{
    let found = match ctx.db.run.find(&input.id) {
        Some(row) => Some(row.copy()),
        None => None,
    };
    match found {
        Some(mut row) => {
            row.status = RunStatus::Completed.to_text();
            row.completed_at = input.completed_at;
            row.timing_json = input.timing_json;
            row.stats_json = input.stats_json;
            ctx.db.run.update(row);
            assert(ctx.db@ =~= run_mark_completed_spec(old(ctx).db@, input));
        },
        None => {},
    }
}

/// Moves the run to `failed` with its completion time, timing and error
/// message; does nothing if no run has that id.
pub fn run_mark_failed(ctx: &mut TxContext, input: RunMarkFailedArgs)
    requires
        old(ctx).db.wf(),
    ensures
        final(ctx).db.wf(),
        final(ctx).timestamp == old(ctx).timestamp,
        final(ctx).db@ == run_mark_failed_spec(old(ctx).db@, input),
{
    let found = match ctx.db.run.find(&input.id) {
        Some(row) => Some(row.copy()),
        None => None,
    };
    match found {
        Some(mut row) => {
            row.status = RunStatus::Failed.to_text();
            row.completed_at = input.completed_at;
            row.timing_json = input.timing_json;
            row.error_message = input.error_message;
            ctx.db.run.update(row);
            assert(ctx.db@ =~= run_mark_failed_spec(old(ctx).db@, input));
        },
        None => {},
    }
}

/// Removes the run's payload, if any, and then the run, if any.
pub fn run_delete(ctx: &mut TxContext, input: RunDeleteArgs)
    requires
        old(ctx).db.wf(),
    ensures
        final(ctx).db.wf(),
        final(ctx).timestamp == old(ctx).timestamp,
        final(ctx).db@ == run_delete_spec(old(ctx).db@, input),
{
    ctx.db.run_payload.delete(&input.id);
    ctx.db.run.delete(&input.id);
}

} // verus!
