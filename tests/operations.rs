use extraction_runs::operations::resolve_timestamp;
use extraction_runs::{
    init, now_iso, on_connect, on_disconnect, run_create, run_delete, run_mark_completed,
    run_mark_failed, run_mark_processing, run_store_payload, template_deactivate,
    template_upsert, RunCreateArgs, RunDeleteArgs, RunMarkCompletedArgs, RunMarkFailedArgs,
    RunMarkProcessingArgs, RunPayload, RunStatus, RunStorePayloadArgs, Table,
    TemplateDeactivateArgs, TemplateUpsertArgs, TxContext,
};

fn s(v: &str) -> String {
    v.to_string()
}

fn template_args(id: &str, name: &str, created_at: &str, updated_at: &str) -> TemplateUpsertArgs {
    TemplateUpsertArgs {
        id: s(id),
        name: s(name),
        description: s("invoice fields"),
        schema_json: s("{\"type\":\"object\"}"),
        extraction_rules: s("[]"),
        is_active: true,
        created_at: s(created_at),
        updated_at: s(updated_at),
    }
}

fn create_args(id: &str, filename: &str, created_at: &str) -> RunCreateArgs {
    RunCreateArgs {
        id: s(id),
        mode: s("template"),
        template_id: s("t1"),
        status: s("pending"),
        provider: s("ocr"),
        document_key: Some(s("docs/a.pdf")),
        filename: s(filename),
        mime_type: s("application/pdf"),
        byte_size: 2048,
        created_at: s(created_at),
    }
}

fn payload_args(id: &str, page_count: u32) -> RunStorePayloadArgs {
    RunStorePayloadArgs {
        id: s(id),
        md_results: s("# page 1"),
        layout_details_json: s("[]"),
        layout_visualization_json: s("{}"),
        extracted_fields_json: s("{\"total\":1}"),
        raw_provider_json: s("{\"raw\":true}"),
        page_count,
    }
}

fn completed_args(id: &str, completed_at: &str, timing: &str, stats: &str) -> RunMarkCompletedArgs {
    RunMarkCompletedArgs {
        id: s(id),
        completed_at: s(completed_at),
        timing_json: s(timing),
        stats_json: s(stats),
    }
}

#[test]
fn scenario_run_lifecycle() {
    let mut ctx = TxContext::new(s("T0"));
    run_create(&mut ctx, create_args("r1", "a.pdf", ""));
    run_mark_processing(&mut ctx, RunMarkProcessingArgs { id: s("r1"), started_at: s("T1") });
    run_store_payload(&mut ctx, payload_args("r1", 3));
    run_mark_completed(&mut ctx, completed_args("r1", "T2", "{\"ms\":10}", "{}"));
    let run = ctx.db.run.find(&s("r1")).unwrap();
    assert_eq!(run.status, "completed");
    assert_eq!(run.started_at, "T1");
    assert_eq!(run.completed_at, "T2");
    assert_eq!(run.page_count, 3);
    assert_eq!(run.timing_json, "{\"ms\":10}");
    assert_eq!(run.stats_json, "{}");
    let payload = ctx.db.run_payload.find(&s("r1")).unwrap();
    assert_eq!(payload.run_id, "r1");
    assert_eq!(payload.md_results, "# page 1");
}

#[test]
fn scenario_template_timestamps() {
    let mut ctx = TxContext::new(s("T0"));
    template_upsert(&mut ctx, template_args("t1", "Invoice", "", ""));
    {
        let row = ctx.db.template.find(&s("t1")).unwrap();
        assert_eq!(row.created_at, "T0");
        assert_eq!(row.updated_at, "T0");
    }
    ctx.timestamp = s("T1");
    template_upsert(&mut ctx, template_args("t1", "Invoice", "", ""));
    let row = ctx.db.template.find(&s("t1")).unwrap();
    assert_eq!(row.created_at, "T0");
    assert_eq!(row.updated_at, "T1");
}

#[test]
fn template_upsert_twice_with_explicit_timestamps_is_idempotent() {
    let mut ctx = TxContext::new(s("T0"));
    template_upsert(&mut ctx, template_args("t1", "Invoice", "C", "U"));
    ctx.timestamp = s("T9");
    template_upsert(&mut ctx, template_args("t1", "Invoice", "C", "U"));
    let row = ctx.db.template.find(&s("t1")).unwrap();
    assert_eq!(row.id, "t1");
    assert_eq!(row.name, "Invoice");
    assert_eq!(row.description, "invoice fields");
    assert_eq!(row.schema_json, "{\"type\":\"object\"}");
    assert_eq!(row.extraction_rules, "[]");
    assert!(row.is_active);
    assert_eq!(row.created_at, "C");
    assert_eq!(row.updated_at, "U");
}

#[test]
fn template_created_at_survives_repeated_upserts() {
    let mut ctx = TxContext::new(s("T0"));
    template_upsert(&mut ctx, template_args("t1", "Invoice", "2024-01-01T00:00:00Z", ""));
    for (i, name) in ["A", "B", "C"].iter().enumerate() {
        ctx.timestamp = format!("T{}", i + 1);
        template_upsert(&mut ctx, template_args("t1", name, "", ""));
    }
    let row = ctx.db.template.find(&s("t1")).unwrap();
    assert_eq!(row.created_at, "2024-01-01T00:00:00Z");
    assert_eq!(row.updated_at, "T3");
    assert_eq!(row.name, "C");
}

#[test]
fn template_upsert_explicit_created_at_replaces_stored_one() {
    let mut ctx = TxContext::new(s("T0"));
    template_upsert(&mut ctx, template_args("t1", "Invoice", "", ""));
    template_upsert(&mut ctx, template_args("t1", "Invoice", "C2", ""));
    let row = ctx.db.template.find(&s("t1")).unwrap();
    assert_eq!(row.created_at, "C2");
    assert_eq!(row.updated_at, "T0");
}

#[test]
fn template_deactivate_clears_flag_and_refreshes_updated_at() {
    let mut ctx = TxContext::new(s("T0"));
    template_upsert(&mut ctx, template_args("t1", "Invoice", "", ""));
    ctx.timestamp = s("T5");
    template_deactivate(&mut ctx, TemplateDeactivateArgs { id: s("t1") });
    let row = ctx.db.template.find(&s("t1")).unwrap();
    assert!(!row.is_active);
    assert_eq!(row.updated_at, "T5");
    assert_eq!(row.created_at, "T0");
    assert_eq!(row.name, "Invoice");
}

#[test]
fn run_create_sets_initial_state() {
    let mut ctx = TxContext::new(s("T0"));
    run_create(&mut ctx, create_args("r1", "a.pdf", ""));
    let run = ctx.db.run.find(&s("r1")).unwrap();
    assert_eq!(run.id, "r1");
    assert_eq!(run.mode, "template");
    assert_eq!(run.template_id, "t1");
    assert_eq!(run.status, "pending");
    assert_eq!(run.filename, "a.pdf");
    assert_eq!(run.mime_type, "application/pdf");
    assert_eq!(run.byte_size, 2048);
    assert_eq!(run.page_count, 0);
    assert_eq!(run.timing_json, "{}");
    assert_eq!(run.stats_json, "{}");
    assert_eq!(run.error_message, "");
    assert_eq!(run.created_at, "T0");
    assert_eq!(run.started_at, "");
    assert_eq!(run.completed_at, "");
    assert_eq!(run.provider, Some(s("ocr")));
    assert_eq!(run.document_key, Some(s("docs/a.pdf")));
}

#[test]
fn run_create_keeps_explicit_created_at() {
    let mut ctx = TxContext::new(s("T0"));
    run_create(&mut ctx, create_args("r1", "a.pdf", "2024-05-01T10:00:00Z"));
    let run = ctx.db.run.find(&s("r1")).unwrap();
    assert_eq!(run.created_at, "2024-05-01T10:00:00Z");
}

#[test]
fn run_create_again_resets_progress() {
    let mut ctx = TxContext::new(s("T0"));
    run_create(&mut ctx, create_args("r1", "a.pdf", ""));
    run_mark_processing(&mut ctx, RunMarkProcessingArgs { id: s("r1"), started_at: s("T1") });
    run_store_payload(&mut ctx, payload_args("r1", 7));
    run_mark_completed(&mut ctx, completed_args("r1", "T2", "{\"ms\":10}", "{\"pages\":7}"));
    ctx.timestamp = s("T3");
    run_create(&mut ctx, create_args("r1", "b.pdf", ""));
    let run = ctx.db.run.find(&s("r1")).unwrap();
    assert_eq!(run.filename, "b.pdf");
    assert_eq!(run.status, "pending");
    assert_eq!(run.page_count, 0);
    assert_eq!(run.timing_json, "{}");
    assert_eq!(run.stats_json, "{}");
    assert_eq!(run.error_message, "");
    assert_eq!(run.started_at, "");
    assert_eq!(run.completed_at, "");
    assert_eq!(run.created_at, "T3");
}

#[test]
fn run_create_accepts_any_status() {
    let mut ctx = TxContext::new(s("T0"));
    let mut args = create_args("r1", "a.pdf", "");
    args.status = s("queued");
    args.document_key = None;
    run_create(&mut ctx, args);
    let run = ctx.db.run.find(&s("r1")).unwrap();
    assert_eq!(run.status, "queued");
    assert_eq!(run.document_key, None);
}

#[test]
fn operations_on_missing_keys_change_nothing() {
    let mut ctx = TxContext::new(s("T0"));
    run_create(&mut ctx, create_args("r1", "a.pdf", ""));
    template_upsert(&mut ctx, template_args("t1", "Invoice", "", ""));
    ctx.timestamp = s("T1");
    run_mark_processing(&mut ctx, RunMarkProcessingArgs { id: s("zz"), started_at: s("T1") });
    run_mark_completed(&mut ctx, completed_args("zz", "T2", "{\"ms\":1}", "{}"));
    run_mark_failed(
        &mut ctx,
        RunMarkFailedArgs {
            id: s("zz"),
            completed_at: s("T2"),
            timing_json: s("{}"),
            error_message: s("boom"),
        },
    );
    template_deactivate(&mut ctx, TemplateDeactivateArgs { id: s("zz") });
    assert!(ctx.db.run.find(&s("zz")).is_none());
    assert!(ctx.db.template.find(&s("zz")).is_none());
    assert!(ctx.db.run_payload.find(&s("zz")).is_none());
    let run = ctx.db.run.find(&s("r1")).unwrap();
    assert_eq!(run.status, "pending");
    assert_eq!(run.started_at, "");
    let template = ctx.db.template.find(&s("t1")).unwrap();
    assert!(template.is_active);
    assert_eq!(template.updated_at, "T0");
}

#[test]
fn run_mark_failed_records_error() {
    let mut ctx = TxContext::new(s("T0"));
    run_create(&mut ctx, create_args("r1", "a.pdf", ""));
    run_mark_failed(
        &mut ctx,
        RunMarkFailedArgs {
            id: s("r1"),
            completed_at: s("T4"),
            timing_json: s("{\"ms\":3}"),
            error_message: s("provider timeout"),
        },
    );
    let run = ctx.db.run.find(&s("r1")).unwrap();
    assert_eq!(run.status, "failed");
    assert_eq!(run.completed_at, "T4");
    assert_eq!(run.timing_json, "{\"ms\":3}");
    assert_eq!(run.error_message, "provider timeout");
    assert_eq!(run.stats_json, "{}");
}

#[test]
fn transitions_are_not_guarded_by_status() {
    let mut ctx = TxContext::new(s("T0"));
    run_create(&mut ctx, create_args("r1", "a.pdf", ""));
    run_mark_completed(&mut ctx, completed_args("r1", "T2", "{}", "{}"));
    run_mark_processing(&mut ctx, RunMarkProcessingArgs { id: s("r1"), started_at: s("T3") });
    let run = ctx.db.run.find(&s("r1")).unwrap();
    assert_eq!(run.status, "processing");
    assert_eq!(run.started_at, "T3");
    assert_eq!(run.completed_at, "T2");
}

#[test]
fn store_payload_without_run_writes_payload_only() {
    let mut ctx = TxContext::new(s("T0"));
    run_store_payload(&mut ctx, payload_args("r9", 2));
    assert!(ctx.db.run.find(&s("r9")).is_none());
    let payload = ctx.db.run_payload.find(&s("r9")).unwrap();
    assert_eq!(payload.extracted_fields_json, "{\"total\":1}");
    assert_eq!(payload.raw_provider_json, "{\"raw\":true}");
}

#[test]
fn store_payload_twice_replaces_payload() {
    let mut ctx = TxContext::new(s("T0"));
    run_create(&mut ctx, create_args("r1", "a.pdf", ""));
    run_store_payload(&mut ctx, payload_args("r1", 2));
    let mut second = payload_args("r1", 5);
    second.md_results = s("# page 2");
    second.layout_details_json = s("[1]");
    second.layout_visualization_json = s("{\"v\":2}");
    run_store_payload(&mut ctx, second);
    let payload = ctx.db.run_payload.find(&s("r1")).unwrap();
    assert_eq!(payload.md_results, "# page 2");
    assert_eq!(payload.layout_details_json, "[1]");
    assert_eq!(payload.layout_visualization_json, "{\"v\":2}");
    assert_eq!(ctx.db.run.find(&s("r1")).unwrap().page_count, 5);
}

#[test]
fn run_delete_removes_run_and_payload() {
    let mut ctx = TxContext::new(s("T0"));
    run_create(&mut ctx, create_args("r1", "a.pdf", ""));
    run_create(&mut ctx, create_args("r2", "b.pdf", ""));
    run_store_payload(&mut ctx, payload_args("r1", 1));
    run_delete(&mut ctx, RunDeleteArgs { id: s("r1") });
    assert!(ctx.db.run.find(&s("r1")).is_none());
    assert!(ctx.db.run_payload.find(&s("r1")).is_none());
    assert_eq!(ctx.db.run.find(&s("r2")).unwrap().filename, "b.pdf");
}

#[test]
fn run_delete_when_only_one_row_exists() {
    let mut ctx = TxContext::new(s("T0"));
    run_store_payload(&mut ctx, payload_args("p1", 1));
    run_create(&mut ctx, create_args("r1", "a.pdf", ""));
    run_delete(&mut ctx, RunDeleteArgs { id: s("p1") });
    run_delete(&mut ctx, RunDeleteArgs { id: s("r1") });
    run_delete(&mut ctx, RunDeleteArgs { id: s("never") });
    assert!(ctx.db.run_payload.find(&s("p1")).is_none());
    assert!(ctx.db.run.find(&s("r1")).is_none());
}

#[test]
fn resolve_timestamp_prefers_supplied_value() {
    assert_eq!(resolve_timestamp(s("2024-01-01"), s("T0")), "2024-01-01");
    assert_eq!(resolve_timestamp(s(""), s("T0")), "T0");
    assert_eq!(resolve_timestamp(s(""), s("")), "");
}

#[test]
fn now_iso_reads_transaction_timestamp() {
    let ctx = TxContext::new(s("2024-06-01T12:00:00Z"));
    assert_eq!(now_iso(&ctx), "2024-06-01T12:00:00Z");
}

#[test]
fn lifecycle_hooks_touch_nothing() {
    let mut ctx = TxContext::new(s("T0"));
    run_create(&mut ctx, create_args("r1", "a.pdf", ""));
    init(&ctx);
    on_connect(&ctx);
    on_disconnect(&ctx);
    assert_eq!(ctx.db.run.find(&s("r1")).unwrap().status, "pending");
    assert!(ctx.db.template.find(&s("r1")).is_none());
    assert_eq!(ctx.timestamp, "T0");
}

#[test]
fn run_status_text_round_trip() {
    for st in [RunStatus::Pending, RunStatus::Processing, RunStatus::Completed, RunStatus::Failed] {
        assert_eq!(RunStatus::from_text(&st.to_text()), Some(st));
    }
    assert_eq!(RunStatus::Completed.as_str(), "completed");
    assert_eq!(RunStatus::from_text(&s("queued")), None);
    assert_eq!(RunStatus::from_text(&s("")), None);
    assert_eq!(RunStatus::from_text(&s("Pending")), None);
}

#[test]
fn table_insert_update_delete() {
    let mut table: Table<RunPayload> = Table::new();
    assert!(table.find(&s("p1")).is_none());
    let row = |id: &str, md: &str| RunPayload {
        run_id: s(id),
        md_results: s(md),
        layout_details_json: s("[]"),
        layout_visualization_json: s("{}"),
        extracted_fields_json: s("{}"),
        raw_provider_json: s("{}"),
    };
    table.insert(row("p1", "one"));
    table.insert(row("p2", "two"));
    table.update(row("p1", "uno"));
    assert_eq!(table.find(&s("p1")).unwrap().md_results, "uno");
    assert_eq!(table.find(&s("p2")).unwrap().md_results, "two");
    assert!(table.delete(&s("p1")));
    assert!(!table.delete(&s("p1")));
    assert!(table.find(&s("p1")).is_none());
    assert_eq!(table.find(&s("p2")).unwrap().md_results, "two");
}
