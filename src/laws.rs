//! Properties that relate several operations, proved over their effects on
//! the abstract database.
use vstd::prelude::*;
use crate::db::DatabaseView;
use crate::operations::{
    created_run, run_create_spec, run_delete_spec, run_mark_completed_spec, run_mark_failed_spec,
    run_mark_processing_spec, run_store_payload_spec, template_deactivate_spec,
    template_upsert_spec,
};
use crate::rows::{
    RunCreateArgs, RunDeleteArgs, RunMarkCompletedArgs, RunMarkFailedArgs, RunMarkProcessingArgs,
    RunStorePayloadArgs, TemplateDeactivateArgs, TemplateUpsertArgs,
};

verus! {

/// The database after a sequence of template upserts, each with its own
/// arguments and transaction time, applied in order.
pub open spec fn template_upsert_all(
    db: DatabaseView,
    calls: Seq<(TemplateUpsertArgs, Seq<char>)>,
) -> DatabaseView
    decreases calls.len(),
{
    if calls.len() == 0 {
        db
    } else {
        template_upsert_spec(
            template_upsert_all(db, calls.drop_last()),
            calls.last().0,
            calls.last().1,
        )
    }
}

/// Upserting a template twice with the same arguments, both timestamps
/// supplied, stores the same row as upserting it once, whatever the two
/// transaction times.
pub proof fn lemma_template_upsert_idempotent(
    db: DatabaseView,
    input: TemplateUpsertArgs,
    now1: Seq<char>,
    now2: Seq<char>,
)
    requires
        input.created_at@.len() > 0,
        input.updated_at@.len() > 0,
    ensures
        template_upsert_spec(template_upsert_spec(db, input, now1), input, now2)
            == template_upsert_spec(db, input, now1),
{
    let once = template_upsert_spec(db, input, now1);
    let twice = template_upsert_spec(once, input, now2);
    assert(twice.templates =~= once.templates);
}

/// Any number of upserts of an existing template that leave `created_at`
/// empty keep the `created_at` it had before them.
pub proof fn lemma_template_created_at_stable(
    db: DatabaseView,
    id: Seq<char>,
    calls: Seq<(TemplateUpsertArgs, Seq<char>)>,
)
    requires
        db.templates.contains_key(id),
        forall|i: int|
            0 <= i < calls.len() ==> (#[trigger] calls[i]).0.id@ == id && calls[i].0.created_at@.len()
                == 0,
    ensures
        template_upsert_all(db, calls).templates.contains_key(id),
        template_upsert_all(db, calls).templates[id].created_at == db.templates[id].created_at,
    decreases calls.len(),
{
    if calls.len() > 0 {
        let prefix = calls.drop_last();
        assert forall|i: int| 0 <= i < prefix.len() implies (#[trigger] prefix[i]).0.id@ == id
            && prefix[i].0.created_at@.len() == 0 by {
            assert(prefix[i] == calls[i]);
        }
        lemma_template_created_at_stable(db, id, prefix);
        assert(calls[calls.len() - 1] == calls.last());
    }
}

/// Creating a run again under the same id restores its initial state from the
/// second call's arguments, with page count, timing, stats and error message
/// back at their defaults, even after a payload was stored and the run was
/// completed in between.
pub proof fn lemma_run_create_overwrites(
    db: DatabaseView,
    first: RunCreateArgs,
    payload: RunStorePayloadArgs,
    done: RunMarkCompletedArgs,
    second: RunCreateArgs,
    now1: Seq<char>,
    now2: Seq<char>,
)
    requires
        second.id@ == first.id@,
        payload.id@ == first.id@,
        done.id@ == first.id@,
    ensures
        ({
            let advanced = run_mark_completed_spec(
                run_store_payload_spec(run_create_spec(db, first, now1), payload),
                done,
            );
            let row = run_create_spec(advanced, second, now2).runs[second.id@];
            &&& run_create_spec(advanced, second, now2).runs.contains_key(second.id@)
            &&& row == created_run(second, now2)
            &&& row.filename == second.filename@
            &&& row.page_count == 0
            &&& row.timing_json == "{}"@
            &&& row.stats_json == "{}"@
            &&& row.error_message.len() == 0
        }),
{
}

/// Addressing a key that is not stored, each of the transitions that require
/// an existing row leaves the whole database unchanged.
pub proof fn lemma_missing_key_no_op(
    db: DatabaseView,
    now: Seq<char>,
    processing: RunMarkProcessingArgs,
    completed: RunMarkCompletedArgs,
    failed: RunMarkFailedArgs,
    deactivate: TemplateDeactivateArgs,
)
    ensures
        !db.runs.contains_key(processing.id@) ==> run_mark_processing_spec(db, processing) == db,
        !db.runs.contains_key(completed.id@) ==> run_mark_completed_spec(db, completed) == db,
        !db.runs.contains_key(failed.id@) ==> run_mark_failed_spec(db, failed) == db,
        !db.templates.contains_key(deactivate.id@) ==> template_deactivate_spec(db, deactivate, now)
            == db,
{
}

/// After a delete neither a run nor a payload is stored under the id, whether
/// both, one or none of them was there before; nothing else changes.
pub proof fn lemma_run_delete_removes_both(db: DatabaseView, input: RunDeleteArgs)
    ensures
        !run_delete_spec(db, input).runs.contains_key(input.id@),
        !run_delete_spec(db, input).payloads.contains_key(input.id@),
        run_delete_spec(db, input).templates == db.templates,
        forall|k: Seq<char>|
            k != input.id@ ==> (#[trigger] run_delete_spec(db, input).runs.contains_key(k)
                == db.runs.contains_key(k)) && (run_delete_spec(db, input).payloads.contains_key(k)
                == db.payloads.contains_key(k)),
{
}

} // verus!
