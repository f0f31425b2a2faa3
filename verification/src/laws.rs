//! The workflow's guarantees, stated and proved once over every possible
//! run: a run is a fresh machine fed any sequence of driver events.

use vstd::prelude::*;

use crate::rows::{seed_dataset, RowModel};
use crate::sql::seeded_table_name;
use crate::workflow::{init_model, next_action_model, step_model, ActionModel,
    CacheMode, EventModel, Stage, Strategy, WorkflowModel};

verus! {

/// The state a fresh machine reaches after the events `evs`, in order.
pub open spec fn run_model(strategy: Strategy, cache: CacheMode, evs: Seq<EventModel>) -> WorkflowModel
    decreases evs.len(),
{
    if evs.len() == 0 {
        init_model(strategy, cache)
    } else {
        step_model(run_model(strategy, cache, evs.drop_last()), evs.last())
    }
}

/// The stages at or past the live verification checkpoint.
pub open spec fn live_verified(s: Stage) -> bool {
    ||| s == Stage::VerifiedLive
    ||| s == Stage::Exported
    ||| s == Stage::Released
    ||| s == Stage::VerifiedPersisted
    ||| s == Stage::Done
}

/// The stages at or past the post-export verification checkpoint.
pub open spec fn persist_verified(s: Stage) -> bool {
    ||| s == Stage::VerifiedPersisted
    ||| s == Stage::Done
}

/// The invariant every reachable state satisfies: once the live read is
/// verified the recorded live rows are exactly the seed dataset; once the
/// post-export read is verified the recorded persisted rows equal them;
/// and every stage past provisioning holds a target path.
pub open spec fn inv(m: WorkflowModel) -> bool {
    &&& live_verified(m.stage) ==> m.live_rows == Some(seed_dataset())
    &&& persist_verified(m.stage) ==> m.persisted_rows == m.live_rows
    &&& !(m.stage == Stage::Start || m.stage == Stage::Failed) ==> m.target.is_some()
    &&& m.stage == Stage::Failed ==> m.failure.is_some()
    &&& m.stage != Stage::Failed ==> m.failure.is_none()
}

/// A fresh machine satisfies the invariant.
pub proof fn lemma_init_inv(strategy: Strategy, cache: CacheMode)
    ensures
        inv(init_model(strategy, cache)),
{
}

/// Every step preserves the invariant.
pub proof fn lemma_step_preserves_inv(m: WorkflowModel, ev: EventModel)
    requires
        inv(m),
    ensures
        inv(step_model(m, ev)),
{
}

/// Every run ends in a state that satisfies the invariant.
pub proof fn lemma_run_inv(strategy: Strategy, cache: CacheMode, evs: Seq<EventModel>)
    ensures
        inv(run_model(strategy, cache, evs)),
    decreases evs.len(),
{
    if evs.len() == 0 {
        lemma_init_inv(strategy, cache);
    } else {
        lemma_run_inv(strategy, cache, evs.drop_last());
        lemma_step_preserves_inv(run_model(strategy, cache, evs.drop_last()), evs.last());
    }
}

/// Seed integrity: in every run, from the moment the live read is
/// verified onward, the rows read from the store are exactly the seed
/// dataset — identity 1 "hello", then identity 2 "world".
pub proof fn lemma_seed_integrity(strategy: Strategy, cache: CacheMode, evs: Seq<EventModel>)
    ensures
        live_verified(run_model(strategy, cache, evs).stage) ==> run_model(
            strategy,
            cache,
            evs,
        ).live_rows == Some(seed_dataset()),
{
    lemma_run_inv(strategy, cache, evs);
}

/// Export existence: the machine accepts a provisioned target only when
/// the path does not yet exist, and counts the export as done only when
/// the destination file is observed to exist afterward.
pub proof fn lemma_export_existence(m: WorkflowModel, path: Seq<char>, already_exists: bool, destination_exists: bool)
    ensures
        step_model(m, EventModel::TargetReady { path, already_exists }).stage == Stage::Provisioned
            ==> !already_exists,
        step_model(m, EventModel::Exported { destination_exists }).stage == Stage::Exported
            ==> destination_exists,
{
}

/// Round-trip fidelity: in every run that verifies the post-export read,
/// the sequence read back from the exported file equals — in count, field
/// values and order — the sequence read from the live store, and both are
/// the seed dataset.
pub proof fn lemma_round_trip(strategy: Strategy, cache: CacheMode, evs: Seq<EventModel>)
    ensures
        persist_verified(run_model(strategy, cache, evs).stage) ==> {
            &&& run_model(strategy, cache, evs).persisted_rows == run_model(
                strategy,
                cache,
                evs,
            ).live_rows
            &&& run_model(strategy, cache, evs).persisted_rows == Some(seed_dataset())
        },
{
    lemma_run_inv(strategy, cache, evs);
}

/// Catalog non-emptiness: the machine verifies a post-export read only
/// when the destination's table catalog lists the seeded table — so the
/// catalog is in particular non-empty.
pub proof fn lemma_catalog_nonempty(m: WorkflowModel, catalog: Seq<Seq<char>>, rows: Seq<RowModel>)
    ensures
        step_model(m, EventModel::PersistedRead { catalog, rows }).stage == Stage::VerifiedPersisted
            ==> catalog.contains(seeded_table_name()) && catalog.len() > 0,
{
}

/// `m` with its strategy replaced.
pub open spec fn with_strategy(m: WorkflowModel, strategy: Strategy) -> WorkflowModel {
    WorkflowModel { strategy, ..m }
}

/// A single step never consults the strategy: the pooled machine and the
/// exclusive machine move identically.
pub proof fn lemma_step_strategy_independent(m: WorkflowModel, strategy: Strategy, ev: EventModel)
    ensures
        step_model(with_strategy(m, strategy), ev) == with_strategy(step_model(m, ev), strategy),
{
}

/// Pool equivalence: a run under one strategy reaches, event for event,
/// the same state as the same run under the other strategy — the same
/// stages, rows, target and failure, differing only in the recorded
/// strategy itself.
pub proof fn lemma_pool_equivalence(s1: Strategy, s2: Strategy, cache: CacheMode, evs: Seq<EventModel>)
    ensures
        run_model(s1, cache, evs) == with_strategy(run_model(s2, cache, evs), s1),
    decreases evs.len(),
{
    if evs.len() > 0 {
        lemma_pool_equivalence(s1, s2, cache, evs.drop_last());
        lemma_step_strategy_independent(run_model(s2, cache, evs.drop_last()), s1, evs.last());
    }
}

/// Handle release precedes the reopen: the machine asks the driver to
/// open the exported file only in the `Released` stage, and that stage is
/// reached only by a release event arriving in the `Exported` stage.
pub proof fn lemma_release_precedes_reopen(m: WorkflowModel, ev: EventModel)
    ensures
        (next_action_model(m) matches ActionModel::OpenExported { .. }) ==> m.stage
            == Stage::Released,
        step_model(m, ev).stage == Stage::Released ==> m.stage == Stage::Exported && ev
            == EventModel::Released,
{
}

/// The position of a stage along the run's path.
pub open spec fn stage_rank(s: Stage) -> int {
    match s {
        Stage::Start => 0,
        Stage::Provisioned => 1,
        Stage::Seeded => 2,
        Stage::VerifiedLive => 3,
        Stage::Exported => 4,
        Stage::Released => 5,
        Stage::VerifiedPersisted => 6,
        Stage::Done => 7,
        Stage::Failed => 8,
    }
}

/// No transition is skipped: a step that does not abort either advances
/// the run by exactly one stage or — for the shared-cache interim
/// re-read — stays where it is.
pub proof fn lemma_no_stage_skipped(m: WorkflowModel, ev: EventModel)
    ensures
        step_model(m, ev).stage != Stage::Failed ==> {
            ||| stage_rank(step_model(m, ev).stage) == stage_rank(m.stage) + 1
            ||| step_model(m, ev).stage == m.stage
        },
{
}

/// A failed run is terminal: no further event changes it, and the first
/// recorded failure is kept.
pub proof fn lemma_failed_is_terminal(m: WorkflowModel, ev: EventModel)
    requires
        m.stage == Stage::Failed,
    ensures
        step_model(m, ev) == m,
{
}

/// The canonical sequence of acceptable observations: a fresh target, a
/// seeded store, the seed rows read live, a visible exported file, a
/// released handle, the seed rows and the seeded table read back, and a
/// concluded run.
pub open spec fn acceptable_events(path: Seq<char>) -> Seq<EventModel> {
    seq![
        EventModel::TargetReady { path, already_exists: false },
        EventModel::Seeded,
        EventModel::LiveRows { rows: seed_dataset() },
        EventModel::Exported { destination_exists: true },
        EventModel::Released,
        EventModel::PersistedRead {
            catalog: seq![seeded_table_name()],
            rows: seed_dataset(),
        },
        EventModel::Concluded,
    ]
}

/// Completion is owed: a run whose driver reports the canonical
/// acceptable observations ends in `Done`, under either strategy and
/// either cache mode, having recorded the seed dataset both live and
/// persisted.
pub proof fn lemma_acceptable_run_completes(strategy: Strategy, cache: CacheMode, path: Seq<char>)
    ensures
        run_model(strategy, cache, acceptable_events(path)).stage == Stage::Done,
        run_model(strategy, cache, acceptable_events(path)).live_rows == Some(seed_dataset()),
        run_model(strategy, cache, acceptable_events(path)).persisted_rows == Some(
            seed_dataset(),
        ),
{
    let e1 = EventModel::TargetReady { path, already_exists: false };
    let e2 = EventModel::Seeded;
    let e3 = EventModel::LiveRows { rows: seed_dataset() };
    let e4 = EventModel::Exported { destination_exists: true };
    let e5 = EventModel::Released;
    let catalog = seq![seeded_table_name()];
    let e6 = EventModel::PersistedRead { catalog, rows: seed_dataset() };
    let e7 = EventModel::Concluded;
    let p0 = Seq::<EventModel>::empty();
    let p1 = p0.push(e1);
    let p2 = p1.push(e2);
    let p3 = p2.push(e3);
    let p4 = p3.push(e4);
    let p5 = p4.push(e5);
    let p6 = p5.push(e6);
    let p7 = p6.push(e7);

    let m0 = run_model(strategy, cache, p0);
    assert(m0 == init_model(strategy, cache));
    lemma_run_snoc(strategy, cache, p0, e1);
    let m1 = step_model(m0, e1);
    assert(m1.stage == Stage::Provisioned);
    lemma_run_snoc(strategy, cache, p1, e2);
    let m2 = step_model(m1, e2);
    assert(m2.stage == Stage::Seeded);
    lemma_run_snoc(strategy, cache, p2, e3);
    let m3 = step_model(m2, e3);
    assert(m3.stage == Stage::VerifiedLive);
    assert(m3.live_rows == Some(seed_dataset()));
    lemma_run_snoc(strategy, cache, p3, e4);
    let m4 = step_model(m3, e4);
    assert(m4.stage == Stage::Exported);
    lemma_run_snoc(strategy, cache, p4, e5);
    let m5 = step_model(m4, e5);
    assert(m5.stage == Stage::Released);
    lemma_run_snoc(strategy, cache, p5, e6);
    let m6 = step_model(m5, e6);
    assert(catalog.contains(seeded_table_name())) by {
        assert(catalog[0] == seeded_table_name());
    }
    assert(m6.stage == Stage::VerifiedPersisted);
    assert(m6.persisted_rows == Some(seed_dataset()));
    lemma_run_snoc(strategy, cache, p6, e7);
    let m7 = step_model(m6, e7);
    assert(m7.stage == Stage::Done);
    assert(run_model(strategy, cache, p7) == m7);
    assert(p7 =~= acceptable_events(path));
}

/// Extending a run by one event applies one step.
proof fn lemma_run_snoc(strategy: Strategy, cache: CacheMode, evs: Seq<EventModel>, ev: EventModel)
    ensures
        run_model(strategy, cache, evs.push(ev)) == step_model(
            run_model(strategy, cache, evs),
            ev,
        ),
{
    assert(evs.push(ev).drop_last() =~= evs);
    assert(evs.push(ev).last() == ev);
}

} // verus!
