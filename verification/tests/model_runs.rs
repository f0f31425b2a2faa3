//! Runs of the workflow state machine on concrete event sequences.

use store_export::rows::{rows_equal, Row};
use store_export::workflow::{Action, CacheMode, Event, FailureKind, Stage, Strategy, Workflow};

fn row(id: i64, name: &str) -> Row {
    Row { id, name: name.to_string() }
}

fn seed_vec() -> Vec<Row> {
    vec![row(1, "hello"), row(2, "world")]
}

fn drive_to_released(wf: &mut Workflow, path: &str) {
    wf.step(Event::TargetReady { path: path.to_string(), already_exists: false });
    wf.step(Event::Seeded);
    wf.step(Event::LiveRows { rows: seed_vec() });
    wf.step(Event::Exported { destination_exists: true });
    wf.step(Event::Released);
}

#[test]
fn scenario_seed_export_reopen() {
    let mut wf = Workflow::new(Strategy::Exclusive, CacheMode::Private);
    assert_eq!(wf.stage(), Stage::Start);
    assert!(matches!(wf.next_action(), Action::ProvisionTarget));

    wf.step(Event::TargetReady { path: "/tmp/out.db".to_string(), already_exists: false });
    assert_eq!(wf.stage(), Stage::Provisioned);
    match wf.next_action() {
        Action::OpenStoreAndSeed { batch } => {
            assert!(batch.contains("create table test"));
            assert!(batch.contains("'hello'"));
            assert!(batch.contains("'world'"));
        },
        _ => panic!("expected the seeding action"),
    }

    wf.step(Event::Seeded);
    assert_eq!(wf.stage(), Stage::Seeded);
    match wf.next_action() {
        Action::QueryLive { query } => assert_eq!(query, "select * from test"),
        _ => panic!("expected the live scan action"),
    }

    wf.step(Event::LiveRows { rows: seed_vec() });
    assert_eq!(wf.stage(), Stage::VerifiedLive);
    match wf.next_action() {
        Action::ExportTo { statement } => {
            assert_eq!(statement, "vacuum into '/tmp/out.db'");
        },
        _ => panic!("expected the export action"),
    }

    wf.step(Event::Exported { destination_exists: true });
    assert_eq!(wf.stage(), Stage::Exported);
    assert!(matches!(wf.next_action(), Action::ReleaseHandle));

    wf.step(Event::Released);
    assert_eq!(wf.stage(), Stage::Released);
    match wf.next_action() {
        Action::OpenExported { path, catalog_query, query } => {
            assert_eq!(path, "/tmp/out.db");
            assert_eq!(catalog_query, "SELECT name FROM sqlite_master WHERE type='table'");
            assert_eq!(query, "select * from test");
        },
        _ => panic!("expected the reopen action"),
    }

    wf.step(Event::PersistedRead { catalog: vec!["test".to_string()], rows: seed_vec() });
    assert_eq!(wf.stage(), Stage::VerifiedPersisted);

    // The two fixed rows came back: count 2, ids 1 and 2, names in order.
    let live = wf.live_rows().as_ref().unwrap();
    let persisted = wf.persisted_rows().as_ref().unwrap();
    assert_eq!(persisted.len(), 2);
    assert!(rows_equal(live, persisted));
    assert_eq!(persisted[0].id, 1);
    assert_eq!(persisted[0].name, "hello");
    assert_eq!(persisted[1].id, 2);
    assert_eq!(persisted[1].name, "world");

    assert!(matches!(wf.next_action(), Action::Conclude));
    wf.step(Event::Concluded);
    assert_eq!(wf.stage(), Stage::Done);
    assert!(matches!(wf.next_action(), Action::Stop));
    assert!(!wf.is_failed());
}

#[test]
fn scenario_export_target_already_occupied() {
    // The export destination already exists: the run is rejected outright,
    // deterministically, before any store is touched — never overwritten.
    let mut wf = Workflow::new(Strategy::Exclusive, CacheMode::Private);
    wf.step(Event::TargetReady { path: "/tmp/occupied.db".to_string(), already_exists: true });
    assert_eq!(wf.stage(), Stage::Failed);
    assert!(wf.is_failed());
    let failure = wf.failure().as_ref().unwrap();
    assert_eq!(failure.kind, FailureKind::TargetCollision);
    assert_eq!(failure.stage, Stage::Start);
    assert_eq!(failure.detail, "/tmp/occupied.db");
    assert!(matches!(wf.next_action(), Action::Stop));
}

#[test]
fn scenario_shared_cache_second_reader() {
    // Pooled strategy, shared cache: a second reader of the same in-memory
    // target before the export observes the same two rows, and the run
    // carries on unchanged.
    let mut wf = Workflow::new(Strategy::Pooled, CacheMode::Shared);
    wf.step(Event::TargetReady { path: "/tmp/out.db".to_string(), already_exists: false });
    wf.step(Event::Seeded);
    wf.step(Event::LiveRows { rows: seed_vec() });
    assert_eq!(wf.stage(), Stage::VerifiedLive);

    wf.step(Event::LiveRows { rows: seed_vec() });
    assert_eq!(wf.stage(), Stage::VerifiedLive);

    wf.step(Event::Exported { destination_exists: true });
    wf.step(Event::Released);
    wf.step(Event::PersistedRead { catalog: vec!["test".to_string()], rows: seed_vec() });
    wf.step(Event::Concluded);
    assert_eq!(wf.stage(), Stage::Done);
}

#[test]
fn private_cache_rejects_second_reader() {
    // Without a shared cache a second connection would see its own empty
    // store, so an interim re-read is not an acceptable event.
    let mut wf = Workflow::new(Strategy::Exclusive, CacheMode::Private);
    wf.step(Event::TargetReady { path: "/tmp/out.db".to_string(), already_exists: false });
    wf.step(Event::Seeded);
    wf.step(Event::LiveRows { rows: seed_vec() });
    wf.step(Event::LiveRows { rows: seed_vec() });
    assert_eq!(wf.stage(), Stage::Failed);
    assert_eq!(wf.failure().as_ref().unwrap().kind, FailureKind::UnexpectedEvent);
}

#[test]
fn pooled_and_exclusive_runs_agree() {
    // The same events drive the pooled and the exclusive machine through
    // the same stages to the same outcome.
    let mut a = Workflow::new(Strategy::Exclusive, CacheMode::Private);
    let mut b = Workflow::new(Strategy::Pooled, CacheMode::Private);
    let steps: Vec<fn() -> Event> = vec![
        || Event::TargetReady { path: "/tmp/same.db".to_string(), already_exists: false },
        || Event::Seeded,
        || Event::LiveRows { rows: vec![Row { id: 1, name: "hello".to_string() }, Row { id: 2, name: "world".to_string() }] },
        || Event::Exported { destination_exists: true },
        || Event::Released,
        || Event::PersistedRead { catalog: vec!["test".to_string()], rows: vec![Row { id: 1, name: "hello".to_string() }, Row { id: 2, name: "world".to_string() }] },
        || Event::Concluded,
    ];
    for make in steps {
        a.step(make());
        b.step(make());
        assert_eq!(a.stage(), b.stage());
    }
    assert_eq!(a.stage(), Stage::Done);
    assert_eq!(b.stage(), Stage::Done);
    assert!(rows_equal(
        a.persisted_rows().as_ref().unwrap(),
        b.persisted_rows().as_ref().unwrap(),
    ));
}

#[test]
fn live_scan_count_mismatch_fails() {
    let mut wf = Workflow::new(Strategy::Exclusive, CacheMode::Private);
    wf.step(Event::TargetReady { path: "/tmp/out.db".to_string(), already_exists: false });
    wf.step(Event::Seeded);
    wf.step(Event::LiveRows { rows: vec![row(1, "hello")] });
    assert_eq!(wf.stage(), Stage::Failed);
    let failure = wf.failure().as_ref().unwrap();
    assert_eq!(failure.kind, FailureKind::CountMismatch);
    assert_eq!(failure.stage, Stage::Seeded);
}

#[test]
fn live_scan_order_mismatch_fails() {
    let mut wf = Workflow::new(Strategy::Exclusive, CacheMode::Private);
    wf.step(Event::TargetReady { path: "/tmp/out.db".to_string(), already_exists: false });
    wf.step(Event::Seeded);
    wf.step(Event::LiveRows { rows: vec![row(2, "world"), row(1, "hello")] });
    assert_eq!(wf.stage(), Stage::Failed);
    assert_eq!(wf.failure().as_ref().unwrap().kind, FailureKind::OrderMismatch);
}

#[test]
fn live_scan_content_mismatch_fails() {
    let mut wf = Workflow::new(Strategy::Exclusive, CacheMode::Private);
    wf.step(Event::TargetReady { path: "/tmp/out.db".to_string(), already_exists: false });
    wf.step(Event::Seeded);
    wf.step(Event::LiveRows { rows: vec![row(1, "hello"), row(2, "mars")] });
    assert_eq!(wf.stage(), Stage::Failed);
    assert_eq!(wf.failure().as_ref().unwrap().kind, FailureKind::ContentMismatch);
}

#[test]
fn post_export_mismatch_reports_released_stage() {
    let mut wf = Workflow::new(Strategy::Exclusive, CacheMode::Private);
    drive_to_released(&mut wf, "/tmp/out.db");
    wf.step(Event::PersistedRead {
        catalog: vec!["test".to_string()],
        rows: vec![row(2, "world"), row(1, "hello")],
    });
    assert_eq!(wf.stage(), Stage::Failed);
    let failure = wf.failure().as_ref().unwrap();
    assert_eq!(failure.kind, FailureKind::OrderMismatch);
    assert_eq!(failure.stage, Stage::Released);
}

#[test]
fn empty_catalog_fails() {
    let mut wf = Workflow::new(Strategy::Exclusive, CacheMode::Private);
    drive_to_released(&mut wf, "/tmp/out.db");
    wf.step(Event::PersistedRead { catalog: vec![], rows: seed_vec() });
    assert_eq!(wf.stage(), Stage::Failed);
    assert_eq!(wf.failure().as_ref().unwrap().kind, FailureKind::EmptyCatalog);
}

#[test]
fn catalog_without_seeded_table_fails() {
    let mut wf = Workflow::new(Strategy::Exclusive, CacheMode::Private);
    drive_to_released(&mut wf, "/tmp/out.db");
    wf.step(Event::PersistedRead { catalog: vec!["other".to_string()], rows: seed_vec() });
    assert_eq!(wf.stage(), Stage::Failed);
    assert_eq!(wf.failure().as_ref().unwrap().kind, FailureKind::MissingSeededTable);
}

#[test]
fn export_statement_failure_is_fatal() {
    let mut wf = Workflow::new(Strategy::Exclusive, CacheMode::Private);
    wf.step(Event::TargetReady { path: "/tmp/out.db".to_string(), already_exists: false });
    wf.step(Event::Seeded);
    wf.step(Event::LiveRows { rows: seed_vec() });
    wf.step(Event::ExportFailed { detail: "disk full".to_string() });
    assert_eq!(wf.stage(), Stage::Failed);
    let failure = wf.failure().as_ref().unwrap();
    assert_eq!(failure.kind, FailureKind::Export);
    assert_eq!(failure.stage, Stage::VerifiedLive);
    assert_eq!(failure.detail, "disk full");
}

#[test]
fn export_without_visible_file_is_fatal() {
    let mut wf = Workflow::new(Strategy::Exclusive, CacheMode::Private);
    wf.step(Event::TargetReady { path: "/tmp/out.db".to_string(), already_exists: false });
    wf.step(Event::Seeded);
    wf.step(Event::LiveRows { rows: seed_vec() });
    wf.step(Event::Exported { destination_exists: false });
    assert_eq!(wf.stage(), Stage::Failed);
    assert_eq!(wf.failure().as_ref().unwrap().kind, FailureKind::ExportNotVisible);
}

#[test]
fn provisioning_connection_seeding_query_failures() {
    let mut wf = Workflow::new(Strategy::Exclusive, CacheMode::Private);
    wf.step(Event::ProvisionFailed { detail: "no temp dir".to_string() });
    assert_eq!(wf.failure().as_ref().unwrap().kind, FailureKind::Provisioning);

    let mut wf = Workflow::new(Strategy::Exclusive, CacheMode::Private);
    wf.step(Event::TargetReady { path: "/tmp/a.db".to_string(), already_exists: false });
    wf.step(Event::ConnectFailed { detail: "engine down".to_string() });
    assert_eq!(wf.failure().as_ref().unwrap().kind, FailureKind::Connection);

    let mut wf = Workflow::new(Strategy::Exclusive, CacheMode::Private);
    wf.step(Event::TargetReady { path: "/tmp/a.db".to_string(), already_exists: false });
    wf.step(Event::SeedFailed { detail: "malformed schema".to_string() });
    assert_eq!(wf.failure().as_ref().unwrap().kind, FailureKind::Execution);

    let mut wf = Workflow::new(Strategy::Exclusive, CacheMode::Private);
    wf.step(Event::TargetReady { path: "/tmp/a.db".to_string(), already_exists: false });
    wf.step(Event::Seeded);
    wf.step(Event::QueryFailed { detail: "scan failed".to_string() });
    assert_eq!(wf.failure().as_ref().unwrap().kind, FailureKind::Query);
}

#[test]
fn out_of_order_event_is_rejected() {
    let mut wf = Workflow::new(Strategy::Exclusive, CacheMode::Private);
    wf.step(Event::Released);
    assert_eq!(wf.stage(), Stage::Failed);
    assert_eq!(wf.failure().as_ref().unwrap().kind, FailureKind::UnexpectedEvent);
}

#[test]
fn failed_run_is_terminal_and_keeps_first_failure() {
    let mut wf = Workflow::new(Strategy::Exclusive, CacheMode::Private);
    wf.step(Event::TargetReady { path: "/tmp/occupied.db".to_string(), already_exists: true });
    assert_eq!(wf.failure().as_ref().unwrap().kind, FailureKind::TargetCollision);
    wf.step(Event::Seeded);
    wf.step(Event::Released);
    assert_eq!(wf.stage(), Stage::Failed);
    assert_eq!(wf.failure().as_ref().unwrap().kind, FailureKind::TargetCollision);
}
