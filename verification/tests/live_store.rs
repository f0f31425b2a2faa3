//! The full workflow against the real embedded engine, driven through a
//! direct synchronous connection: the machine decides every step, the
//! driver only performs it and reports what it observed.

use std::path::PathBuf;

use store_export::rows::Row;
use store_export::workflow::{Action, CacheMode, Event, Stage, Strategy, Workflow};

fn read_rows(conn: &rusqlite::Connection, query: &str) -> Vec<Row> {
    let mut statement = conn.prepare(query).unwrap();
    statement
        .query_map([], |r| {
            Ok(Row { id: r.get(0).expect(""), name: r.get(1).expect("") })
        })
        .unwrap()
        .map(|r| r.unwrap())
        .collect()
}

fn read_catalog(conn: &rusqlite::Connection, query: &str) -> Vec<String> {
    let mut statement = conn.prepare(query).unwrap();
    statement
        .query_map([], |r| r.get::<usize, String>(0))
        .unwrap()
        .map(|r| r.unwrap())
        .collect()
}

#[test]
fn test_rusqlite() {
    let dir = tempfile::tempdir().unwrap();
    let target: PathBuf = dir.path().join("exported.db");
    let target_text = target.to_str().unwrap().to_string();

    let mut wf = Workflow::new(Strategy::Exclusive, CacheMode::Private);
    let mut live: Option<rusqlite::Connection> = None;
    let mut reopened: Option<rusqlite::Connection> = None;

    loop {
        match wf.next_action() {
            Action::ProvisionTarget => {
                wf.step(Event::TargetReady {
                    path: target_text.clone(),
                    already_exists: target.exists(),
                });
            },
            Action::OpenStoreAndSeed { batch } => {
                let conn = rusqlite::Connection::open_in_memory().unwrap();
                conn.execute_batch(&batch).unwrap();
                live = Some(conn);
                wf.step(Event::Seeded);
            },
            Action::QueryLive { query } => {
                let rows = read_rows(live.as_ref().unwrap(), &query);
                wf.step(Event::LiveRows { rows });
            },
            Action::ExportTo { statement } => {
                live.as_ref().unwrap().execute_batch(&statement).unwrap();
                wf.step(Event::Exported { destination_exists: target.exists() });
            },
            Action::ReleaseHandle => {
                drop(live.take());
                wf.step(Event::Released);
            },
            Action::OpenExported { path, catalog_query, query } => {
                let conn = rusqlite::Connection::open(&path).unwrap();
                let catalog = read_catalog(&conn, &catalog_query);
                let rows = read_rows(&conn, &query);
                reopened = Some(conn);
                wf.step(Event::PersistedRead { catalog, rows });
            },
            Action::Conclude => {
                drop(reopened.take());
                wf.step(Event::Concluded);
            },
            Action::Stop => break,
        }
    }

    assert_eq!(wf.stage(), Stage::Done);
    assert!(!wf.is_failed());
    let persisted = wf.persisted_rows().as_ref().unwrap();
    assert_eq!(persisted.len(), 2);
    assert_eq!(persisted[0].id, 1);
    assert_eq!(persisted[0].name, "hello");
    assert_eq!(persisted[1].id, 2);
    assert_eq!(persisted[1].name, "world");
}

#[test]
fn rusqlite_export_onto_nonempty_file_is_rejected() {
    // The engine's export also refuses a non-empty destination; the
    // machine rejects it one step earlier, at provisioning.
    let dir = tempfile::tempdir().unwrap();
    let target: PathBuf = dir.path().join("occupied.db");
    {
        let occupant = rusqlite::Connection::open(&target).unwrap();
        occupant.execute_batch("create table occupant (x integer);").unwrap();
    }
    assert!(target.exists());

    let mut wf = Workflow::new(Strategy::Exclusive, CacheMode::Private);
    wf.step(Event::TargetReady {
        path: target.to_str().unwrap().to_string(),
        already_exists: target.exists(),
    });
    assert_eq!(wf.stage(), Stage::Failed);
    assert!(matches!(wf.next_action(), Action::Stop));
}
