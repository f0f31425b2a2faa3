//! The persistence-export workflow as a verified state machine.
//!
//! A run walks the stages
//! `Start -> Provisioned -> Seeded -> VerifiedLive -> Exported -> Released
//! -> VerifiedPersisted -> Done`, never skipping one. The machine decides
//! each transition from the event an unverified driver reports back after
//! performing the requested outside work (provisioning a path, talking to
//! the database engine). Any unacceptable observation moves the machine to
//! `Failed`, recording which stage failed and why; a failed run never
//! resumes.
//!
//! Export policy: a destination path that already exists is rejected
//! outright at provisioning time — the export never overwrites.

use vstd::prelude::*;

use crate::rows::{classify, classify_rows, rows_view, seed_dataset, seed_rows, MismatchKind, Row,
    RowModel};
use crate::sql::{catalog_sql, catalog_text, seed_batch_sql, seed_batch_text, seeded_table_name,
    select_all_sql, select_all_text, vacuum_into, vacuum_into_text};

verus! {

/// How the driver holds the live in-memory store: one dedicated
/// connection, or a pool bounded to a single connection.
#[derive(PartialEq, Eq, Structural, Clone, Copy, Debug)]
pub enum Strategy {
    Exclusive,
    Pooled,
}

/// Whether connections naming the same in-memory store observe one shared
/// dataset or each get a private one.
#[derive(PartialEq, Eq, Structural, Clone, Copy, Debug)]
pub enum CacheMode {
    Private,
    Shared,
}

/// The stages of a run, in order; `Failed` is terminal and off the path.
#[derive(PartialEq, Eq, Structural, Clone, Copy, Debug)]
pub enum Stage {
    Start,
    Provisioned,
    Seeded,
    VerifiedLive,
    Exported,
    Released,
    VerifiedPersisted,
    Done,
    Failed,
}

/// Why a run failed.
#[derive(PartialEq, Eq, Structural, Clone, Copy, Debug)]
pub enum FailureKind {
    /// The filesystem could not provide a target path.
    Provisioning,
    /// The provisioned target path already exists; export never overwrites.
    TargetCollision,
    /// The engine or pool could not establish a handle.
    Connection,
    /// The seeding batch failed to execute.
    Execution,
    /// A full-table scan failed to execute.
    Query,
    /// A scan returned the wrong number of rows.
    CountMismatch,
    /// A scan returned the right rows in the wrong order.
    OrderMismatch,
    /// A scan returned a row with wrong content.
    ContentMismatch,
    /// The engine rejected the export statement.
    Export,
    /// The export reported success but the destination file is absent.
    ExportNotVisible,
    /// The exported store's catalog lists no table at all.
    EmptyCatalog,
    /// The exported store's catalog lacks the seeded table.
    MissingSeededTable,
    /// The driver reported an event the current stage cannot accept.
    UnexpectedEvent,
}

/// What failed: the stage the run held when the failing event arrived,
/// the kind of failure, and the driver's own account of the cause. The
/// stage tells a pre-export verification failure (at `Seeded`, or at
/// `VerifiedLive` for an interim re-read) from a post-export one (at
/// `Released`).
pub struct Failure {
    pub stage: Stage,
    pub kind: FailureKind,
    pub detail: String,
}

/// The mathematical value of a `Failure`.
pub struct FailureModel {
    pub stage: Stage,
    pub kind: FailureKind,
    pub detail: Seq<char>,
}

impl View for Failure {
    type V = FailureModel;

    open spec fn view(&self) -> FailureModel {
        FailureModel { stage: self.stage, kind: self.kind, detail: self.detail@ }
    }
}

/// What the driver reports back after performing the requested action.
pub enum Event {
    /// A target path was provisioned; `already_exists` is whether a file
    /// is already present at that path.
    TargetReady { path: String, already_exists: bool },
    /// The filesystem could not provide a target path.
    ProvisionFailed { detail: String },
    /// The engine or pool could not establish a handle.
    ConnectFailed { detail: String },
    /// The seeding batch ran to completion on the live handle.
    Seeded,
    /// The seeding batch failed.
    SeedFailed { detail: String },
    /// A full-table scan of the live store returned these rows, in result
    /// order.
    LiveRows { rows: Vec<Row> },
    /// A full-table scan failed to execute.
    QueryFailed { detail: String },
    /// The export statement completed; `destination_exists` is whether the
    /// destination file is now present.
    Exported { destination_exists: bool },
    /// The engine rejected the export statement.
    ExportFailed { detail: String },
    /// Every connection of the live handle was closed.
    Released,
    /// The exported file was opened independently; `catalog` is its table
    /// catalog and `rows` the full-table scan, in result order.
    PersistedRead { catalog: Vec<String>, rows: Vec<Row> },
    /// The driver released its post-export handle and finished its run.
    Concluded,
}

/// The mathematical value of an `Event`.
pub enum EventModel {
    TargetReady { path: Seq<char>, already_exists: bool },
    ProvisionFailed { detail: Seq<char> },
    ConnectFailed { detail: Seq<char> },
    Seeded,
    SeedFailed { detail: Seq<char> },
    LiveRows { rows: Seq<RowModel> },
    QueryFailed { detail: Seq<char> },
    Exported { destination_exists: bool },
    ExportFailed { detail: Seq<char> },
    Released,
    PersistedRead { catalog: Seq<Seq<char>>, rows: Seq<RowModel> },
    Concluded,
}

impl View for Event {
    type V = EventModel;

    open spec fn view(&self) -> EventModel {
        match self {
            Event::TargetReady { path, already_exists } => EventModel::TargetReady {
                path: path@,
                already_exists: *already_exists,
            },
            Event::ProvisionFailed { detail } => EventModel::ProvisionFailed { detail: detail@ },
            Event::ConnectFailed { detail } => EventModel::ConnectFailed { detail: detail@ },
            Event::Seeded => EventModel::Seeded,
            Event::SeedFailed { detail } => EventModel::SeedFailed { detail: detail@ },
            Event::LiveRows { rows } => EventModel::LiveRows { rows: rows_view(rows@) },
            Event::QueryFailed { detail } => EventModel::QueryFailed { detail: detail@ },
            Event::Exported { destination_exists } => EventModel::Exported {
                destination_exists: *destination_exists,
            },
            Event::ExportFailed { detail } => EventModel::ExportFailed { detail: detail@ },
            Event::Released => EventModel::Released,
            Event::PersistedRead { catalog, rows } => EventModel::PersistedRead {
                catalog: catalog@.map_values(|s: String| s@),
                rows: rows_view(rows@),
            },
            Event::Concluded => EventModel::Concluded,
        }
    }
}

/// What the machine asks the driver to do next.
pub enum Action {
    /// Obtain a fresh target path that no prior run uses.
    ProvisionTarget,
    /// Open the live in-memory store and run the seeding batch.
    OpenStoreAndSeed { batch: String },
    /// Run the full-table scan against the live store.
    QueryLive { query: String },
    /// Issue the export statement against the live handle.
    ExportTo { statement: String },
    /// Close every connection of the live handle.
    ReleaseHandle,
    /// Open the exported file independently; read its catalog and rows.
    OpenExported { path: String, catalog_query: String, query: String },
    /// Release the post-export handle and finish.
    Conclude,
    /// Nothing is left to do: the run is done or failed.
    Stop,
}

/// The mathematical value of an `Action`.
pub enum ActionModel {
    ProvisionTarget,
    OpenStoreAndSeed { batch: Seq<char> },
    QueryLive { query: Seq<char> },
    ExportTo { statement: Seq<char> },
    ReleaseHandle,
    OpenExported { path: Seq<char>, catalog_query: Seq<char>, query: Seq<char> },
    Conclude,
    Stop,
}

impl View for Action {
    type V = ActionModel;

    open spec fn view(&self) -> ActionModel {
        match self {
            Action::ProvisionTarget => ActionModel::ProvisionTarget,
            Action::OpenStoreAndSeed { batch } => ActionModel::OpenStoreAndSeed { batch: batch@ },
            Action::QueryLive { query } => ActionModel::QueryLive { query: query@ },
            Action::ExportTo { statement } => ActionModel::ExportTo { statement: statement@ },
            Action::ReleaseHandle => ActionModel::ReleaseHandle,
            Action::OpenExported { path, catalog_query, query } => ActionModel::OpenExported {
                path: path@,
                catalog_query: catalog_query@,
                query: query@,
            },
            Action::Conclude => ActionModel::Conclude,
            Action::Stop => ActionModel::Stop,
        }
    }
}

/// One run of the workflow: its configuration, its current stage, and
/// what it has recorded so far.
pub struct Workflow {
    strategy: Strategy,
    cache: CacheMode,
    stage: Stage,
    target: Option<String>,
    live_rows: Option<Vec<Row>>,
    persisted_rows: Option<Vec<Row>>,
    failure: Option<Failure>,
}

/// The mathematical value of a `Workflow`.
pub struct WorkflowModel {
    pub strategy: Strategy,
    pub cache: CacheMode,
    pub stage: Stage,
    pub target: Option<Seq<char>>,
    pub live_rows: Option<Seq<RowModel>>,
    pub persisted_rows: Option<Seq<RowModel>>,
    pub failure: Option<FailureModel>,
}

impl View for Workflow {
    type V = WorkflowModel;

    closed spec fn view(&self) -> WorkflowModel {
        WorkflowModel {
            strategy: self.strategy,
            cache: self.cache,
            stage: self.stage,
            target: match self.target {
                Some(ref t) => Some(t@),
                None => None,
            },
            live_rows: match self.live_rows {
                Some(ref r) => Some(rows_view(r@)),
                None => None,
            },
            persisted_rows: match self.persisted_rows {
                Some(ref r) => Some(rows_view(r@)),
                None => None,
            },
            failure: match self.failure {
                Some(ref f) => Some(f@),
                None => None,
            },
        }
    }
}

/// A fresh run in the given configuration.
pub open spec fn init_model(strategy: Strategy, cache: CacheMode) -> WorkflowModel {
    WorkflowModel {
        strategy,
        cache,
        stage: Stage::Start,
        target: None,
        live_rows: None,
        persisted_rows: None,
        failure: None,
    }
}

/// The run aborted at `m.stage` with the given kind and cause.
pub open spec fn fail_model(m: WorkflowModel, kind: FailureKind, detail: Seq<char>) -> WorkflowModel {
    WorkflowModel {
        stage: Stage::Failed,
        failure: Some(FailureModel { stage: m.stage, kind, detail }),
        ..m
    }
}

/// The failure kind that reports a given row mismatch.
pub open spec fn mismatch_failure(k: MismatchKind) -> FailureKind {
    match k {
        MismatchKind::Count => FailureKind::CountMismatch,
        MismatchKind::Order => FailureKind::OrderMismatch,
        MismatchKind::Content => FailureKind::ContentMismatch,
    }
}

/// The whole decision logic of the workflow: how a run in state `m`
/// responds to the driver's event `ev`.
pub open spec fn step_model(m: WorkflowModel, ev: EventModel) -> WorkflowModel {
    match (m.stage, ev) {
        (Stage::Start, EventModel::TargetReady { path, already_exists }) => {
            if already_exists {
                fail_model(m, FailureKind::TargetCollision, path)
            } else {
                WorkflowModel { stage: Stage::Provisioned, target: Some(path), ..m }
            }
        },
        (Stage::Start, EventModel::ProvisionFailed { detail }) => {
            fail_model(m, FailureKind::Provisioning, detail)
        },
        (Stage::Provisioned, EventModel::Seeded) => {
            WorkflowModel { stage: Stage::Seeded, ..m }
        },
        (Stage::Provisioned, EventModel::ConnectFailed { detail }) => {
            fail_model(m, FailureKind::Connection, detail)
        },
        (Stage::Provisioned, EventModel::SeedFailed { detail }) => {
            fail_model(m, FailureKind::Execution, detail)
        },
        (Stage::Seeded, EventModel::LiveRows { rows }) => {
            match classify(seed_dataset(), rows) {
                None => WorkflowModel {
                    stage: Stage::VerifiedLive,
                    live_rows: Some(rows),
                    ..m
                },
                Some(k) => fail_model(m, mismatch_failure(k), Seq::empty()),
            }
        },
        (Stage::Seeded, EventModel::QueryFailed { detail }) => {
            fail_model(m, FailureKind::Query, detail)
        },
        (Stage::VerifiedLive, EventModel::LiveRows { rows }) => {
            // An interim re-read through a second connection: meaningful
            // only when the cache is shared, so that both connections
            // observe one logical dataset.
            if m.cache == CacheMode::Shared {
                match classify(seed_dataset(), rows) {
                    None => m,
                    Some(k) => fail_model(m, mismatch_failure(k), Seq::empty()),
                }
            } else {
                fail_model(m, FailureKind::UnexpectedEvent, Seq::empty())
            }
        },
        (Stage::VerifiedLive, EventModel::Exported { destination_exists }) => {
            if destination_exists {
                WorkflowModel { stage: Stage::Exported, ..m }
            } else {
                fail_model(m, FailureKind::ExportNotVisible, Seq::empty())
            }
        },
        (Stage::VerifiedLive, EventModel::ExportFailed { detail }) => {
            fail_model(m, FailureKind::Export, detail)
        },
        (Stage::Exported, EventModel::Released) => {
            WorkflowModel { stage: Stage::Released, ..m }
        },
        (Stage::Released, EventModel::ConnectFailed { detail }) => {
            fail_model(m, FailureKind::Connection, detail)
        },
        (Stage::Released, EventModel::QueryFailed { detail }) => {
            fail_model(m, FailureKind::Query, detail)
        },
        (Stage::Released, EventModel::PersistedRead { catalog, rows }) => {
            if catalog.len() == 0 {
                fail_model(m, FailureKind::EmptyCatalog, Seq::empty())
            } else if !catalog.contains(seeded_table_name()) {
                fail_model(m, FailureKind::MissingSeededTable, Seq::empty())
            } else {
                match m.live_rows {
                    Some(live) => {
                        match classify(live, rows) {
                            None => WorkflowModel {
                                stage: Stage::VerifiedPersisted,
                                persisted_rows: Some(rows),
                                ..m
                            },
                            Some(k) => fail_model(m, mismatch_failure(k), Seq::empty()),
                        }
                    },
                    None => fail_model(m, FailureKind::UnexpectedEvent, Seq::empty()),
                }
            }
        },
        (Stage::VerifiedPersisted, EventModel::Concluded) => {
            WorkflowModel { stage: Stage::Done, ..m }
        },
        // A failed run is terminal: the first recorded failure is kept.
        (Stage::Failed, _) => m,
        (_, _) => fail_model(m, FailureKind::UnexpectedEvent, Seq::empty()),
    }
}

/// What the machine asks of the driver in state `m`. Total: a state that
/// lacks what the action needs (possible only off the reachable states)
/// answers `Stop`.
pub open spec fn next_action_model(m: WorkflowModel) -> ActionModel {
    match m.stage {
        Stage::Start => ActionModel::ProvisionTarget,
        Stage::Provisioned => ActionModel::OpenStoreAndSeed { batch: seed_batch_text() },
        Stage::Seeded => ActionModel::QueryLive { query: select_all_text() },
        Stage::VerifiedLive => match m.target {
            Some(path) => ActionModel::ExportTo { statement: vacuum_into_text(path) },
            None => ActionModel::Stop,
        },
        Stage::Exported => ActionModel::ReleaseHandle,
        Stage::Released => match m.target {
            Some(path) => ActionModel::OpenExported {
                path,
                catalog_query: catalog_text(),
                query: select_all_text(),
            },
            None => ActionModel::Stop,
        },
        Stage::VerifiedPersisted => ActionModel::Conclude,
        Stage::Done => ActionModel::Stop,
        Stage::Failed => ActionModel::Stop,
    }
}

impl Workflow {
    /// Starts a run in the given configuration.
    pub fn new(strategy: Strategy, cache: CacheMode) -> (w: Workflow)
        ensures
            w@ == init_model(strategy, cache),
    {
        Workflow {
            strategy,
            cache,
            stage: Stage::Start,
            target: None,
            live_rows: None,
            persisted_rows: None,
            failure: None,
        }
    }

    fn fail(&mut self, kind: FailureKind, detail: String)
        ensures
            final(self)@ == fail_model(old(self)@, kind, detail@),
    {
        let stage = self.stage;
        self.failure = Some(Failure { stage, kind, detail });
        self.stage = Stage::Failed;
    }

    /// Applies the driver's report of the last action's outcome, deciding
    /// the next stage exactly as `step_model` says.
    pub fn step(&mut self, ev: Event)
        ensures
            final(self)@ == step_model(old(self)@, ev@),
    {
        match (self.stage, ev) {
            (Stage::Start, Event::TargetReady { path, already_exists }) => {
                if already_exists {
                    self.fail(FailureKind::TargetCollision, path);
                } else {
                    self.target = Some(path);
                    self.stage = Stage::Provisioned;
                }
            },
            (Stage::Start, Event::ProvisionFailed { detail }) => {
                self.fail(FailureKind::Provisioning, detail);
            },
            (Stage::Provisioned, Event::Seeded) => {
                self.stage = Stage::Seeded;
            },
            (Stage::Provisioned, Event::ConnectFailed { detail }) => {
                self.fail(FailureKind::Connection, detail);
            },
            (Stage::Provisioned, Event::SeedFailed { detail }) => {
                self.fail(FailureKind::Execution, detail);
            },
            (Stage::Seeded, Event::LiveRows { rows }) => {
                let expected = seed_rows();
                match classify_rows(&expected, &rows) {
                    None => {
                        self.live_rows = Some(rows);
                        self.stage = Stage::VerifiedLive;
                    },
                    Some(k) => {
                        self.fail(mismatch_failure_kind(k), String::new());
                    },
                }
            },
            (Stage::Seeded, Event::QueryFailed { detail }) => {
                self.fail(FailureKind::Query, detail);
            },
            (Stage::VerifiedLive, Event::LiveRows { rows }) => {
                if self.cache == CacheMode::Shared {
                    let expected = seed_rows();
                    match classify_rows(&expected, &rows) {
                        None => {},
                        Some(k) => {
                            self.fail(mismatch_failure_kind(k), String::new());
                        },
                    }
                } else {
                    self.fail(FailureKind::UnexpectedEvent, String::new());
                }
            },
            (Stage::VerifiedLive, Event::Exported { destination_exists }) => {
                if destination_exists {
                    self.stage = Stage::Exported;
                } else {
                    self.fail(FailureKind::ExportNotVisible, String::new());
                }
            },
            (Stage::VerifiedLive, Event::ExportFailed { detail }) => {
                self.fail(FailureKind::Export, detail);
            },
            (Stage::Exported, Event::Released) => {
                self.stage = Stage::Released;
            },
            (Stage::Released, Event::ConnectFailed { detail }) => {
                self.fail(FailureKind::Connection, detail);
            },
            (Stage::Released, Event::QueryFailed { detail }) => {
                self.fail(FailureKind::Query, detail);
            },
            (Stage::Released, Event::PersistedRead { catalog, rows }) => {
                if catalog.len() == 0 {
                    self.fail(FailureKind::EmptyCatalog, String::new());
                } else if !catalog_has_seeded_table(&catalog) {
                    self.fail(FailureKind::MissingSeededTable, String::new());
                } else {
                    match self.live_rows {
                        Some(ref live) => {
                            match classify_rows(live, &rows) {
                                None => {
                                    self.persisted_rows = Some(rows);
                                    self.stage = Stage::VerifiedPersisted;
                                },
                                Some(k) => {
                                    self.fail(mismatch_failure_kind(k), String::new());
                                },
                            }
                        },
                        None => {
                            self.fail(FailureKind::UnexpectedEvent, String::new());
                        },
                    }
                }
            },
            (Stage::VerifiedPersisted, Event::Concluded) => {
                self.stage = Stage::Done;
            },
            (Stage::Failed, _) => {},
            (_, _) => {
                self.fail(FailureKind::UnexpectedEvent, String::new());
            },
        }
    }

    /// The action the driver should perform next.
    pub fn next_action(&self) -> (a: Action)
        ensures
            a@ == next_action_model(self@),
    {
        match self.stage {
            Stage::Start => Action::ProvisionTarget,
            Stage::Provisioned => Action::OpenStoreAndSeed { batch: String::from_str(seed_batch_sql()) },
            Stage::Seeded => Action::QueryLive { query: String::from_str(select_all_sql()) },
            Stage::VerifiedLive => match self.target {
                Some(ref path) => Action::ExportTo { statement: vacuum_into(path.as_str()) },
                None => Action::Stop,
            },
            Stage::Exported => Action::ReleaseHandle,
            Stage::Released => match self.target {
                Some(ref path) => Action::OpenExported {
                    path: path.clone(),
                    catalog_query: String::from_str(catalog_sql()),
                    query: String::from_str(select_all_sql()),
                },
                None => Action::Stop,
            },
            Stage::VerifiedPersisted => Action::Conclude,
            Stage::Done => Action::Stop,
            Stage::Failed => Action::Stop,
        }
    }

    /// The current stage.
    pub fn stage(&self) -> (s: Stage)
        ensures
            s == self@.stage,
    {
        self.stage
    }

    /// The configured access strategy.
    pub fn strategy(&self) -> (s: Strategy)
        ensures
            s == self@.strategy,
    {
        self.strategy
    }

    /// The configured cache mode.
    pub fn cache_mode(&self) -> (c: CacheMode)
        ensures
            c == self@.cache,
    {
        self.cache
    }

    /// Whether the run has aborted.
    pub fn is_failed(&self) -> (b: bool)
        ensures
            b == (self@.stage == Stage::Failed),
    {
        self.stage == Stage::Failed
    }

    /// The recorded failure, if the run has aborted.
    pub fn failure(&self) -> (f: &Option<Failure>)
        ensures
            f.is_some() == self@.failure.is_some(),
            f.is_some() ==> f.unwrap()@ == self@.failure.unwrap(),
    {
        &self.failure
    }

    /// The provisioned target path, once one exists.
    pub fn target(&self) -> (t: &Option<String>)
        ensures
            t.is_some() == self@.target.is_some(),
            t.is_some() ==> t.unwrap()@ == self@.target.unwrap(),
    {
        &self.target
    }

    /// The rows read from the live store, once verified.
    pub fn live_rows(&self) -> (r: &Option<Vec<Row>>)
        ensures
            r.is_some() == self@.live_rows.is_some(),
            r.is_some() ==> rows_view(r.unwrap()@) == self@.live_rows.unwrap(),
    {
        &self.live_rows
    }

    /// The rows read back from the exported file, once verified.
    pub fn persisted_rows(&self) -> (r: &Option<Vec<Row>>)
        ensures
            r.is_some() == self@.persisted_rows.is_some(),
            r.is_some() ==> rows_view(r.unwrap()@) == self@.persisted_rows.unwrap(),
    {
        &self.persisted_rows
    }
}

/// The executable counterpart of `mismatch_failure`.
fn mismatch_failure_kind(k: MismatchKind) -> (r: FailureKind)
    ensures
        r == mismatch_failure(k),
{
    match k {
        MismatchKind::Count => FailureKind::CountMismatch,
        MismatchKind::Order => FailureKind::OrderMismatch,
        MismatchKind::Content => FailureKind::ContentMismatch,
    }
}

/// Whether the catalog lists the seeded table.
pub fn catalog_has_seeded_table(catalog: &Vec<String>) -> (r: bool)
    ensures
        r == catalog@.map_values(|s: String| s@).contains(seeded_table_name()),
{
    let expected = String::from_str("test");
    let ghost names = catalog@.map_values(|s: String| s@);
    let mut i: usize = 0;
    while i < catalog.len()
        invariant
            0 <= i <= catalog@.len(),
            expected@ == seeded_table_name(),
            names == catalog@.map_values(|s: String| s@),
            forall|j: int| 0 <= j < i ==> names[j] != seeded_table_name(),
        decreases catalog@.len() - i,
    {
        if catalog[i] == expected {
            proof {
                assert(names[i as int] == seeded_table_name());
            }
            return true;
        }
        i = i + 1;
    }
    false
}

} // verus!
