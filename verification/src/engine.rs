//! The record operations of the engine, step by step.
//!
//! An operation starts with [`Operation::begin`], which gives the first
//! [`Step`]. A step either asks for an [`Action`], to be answered by
//! [`Operation::advance`] with the [`Event`] that came of it, or is the
//! operation's result. Every operation first opens the coordination file and
//! takes the lock, shared for the two that only read and exclusive for the
//! others, then checks the metadata, and only then looks at records.

use crate::errors::{DBError, DBErrorView};
use crate::layout::{Location, LocationView};
use crate::protocol::{Action, ActionView, Event, EventView, LockMode};
use crate::table::{ForeignKey, ForeignKeyView};
use vstd::prelude::*;

verus! {

/// The five record operations.
#[derive(Debug, Clone, Copy, PartialEq, Eq)]
pub enum OpKind {
    /// Store a new record under a fresh identifier.
    Insert,
    /// Load the record with a given identifier.
    Get,
    /// Overwrite the record with a given identifier.
    Update,
    /// Remove the record with a given identifier.
    Delete,
    /// Tell whether a record with a given identifier is stored.
    Exists,
}

/// How far an operation has come: the action whose outcome it waits for.
#[derive(Debug, Clone, Copy, PartialEq, Eq)]
pub enum Stage {
    /// Waits for the coordination file to be opened.
    OpeningLock,
    /// Waits for the lock.
    Locking,
    /// Waits for the metadata.
    ReadingMetadata,
    /// Waits to hear whether the target of the foreign key with this index is
    /// stored.
    CheckingReference(usize),
    /// Waits for the table's directory.
    CreatingTableDir,
    /// Waits to hear whether the fresh identifier is taken.
    ProbingCandidate,
    /// Waits to hear whether the record is stored.
    ProbingRecord,
    /// Waits for the record to be written.
    Writing,
    /// Waits for the record to be loaded.
    Reading,
    /// Waits for the record's file to be removed.
    Removing,
}

/// An operation under way.
#[derive(Debug)]
pub struct Operation {
    kind: OpKind,
    stage: Stage,
    table: String,
    target: String,
    preassigned: Option<String>,
    references: Vec<ForeignKey>,
}

/// What an [`Operation`] is in contracts.
pub struct OperationView {
    /// Which operation it is
    pub kind: OpKind,
    /// What it waits for
    pub stage: Stage,
    /// The name of the record's table
    pub table: Seq<char>,
    /// The identifier under which the record is, or is to be, stored
    pub target: Seq<char>,
    /// For an insert, the identifier that the record came with, if any
    pub preassigned: Option<Seq<char>>,
    /// The record's foreign keys, for the operations that check them
    pub references: Seq<ForeignKeyView>,
}

/// What an operation returns when it succeeds.
#[derive(Debug, Clone, PartialEq, Eq)]
pub enum Reply {
    /// The record was stored under this identifier.
    Inserted(String),
    /// The record with this identifier was loaded.
    Fetched(String),
    /// The record was overwritten.
    Updated,
    /// The record was removed.
    Deleted,
    /// Whether the record is stored.
    Exists(bool),
}

/// What a [`Reply`] is in contracts.
pub enum ReplyView {
    Inserted(Seq<char>),
    Fetched(Seq<char>),
    Updated,
    Deleted,
    Exists(bool),
}

impl View for Reply {
    type V = ReplyView;

    open spec fn view(&self) -> ReplyView {
        match self {
            Reply::Inserted(id) => ReplyView::Inserted(id@),
            Reply::Fetched(id) => ReplyView::Fetched(id@),
            Reply::Updated => ReplyView::Updated,
            Reply::Deleted => ReplyView::Deleted,
            Reply::Exists(b) => ReplyView::Exists(*b),
        }
    }
}

/// One step of an operation.
#[derive(Debug)]
pub enum Step {
    /// The operation asks for this action and goes on once it is answered.
    Ask(Operation, Action),
    /// The operation is over, with this result.
    Done(Result<Reply, DBError>),
}

/// What a [`Step`] is in contracts.
pub enum StepView {
    Ask(OperationView, ActionView),
    Done(Result<ReplyView, DBErrorView>),
}

impl View for Step {
    type V = StepView;

    open spec fn view(&self) -> StepView {
        match self {
            Step::Ask(operation, action) => StepView::Ask(operation@, action@),
            Step::Done(Ok(reply)) => StepView::Done(Ok(reply@)),
            Step::Done(Err(error)) => StepView::Done(Err(error@)),
        }
    }
}

/// The views of a list of foreign keys.
pub open spec fn references_view(references: Seq<ForeignKey>) -> Seq<ForeignKeyView> {
    references.map_values(|r: ForeignKey| r@)
}

impl OpKind {
    /// The mode in which the operation takes the coordination lock: shared
    /// where it only reads, exclusive where it may write.
    pub open spec fn spec_lock_mode(self) -> LockMode {
        match self {
            OpKind::Get | OpKind::Exists => LockMode::Shared,
            _ => LockMode::Exclusive,
        }
    }

    /// Whether the operation refuses an unassigned identifier.
    pub open spec fn spec_needs_key(self) -> bool {
        self is Get || self is Update || self is Delete
    }

    /// Whether the operation checks the record's foreign keys.
    pub open spec fn spec_checks_references(self) -> bool {
        self is Insert || self is Update
    }

    /// The mode in which the operation takes the coordination lock.
    pub fn lock_mode(self) -> (mode: LockMode)
        ensures
            mode == self.spec_lock_mode(),
    {
        match self {
            OpKind::Get | OpKind::Exists => LockMode::Shared,
            _ => LockMode::Exclusive,
        }
    }
}

impl OperationView {
    /// The place of the operation's record.
    pub open spec fn record(self) -> LocationView {
        LocationView::Record(self.table, self.target)
    }

    /// The same operation at another stage.
    pub open spec fn at(self, stage: Stage) -> OperationView {
        OperationView { stage, ..self }
    }

    /// Whether the operation is in a state that [`Operation::begin`] and
    /// [`Operation::advance`] can produce: each stage belongs to the kinds of
    /// operation that pass through it, and the foreign key that is being
    /// checked exists.
    pub open spec fn wf(self) -> bool {
        match self.stage {
            Stage::OpeningLock | Stage::Locking | Stage::ProbingRecord => true,
            Stage::ReadingMetadata => !(self.kind is Exists),
            Stage::CheckingReference(i) => self.kind.spec_checks_references() && i
                < self.references.len(),
            Stage::CreatingTableDir | Stage::ProbingCandidate => self.kind is Insert,
            Stage::Writing => self.kind.spec_checks_references(),
            Stage::Reading => self.kind is Get,
            Stage::Removing => self.kind is Delete,
        }
    }

    /// Whether the coordination lock has been granted to the operation.
    pub open spec fn holds_lock(self) -> bool {
        !(self.stage is OpeningLock) && !(self.stage is Locking)
    }

    /// What follows once the foreign keys before index `i` have been found
    /// valid. A key without a value ends the operation; one with a value is
    /// probed; after the last key an insert makes sure of the table's
    /// directory and any other operation probes the record itself.
    pub open spec fn check_reference(self, i: int) -> StepView {
        if 0 <= i < self.references.len() && i <= usize::MAX {
            let key = self.references[i];
            match key.id {
                None => StepView::Done(
                    Err(
                        DBErrorView::InvalidForeignKey {
                            field: key.field,
                            table: key.table,
                            id: Seq::empty(),
                        },
                    ),
                ),
                Some(id) => StepView::Ask(
                    self.at(Stage::CheckingReference(i as usize)),
                    ActionView::Probe(LocationView::Record(key.table, id)),
                ),
            }
        } else if self.kind is Insert {
            StepView::Ask(
                self.at(Stage::CreatingTableDir),
                ActionView::CreateDir(LocationView::TableDir(self.table)),
            )
        } else {
            StepView::Ask(self.at(Stage::ProbingRecord), ActionView::Probe(self.record()))
        }
    }

    /// What follows once the metadata has been found in order. An insert of a
    /// record that already carries an identifier ends here.
    pub open spec fn after_metadata(self) -> StepView {
        if self.kind is Insert && self.preassigned is Some {
            StepView::Done(
                Err(
                    DBErrorView::RecordAlreadyExists {
                        table: self.table,
                        id: self.preassigned->0,
                    },
                ),
            )
        } else if self.kind.spec_checks_references() {
            self.check_reference(0)
        } else {
            StepView::Ask(self.at(Stage::ProbingRecord), ActionView::Probe(self.record()))
        }
    }

    /// What follows once the engine knows whether the record is stored.
    pub open spec fn after_probe(self, present: bool) -> StepView {
        let missing = StepView::Done(
            Err(DBErrorView::RecordNotFound { table: self.table, id: self.target }),
        );
        match self.kind {
            OpKind::Exists => StepView::Done(Ok(ReplyView::Exists(present))),
            OpKind::Get => if present {
                StepView::Ask(self.at(Stage::Reading), ActionView::Deserialize(self.record()))
            } else {
                missing
            },
            OpKind::Delete => if present {
                StepView::Ask(self.at(Stage::Removing), ActionView::Remove(self.record()))
            } else {
                missing
            },
            _ => if present {
                StepView::Ask(self.at(Stage::Writing), ActionView::Serialize(self.record()))
            } else {
                missing
            },
        }
    }

    /// The step that follows when the action that the operation waits for
    /// comes back with `event`.
    ///
    /// An action counts as done only on [`EventView::Done`], and what was
    /// probed as stored only on [`EventView::Present`]; any other answer is
    /// a failure, or an absence.
    pub open spec fn next(self, event: EventView) -> StepView {
        match self.stage {
            Stage::OpeningLock => if event is Done {
                StepView::Ask(
                    self.at(Stage::Locking),
                    ActionView::Lock(self.kind.spec_lock_mode()),
                )
            } else {
                StepView::Done(Err(DBErrorView::FailedToOpenLockFile(LocationView::LockFile)))
            },
            Stage::Locking => if !(event is Done) {
                StepView::Done(Err(DBErrorView::FailedToLockFile(LocationView::LockFile)))
            } else if self.kind is Exists {
                StepView::Ask(self.at(Stage::ProbingRecord), ActionView::Probe(self.record()))
            } else {
                StepView::Ask(self.at(Stage::ReadingMetadata), ActionView::ReadMetadata)
            },
            Stage::ReadingMetadata => match event {
                EventView::Metadata(metadata) => if metadata.tables.len() == 0 {
                    StepView::Done(Err(DBErrorView::NoTables))
                } else {
                    self.after_metadata()
                },
                EventView::Missing => StepView::Done(Err(DBErrorView::NoMetadata)),
                _ => StepView::Done(Err(DBErrorView::FailedToReadMetadata)),
            },
            Stage::CheckingReference(i) => if event is Present {
                self.check_reference(i + 1)
            } else {
                let key = self.references[i as int];
                StepView::Done(
                    Err(
                        DBErrorView::ForeignKeyViolation {
                            field: key.field,
                            table: key.table,
                            id: match key.id {
                                Some(id) => id,
                                None => Seq::empty(),
                            },
                        },
                    ),
                )
            },
            Stage::CreatingTableDir => if event is Done {
                StepView::Ask(self.at(Stage::ProbingCandidate), ActionView::Probe(self.record()))
            } else {
                StepView::Done(
                    Err(DBErrorView::FailedToCreateTableDir(LocationView::TableDir(self.table))),
                )
            },
            Stage::ProbingCandidate => if event is Present {
                StepView::Done(
                    Err(DBErrorView::RecordAlreadyExists { table: self.table, id: self.target }),
                )
            } else {
                StepView::Ask(self.at(Stage::Writing), ActionView::Serialize(self.record()))
            },
            Stage::ProbingRecord => self.after_probe(event is Present),
            Stage::Writing => if !(event is Done) {
                StepView::Done(Err(DBErrorView::FailedToSerializeFile(self.record())))
            } else if self.kind is Insert {
                StepView::Done(Ok(ReplyView::Inserted(self.target)))
            } else {
                StepView::Done(Ok(ReplyView::Updated))
            },
            Stage::Reading => if event is Done {
                StepView::Done(Ok(ReplyView::Fetched(self.target)))
            } else {
                StepView::Done(Err(DBErrorView::FailedToDeserializeFile(self.record())))
            },
            Stage::Removing => if event is Done {
                StepView::Done(Ok(ReplyView::Deleted))
            } else {
                StepView::Done(Err(DBErrorView::FailedToRemoveFile(self.record())))
            },
        }
    }

    /// A bound on the number of actions that the operation may still ask for.
    pub open spec fn rank(self) -> nat {
        match self.stage {
            Stage::OpeningLock => self.references.len() + 8,
            Stage::Locking => self.references.len() + 7,
            Stage::ReadingMetadata => self.references.len() + 6,
            Stage::CheckingReference(i) => if i < self.references.len() {
                (self.references.len() - i + 4) as nat
            } else {
                5
            },
            Stage::CreatingTableDir => 4,
            Stage::ProbingCandidate => 3,
            Stage::ProbingRecord => 3,
            Stage::Writing => 1,
            Stage::Reading => 1,
            Stage::Removing => 1,
        }
    }
}

/// The first step of an operation of kind `kind` on the table `table`.
///
/// `key` is the identifier that the caller gave: the record's own for an
/// insert or an update, the one to look up for the others. `candidate` is the
/// fresh identifier that an insert stores the record under. A get, an update
/// and a delete end at once on an unassigned key; every other operation asks
/// for the coordination file first.
pub open spec fn begin(
    kind: OpKind,
    table: Seq<char>,
    key: Option<Seq<char>>,
    references: Seq<ForeignKeyView>,
    candidate: Seq<char>,
) -> StepView {
    if kind.spec_needs_key() && key is None {
        StepView::Done(Err(DBErrorView::InvalidKey(Seq::empty())))
    } else {
        StepView::Ask(
            OperationView {
                kind,
                stage: Stage::OpeningLock,
                table,
                target: if kind is Insert {
                    candidate
                } else {
                    match key {
                        Some(id) => id,
                        None => Seq::empty(),
                    }
                },
                preassigned: if kind is Insert {
                    key
                } else {
                    None
                },
                references: if kind.spec_checks_references() {
                    references
                } else {
                    Seq::empty()
                },
            },
            ActionView::OpenLock,
        )
    }
}

impl View for Operation {
    type V = OperationView;

    closed spec fn view(&self) -> OperationView {
        OperationView {
            kind: self.kind,
            stage: self.stage,
            table: self.table@,
            target: self.target@,
            preassigned: match self.preassigned {
                Some(id) => Some(id@),
                None => None,
            },
            references: references_view(self.references@),
        }
    }
}

impl Operation {
    #[verifier::type_invariant]
    spec fn inv(self) -> bool {
        self@.wf()
    }

    /// Starts an operation: see [`begin`].
    pub fn begin(
        kind: OpKind,
        table: &str,
        key: Option<String>,
        references: Vec<ForeignKey>,
        candidate: String,
    ) -> (step: Step)
        ensures
            step@ == begin(
                kind,
                table@,
                match key {
                    Some(id) => Some(id@),
                    None => None,
                },
                references_view(references@),
                candidate@,
            ),
    {
        let needs_key = match kind {
            OpKind::Get | OpKind::Update | OpKind::Delete => true,
            _ => false,
        };
        let is_insert = match kind {
            OpKind::Insert => true,
            _ => false,
        };
        let checks_references = match kind {
            OpKind::Insert | OpKind::Update => true,
            _ => false,
        };
        if needs_key && key.is_none() {
            return Step::Done(Err(DBError::InvalidKey(String::new())));
        }
        let (target, preassigned) = if is_insert {
            (candidate, key)
        } else {
            match key {
                Some(id) => (id, None),
                None => (String::new(), None),
            }
        };
        let references = if checks_references {
            references
        } else {
            Vec::new()
        };
        let operation = Operation {
            kind,
            stage: Stage::OpeningLock,
            table: table.to_owned(),
            target,
            preassigned,
            references,
        };
        assert(operation@.references =~= if kind.spec_checks_references() {
            references_view(references@)
        } else {
            Seq::empty()
        });
        Step::Ask(operation, Action::OpenLock)
    }

    /// The place of the operation's record.
    fn record(&self) -> (place: Location)
        ensures
            place@ == self@.record(),
    {
        Location::Record(self.table.clone(), self.target.clone())
    }

    /// The error of a record that is not stored.
    fn not_found(self) -> (error: DBError)
        ensures
            error@ == (DBErrorView::RecordNotFound { table: self@.table, id: self@.target }),
    {
        DBError::RecordNotFound { table: self.table, id: self.target }
    }

    /// The same operation at another stage.
    fn at(self, stage: Stage) -> (operation: Operation)
        requires
            self@.at(stage).wf(),
        ensures
            operation@ == self@.at(stage),
    {
        Operation {
            kind: self.kind,
            stage,
            table: self.table,
            target: self.target,
            preassigned: self.preassigned,
            references: self.references,
        }
    }

    /// Asks whether the record is stored.
    fn probe_record(self) -> (step: Step)
        ensures
            step@ == StepView::Ask(
                self@.at(Stage::ProbingRecord),
                ActionView::Probe(self@.record()),
            ),
    {
        let place = self.record();
        Step::Ask(self.at(Stage::ProbingRecord), Action::Probe(place))
    }

    /// Goes on with the foreign key at index `i`: see
    /// [`OperationView::check_reference`].
    fn check_reference(self, i: usize) -> (step: Step)
        requires
            self@.kind.spec_checks_references(),
        ensures
            step@ == self@.check_reference(i as int),
    {
        if i < self.references.len() {
            let key = &self.references[i];
            match &key.id {
                None => Step::Done(
                    Err(
                        DBError::InvalidForeignKey {
                            field: key.field.clone(),
                            table: key.table.clone(),
                            id: String::new(),
                        },
                    ),
                ),
                Some(id) => {
                    let place = Location::Record(key.table.clone(), id.clone());
                    Step::Ask(self.at(Stage::CheckingReference(i)), Action::Probe(place))
                },
            }
        } else {
            match self.kind {
                OpKind::Insert => {
                    let place = Location::TableDir(self.table.clone());
                    Step::Ask(self.at(Stage::CreatingTableDir), Action::CreateDir(place))
                },
                _ => self.probe_record(),
            }
        }
    }

    /// Goes on after the metadata: see [`OperationView::after_metadata`].
    fn after_metadata(self) -> (step: Step)
        ensures
            step@ == self@.after_metadata(),
    {
        match self.kind {
            OpKind::Insert => {
                if self.preassigned.is_some() {
                    let id = self.preassigned.unwrap();
                    Step::Done(Err(DBError::RecordAlreadyExists { table: self.table, id }))
                } else {
                    self.check_reference(0)
                }
            },
            OpKind::Update => self.check_reference(0),
            _ => self.probe_record(),
        }
    }

    /// Goes on after the probe of the record: see
    /// [`OperationView::after_probe`].
    fn after_probe(self, present: bool) -> (step: Step)
        ensures
            step@ == self@.after_probe(present),
    {
        match self.kind {
            OpKind::Exists => Step::Done(Ok(Reply::Exists(present))),
            OpKind::Get => {
                if present {
                    let place = self.record();
                    Step::Ask(self.at(Stage::Reading), Action::Deserialize(place))
                } else {
                    Step::Done(Err(self.not_found()))
                }
            },
            OpKind::Delete => {
                if present {
                    let place = self.record();
                    Step::Ask(self.at(Stage::Removing), Action::Remove(place))
                } else {
                    Step::Done(Err(self.not_found()))
                }
            },
            _ => {
                if present {
                    let place = self.record();
                    Step::Ask(self.at(Stage::Writing), Action::Serialize(place))
                } else {
                    Step::Done(Err(self.not_found()))
                }
            },
        }
    }

    /// Takes the outcome of the action that the operation asked for and gives
    /// the step that follows: see [`OperationView::next`].
    pub fn advance(self, event: Event) -> (step: Step)
        ensures
            step@ == self@.next(event@),
    {
        proof {
            use_type_invariant(&self);
        }
        let done = match event {
            Event::Done => true,
            _ => false,
        };
        let present = match event {
            Event::Present => true,
            _ => false,
        };
        match self.stage {
            Stage::OpeningLock => {
                if done {
                    let mode = self.kind.lock_mode();
                    Step::Ask(self.at(Stage::Locking), Action::Lock(mode))
                } else {
                    Step::Done(Err(DBError::FailedToOpenLockFile(Location::LockFile)))
                }
            },
            Stage::Locking => {
                if !done {
                    Step::Done(Err(DBError::FailedToLockFile(Location::LockFile)))
                } else {
                    match self.kind {
                        OpKind::Exists => self.probe_record(),
                        _ => Step::Ask(self.at(Stage::ReadingMetadata), Action::ReadMetadata),
                    }
                }
            },
            Stage::ReadingMetadata => {
                match event {
                    Event::Metadata(metadata) => {
                        if metadata.tables.len() == 0 {
                            Step::Done(Err(DBError::NoTables))
                        } else {
                            self.after_metadata()
                        }
                    },
                    Event::Missing => Step::Done(Err(DBError::NoMetadata)),
                    _ => Step::Done(Err(DBError::FailedToReadMetadata)),
                }
            },
            Stage::CheckingReference(i) => {
                assert(i < self.references.len());
                if present {
                    self.check_reference(i + 1)
                } else {
                    let key = &self.references[i];
                    let id = match &key.id {
                        Some(id) => id.clone(),
                        None => String::new(),
                    };
                    Step::Done(
                        Err(
                            DBError::ForeignKeyViolation {
                                field: key.field.clone(),
                                table: key.table.clone(),
                                id,
                            },
                        ),
                    )
                }
            },
            Stage::CreatingTableDir => {
                if done {
                    let place = self.record();
                    Step::Ask(self.at(Stage::ProbingCandidate), Action::Probe(place))
                } else {
                    Step::Done(Err(DBError::FailedToCreateTableDir(Location::TableDir(self.table))))
                }
            },
            Stage::ProbingCandidate => {
                if present {
                    Step::Done(
                        Err(DBError::RecordAlreadyExists { table: self.table, id: self.target }),
                    )
                } else {
                    let place = self.record();
                    Step::Ask(self.at(Stage::Writing), Action::Serialize(place))
                }
            },
            Stage::ProbingRecord => self.after_probe(present),
            Stage::Writing => {
                if !done {
                    Step::Done(Err(DBError::FailedToSerializeFile(self.record())))
                } else {
                    match self.kind {
                        OpKind::Insert => Step::Done(Ok(Reply::Inserted(self.target))),
                        _ => Step::Done(Ok(Reply::Updated)),
                    }
                }
            },
            Stage::Reading => {
                if done {
                    Step::Done(Ok(Reply::Fetched(self.target)))
                } else {
                    Step::Done(Err(DBError::FailedToDeserializeFile(self.record())))
                }
            },
            Stage::Removing => {
                if done {
                    Step::Done(Ok(Reply::Deleted))
                } else {
                    Step::Done(Err(DBError::FailedToRemoveFile(self.record())))
                }
            },
        }
    }
}

} // verus!
