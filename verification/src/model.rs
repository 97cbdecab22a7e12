//! A model of the database directory, and what the engine's operations do to
//! it.
//!
//! [`Store`] says what a database directory holds. [`Store::perform`] is the
//! directory's side of the protocol: what an action does to it and how it
//! answers, where no disk fails. [`run`] plays an operation against a store to
//! its end. The laws of the engine are stated over these three.
//!
//! The model gives every [`LocationView`] a file or directory of its own. On
//! a disk that holds as long as table names and identifiers are single path
//! segments and no table is named like one of the two fixed files.

use crate::builder::{BuildErrorView, BuildStepView, BuildView};
use crate::database::DatabaseView;
use crate::engine::{OperationView, ReplyView, StepView};
use crate::errors::DBErrorView;
use crate::layout::LocationView;
use crate::protocol::{ActionView, EventView, MetadataView};
use vstd::prelude::*;

verus! {

/// The record files of a database: by table name and identifier, the
/// content of each.
pub type Records = Map<(Seq<char>, Seq<char>), Seq<u8>>;

/// What a database directory holds.
pub struct Store {
    /// Whether the root directory exists
    pub root: bool,
    /// Whether the root holds anything that is not the engine's own
    pub stray: bool,
    /// Whether the coordination file exists
    pub lock_file: bool,
    /// What the metadata file holds, if it exists
    pub metadata: Option<MetadataView>,
    /// The names of the table directories that exist
    pub tables: Set<Seq<char>>,
    /// The record files
    pub records: Records,
}

impl Store {
    /// A directory tree is closed under parents: without the root there is
    /// nothing, and every record lies in the directory of its table.
    pub open spec fn wf(self) -> bool {
        &&& !self.root ==> self.holds_nothing()
        &&& forall|table: Seq<char>, id: Seq<char>| #[trigger]
            self.records.contains_key((table, id)) ==> self.tables.contains(table)
    }

    /// Whether nothing lies below the root.
    pub open spec fn holds_nothing(self) -> bool {
        &&& !self.stray
        &&& !self.lock_file
        &&& self.metadata is None
        &&& forall|table: Seq<char>| !self.tables.contains(table)
        &&& forall|key: (Seq<char>, Seq<char>)| !self.records.contains_key(key)
    }

    /// Whether a regular file is at `place`.
    pub open spec fn has_file(self, place: LocationView) -> bool {
        match place {
            LocationView::LockFile => self.lock_file,
            LocationView::Metadata => self.metadata is Some,
            LocationView::Record(table, id) => self.records.contains_key((table, id)),
            _ => false,
        }
    }

    /// What `action` does to the directory, and the event that answers it.
    /// `content` is what the record that the operation was started for
    /// encodes to.
    pub open spec fn perform(self, action: ActionView, content: Seq<u8>) -> (Store, EventView) {
        match action {
            ActionView::InspectRoot => (
                self,
                if !self.root {
                    EventView::Missing
                } else if self.holds_nothing() {
                    EventView::Present
                } else {
                    EventView::Occupied
                },
            ),
            ActionView::CreateDir(LocationView::Root) => (
                Store { root: true, ..self },
                EventView::Done,
            ),
            ActionView::CreateDir(LocationView::TableDir(table)) => (
                Store { root: true, tables: self.tables.insert(table), ..self },
                EventView::Done,
            ),
            ActionView::CreateDir(_) => (self, EventView::Failed),
            ActionView::CreateTableDirs(tables) => (
                Store {
                    root: true,
                    tables: self.tables.union(tables.to_set()),
                    ..self
                },
                EventView::Done,
            ),
            ActionView::OpenLock => if self.root {
                (Store { lock_file: true, ..self }, EventView::Done)
            } else {
                (self, EventView::Failed)
            },
            ActionView::Lock(_) => (
                self,
                if self.lock_file {
                    EventView::Done
                } else {
                    EventView::Failed
                },
            ),
            ActionView::ReadMetadata => (
                self,
                match self.metadata {
                    Some(metadata) => EventView::Metadata(metadata),
                    None => EventView::Missing,
                },
            ),
            ActionView::WriteMetadata(metadata) => if self.root {
                (Store { metadata: Some(metadata), ..self }, EventView::Done)
            } else {
                (self, EventView::Failed)
            },
            ActionView::Probe(place) => (
                self,
                if self.has_file(place) {
                    EventView::Present
                } else {
                    EventView::Missing
                },
            ),
            ActionView::Serialize(LocationView::Record(table, id)) => if self.tables.contains(
                table,
            ) {
                (
                    Store { records: self.records.insert((table, id), content), ..self },
                    EventView::Done,
                )
            } else {
                (self, EventView::Failed)
            },
            ActionView::Serialize(_) => (self, EventView::Failed),
            ActionView::Deserialize(place) => (
                self,
                if place is Record && self.has_file(place) {
                    EventView::Done
                } else {
                    EventView::Failed
                },
            ),
            ActionView::Remove(LocationView::Record(table, id)) => if self.records.contains_key(
                (table, id),
            ) {
                (Store { records: self.records.remove((table, id)), ..self }, EventView::Done)
            } else {
                (self, EventView::Failed)
            },
            ActionView::Remove(_) => (self, EventView::Failed),
        }
    }
}

/// A bound on the number of actions that are still to come after `step`.
pub open spec fn steps_left(step: StepView) -> nat {
    match step {
        StepView::Ask(operation, _) => operation.rank(),
        StepView::Done(_) => 0,
    }
}

/// Every step of an operation brings it nearer to its end.
pub proof fn law_operation_ends(operation: OperationView, event: EventView)
    ensures
        steps_left(operation.next(event)) < operation.rank(),
{
}

/// What is asked for stays within the operation: a next step keeps the kind,
/// the table, the identifier and the foreign keys, and is again well formed.
pub proof fn law_operation_keeps_shape(operation: OperationView, event: EventView)
    requires
        operation.wf(),
    ensures
        operation.next(event) matches StepView::Ask(then, _) ==> then.wf() && then
            == operation.at(then.stage),
{
}

/// Plays an operation from `step` on to its end against `store`, and gives
/// what the store holds then together with the operation's result.
pub open spec fn run(store: Store, step: StepView, content: Seq<u8>) -> (
    Store,
    Result<ReplyView, DBErrorView>,
)
    decreases steps_left(step),
{
    match step {
        StepView::Done(result) => (store, result),
        StepView::Ask(operation, action) => {
            let (after, event) = store.perform(action, content);
            run(after, operation.next(event), content)
        },
    }
}

/// A bound on the number of actions that are still to come after `step`.
pub open spec fn build_steps_left(step: BuildStepView) -> nat {
    match step {
        BuildStepView::Ask(build, _) => build.rank(),
        BuildStepView::Done(_) => 0,
    }
}

/// Every step of a build brings it nearer to its end.
pub proof fn law_build_ends(build: BuildView, event: EventView)
    ensures
        build_steps_left(build.next(event)) < build.rank(),
{
}

/// Plays a build from `step` on to its end against `store`, and gives what
/// the store holds then together with the build's result.
pub open spec fn run_build(store: Store, step: BuildStepView) -> (
    Store,
    Result<DatabaseView, BuildErrorView>,
)
    decreases build_steps_left(step),
{
    match step {
        BuildStepView::Done(result) => (store, result),
        BuildStepView::Ask(build, action) => {
            let (after, event) = store.perform(action, Seq::empty());
            run_build(after, build.next(event))
        },
    }
}

} // verus!
