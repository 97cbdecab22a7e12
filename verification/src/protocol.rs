//! What the engine asks of its surroundings, and what it is told in return.
//!
//! The engine never touches the disk. Each of its operations is a sequence of
//! steps: a step names one [`Action`], the caller performs it on the database
//! directory and reports the outcome as an [`Event`], and the next step
//! follows from that. The coordination lock that an operation takes is held
//! until the operation is done and released then, whatever way it ended.

use crate::crypto::ArgonParams;
use crate::layout::{Location, LocationView};
use vstd::prelude::*;

verus! {

/// The database's description of itself, kept in the metadata file.
#[derive(Debug, Clone, PartialEq, Eq)]
pub struct Metadata {
    /// The cost parameters of the key derivation, where they were chosen
    pub params: Option<ArgonParams>,
    /// The salt of the key derivation, where the database is encrypted
    pub salt: Option<[u8; 16]>,
    /// The names of the tables, each once
    pub tables: Vec<String>,
}

/// What a [`Metadata`] is in contracts.
pub struct MetadataView {
    pub params: Option<ArgonParams>,
    pub salt: Option<Seq<u8>>,
    pub tables: Seq<Seq<char>>,
}

impl View for Metadata {
    type V = MetadataView;

    open spec fn view(&self) -> MetadataView {
        MetadataView {
            params: self.params,
            salt: match self.salt {
                Some(salt) => Some(salt@),
                None => None,
            },
            tables: self.tables.deep_view(),
        }
    }
}

/// How the coordination lock is taken.
#[derive(Debug, Clone, Copy, PartialEq, Eq)]
pub enum LockMode {
    /// Together with other readers
    Shared,
    /// Alone
    Exclusive,
}

/// One piece of work on the database directory.
#[derive(Debug, Clone, PartialEq, Eq)]
pub enum Action {
    /// Look at the root: answer [`Event::Missing`] where nothing is at its
    /// path, [`Event::Present`] for an empty directory, [`Event::Occupied`]
    /// for anything else, [`Event::Failed`] where the directory cannot be
    /// read.
    InspectRoot,
    /// Create the directory and its parents; it may exist already.
    CreateDir(Location),
    /// Create the directory of each of these tables, in any order or at
    /// once. Answer [`Event::FailedAt`] with the index of one that could not
    /// be created.
    CreateTableDirs(Vec<String>),
    /// Open the coordination file, creating it where it is missing. A lock
    /// that was taken earlier in the same build is given up first.
    OpenLock,
    /// Take the coordination lock, waiting until it is granted.
    Lock(LockMode),
    /// Read and decode the metadata file: answer [`Event::Metadata`], or
    /// [`Event::Missing`] where there is no such file.
    ReadMetadata,
    /// Encode the metadata and write it to the metadata file, atomically.
    WriteMetadata(Metadata),
    /// Is there a regular file at this place? Answer [`Event::Present`] or
    /// [`Event::Missing`].
    Probe(Location),
    /// Encode the record that the operation was started for and write it to
    /// this place, atomically.
    Serialize(Location),
    /// Read the file at this place and decode a record from it.
    Deserialize(Location),
    /// Remove the file at this place.
    Remove(Location),
}

/// What an [`Action`] is in contracts.
pub enum ActionView {
    InspectRoot,
    CreateDir(LocationView),
    CreateTableDirs(Seq<Seq<char>>),
    OpenLock,
    Lock(LockMode),
    ReadMetadata,
    WriteMetadata(MetadataView),
    Probe(LocationView),
    Serialize(LocationView),
    Deserialize(LocationView),
    Remove(LocationView),
}

impl View for Action {
    type V = ActionView;

    open spec fn view(&self) -> ActionView {
        match self {
            Action::InspectRoot => ActionView::InspectRoot,
            Action::CreateDir(l) => ActionView::CreateDir(l@),
            Action::CreateTableDirs(tables) => ActionView::CreateTableDirs(tables.deep_view()),
            Action::OpenLock => ActionView::OpenLock,
            Action::Lock(mode) => ActionView::Lock(*mode),
            Action::ReadMetadata => ActionView::ReadMetadata,
            Action::WriteMetadata(m) => ActionView::WriteMetadata(m@),
            Action::Probe(l) => ActionView::Probe(l@),
            Action::Serialize(l) => ActionView::Serialize(l@),
            Action::Deserialize(l) => ActionView::Deserialize(l@),
            Action::Remove(l) => ActionView::Remove(l@),
        }
    }
}

impl ActionView {
    /// Whether the action changes what the database holds: its directories,
    /// its metadata or its records.
    pub open spec fn mutates(self) -> bool {
        match self {
            ActionView::CreateDir(_) => true,
            ActionView::CreateTableDirs(_) => true,
            ActionView::WriteMetadata(_) => true,
            ActionView::Serialize(_) => true,
            ActionView::Remove(_) => true,
            _ => false,
        }
    }
}

/// The outcome of an [`Action`].
#[derive(Debug, Clone, PartialEq, Eq)]
pub enum Event {
    /// The work was done.
    Done,
    /// The work could not be done.
    Failed,
    /// Of a batch, the item with this index could not be done.
    FailedAt(usize),
    /// Nothing is at the place.
    Missing,
    /// What was looked for is there.
    Present,
    /// The place holds something else than what was looked for.
    Occupied,
    /// The metadata file holds this.
    Metadata(Metadata),
}

/// What an [`Event`] is in contracts.
pub enum EventView {
    Done,
    Failed,
    FailedAt(usize),
    Missing,
    Present,
    Occupied,
    Metadata(MetadataView),
}

impl View for Event {
    type V = EventView;

    open spec fn view(&self) -> EventView {
        match self {
            Event::Done => EventView::Done,
            Event::Failed => EventView::Failed,
            Event::FailedAt(i) => EventView::FailedAt(*i),
            Event::Missing => EventView::Missing,
            Event::Present => EventView::Present,
            Event::Occupied => EventView::Occupied,
            Event::Metadata(m) => EventView::Metadata(m@),
        }
    }
}

} // verus!
