//! The handle of an open database.

use crate::builder::DatabaseBuilder;
use crate::engine::{begin, references_view, OpKind, Operation, Step, StepView};
use crate::errors::DBErrorView;
use crate::id::{is_slug, Id};
use crate::table::{AsTable, ForeignKeyView};
use vstd::prelude::*;

verus! {

/// A database client.
///
/// It is what [`DatabaseBuilder::build`] ends with, and it starts the record
/// operations. The key that was derived from the password, if one was given,
/// stays in memory with the handle and is never stored.
#[derive(Debug)]
pub struct Database {
    derived_key: Option<Vec<u8>>,
    path: String,
}

/// What a [`Database`] is in contracts.
pub struct DatabaseView {
    /// The key derived from the password, if the database was opened with one
    pub derived_key: Option<Seq<u8>>,
    /// The path of the root directory
    pub path: Seq<char>,
}

impl View for Database {
    type V = DatabaseView;

    closed spec fn view(&self) -> DatabaseView {
        DatabaseView {
            derived_key: match self.derived_key {
                Some(key) => Some(key@),
                None => None,
            },
            path: self.path@,
        }
    }
}

impl Clone for Database {
    fn clone(&self) -> (res: Self)
        ensures
            res@ == self@,
    {
        Database { derived_key: self.derived_key.clone(), path: self.path.clone() }
    }
}

/// The value of an identifier, for the engine to keep.
fn key_of<T>(id: &Id<T>) -> (key: Option<String>)
    ensures
        id@ == match key {
            Some(value) => Some(value@),
            None => None,
        },
{
    match &id.value {
        Some(value) => Some(value.clone()),
        None => None,
    }
}

impl Database {
    /// The handle of the database at `path`, with the key that its password
    /// gave.
    pub(crate) fn open(path: String, derived_key: Option<Vec<u8>>) -> (database: Self)
        ensures
            database@ == (DatabaseView {
                derived_key: match derived_key {
                    Some(key) => Some(key@),
                    None => None,
                },
                path: path@,
            }),
    {
        Database { derived_key, path }
    }

    /// Creates a new database builder
    pub fn builder() -> (builder: DatabaseBuilder)
        ensures
            builder@ == DatabaseBuilder::spec_default(),
    {
        DatabaseBuilder::default()
    }

    /// Returns the path of the database directory
    pub fn path(&self) -> (path: &str)
        ensures
            path@ == self@.path,
    {
        self.path.as_str()
    }

    /// Returns the key that was derived from the password, if the database
    /// was opened with one
    pub fn derived_key(&self) -> (key: &Option<Vec<u8>>)
        ensures
            self@.derived_key == match *key {
                Some(bytes) => Some(bytes@),
                None => None,
            },
    {
        &self.derived_key
    }

    /// Starts the insert of `record` into its table.
    ///
    /// The identifier is generated here; the caller assigns it to the record
    /// once the operation has returned it. What the record says of its table,
    /// its identifier and its foreign keys is taken as it comes; the first
    /// step is the one that [`begin`] gives for it and for a fresh slug.
    pub fn insert<T: AsTable>(&self, record: &T) -> (step: Step)
        ensures
            exists|
                table: Seq<char>,
                key: Option<Seq<char>>,
                references: Seq<ForeignKeyView>,
                candidate: Seq<char>,
            |
                is_slug(candidate) && step@ == #[trigger] begin(
                    OpKind::Insert,
                    table,
                    key,
                    references,
                    candidate,
                ),
    {
        let table = T::name();
        let key = key_of(record.get_id());
        let references = record.get_foreign_keys();
        let candidate = Id::<T>::generate().to_string();
        Operation::begin(OpKind::Insert, table, key, references, candidate)
    }

    /// Starts the load of the record `id` of the table of `T`. It ends at
    /// once, with [`crate::DBError::InvalidKey`], where `id` is unassigned.
    pub fn get<T: AsTable>(&self, id: &Id<T>) -> (step: Step)
        ensures
            exists|table: Seq<char>|
                step@ == #[trigger] begin(OpKind::Get, table, id@, Seq::empty(), Seq::empty()),
            id@ is None ==> step@ == StepView::Done(Err(DBErrorView::InvalidKey(Seq::empty()))),
    {
        let table = T::name();
        let step = Operation::begin(OpKind::Get, table, key_of(id), Vec::new(), String::new());
        assert(step@ == begin(OpKind::Get, table@, id@, Seq::empty(), Seq::empty()));
        step
    }

    /// Starts the update of `record`, which is stored under the identifier
    /// that it carries. It ends at once, with
    /// [`crate::DBError::InvalidKey`], where that identifier is unassigned.
    pub fn update<T: AsTable>(&self, record: &T) -> (step: Step)
        ensures
            exists|table: Seq<char>, key: Option<Seq<char>>, references: Seq<ForeignKeyView>|
                step@ == #[trigger] begin(OpKind::Update, table, key, references, Seq::empty()),
    {
        let table = T::name();
        let key = key_of(record.get_id());
        let references = record.get_foreign_keys();
        Operation::begin(OpKind::Update, table, key, references, String::new())
    }

    /// Starts the removal of the record `id` of the table of `T`. It ends at
    /// once, with [`crate::DBError::InvalidKey`], where `id` is unassigned.
    /// Records of other tables that refer to this one are not looked at.
    pub fn delete<T: AsTable>(&self, id: &Id<T>) -> (step: Step)
        ensures
            exists|table: Seq<char>|
                step@ == #[trigger] begin(OpKind::Delete, table, id@, Seq::empty(), Seq::empty()),
            id@ is None ==> step@ == StepView::Done(Err(DBErrorView::InvalidKey(Seq::empty()))),
    {
        let table = T::name();
        let step = Operation::begin(OpKind::Delete, table, key_of(id), Vec::new(), String::new());
        assert(step@ == begin(OpKind::Delete, table@, id@, Seq::empty(), Seq::empty()));
        step
    }

    /// Starts the question whether the record `id` of the table of `T` is
    /// stored.
    pub fn contains<T: AsTable>(&self, id: &Id<T>) -> (step: Step)
        ensures
            exists|table: Seq<char>|
                step@ == #[trigger] begin(OpKind::Exists, table, id@, Seq::empty(), Seq::empty()),
            step@ is Ask,
    {
        let table = T::name();
        let step = Operation::begin(OpKind::Exists, table, key_of(id), Vec::new(), String::new());
        assert(step@ == begin(OpKind::Exists, table@, id@, Seq::empty(), Seq::empty()));
        step
    }
}

} // verus!
