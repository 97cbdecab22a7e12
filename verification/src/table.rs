//! What a data type provides in order to be stored as a table.

use crate::id::Id;
use vstd::prelude::*;

verus! {

/// One foreign-key field of a record, as the record holds it right now.
#[derive(Debug, Clone, PartialEq, Eq)]
pub struct ForeignKey {
    /// The name of the field
    pub field: String,
    /// The name of the referenced table
    pub table: String,
    /// The referenced identifier, `None` while the field is unset
    pub id: Option<String>,
}

/// What a [`ForeignKey`] is in contracts.
pub struct ForeignKeyView {
    pub field: Seq<char>,
    pub table: Seq<char>,
    pub id: Option<Seq<char>>,
}

impl View for ForeignKey {
    type V = ForeignKeyView;

    open spec fn view(&self) -> ForeignKeyView {
        ForeignKeyView {
            field: self.field@,
            table: self.table@,
            id: match self.id {
                Some(id) => Some(id@),
                None => None,
            },
        }
    }
}

impl ForeignKey {
    /// Describes the field `field`, which refers to the record `id` of `table`.
    pub fn new<T>(field: &str, table: &str, id: &Id<T>) -> (key: Self)
        ensures
            key@ == (ForeignKeyView { field: field@, table: table@, id: id@ }),
    {
        let id = match &id.value {
            Some(value) => Some(value.clone()),
            None => None,
        };
        ForeignKey { field: field.to_owned(), table: table.to_owned(), id }
    }
}

/// A trait for defining a table.
///
/// The engine takes from it the table's name, the record's primary key and
/// the record's foreign keys; it promises nothing about what an
/// implementation returns.
pub trait AsTable: Sized {
    /// The name of the table in `snake_case`
    fn name() -> &'static str;

    /// The primary key of the record
    fn get_id(&self) -> &Id<Self>;

    /// Sets the primary key of the record
    fn set_id(&mut self, id: Id<Self>);

    /// The foreign keys of the record, in the order of their fields
    fn get_foreign_keys(&self) -> Vec<ForeignKey>;
}

} // verus!
