//! What the operations do, whatever the database holds.
//!
//! The laws play the operations of the engine against a [`Store`] with
//! [`run`] and [`run_build`]. [`outcome`] and [`build_outcome`] say in one
//! place what an operation makes of a store; the first two laws show that
//! the steps of the engine come to exactly that, and the others draw from it
//! what is worth knowing by itself.
//!
//! A law that speaks of a record's content means the bytes that the record
//! encodes to: what an insert or an update writes, and what a get hands to
//! the decoder.

use crate::builder::{begin_build, handle_key, BuildErrorView, BuildView, DatabaseBuilderView};
use crate::database::DatabaseView;
use crate::engine::{begin, OpKind, OperationView, ReplyView, Stage, StepView};
use crate::errors::{DBErrorView, UtilsErrorView};
use crate::layout::LocationView;
use crate::model::{run, run_build, Records, Store};
use crate::protocol::{ActionView, EventView, LockMode, MetadataView};
use crate::table::ForeignKeyView;
use vstd::prelude::*;

verus! {

/// Whether the foreign key refers to one of `records`.
pub open spec fn is_satisfied(records: Records, key: ForeignKeyView) -> bool {
    key.id matches Some(id) && records.contains_key((key.table, id))
}

/// The error that an operation ends with at a foreign key that is not
/// satisfied: the key is invalid where it has no value, and violated where
/// its target is not stored.
pub open spec fn reference_error(key: ForeignKeyView) -> DBErrorView {
    match key.id {
        None => DBErrorView::InvalidForeignKey {
            field: key.field,
            table: key.table,
            id: Seq::empty(),
        },
        Some(id) => DBErrorView::ForeignKeyViolation { field: key.field, table: key.table, id },
    }
}

/// The index of the first foreign key from `from` on that `records` do not
/// satisfy, or the number of keys where there is none.
pub open spec fn first_unsatisfied(
    records: Records,
    references: Seq<ForeignKeyView>,
    from: int,
) -> int
    decreases references.len() - from,
{
    if from < 0 || from >= references.len() {
        references.len() as int
    } else if !is_satisfied(records, references[from]) {
        from
    } else {
        first_unsatisfied(records, references, from + 1)
    }
}

/// The first unsatisfied key is what its name says: the keys before it are
/// satisfied, and it is not.
pub proof fn law_first_unsatisfied_is_first(
    records: Records,
    references: Seq<ForeignKeyView>,
    from: int,
)
    requires
        0 <= from <= references.len(),
    ensures
        ({
            let bad = first_unsatisfied(records, references, from);
            &&& from <= bad <= references.len()
            &&& forall|j: int| from <= j < bad ==> is_satisfied(records, #[trigger] references[j])
            &&& bad < references.len() ==> !is_satisfied(records, references[bad])
        }),
    decreases references.len() - from,
{
    if from < references.len() && is_satisfied(records, references[from]) {
        law_first_unsatisfied_is_first(records, references, from + 1);
    }
}

/// What the checks that every operation but the question starts with make
/// of `store`: the error that they end with, if any. The coordination file
/// cannot be opened without the root; the metadata must be there and name a
/// table.
pub open spec fn entry_error(store: Store) -> Option<DBErrorView> {
    if !store.root {
        Some(DBErrorView::FailedToOpenLockFile(LocationView::LockFile))
    } else {
        match store.metadata {
            None => Some(DBErrorView::NoMetadata),
            Some(metadata) => if metadata.tables.len() == 0 {
                Some(DBErrorView::NoTables)
            } else {
                None
            },
        }
    }
}

/// What `store` holds after an operation that came as far as the
/// coordination file: that file, where there is a root to hold it.
pub open spec fn entered(store: Store) -> Store {
    if store.root {
        Store { lock_file: true, ..store }
    } else {
        store
    }
}

/// What an insert does: the store afterwards, and the result.
///
/// The checks come in this order: the coordination file and the metadata;
/// the record must carry no identifier; the foreign keys, of which the first
/// that is not satisfied decides; the table's directory is created; the
/// fresh identifier must be free. Then the record is stored.
pub open spec fn insert_outcome(
    store: Store,
    table: Seq<char>,
    key: Option<Seq<char>>,
    references: Seq<ForeignKeyView>,
    candidate: Seq<char>,
    content: Seq<u8>,
) -> (Store, Result<ReplyView, DBErrorView>) {
    let opened = entered(store);
    let bad = first_unsatisfied(store.records, references, 0);
    let prepared = Store { tables: store.tables.insert(table), ..opened };
    if entry_error(store) is Some {
        (opened, Err(entry_error(store)->0))
    } else if key is Some {
        (opened, Err(DBErrorView::RecordAlreadyExists { table, id: key->0 }))
    } else if bad < references.len() {
        (opened, Err(reference_error(references[bad])))
    } else if store.records.contains_key((table, candidate)) {
        (prepared, Err(DBErrorView::RecordAlreadyExists { table, id: candidate }))
    } else {
        (
            Store { records: store.records.insert((table, candidate), content), ..prepared },
            Ok(ReplyView::Inserted(candidate)),
        )
    }
}

/// What a get does: it changes nothing but the coordination file, and finds
/// the record where the key is assigned, the database in order and the
/// record stored.
pub open spec fn get_outcome(store: Store, table: Seq<char>, key: Option<Seq<char>>) -> (
    Store,
    Result<ReplyView, DBErrorView>,
) {
    if key is None {
        (store, Err(DBErrorView::InvalidKey(Seq::empty())))
    } else if entry_error(store) is Some {
        (entered(store), Err(entry_error(store)->0))
    } else if !store.records.contains_key((table, key->0)) {
        (entered(store), Err(DBErrorView::RecordNotFound { table, id: key->0 }))
    } else {
        (entered(store), Ok(ReplyView::Fetched(key->0)))
    }
}

/// What an update does: the store afterwards, and the result.
///
/// The checks come in this order: the key must be assigned; the
/// coordination file and the metadata; the foreign keys, of which the first
/// that is not satisfied decides; the record must be stored. Then the record
/// is overwritten.
pub open spec fn update_outcome(
    store: Store,
    table: Seq<char>,
    key: Option<Seq<char>>,
    references: Seq<ForeignKeyView>,
    content: Seq<u8>,
) -> (Store, Result<ReplyView, DBErrorView>) {
    let opened = entered(store);
    let bad = first_unsatisfied(store.records, references, 0);
    if key is None {
        (store, Err(DBErrorView::InvalidKey(Seq::empty())))
    } else if entry_error(store) is Some {
        (opened, Err(entry_error(store)->0))
    } else if bad < references.len() {
        (opened, Err(reference_error(references[bad])))
    } else if !store.records.contains_key((table, key->0)) {
        (opened, Err(DBErrorView::RecordNotFound { table, id: key->0 }))
    } else {
        (
            Store { records: store.records.insert((table, key->0), content), ..opened },
            Ok(ReplyView::Updated),
        )
    }
}

/// What a delete does: where the key is assigned, the database in order and
/// the record stored, the record is removed.
pub open spec fn delete_outcome(store: Store, table: Seq<char>, key: Option<Seq<char>>) -> (
    Store,
    Result<ReplyView, DBErrorView>,
) {
    let opened = entered(store);
    if key is None {
        (store, Err(DBErrorView::InvalidKey(Seq::empty())))
    } else if entry_error(store) is Some {
        (opened, Err(entry_error(store)->0))
    } else if !store.records.contains_key((table, key->0)) {
        (opened, Err(DBErrorView::RecordNotFound { table, id: key->0 }))
    } else {
        (Store { records: store.records.remove((table, key->0)), ..opened }, Ok(ReplyView::Deleted))
    }
}

/// What the question whether a record is stored does: it needs the
/// coordination file, and no more; an unassigned key is the key of no
/// record.
pub open spec fn exists_outcome(store: Store, table: Seq<char>, key: Option<Seq<char>>) -> (
    Store,
    Result<ReplyView, DBErrorView>,
) {
    let id = match key {
        Some(id) => id,
        None => Seq::empty(),
    };
    if !store.root {
        (store, Err(DBErrorView::FailedToOpenLockFile(LocationView::LockFile)))
    } else {
        (entered(store), Ok(ReplyView::Exists(store.records.contains_key((table, id)))))
    }
}

/// What an operation of kind `kind` does.
pub open spec fn outcome(
    store: Store,
    kind: OpKind,
    table: Seq<char>,
    key: Option<Seq<char>>,
    references: Seq<ForeignKeyView>,
    candidate: Seq<char>,
    content: Seq<u8>,
) -> (Store, Result<ReplyView, DBErrorView>) {
    match kind {
        OpKind::Insert => insert_outcome(store, table, key, references, candidate, content),
        OpKind::Get => get_outcome(store, table, key),
        OpKind::Update => update_outcome(store, table, key, references, content),
        OpKind::Delete => delete_outcome(store, table, key),
        OpKind::Exists => exists_outcome(store, table, key),
    }
}

/// An operation that has reached the foreign key at index `i` stops at the
/// first key from there on that is not satisfied, with that key's error and
/// the store as it was; where all are satisfied, it goes on as after the
/// last key.
proof fn lemma_references(store: Store, operation: OperationView, i: int, content: Seq<u8>)
    requires
        0 <= i <= operation.references.len() <= usize::MAX,
    ensures
        ({
            let bad = first_unsatisfied(store.records, operation.references, i);
            run(store, operation.check_reference(i), content) == if bad
                < operation.references.len() {
                (
                    store,
                    Err::<ReplyView, DBErrorView>(reference_error(operation.references[bad])),
                )
            } else {
                run(
                    store,
                    operation.check_reference(operation.references.len() as int),
                    content,
                )
            }
        }),
    decreases operation.references.len() - i,
{
    reveal_with_fuel(run, 2);
    if i < operation.references.len() && is_satisfied(store.records, operation.references[i]) {
        let waiting = operation.at(Stage::CheckingReference(i as usize));
        lemma_references(store, waiting, i + 1, content);
    }
}

/// The whole of the record operations. In a store that is closed under
/// parents, an operation on a record with no more foreign keys than a list
/// can hold ends as [`outcome`] says: with that result, and with the store
/// holding that.
pub proof fn law_operations_do_what_they_say(
    store: Store,
    kind: OpKind,
    table: Seq<char>,
    key: Option<Seq<char>>,
    references: Seq<ForeignKeyView>,
    candidate: Seq<char>,
    content: Seq<u8>,
)
    requires
        store.wf(),
        references.len() <= usize::MAX,
    ensures
        run(store, begin(kind, table, key, references, candidate), content) == outcome(
            store,
            kind,
            table,
            key,
            references,
            candidate,
            content,
        ),
{
    reveal_with_fuel(run, 6);
    let first = begin(kind, table, key, references, candidate);
    if first is Ask && entry_error(store) is None {
        let operation = first->Ask_0.at(Stage::ReadingMetadata);
        if kind.spec_checks_references() {
            lemma_references(entered(store), operation, 0, content);
        }
    }
}

/// A store stays closed under parents through every operation.
pub proof fn law_operations_keep_the_store_closed(
    store: Store,
    kind: OpKind,
    table: Seq<char>,
    key: Option<Seq<char>>,
    references: Seq<ForeignKeyView>,
    candidate: Seq<char>,
    content: Seq<u8>,
)
    requires
        store.wf(),
    ensures
        outcome(store, kind, table, key, references, candidate, content).0.wf(),
{
}

/// The first step of a get of the record `id` of `table`.
pub open spec fn begin_get(table: Seq<char>, id: Seq<char>) -> StepView {
    begin(OpKind::Get, table, Some(id), Seq::empty(), Seq::empty())
}

/// The first step of the question whether the record `id` of `table` is
/// stored.
pub open spec fn begin_exists(table: Seq<char>, id: Seq<char>) -> StepView {
    begin(OpKind::Exists, table, Some(id), Seq::empty(), Seq::empty())
}

/// The first step of an insert into `table` of a record that carries no
/// identifier yet.
pub open spec fn begin_insert(
    table: Seq<char>,
    references: Seq<ForeignKeyView>,
    candidate: Seq<char>,
) -> StepView {
    begin(OpKind::Insert, table, None, references, candidate)
}

/// The first step of an update of the record `id` of `table`.
pub open spec fn begin_update(
    table: Seq<char>,
    id: Seq<char>,
    references: Seq<ForeignKeyView>,
) -> StepView {
    begin(OpKind::Update, table, Some(id), references, Seq::empty())
}

/// The first step of a delete of the record `id` of `table`.
pub open spec fn begin_delete(table: Seq<char>, id: Seq<char>) -> StepView {
    begin(OpKind::Delete, table, Some(id), Seq::empty(), Seq::empty())
}

/// Round trip: where an insert succeeds, it returns the fresh identifier,
/// the record lies under that identifier with the content that was
/// inserted, and a get of that identifier finds it and changes nothing.
pub proof fn law_insert_then_get(
    store: Store,
    table: Seq<char>,
    key: Option<Seq<char>>,
    references: Seq<ForeignKeyView>,
    candidate: Seq<char>,
    content: Seq<u8>,
)
    requires
        store.wf(),
        references.len() <= usize::MAX,
        run(store, begin(OpKind::Insert, table, key, references, candidate), content).1 is Ok,
    ensures
        ({
            let (after, result) = run(
                store,
                begin(OpKind::Insert, table, key, references, candidate),
                content,
            );
            &&& result == Ok::<ReplyView, DBErrorView>(ReplyView::Inserted(candidate))
            &&& after.records.contains_key((table, candidate))
            &&& after.records[(table, candidate)] == content
            &&& forall|other: Seq<u8>|
                #[trigger] run(after, begin_get(table, candidate), other) == (
                    after,
                    Ok::<ReplyView, DBErrorView>(ReplyView::Fetched(candidate)),
                )
        }),
{
    law_operations_do_what_they_say(
        store,
        OpKind::Insert,
        table,
        key,
        references,
        candidate,
        content,
    );
    law_operations_keep_the_store_closed(
        store,
        OpKind::Insert,
        table,
        key,
        references,
        candidate,
        content,
    );
    let after = insert_outcome(store, table, key, references, candidate, content).0;
    assert forall|other: Seq<u8>|
        #[trigger] run(after, begin_get(table, candidate), other) == (
            after,
            Ok::<ReplyView, DBErrorView>(ReplyView::Fetched(candidate)),
        ) by {
        law_operations_do_what_they_say(
            after,
            OpKind::Get,
            table,
            Some(candidate),
            Seq::empty(),
            Seq::empty(),
            other,
        );
    }
}

/// Foreign-key enforcement, the refusal: an insert, into a database in
/// order, of a record one of whose foreign keys is not satisfied fails with
/// the error of the first such key, a violation where the key names a record
/// that is not stored, and writes nothing: the store is as before, but for
/// the coordination file.
pub proof fn law_insert_refuses_bad_reference(
    store: Store,
    table: Seq<char>,
    references: Seq<ForeignKeyView>,
    candidate: Seq<char>,
    content: Seq<u8>,
)
    requires
        store.wf(),
        entry_error(store) is None,
        references.len() <= usize::MAX,
        first_unsatisfied(store.records, references, 0) < references.len(),
    ensures
        run(store, begin_insert(table, references, candidate), content) == (
            entered(store),
            Err::<ReplyView, DBErrorView>(
                reference_error(references[first_unsatisfied(store.records, references, 0)]),
            ),
        ),
{
    law_operations_do_what_they_say(
        store,
        OpKind::Insert,
        table,
        None,
        references,
        candidate,
        content,
    );
}

/// Foreign-key enforcement, the acceptance: an insert, into a database in
/// order, of a record without an identifier, all of whose foreign keys are
/// satisfied, succeeds unless the fresh identifier is taken; the store then
/// holds the record under the fresh identifier, and its table's directory,
/// and is otherwise as before.
pub proof fn law_insert_accepts_valid_references(
    store: Store,
    table: Seq<char>,
    references: Seq<ForeignKeyView>,
    candidate: Seq<char>,
    content: Seq<u8>,
)
    requires
        store.wf(),
        entry_error(store) is None,
        references.len() <= usize::MAX,
        forall|j: int|
            0 <= j < references.len() ==> is_satisfied(store.records, #[trigger] references[j]),
        !store.records.contains_key((table, candidate)),
    ensures
        run(store, begin_insert(table, references, candidate), content) == (
            Store {
                lock_file: true,
                tables: store.tables.insert(table),
                records: store.records.insert((table, candidate), content),
                ..store
            },
            Ok::<ReplyView, DBErrorView>(ReplyView::Inserted(candidate)),
        ),
{
    law_operations_do_what_they_say(
        store,
        OpKind::Insert,
        table,
        None,
        references,
        candidate,
        content,
    );
    law_first_unsatisfied_is_first(store.records, references, 0);
}

/// An update never creates: however an update ends, the store has the same
/// record files, the same table directories and the same metadata
/// afterwards as before.
pub proof fn law_update_never_creates(
    store: Store,
    table: Seq<char>,
    key: Option<Seq<char>>,
    references: Seq<ForeignKeyView>,
    content: Seq<u8>,
)
    requires
        store.wf(),
        references.len() <= usize::MAX,
    ensures
        ({
            let (after, _) = run(
                store,
                begin(OpKind::Update, table, key, references, Seq::empty()),
                content,
            );
            &&& after.records.dom() =~= store.records.dom()
            &&& after.tables == store.tables
            &&& after.metadata == store.metadata
        }),
{
    law_operations_do_what_they_say(
        store,
        OpKind::Update,
        table,
        key,
        references,
        Seq::empty(),
        content,
    );
}

/// Update requires prior existence: an update, in a database in order, of a
/// record whose foreign keys are satisfied and which is not stored fails
/// with record-not-found, and the store is as before, but for the
/// coordination file.
pub proof fn law_update_needs_record(
    store: Store,
    table: Seq<char>,
    id: Seq<char>,
    references: Seq<ForeignKeyView>,
    content: Seq<u8>,
)
    requires
        store.wf(),
        entry_error(store) is None,
        references.len() <= usize::MAX,
        forall|j: int|
            0 <= j < references.len() ==> is_satisfied(store.records, #[trigger] references[j]),
        !store.records.contains_key((table, id)),
    ensures
        run(store, begin_update(table, id, references), content) == (
            entered(store),
            Err::<ReplyView, DBErrorView>(DBErrorView::RecordNotFound { table, id }),
        ),
{
    law_operations_do_what_they_say(
        store,
        OpKind::Update,
        table,
        Some(id),
        references,
        Seq::empty(),
        content,
    );
    law_first_unsatisfied_is_first(store.records, references, 0);
}

/// Update, then get: where an update succeeds, the record was stored
/// before, it now has the content that the update gave, and a get of its
/// identifier finds it and changes nothing.
pub proof fn law_update_then_get(
    store: Store,
    table: Seq<char>,
    id: Seq<char>,
    references: Seq<ForeignKeyView>,
    content: Seq<u8>,
)
    requires
        store.wf(),
        references.len() <= usize::MAX,
        run(store, begin_update(table, id, references), content).1 is Ok,
    ensures
        ({
            let (after, result) = run(store, begin_update(table, id, references), content);
            &&& result == Ok::<ReplyView, DBErrorView>(ReplyView::Updated)
            &&& store.records.contains_key((table, id))
            &&& after == Store {
                lock_file: true,
                records: store.records.insert((table, id), content),
                ..store
            }
            &&& forall|other: Seq<u8>|
                #[trigger] run(after, begin_get(table, id), other) == (
                    after,
                    Ok::<ReplyView, DBErrorView>(ReplyView::Fetched(id)),
                )
        }),
{
    law_operations_do_what_they_say(
        store,
        OpKind::Update,
        table,
        Some(id),
        references,
        Seq::empty(),
        content,
    );
    law_operations_keep_the_store_closed(
        store,
        OpKind::Update,
        table,
        Some(id),
        references,
        Seq::empty(),
        content,
    );
    let after = update_outcome(store, table, Some(id), references, content).0;
    assert forall|other: Seq<u8>|
        #[trigger] run(after, begin_get(table, id), other) == (
            after,
            Ok::<ReplyView, DBErrorView>(ReplyView::Fetched(id)),
        ) by {
        law_operations_do_what_they_say(
            after,
            OpKind::Get,
            table,
            Some(id),
            Seq::empty(),
            Seq::empty(),
            other,
        );
    }
}

/// Delete, then get: where a delete succeeds, the record is gone; a get of
/// its identifier then fails with record-not-found, the question whether it
/// is stored is answered with no, and neither changes the store.
pub proof fn law_delete_then_get(store: Store, table: Seq<char>, id: Seq<char>, content: Seq<u8>)
    requires
        store.wf(),
        run(store, begin_delete(table, id), content).1 is Ok,
    ensures
        ({
            let (after, result) = run(store, begin_delete(table, id), content);
            &&& result == Ok::<ReplyView, DBErrorView>(ReplyView::Deleted)
            &&& after == Store {
                lock_file: true,
                records: store.records.remove((table, id)),
                ..store
            }
            &&& run(after, begin_get(table, id), content) == (
                after,
                Err::<ReplyView, DBErrorView>(DBErrorView::RecordNotFound { table, id }),
            )
            &&& run(after, begin_exists(table, id), content) == (
                after,
                Ok::<ReplyView, DBErrorView>(ReplyView::Exists(false)),
            )
        }),
{
    let nothing = Seq::<ForeignKeyView>::empty();
    let none = Seq::<char>::empty();
    law_operations_do_what_they_say(store, OpKind::Delete, table, Some(id), nothing, none, content);
    law_operations_keep_the_store_closed(
        store,
        OpKind::Delete,
        table,
        Some(id),
        nothing,
        none,
        content,
    );
    let after = delete_outcome(store, table, Some(id)).0;
    law_operations_do_what_they_say(after, OpKind::Get, table, Some(id), nothing, none, content);
    law_operations_do_what_they_say(after, OpKind::Exists, table, Some(id), nothing, none, content);
}

/// The record that an operation of kind `kind` on `table` works on.
pub open spec fn target_of(
    kind: OpKind,
    table: Seq<char>,
    key: Option<Seq<char>>,
    candidate: Seq<char>,
) -> (Seq<char>, Seq<char>) {
    (
        table,
        if kind is Insert {
            candidate
        } else {
            match key {
                Some(id) => id,
                None => Seq::empty(),
            }
        },
    )
}

/// An operation touches nothing but its own record. Whatever the kind of the
/// operation and however it ends, the metadata is as before, nothing is
/// removed but the record in hand, no other record appears or changes, and
/// no directory goes away.
pub proof fn law_operation_is_local(
    store: Store,
    kind: OpKind,
    table: Seq<char>,
    key: Option<Seq<char>>,
    references: Seq<ForeignKeyView>,
    candidate: Seq<char>,
    content: Seq<u8>,
)
    requires
        store.wf(),
        references.len() <= usize::MAX,
    ensures
        ({
            let (after, _) = run(store, begin(kind, table, key, references, candidate), content);
            let target = target_of(kind, table, key, candidate);
            &&& after.metadata == store.metadata
            &&& after.stray == store.stray
            &&& after.root == store.root
            &&& forall|table: Seq<char>|
                store.tables.contains(table) ==> #[trigger] after.tables.contains(table)
            &&& forall|other: (Seq<char>, Seq<char>)|
                other != target ==> (#[trigger] after.records.contains_key(other)
                    <==> store.records.contains_key(other))
            &&& forall|other: (Seq<char>, Seq<char>)|
                other != target && store.records.contains_key(other)
                    ==> #[trigger] after.records[other] == store.records[other]
        }),
{
    law_operations_do_what_they_say(store, kind, table, key, references, candidate, content);
}

/// Readers agree. A get, or the question whether a record is stored,
/// changes nothing of the database: the store is as before, but for the
/// coordination file. So whoever asks again, and whatever other readers came
/// in between, gets the same answer.
pub proof fn law_readers_agree(
    store: Store,
    kind: OpKind,
    table: Seq<char>,
    key: Option<Seq<char>>,
    other_kind: OpKind,
    other_table: Seq<char>,
    other_key: Option<Seq<char>>,
    content: Seq<u8>,
)
    requires
        store.wf(),
        kind is Get || kind is Exists,
        other_kind is Get || other_kind is Exists,
    ensures
        ({
            let nothing = Seq::<ForeignKeyView>::empty();
            let none = Seq::<char>::empty();
            let (after, answer) = run(store, begin(kind, table, key, nothing, none), content);
            let (between, _) = run(
                after,
                begin(other_kind, other_table, other_key, nothing, none),
                content,
            );
            let (at_last, again) = run(between, begin(kind, table, key, nothing, none), content);
            &&& after == store || after == entered(store)
            &&& at_last.records == store.records
            &&& at_last.tables == store.tables
            &&& at_last.metadata == store.metadata
            &&& again == answer
        }),
{
    let nothing = Seq::<ForeignKeyView>::empty();
    let none = Seq::<char>::empty();
    law_operations_do_what_they_say(store, kind, table, key, nothing, none, content);
    let after = outcome(store, kind, table, key, nothing, none, content).0;
    law_operations_do_what_they_say(
        after,
        other_kind,
        other_table,
        other_key,
        nothing,
        none,
        content,
    );
    let between = outcome(after, other_kind, other_table, other_key, nothing, none, content).0;
    law_operations_do_what_they_say(between, kind, table, key, nothing, none, content);
}

/// The question whether a record is stored fails only for want of the
/// coordination lock: whatever the events, it ends with an error only where
/// the coordination file could not be opened or the lock could not be taken.
pub proof fn law_exists_fails_only_at_the_lock(operation: OperationView, event: EventView)
    requires
        operation.wf(),
        operation.kind is Exists,
    ensures
        operation.next(event) matches StepView::Done(Err(error)) ==> error
            == DBErrorView::FailedToOpenLockFile(LocationView::LockFile) || error
            == DBErrorView::FailedToLockFile(LocationView::LockFile),
{
}

/// The locking discipline, whatever the events. Nothing of the database is
/// read or changed before the coordination lock is granted: a step that asks
/// for anything but the coordination file and the lock comes from an
/// operation that holds the lock, or is the answer to the lock being
/// granted. The lock is asked for in the mode of the operation's kind, and an
/// action that changes the database is asked for only where that mode is
/// exclusive.
pub proof fn law_lock_discipline(operation: OperationView, event: EventView)
    requires
        operation.wf(),
    ensures
        operation.next(event) matches StepView::Ask(then, action) ==> {
            &&& !(action is OpenLock)
            &&& action matches ActionView::Lock(mode) ==> operation.stage is OpeningLock && event
                is Done && mode == operation.kind.spec_lock_mode()
            &&& !(action is Lock) ==> operation.holds_lock() || (operation.stage is Locking
                && event is Done)
            &&& then.holds_lock() <==> !(action is Lock)
            &&& action.mutates() ==> operation.kind.spec_lock_mode() == LockMode::Exclusive
        },
{
}

/// The metadata that a build writes into a new database: the parameters as
/// given, the salt where a password was given, and the declared tables.
pub open spec fn new_metadata(builder: DatabaseBuilderView, salt: Option<Seq<u8>>) -> MetadataView {
    MetadataView {
        params: builder.params,
        salt: if builder.pass is Some {
            salt
        } else {
            None
        },
        tables: builder.tables,
    }
}

/// What a build does: the store afterwards, and the result.
///
/// The checks come in this order: a path must be given; the root must be
/// missing or empty; a table must be declared. Then the root and the
/// coordination file are created. With a password, a salt must be at hand,
/// and the key is derived. Then the metadata is written and the directories
/// of the tables are created.
pub open spec fn build_outcome(
    store: Store,
    builder: DatabaseBuilderView,
    salt: Option<Seq<u8>>,
) -> (Store, Result<DatabaseView, BuildErrorView>) {
    let metadata = new_metadata(builder, salt);
    let created = Store { root: true, lock_file: true, ..store };
    if builder.path is None {
        (store, Err(BuildErrorView::Database(DBErrorView::NoDatabasePath)))
    } else if store.root && !store.holds_nothing() {
        (store, Err(BuildErrorView::Database(DBErrorView::FolderExists(LocationView::Root))))
    } else if builder.tables.len() == 0 {
        (store, Err(BuildErrorView::Database(DBErrorView::NoTables)))
    } else if builder.pass is Some && salt is None {
        (created, Err(BuildErrorView::Utils(UtilsErrorView::FailedToGenerateSalt)))
    } else {
        match handle_key(builder.params, builder.pass, metadata.salt) {
            Err(error) => (created, Err(BuildErrorView::Utils(error))),
            Ok(derived_key) => (
                Store {
                    metadata: Some(metadata),
                    tables: store.tables.union(builder.tables.to_set()),
                    ..created
                },
                Ok(DatabaseView { derived_key, path: builder.path->0 }),
            ),
        }
    }
}

/// The whole of the build. In a store that is closed under parents, a build
/// ends as [`build_outcome`] says: with that result, and with the store
/// holding that.
pub proof fn law_build_does_what_it_says(
    store: Store,
    builder: DatabaseBuilderView,
    salt: Option<Seq<u8>>,
)
    requires
        store.wf(),
    ensures
        run_build(store, begin_build(builder, salt)) == build_outcome(store, builder, salt),
{
    reveal_with_fuel(run_build, 10);
}

/// Non-empty-root rejection: a build against a root that holds anything,
/// be it the engine's or not, fails with a folder-exists error and changes
/// nothing.
pub proof fn law_build_refuses_occupied_root(
    store: Store,
    builder: DatabaseBuilderView,
    salt: Option<Seq<u8>>,
)
    requires
        builder.path is Some,
        store.root,
        !store.holds_nothing(),
    ensures
        run_build(store, begin_build(builder, salt)) == (
            store,
            Err::<DatabaseView, BuildErrorView>(
                BuildErrorView::Database(DBErrorView::FolderExists(LocationView::Root)),
            ),
        ),
{
    reveal_with_fuel(run_build, 2);
}

/// What becomes of opening twice: after a build has succeeded, the root
/// holds at least the coordination file, so that every further build against
/// it is refused with a folder-exists error and changes nothing.
pub proof fn law_second_build_is_refused(
    store: Store,
    first: DatabaseBuilderView,
    first_salt: Option<Seq<u8>>,
    second: DatabaseBuilderView,
    second_salt: Option<Seq<u8>>,
)
    requires
        store.wf(),
        run_build(store, begin_build(first, first_salt)).1 is Ok,
        second.path is Some,
    ensures
        ({
            let (after, _) = run_build(store, begin_build(first, first_salt));
            run_build(after, begin_build(second, second_salt)) == (
                after,
                Err::<DatabaseView, BuildErrorView>(
                    BuildErrorView::Database(DBErrorView::FolderExists(LocationView::Root)),
                ),
            )
        }),
{
    law_build_does_what_it_says(store, first, first_salt);
    let after = build_outcome(store, first, first_salt).0;
    law_build_refuses_occupied_root(after, second, second_salt);
}

/// Adoption: a build that finds metadata takes it as it is. It does not
/// write the metadata, and where it succeeds, the directories that it has
/// made sure of are those of the tables that the metadata names, whatever
/// tables were declared; the key of the handle comes from the password with
/// the parameters and the salt of the metadata.
pub proof fn law_build_adopts_metadata(store: Store, build: BuildView, metadata: MetadataView)
    requires
        build.stage is ReadingMetadata,
    ensures
        ({
            let (after, result) = run_build(store, build.next(EventView::Metadata(metadata)));
            &&& after.metadata == store.metadata
            &&& after.records == store.records
            &&& result matches Ok(database) ==> {
                &&& after.tables =~= store.tables.union(metadata.tables.to_set())
                &&& database.path == build.path
                &&& Ok::<Option<Seq<u8>>, UtilsErrorView>(database.derived_key) == handle_key(
                    metadata.params,
                    build.pass,
                    metadata.salt,
                )
            }
        }),
{
    reveal_with_fuel(run_build, 3);
}

/// Opening twice at once. Two builds find the root missing or empty; the
/// first then runs to its end, and the second goes on from its inspection of
/// the root. Where the first succeeds, so does the second, as long as the
/// key can be derived for its password: it adopts what the first wrote. The
/// store is then as the first left it, with no directory for the tables that
/// the second declared, and where both gave the same password, both handles
/// hold the same key.
pub proof fn law_builds_at_once_agree(
    store: Store,
    first: DatabaseBuilderView,
    first_salt: Option<Seq<u8>>,
    second: DatabaseBuilderView,
    second_salt: Option<Seq<u8>>,
)
    requires
        store.wf(),
        !store.root || store.holds_nothing(),
        second.path is Some,
        second.tables.len() > 0,
        run_build(store, begin_build(first, first_salt)).1 is Ok,
        handle_key(first.params, second.pass, new_metadata(first, first_salt).salt) is Ok,
    ensures
        ({
            let (between, opened) = run_build(store, begin_build(first, first_salt));
            let inspected = begin_build(second, second_salt)->Ask_0.next(
                store.perform(ActionView::InspectRoot, Seq::empty()).1,
            );
            let (after, reopened) = run_build(between, inspected);
            &&& between.metadata == Some(new_metadata(first, first_salt))
            &&& after == between
            &&& reopened matches Ok(database) && database.path == second.path->0
            &&& second.pass == first.pass ==> reopened->Ok_0.derived_key
                == opened->Ok_0.derived_key
        }),
{
    reveal_with_fuel(run_build, 8);
    law_build_does_what_it_says(store, first, first_salt);
    let between = build_outcome(store, first, first_salt).0;
    assert(between.tables =~= between.tables.union(first.tables.to_set()));
}

} // verus!
