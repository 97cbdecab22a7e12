use std::collections::{BTreeMap, BTreeSet};

use minidb::{
    Action, AsTable, BuildError, BuildStep, DBError, Database, DatabaseBuilder, Event, ForeignKey,
    Id, Location, LockMode, Metadata, Reply, Step, UtilsError,
};
use serde::de::{SeqAccess, Visitor};
use serde::ser::SerializeStruct;
use serde::{Deserialize, Deserializer, Serialize, Serializer};

/// A database directory, kept in memory.
#[derive(Debug, Default, Clone, PartialEq)]
struct Disk {
    root: bool,
    stray: bool,
    lock_file: bool,
    metadata: Option<Metadata>,
    tables: BTreeSet<String>,
    records: BTreeMap<(String, String), Vec<u8>>,
    log: Vec<Action>,
}

impl Disk {
    fn empty_dir() -> Self {
        Disk { root: true, ..Disk::default() }
    }

    fn holds_nothing(&self) -> bool {
        !self.stray
            && !self.lock_file
            && self.metadata.is_none()
            && self.tables.is_empty()
            && self.records.is_empty()
    }

    fn has_file(&self, place: &Location) -> bool {
        match place {
            Location::LockFile => self.lock_file,
            Location::Metadata => self.metadata.is_some(),
            Location::Record(table, id) => self.records.contains_key(&(table.clone(), id.clone())),
            _ => false,
        }
    }

    /// Performs `action`; `content` is what the record in hand encodes to.
    fn perform(&mut self, action: &Action, content: Option<&[u8]>) -> Event {
        self.log.push(action.clone());
        match action {
            Action::InspectRoot => {
                if !self.root {
                    Event::Missing
                } else if self.holds_nothing() {
                    Event::Present
                } else {
                    Event::Occupied
                }
            }
            Action::CreateDir(Location::Root) => {
                self.root = true;
                Event::Done
            }
            Action::CreateDir(Location::TableDir(table)) => {
                self.root = true;
                self.tables.insert(table.clone());
                Event::Done
            }
            Action::CreateDir(_) => Event::Failed,
            Action::CreateTableDirs(tables) => {
                self.root = true;
                for table in tables {
                    self.tables.insert(table.clone());
                }
                Event::Done
            }
            Action::OpenLock => {
                if self.root {
                    self.lock_file = true;
                    Event::Done
                } else {
                    Event::Failed
                }
            }
            Action::Lock(_) => {
                if self.lock_file {
                    Event::Done
                } else {
                    Event::Failed
                }
            }
            Action::ReadMetadata => match &self.metadata {
                Some(metadata) => Event::Metadata(metadata.clone()),
                None => Event::Missing,
            },
            Action::WriteMetadata(metadata) => {
                if self.root {
                    self.metadata = Some(metadata.clone());
                    Event::Done
                } else {
                    Event::Failed
                }
            }
            Action::Probe(place) => {
                if self.has_file(place) {
                    Event::Present
                } else {
                    Event::Missing
                }
            }
            Action::Serialize(Location::Record(table, id)) => match content {
                Some(bytes) if self.tables.contains(table) => {
                    self.records.insert((table.clone(), id.clone()), bytes.to_vec());
                    Event::Done
                }
                _ => Event::Failed,
            },
            Action::Serialize(_) => Event::Failed,
            Action::Deserialize(place) => {
                if self.has_file(place) {
                    Event::Done
                } else {
                    Event::Failed
                }
            }
            Action::Remove(Location::Record(table, id)) => {
                match self.records.remove(&(table.clone(), id.clone())) {
                    Some(_) => Event::Done,
                    None => Event::Failed,
                }
            }
            Action::Remove(_) => Event::Failed,
        }
    }

    fn run(&mut self, mut step: Step, content: Option<&[u8]>) -> Result<Reply, DBError> {
        loop {
            match step {
                Step::Done(result) => return result,
                Step::Ask(operation, action) => {
                    let event = self.perform(&action, content);
                    step = operation.advance(event);
                }
            }
        }
    }

    fn run_build(&mut self, mut step: BuildStep) -> Result<Database, BuildError> {
        loop {
            match step {
                BuildStep::Done(result) => return result,
                BuildStep::Ask(build, action) => {
                    let event = self.perform(&action, None);
                    step = build.advance(event);
                }
            }
        }
    }

    fn insert<T: AsTable + Serialize>(&mut self, db: &Database, record: &T) -> Result<Id<T>, DBError> {
        let content = bitcode::serialize(record).ok();
        match self.run(db.insert(record), content.as_deref())? {
            Reply::Inserted(id) => Ok(Id::with_value(Some(id))),
            other => panic!("an insert replied {other:?}"),
        }
    }

    fn get<T: AsTable + for<'de> Deserialize<'de>>(
        &mut self,
        db: &Database,
        id: &Id<T>,
    ) -> Result<T, DBError> {
        match self.run(db.get(id), None)? {
            Reply::Fetched(found) => {
                let content = &self.records[&(T::name().to_string(), found.clone())];
                let mut record: T = bitcode::deserialize(content).expect("a record decodes");
                record.set_id(Id::with_value(Some(found)));
                Ok(record)
            }
            other => panic!("a get replied {other:?}"),
        }
    }

    fn update<T: AsTable + Serialize>(&mut self, db: &Database, record: &T) -> Result<(), DBError> {
        let content = bitcode::serialize(record).ok();
        match self.run(db.update(record), content.as_deref())? {
            Reply::Updated => Ok(()),
            other => panic!("an update replied {other:?}"),
        }
    }

    fn delete<T: AsTable>(&mut self, db: &Database, id: &Id<T>) -> Result<(), DBError> {
        match self.run(db.delete(id), None)? {
            Reply::Deleted => Ok(()),
            other => panic!("a delete replied {other:?}"),
        }
    }

    fn contains<T: AsTable>(&mut self, db: &Database, id: &Id<T>) -> Result<bool, DBError> {
        match self.run(db.contains(id), None)? {
            Reply::Exists(stored) => Ok(stored),
            other => panic!("a question replied {other:?}"),
        }
    }

    fn content(&self, table: &str, id: &str) -> Vec<u8> {
        self.records[&(table.to_string(), id.to_string())].clone()
    }
}

#[derive(Debug, PartialEq)]
struct Person {
    id: Id<Self>,
    name: String,
    age: u8,
}

impl AsTable for Person {
    fn name() -> &'static str {
        "person"
    }

    fn get_id(&self) -> &Id<Self> {
        &self.id
    }

    fn set_id(&mut self, id: Id<Self>) {
        self.id = id;
    }

    fn get_foreign_keys(&self) -> Vec<ForeignKey> {
        vec![]
    }
}

impl Serialize for Person {
    fn serialize<S: Serializer>(&self, serializer: S) -> Result<S::Ok, S::Error> {
        let mut fields = serializer.serialize_struct("Person", 3)?;
        fields.serialize_field("id", &self.id.value)?;
        fields.serialize_field("name", &self.name)?;
        fields.serialize_field("age", &self.age)?;
        fields.end()
    }
}

struct PersonVisitor;

impl<'de> Visitor<'de> for PersonVisitor {
    type Value = Person;

    fn expecting(&self, formatter: &mut std::fmt::Formatter) -> std::fmt::Result {
        formatter.write_str("a person")
    }

    fn visit_seq<A: SeqAccess<'de>>(self, mut seq: A) -> Result<Person, A::Error> {
        let missing = || serde::de::Error::custom("a field is missing");
        let value: Option<String> = seq.next_element()?.ok_or_else(missing)?;
        let name: String = seq.next_element()?.ok_or_else(missing)?;
        let age: u8 = seq.next_element()?.ok_or_else(missing)?;
        Ok(Person { id: Id::with_value(value), name, age })
    }
}

impl<'de> Deserialize<'de> for Person {
    fn deserialize<D: Deserializer<'de>>(deserializer: D) -> Result<Person, D::Error> {
        deserializer.deserialize_struct("Person", &["id", "name", "age"], PersonVisitor)
    }
}

#[derive(Debug, PartialEq)]
struct Order {
    id: Id<Self>,
    customer_id: Id<Person>,
}

impl AsTable for Order {
    fn name() -> &'static str {
        "order"
    }

    fn get_id(&self) -> &Id<Self> {
        &self.id
    }

    fn set_id(&mut self, id: Id<Self>) {
        self.id = id;
    }

    fn get_foreign_keys(&self) -> Vec<ForeignKey> {
        vec![ForeignKey::new("customer_id", Person::name(), &self.customer_id)]
    }
}

impl Serialize for Order {
    fn serialize<S: Serializer>(&self, serializer: S) -> Result<S::Ok, S::Error> {
        let mut fields = serializer.serialize_struct("Order", 2)?;
        fields.serialize_field("id", &self.id.value)?;
        fields.serialize_field("customer_id", &self.customer_id.value)?;
        fields.end()
    }
}

const PATH: &str = "path/to/db";

fn open(disk: &mut Disk) -> Database {
    let step = Database::builder().path(PATH).table::<Person>().table::<Order>().build();
    disk.run_build(step).expect("Failed to build database")
}

fn john() -> Person {
    Person { id: Id::new(), name: String::from("John Doe"), age: 31 }
}

#[test]
fn test_database_new() {
    let mut disk = Disk::empty_dir();
    let db = disk
        .run_build(Database::builder().path(PATH).table::<Person>().build())
        .expect("Failed to build database");

    assert_eq!(db.path(), PATH);
    assert!(disk.root);
    assert!(disk.tables.contains(Person::name()));
}

#[test]
fn test_database_add_record() {
    let mut disk = Disk::empty_dir();
    let db = disk
        .run_build(Database::builder().path(PATH).table::<Person>().build())
        .expect("Failed to build database");

    let mut p = Person { id: Id::default(), name: String::from("John Doe"), age: 31 };
    let id = disk.insert(&db, &p).expect("Failed to insert person");
    p.id = id;

    let bytes = disk.content("person", &p.id.to_string());
    let str = String::from_utf8(bytes).expect("Failed to read file");
    assert_eq!(str, format!("\0\u{8}John Doe\u{1f}"));
}

#[test]
fn test_database_get_record() {
    let mut disk = Disk::empty_dir();
    let db = disk
        .run_build(Database::builder().path(PATH).table::<Person>().build())
        .expect("Failed to create database");

    let mut p = Person { id: Id::new(), name: String::from("John Doe"), age: 31 };

    let id = disk.insert(&db, &p).expect("Failed to insert person");
    p.id = id;

    let fetched = disk.get(&db, &p.id).expect("Failed to get person");
    assert_eq!(fetched, p);
}

#[test]
fn test_database_update_record() {
    let mut disk = Disk::empty_dir();
    let db = disk
        .run_build(Database::builder().path(PATH).table::<Person>().build())
        .expect("Failed to create database");

    let mut p = Person { id: Id::new(), name: String::from("John Doe"), age: 31 };

    let id = disk.insert(&db, &p).expect("Failed to insert person");
    p.id = id;

    p.age += 1;
    disk.update(&db, &p).expect("Failed to update person");

    let fetched = disk.get(&db, &p.id).expect("Failed to get person");
    assert_eq!(fetched, p);
}

#[test]
fn test_database_delete_record() {
    let mut disk = Disk::empty_dir();
    let db = disk
        .run_build(Database::builder().path(PATH).table::<Person>().build())
        .expect("Failed to create database");

    let p = Person { id: Id::new(), name: String::from("John Doe"), age: 31 };

    let id = disk.insert(&db, &p).expect("Failed to insert person");
    disk.delete(&db, &id).expect("Failed to delete person");

    assert!(disk.get(&db, &id).is_err());
}

#[test]
fn test_database_relationship() {
    let mut disk = Disk::empty_dir();
    let db = disk
        .run_build(Database::builder().path(PATH).table::<Person>().table::<Order>().build())
        .expect("Failed to build database");

    let mut p = Person { id: Id::new(), name: "John Doe".into(), age: 31 };

    p.id = disk.insert(&db, &p).expect("Failed to insert person");

    let mut o = Order { id: Id::new(), customer_id: p.id.clone() };
    assert_eq!(o.get_foreign_keys().len(), 1);

    o.id = disk.insert(&db, &o).expect("Failed to insert order");

    assert_eq!(o.customer_id, p.id);

    p.age = 32;
    disk.update(&db, &p).expect("Failed to update person");

    let fetched = disk.get(&db, &p.id).expect("Failed to get person");
    assert_eq!(fetched, p);

    disk.delete(&db, &o.id).expect("Failed to delete order");
    disk.delete(&db, &p.id).expect("Failed to delete person");
}

#[test]
fn test_encrypted_database_new() {
    let pass = "secretpassword123";
    let mut disk = Disk::empty_dir();
    let db = disk
        .run_build(Database::builder().path(PATH).encryption(pass).table::<Person>().build())
        .expect("Failed to build database");

    assert_eq!(db.path(), PATH);
    assert!(disk.root);
    assert!(disk.tables.contains(Person::name()));

    let metadata = disk.metadata.clone().expect("metadata was written");
    let salt = metadata.salt.expect("a salt was drawn");
    let key = db.derived_key().clone().expect("a key was derived");
    assert_eq!(key.len(), 32);
    assert_eq!(key, minidb::derive_key(None, pass.as_bytes(), &salt).unwrap());
}

#[test]
fn scenario_person_lifecycle() {
    let mut disk = Disk::empty_dir();
    let db = disk
        .run_build(DatabaseBuilder::new(PATH).table::<Person>().build())
        .expect("Failed to build database");

    let mut person = john();
    let id = disk.insert(&db, &person).expect("Failed to insert person");
    assert!(id.is_some());
    assert!(person.id.is_none());
    person.id = id;

    let found = disk.get(&db, &person.id).expect("Failed to get person");
    assert_eq!(found, Person { id: person.id.clone(), name: "John Doe".into(), age: 31 });

    person.age = 32;
    disk.update(&db, &person).expect("Failed to update person");
    assert_eq!(disk.get(&db, &person.id).expect("Failed to get person").age, 32);

    disk.delete(&db, &person.id).expect("Failed to delete person");
    assert_eq!(
        disk.get(&db, &person.id),
        Err(DBError::RecordNotFound { table: "person".into(), id: person.id.to_string() })
    );
}

#[test]
fn build_on_missing_root_creates_it() {
    let mut disk = Disk::default();
    let db = disk
        .run_build(Database::builder().path(PATH).table_named("b").table_named("a").build())
        .expect("Failed to build database");
    assert!(db.derived_key().is_none());
    assert_eq!(
        disk.log,
        vec![
            Action::InspectRoot,
            Action::CreateDir(Location::Root),
            Action::OpenLock,
            Action::Lock(LockMode::Shared),
            Action::ReadMetadata,
            Action::OpenLock,
            Action::Lock(LockMode::Exclusive),
            Action::WriteMetadata(Metadata {
                params: None,
                salt: None,
                tables: vec!["b".to_string(), "a".to_string()],
            }),
            Action::CreateTableDirs(vec!["b".to_string(), "a".to_string()]),
        ]
    );
    assert!(disk.root && disk.lock_file);
    assert_eq!(disk.tables.len(), 2);
}

#[test]
fn build_without_path_fails() {
    let mut disk = Disk::empty_dir();
    let result = disk.run_build(Database::builder().table::<Person>().build());
    assert_eq!(result.unwrap_err(), BuildError::Database(DBError::NoDatabasePath));
    assert!(disk.log.is_empty());
}

#[test]
fn build_without_tables_fails() {
    let mut disk = Disk::empty_dir();
    let result = disk.run_build(DatabaseBuilder::new(PATH).build());
    assert_eq!(result.unwrap_err(), BuildError::Database(DBError::NoTables));
    assert_eq!(disk.log, vec![Action::InspectRoot]);
}

#[test]
fn build_refuses_a_root_with_any_file() {
    let mut disk = Disk::empty_dir();
    disk.stray = true;
    let before = disk.clone();
    let result = disk.run_build(DatabaseBuilder::new(PATH).table::<Person>().build());
    assert_eq!(
        result.unwrap_err(),
        BuildError::Database(DBError::FolderExists(Location::Root))
    );
    assert_eq!(disk.log, vec![Action::InspectRoot]);
    disk.log.clear();
    assert_eq!(disk, before);
}

#[test]
fn second_build_is_refused() {
    let mut disk = Disk::empty_dir();
    open(&mut disk);
    let result = disk.run_build(DatabaseBuilder::new(PATH).table::<Person>().build());
    assert_eq!(
        result.unwrap_err(),
        BuildError::Database(DBError::FolderExists(Location::Root))
    );
}

#[test]
fn build_declares_each_table_once() {
    let mut disk = Disk::empty_dir();
    let step = Database::builder()
        .path(PATH)
        .table::<Person>()
        .table::<Order>()
        .table::<Person>()
        .build();
    disk.run_build(step).expect("Failed to build database");
    let metadata = disk.metadata.expect("metadata was written");
    assert_eq!(metadata.tables, vec!["person".to_string(), "order".to_string()]);
}

/// Drives a build by hand up to the step that waits for `action`.
fn build_until(mut step: BuildStep, disk: &mut Disk, action: &Action) -> minidb::Build {
    loop {
        match step {
            BuildStep::Ask(build, asked) => {
                if asked == *action {
                    return build;
                }
                let event = disk.perform(&asked, None);
                step = build.advance(event);
            }
            BuildStep::Done(result) => panic!("the build ended early: {result:?}"),
        }
    }
}

fn build_error(step: BuildStep) -> BuildError {
    match step {
        BuildStep::Done(Err(error)) => error,
        other => panic!("the build went on: {other:?}"),
    }
}

#[test]
fn build_adopts_metadata_that_it_finds() {
    let mut disk = Disk::empty_dir();
    let step = DatabaseBuilder::new(PATH).table_named("declared").build();
    let build = build_until(step, &mut disk, &Action::ReadMetadata);
    let found = Metadata { params: None, salt: None, tables: vec!["kept".to_string()] };
    let step = build.advance(Event::Metadata(found));
    let db = disk.run_build(step).expect("Failed to build database");
    assert!(db.derived_key().is_none());
    assert_eq!(disk.log.last(), Some(&Action::CreateTableDirs(vec!["kept".to_string()])));
    assert!(disk.metadata.is_none());
    assert!(disk.tables.contains("kept") && !disk.tables.contains("declared"));
}

#[test]
fn builds_at_once_agree() {
    let mut disk = Disk::empty_dir();
    let first = DatabaseBuilder::new(PATH).encryption("pw").table_named("a").build();
    let second = DatabaseBuilder::new(PATH).encryption("pw").table_named("b").build();
    let late = build_until(second, &mut disk, &Action::CreateDir(Location::Root));

    let opened = disk.run_build(first).expect("Failed to build database");
    let between = disk.clone();

    let step = late.advance(disk.perform(&Action::CreateDir(Location::Root), None));
    let reopened = disk.run_build(step).expect("Failed to build database");

    assert_eq!(disk.metadata, between.metadata);
    assert_eq!(disk.tables, between.tables);
    assert!(!disk.tables.contains("b"));
    assert!(opened.derived_key().is_some());
    assert_eq!(reopened.derived_key(), opened.derived_key());
}

#[test]
fn build_derives_the_key_from_adopted_metadata() {
    let mut disk = Disk::empty_dir();
    let params = minidb::ArgonParams::new().m_cost(1024).t_cost(1).output_len(24);
    let salt = [7u8; 16];
    let step = DatabaseBuilder::new(PATH).encryption("pw").table_named("t").build();
    let build = build_until(step, &mut disk, &Action::ReadMetadata);
    let found = Metadata { params: Some(params), salt: Some(salt), tables: vec![] };
    match build.advance(Event::Metadata(found)) {
        BuildStep::Done(Ok(db)) => {
            let key = db.derived_key().clone().expect("a key was derived");
            assert_eq!(key, minidb::derive_key(params, b"pw", &salt).unwrap());
            assert_eq!(key.len(), 24);
        }
        other => panic!("the build went on: {other:?}"),
    }
}

#[test]
fn build_reports_each_failure() {
    let fresh = || DatabaseBuilder::new(PATH).table_named("a").table_named("b").build();

    let mut disk = Disk::empty_dir();
    let build = build_until(fresh(), &mut disk, &Action::InspectRoot);
    assert_eq!(
        build_error(build.advance(Event::Failed)),
        BuildError::Utils(UtilsError::FailedToReadDir(PATH.to_string()))
    );

    let mut disk = Disk::empty_dir();
    let build = build_until(fresh(), &mut disk, &Action::CreateDir(Location::Root));
    assert_eq!(
        build_error(build.advance(Event::Failed)),
        BuildError::Database(DBError::FailedToCreateDatabase(Location::Root))
    );

    let mut disk = Disk::empty_dir();
    let build = build_until(fresh(), &mut disk, &Action::OpenLock);
    assert_eq!(
        build_error(build.advance(Event::Failed)),
        BuildError::Database(DBError::FailedToReadMetadata)
    );

    let mut disk = Disk::empty_dir();
    let build = build_until(fresh(), &mut disk, &Action::Lock(LockMode::Shared));
    assert_eq!(
        build_error(build.advance(Event::Failed)),
        BuildError::Database(DBError::FailedToReadMetadata)
    );

    let mut disk = Disk::empty_dir();
    let build = build_until(fresh(), &mut disk, &Action::ReadMetadata);
    assert_eq!(
        build_error(build.advance(Event::Failed)),
        BuildError::Database(DBError::FailedToReadMetadata)
    );

    let mut disk = Disk::empty_dir();
    let build = build_until(fresh(), &mut disk, &Action::Lock(LockMode::Exclusive));
    assert_eq!(
        build_error(build.advance(Event::Failed)),
        BuildError::Database(DBError::FailedToWriteMetadata)
    );

    let tables = vec!["a".to_string(), "b".to_string()];
    let metadata = Metadata { params: None, salt: None, tables: tables.clone() };
    let mut disk = Disk::empty_dir();
    let build = build_until(fresh(), &mut disk, &Action::WriteMetadata(metadata));
    assert_eq!(
        build_error(build.advance(Event::Failed)),
        BuildError::Database(DBError::FailedToWriteMetadata)
    );

    let mut disk = Disk::empty_dir();
    let build = build_until(fresh(), &mut disk, &Action::CreateTableDirs(tables.clone()));
    assert_eq!(
        build_error(build.advance(Event::FailedAt(1))),
        BuildError::Database(DBError::FailedToCreateTableDir(Location::TableDir("b".into())))
    );
    let mut disk = Disk::empty_dir();
    let build = build_until(fresh(), &mut disk, &Action::CreateTableDirs(tables.clone()));
    assert_eq!(
        build_error(build.advance(Event::FailedAt(7))),
        BuildError::Database(DBError::FailedToCreateTableDir(Location::TableDir("a".into())))
    );
}

#[test]
fn build_with_password_needs_a_salt_and_valid_params() {
    let mut disk = Disk::empty_dir();
    let step = DatabaseBuilder::new(PATH).encryption("pw").table_named("t").build_with(None);
    assert_eq!(
        disk.run_build(step).unwrap_err(),
        BuildError::Utils(UtilsError::FailedToGenerateSalt)
    );
    assert!(disk.metadata.is_none());

    let mut disk = Disk::empty_dir();
    let params = minidb::ArgonParams::new().m_cost(4);
    let step = DatabaseBuilder::new(PATH)
        .encryption("pw")
        .argon2_params(params)
        .table_named("t")
        .build_with(Some([1u8; 16]));
    assert_eq!(
        disk.run_build(step).unwrap_err(),
        BuildError::Utils(UtilsError::FailedToCreateParams)
    );
    assert!(disk.metadata.is_none());

    let mut disk = Disk::empty_dir();
    let step = DatabaseBuilder::new(PATH).table_named("t").build_with(Some([1u8; 16]));
    let db = disk.run_build(step).expect("Failed to build database");
    assert!(db.derived_key().is_none());
    assert_eq!(disk.metadata.unwrap().salt, None);
}

#[test]
fn insert_asks_in_order() {
    let mut disk = Disk::empty_dir();
    let db = open(&mut disk);
    let mut person = john();
    person.id = disk.insert(&db, &person).unwrap();
    disk.log.clear();

    let order = Order { id: Id::new(), customer_id: person.id.clone() };
    let id = disk.insert(&db, &order).unwrap().to_string();
    assert_eq!(
        disk.log,
        vec![
            Action::OpenLock,
            Action::Lock(LockMode::Exclusive),
            Action::ReadMetadata,
            Action::Probe(Location::Record("person".into(), person.id.to_string())),
            Action::CreateDir(Location::TableDir("order".into())),
            Action::Probe(Location::Record("order".into(), id.clone())),
            Action::Serialize(Location::Record("order".into(), id)),
        ]
    );
}

#[test]
fn readers_take_the_shared_lock() {
    let mut disk = Disk::empty_dir();
    let db = open(&mut disk);
    let id = disk.insert(&db, &john()).unwrap();
    disk.log.clear();

    disk.get(&db, &id).unwrap();
    assert_eq!(
        disk.log,
        vec![
            Action::OpenLock,
            Action::Lock(LockMode::Shared),
            Action::ReadMetadata,
            Action::Probe(Location::Record("person".into(), id.to_string())),
            Action::Deserialize(Location::Record("person".into(), id.to_string())),
        ]
    );
    disk.log.clear();

    assert!(disk.contains(&db, &id).unwrap());
    assert_eq!(
        disk.log,
        vec![
            Action::OpenLock,
            Action::Lock(LockMode::Shared),
            Action::Probe(Location::Record("person".into(), id.to_string())),
        ]
    );
}

#[test]
fn insert_refuses_a_dangling_reference_and_writes_nothing() {
    let mut disk = Disk::empty_dir();
    let db = open(&mut disk);
    let before = disk.clone();

    let order = Order { id: Id::new(), customer_id: Id::from("nobody") };
    assert_eq!(
        disk.insert(&db, &order),
        Err(DBError::ForeignKeyViolation {
            field: "customer_id".into(),
            table: "person".into(),
            id: "nobody".into(),
        })
    );
    assert_eq!(disk.records, before.records);
    assert_eq!(disk.tables, before.tables);
    assert_eq!(disk.metadata, before.metadata);
    assert!(disk.log[before.log.len()..]
        .iter()
        .all(|action| !matches!(action, Action::Serialize(_) | Action::CreateDir(_))));

    let unset = Order { id: Id::new(), customer_id: Id::new() };
    assert_eq!(
        disk.insert(&db, &unset),
        Err(DBError::InvalidForeignKey {
            field: "customer_id".into(),
            table: "person".into(),
            id: "".into(),
        })
    );
    assert_eq!(disk.records, before.records);

    let customer = disk.insert(&db, &john()).unwrap();
    let valid = Order { id: Id::new(), customer_id: customer };
    assert!(disk.insert(&db, &valid).is_ok());
}

#[test]
fn insert_refuses_a_record_with_an_identifier() {
    let mut disk = Disk::empty_dir();
    let db = open(&mut disk);
    let person = Person { id: Id::from("taken"), name: "Jane".into(), age: 40 };
    assert_eq!(
        disk.insert(&db, &person),
        Err(DBError::RecordAlreadyExists { table: "person".into(), id: "taken".into() })
    );
    assert!(disk.records.is_empty());
}

#[test]
fn update_needs_the_record_and_never_creates() {
    let mut disk = Disk::empty_dir();
    let db = open(&mut disk);
    let before = disk.clone();

    let ghost = Person { id: Id::from("neverstored"), name: "Jane".into(), age: 40 };
    assert_eq!(
        disk.update(&db, &ghost),
        Err(DBError::RecordNotFound { table: "person".into(), id: "neverstored".into() })
    );
    assert_eq!(disk.records, before.records);
    assert_eq!(disk.tables, before.tables);

    assert_eq!(disk.update(&db, &john()), Err(DBError::InvalidKey("".into())));

    let order = Order { id: Id::from("o1"), customer_id: Id::from("nobody") };
    assert_eq!(
        disk.update(&db, &order),
        Err(DBError::ForeignKeyViolation {
            field: "customer_id".into(),
            table: "person".into(),
            id: "nobody".into(),
        })
    );
}

#[test]
fn delete_then_get_and_exists() {
    let mut disk = Disk::empty_dir();
    let db = open(&mut disk);
    let id = disk.insert(&db, &john()).unwrap();
    assert!(disk.contains(&db, &id).unwrap());

    disk.delete(&db, &id).unwrap();
    let missing = DBError::RecordNotFound { table: "person".into(), id: id.to_string() };
    assert_eq!(disk.get(&db, &id), Err(missing.clone()));
    assert!(!disk.contains(&db, &id).unwrap());
    assert_eq!(disk.delete(&db, &id), Err(missing));
}

#[test]
fn unassigned_keys_are_refused_before_the_lock() {
    let mut disk = Disk::empty_dir();
    let db = open(&mut disk);
    disk.log.clear();
    let unassigned = Id::<Person>::new();
    assert_eq!(disk.get(&db, &unassigned), Err(DBError::InvalidKey("".into())));
    assert_eq!(disk.delete(&db, &unassigned), Err(DBError::InvalidKey("".into())));
    assert!(disk.log.is_empty());
    assert!(!disk.contains(&db, &unassigned).unwrap());
}

#[test]
fn operations_need_metadata_with_tables() {
    let mut disk = Disk::empty_dir();
    let db = open(&mut disk);
    let id = Id::<Person>::from("someone");

    disk.metadata = None;
    assert_eq!(disk.get(&db, &id), Err(DBError::NoMetadata));
    assert_eq!(disk.insert(&db, &john()), Err(DBError::NoMetadata));
    assert_eq!(disk.delete(&db, &id), Err(DBError::NoMetadata));

    disk.metadata = Some(Metadata { params: None, salt: None, tables: vec![] });
    assert_eq!(disk.get(&db, &id), Err(DBError::NoTables));
    assert_eq!(disk.insert(&db, &john()), Err(DBError::NoTables));
    assert_eq!(disk.contains(&db, &id), Ok(false));
}

/// Drives an operation by hand up to the step that waits for an action that
/// `wanted` accepts.
fn until(mut step: Step, disk: &mut Disk, wanted: fn(&Action) -> bool) -> minidb::Operation {
    loop {
        match step {
            Step::Ask(operation, asked) => {
                if wanted(&asked) {
                    return operation;
                }
                let event = disk.perform(&asked, Some(b"x"));
                step = operation.advance(event);
            }
            Step::Done(result) => panic!("the operation ended early: {result:?}"),
        }
    }
}

fn error_of(step: Step) -> DBError {
    match step {
        Step::Done(Err(error)) => error,
        other => panic!("the operation went on: {other:?}"),
    }
}

#[test]
fn operations_report_each_failure() {
    let mut disk = Disk::empty_dir();
    let db = open(&mut disk);
    let id = disk.insert(&db, &john()).unwrap();
    let key = id.to_string();
    let place = Location::Record("person".into(), key.clone());

    let operation = until(db.get(&id), &mut disk, |a| matches!(a, Action::OpenLock));
    assert_eq!(
        error_of(operation.advance(Event::Failed)),
        DBError::FailedToOpenLockFile(Location::LockFile)
    );

    let operation = until(db.get(&id), &mut disk, |a| matches!(a, Action::Lock(_)));
    assert_eq!(
        error_of(operation.advance(Event::Failed)),
        DBError::FailedToLockFile(Location::LockFile)
    );

    let operation = until(db.get(&id), &mut disk, |a| matches!(a, Action::ReadMetadata));
    assert_eq!(error_of(operation.advance(Event::Failed)), DBError::FailedToReadMetadata);

    let operation = until(db.get(&id), &mut disk, |a| matches!(a, Action::Deserialize(_)));
    assert_eq!(
        error_of(operation.advance(Event::Failed)),
        DBError::FailedToDeserializeFile(place.clone())
    );

    let operation = until(db.delete(&id), &mut disk, |a| matches!(a, Action::Remove(_)));
    assert_eq!(
        error_of(operation.advance(Event::Failed)),
        DBError::FailedToRemoveFile(place.clone())
    );

    let stored = Person { id: id.clone(), name: "John Doe".into(), age: 33 };
    let operation = until(db.update(&stored), &mut disk, |a| matches!(a, Action::Serialize(_)));
    assert_eq!(
        error_of(operation.advance(Event::Failed)),
        DBError::FailedToSerializeFile(place)
    );

    let operation = until(db.insert(&john()), &mut disk, |a| matches!(a, Action::CreateDir(_)));
    assert_eq!(
        error_of(operation.advance(Event::Failed)),
        DBError::FailedToCreateTableDir(Location::TableDir("person".into()))
    );

    let operation = until(db.insert(&john()), &mut disk, |a| {
        matches!(a, Action::Probe(Location::Record(table, _)) if table == "person")
    });
    match error_of(operation.advance(Event::Present)) {
        DBError::RecordAlreadyExists { table, id } => {
            assert_eq!(table, "person");
            assert!(cuid2::is_slug(id));
        }
        other => panic!("a taken identifier gave {other:?}"),
    }
}

#[test]
fn locations_give_the_layout() {
    let segments = |place: Location| place.segments();
    assert_eq!(segments(Location::Root), Vec::<String>::new());
    assert_eq!(segments(Location::LockFile), vec![".minidb-lock".to_string()]);
    assert_eq!(segments(Location::Metadata), vec!["metadata".to_string()]);
    assert_eq!(segments(Location::TableDir("person".into())), vec!["person".to_string()]);
    assert_eq!(
        segments(Location::Record("person".into(), "abc".into())),
        vec!["person".to_string(), "abc".to_string()]
    );
}

#[test]
fn segments_lead_back_to_their_place() {
    let places = vec![
        Location::Root,
        Location::LockFile,
        Location::Metadata,
        Location::TableDir("person".into()),
        Location::Record("person".into(), "abc".into()),
        Location::Record("metadata".into(), ".minidb-lock".into()),
    ];
    for place in places {
        assert_eq!(Location::from_segments(&place.segments()), Some(place));
    }
    let named_like_a_file = Location::TableDir("metadata".into());
    assert_eq!(Location::from_segments(&named_like_a_file.segments()), Some(Location::Metadata));
    let too_deep = vec!["a".to_string(), "b".to_string(), "c".to_string()];
    assert_eq!(Location::from_segments(&too_deep), None);
}

#[test]
fn handles_and_keys_are_cloned_as_they_are() {
    let mut disk = Disk::empty_dir();
    let db = disk
        .run_build(Database::builder().path(PATH).encryption("pw").table_named("t").build())
        .expect("Failed to build database");
    let copy = db.clone();
    assert_eq!(copy.path(), db.path());
    assert_eq!(copy.derived_key(), db.derived_key());

    let id = Id::<Person>::from("abc");
    assert_eq!(id.clone(), id);
    let key = ForeignKey::new("owner", "person", &id);
    assert_eq!(
        key,
        ForeignKey {
            field: "owner".to_string(),
            table: "person".to_string(),
            id: Some("abc".to_string()),
        }
    );
    assert_eq!(ForeignKey::new("owner", "person", &Id::<Person>::new()).id, None);
}
