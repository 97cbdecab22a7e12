//! Opening a database: the builder, and the steps of a build.
//!
//! A build looks at the root, creates it, reads the metadata under the
//! shared lock, and then either adopts the metadata that it found or writes
//! fresh metadata under the exclusive lock. It ends by creating the
//! directories of the tables that the metadata names.

use crate::crypto::{derive_key, generate_salt, spec_derive_key, ArgonParams};
use crate::database::{Database, DatabaseView};
use crate::errors::{DBError, DBErrorView, UtilsError, UtilsErrorView};
use crate::layout::{Location, LocationView};
use crate::protocol::{Action, ActionView, Event, EventView, LockMode, Metadata, MetadataView};
use crate::table::AsTable;
use vstd::prelude::*;
use vstd::utf8::encode_utf8;

verus! {

/// Why a build failed.
#[derive(Debug, Clone, PartialEq, Eq)]
pub enum BuildError {
    /// An error of the engine
    Database(DBError),
    /// An error of a utility that the build relies on
    Utils(UtilsError),
}

/// What a [`BuildError`] is in contracts.
pub enum BuildErrorView {
    Database(DBErrorView),
    Utils(UtilsErrorView),
}

impl View for BuildError {
    type V = BuildErrorView;

    open spec fn view(&self) -> BuildErrorView {
        match self {
            BuildError::Database(error) => BuildErrorView::Database(error@),
            BuildError::Utils(error) => BuildErrorView::Utils(error@),
        }
    }
}

/// A builder for [`Database`]
#[derive(Debug)]
pub struct DatabaseBuilder {
    params: Option<ArgonParams>,
    pass: Option<String>,
    path: Option<String>,
    tables: Vec<String>,
}

/// What a [`DatabaseBuilder`] is in contracts.
pub struct DatabaseBuilderView {
    /// The cost parameters of the key derivation, where they were given
    pub params: Option<ArgonParams>,
    /// The password, where encryption was asked for
    pub pass: Option<Seq<char>>,
    /// The path of the root directory, once it was given
    pub path: Option<Seq<char>>,
    /// The names of the declared tables, each once, in the order of their
    /// declaration
    pub tables: Seq<Seq<char>>,
}

impl View for DatabaseBuilder {
    type V = DatabaseBuilderView;

    closed spec fn view(&self) -> DatabaseBuilderView {
        DatabaseBuilderView {
            params: self.params,
            pass: match self.pass {
                Some(pass) => Some(pass@),
                None => None,
            },
            path: match self.path {
                Some(path) => Some(path@),
                None => None,
            },
            tables: self.tables.deep_view(),
        }
    }
}

impl DatabaseBuilderView {
    /// The builder with the table `name` declared: added at the end, unless
    /// it was declared before.
    pub open spec fn with_table(self, name: Seq<char>) -> DatabaseBuilderView {
        if self.tables.contains(name) {
            self
        } else {
            DatabaseBuilderView { tables: self.tables.push(name), ..self }
        }
    }
}

/// Whether `tables` holds `name`.
fn holds_name(tables: &Vec<String>, name: &String) -> (held: bool)
    ensures
        held == tables.deep_view().contains(name@),
{
    let mut i: usize = 0;
    while i < tables.len()
        invariant
            i <= tables.len(),
            forall|j: int| 0 <= j < i ==> tables.deep_view()[j] != name@,
        decreases tables.len() - i,
    {
        if tables[i] == *name {
            assert(tables.deep_view()[i as int] == name@);
            return true;
        }
        i += 1;
    }
    false
}

/// A copy of `tables`.
fn copy_names(tables: &Vec<String>) -> (copy: Vec<String>)
    ensures
        copy.deep_view() == tables.deep_view(),
{
    let mut copy: Vec<String> = Vec::new();
    let mut i: usize = 0;
    while i < tables.len()
        invariant
            i <= tables.len(),
            copy.len() == i,
            forall|j: int| 0 <= j < i ==> copy.deep_view()[j] == tables.deep_view()[j],
        decreases tables.len() - i,
    {
        copy.push(tables[i].clone());
        i += 1;
    }
    copy
}

impl Default for DatabaseBuilder {
    fn default() -> (builder: Self)
        ensures
            builder@ == DatabaseBuilder::spec_default(),
    {
        let builder = DatabaseBuilder { params: None, pass: None, path: None, tables: Vec::new() };
        assert(builder@.tables =~= Seq::empty());
        builder
    }
}

impl DatabaseBuilder {
    #[verifier::type_invariant]
    spec fn inv(self) -> bool {
        self.tables.deep_view().no_duplicates()
    }

    /// The builder that nothing was said to.
    pub open spec fn spec_default() -> DatabaseBuilderView {
        DatabaseBuilderView { params: None, pass: None, path: None, tables: Seq::empty() }
    }

    /// Creates a new database builder for the database at `path`
    pub fn new(path: &str) -> (builder: Self)
        ensures
            builder@ == (DatabaseBuilderView { path: Some(path@), ..Self::spec_default() }),
    {
        let builder = DatabaseBuilder {
            params: None,
            pass: None,
            path: Some(path.to_owned()),
            tables: Vec::new(),
        };
        assert(builder@.tables =~= Seq::empty());
        builder
    }

    /// Sets the Argon2 parameters to use for the key derivation
    pub fn argon2_params(self, params: ArgonParams) -> (builder: Self)
        ensures
            builder@ == (DatabaseBuilderView { params: Some(params), ..self@ }),
    {
        proof {
            use_type_invariant(&self);
        }
        DatabaseBuilder { params: Some(params), pass: self.pass, path: self.path, tables: self.tables }
    }

    /// Adds encryption to the database with the provided password
    pub fn encryption(self, pass: &str) -> (builder: Self)
        ensures
            builder@ == (DatabaseBuilderView { pass: Some(pass@), ..self@ }),
    {
        proof {
            use_type_invariant(&self);
        }
        DatabaseBuilder {
            params: self.params,
            pass: Some(pass.to_owned()),
            path: self.path,
            tables: self.tables,
        }
    }

    /// Sets the database path
    pub fn path(self, path: &str) -> (builder: Self)
        ensures
            builder@ == (DatabaseBuilderView { path: Some(path@), ..self@ }),
    {
        proof {
            use_type_invariant(&self);
        }
        DatabaseBuilder {
            params: self.params,
            pass: self.pass,
            path: Some(path.to_owned()),
            tables: self.tables,
        }
    }

    /// Adds the table of `T` to the database, under the name that `T` gives
    /// itself.
    pub fn table<T: AsTable>(self) -> (builder: Self)
        ensures
            exists|name: Seq<char>| builder@ == #[trigger] self@.with_table(name),
    {
        self.table_named(T::name())
    }

    /// Adds the table `name` to the database. A name that was added before
    /// is not added again.
    pub fn table_named(self, name: &str) -> (builder: Self)
        ensures
            builder@ == self@.with_table(name@),
            builder@.tables.no_duplicates(),
    {
        proof {
            use_type_invariant(&self);
        }
        let name = name.to_owned();
        if holds_name(&self.tables, &name) {
            self
        } else {
            let mut tables = self.tables;
            let ghost before = tables.deep_view();
            tables.push(name);
            assert(tables.deep_view() =~= before.push(name@));
            DatabaseBuilder { params: self.params, pass: self.pass, path: self.path, tables }
        }
    }

    /// Starts the build of the database.
    ///
    /// Where a password was given, a salt is drawn here, for the case that
    /// the database turns out to be new. The first step is the one that
    /// [`begin_build`] gives for the builder and for what was drawn.
    pub fn build(self) -> (step: BuildStep)
        ensures
            exists|salt: Option<Seq<u8>>| step@ == #[trigger] begin_build(self@, salt),
            self@.pass is None ==> step@ == begin_build(self@, None),
    {
        let salt = if self.pass.is_some() {
            match generate_salt() {
                Ok(salt) => Some(salt),
                Err(_) => None,
            }
        } else {
            None
        };
        self.build_with(salt)
    }

    /// Starts the build of the database with the given salt at hand: see
    /// [`begin_build`]. The salt is used only where a password was given and
    /// the database is new; a missing salt then stands for a random source
    /// that failed.
    pub fn build_with(self, salt: Option<[u8; 16]>) -> (step: BuildStep)
        ensures
            step@ == begin_build(
                self@,
                match salt {
                    Some(bytes) => Some(bytes@),
                    None => None,
                },
            ),
            self@.tables.no_duplicates(),
    {
        proof {
            use_type_invariant(&self);
        }
        match self.path {
            None => BuildStep::Done(Err(BuildError::Database(DBError::NoDatabasePath))),
            Some(path) => {
                let salt = if self.pass.is_some() {
                    salt
                } else {
                    None
                };
                let build = Build {
                    stage: BuildStage::InspectingRoot,
                    path,
                    params: self.params,
                    pass: self.pass,
                    tables: self.tables,
                    salt,
                    key: None,
                };
                BuildStep::Ask(build, Action::InspectRoot)
            },
        }
    }
}

/// How far a build has come: the action whose outcome it waits for.
#[derive(Debug, Clone, Copy, PartialEq, Eq)]
pub enum BuildStage {
    /// Waits to hear what is at the root.
    InspectingRoot,
    /// Waits for the root directory.
    CreatingRoot,
    /// Waits for the coordination file, in order to read the metadata.
    OpeningToRead,
    /// Waits for the shared lock.
    LockingToRead,
    /// Waits for the metadata.
    ReadingMetadata,
    /// Waits for the coordination file, in order to write the metadata.
    OpeningToWrite,
    /// Waits for the exclusive lock.
    LockingToWrite,
    /// Waits for the metadata to be written.
    WritingMetadata,
    /// Waits for the directories of the tables.
    CreatingTables,
}

/// A build under way.
#[derive(Debug)]
pub struct Build {
    stage: BuildStage,
    path: String,
    params: Option<ArgonParams>,
    pass: Option<String>,
    tables: Vec<String>,
    salt: Option<[u8; 16]>,
    key: Option<Vec<u8>>,
}

/// What a [`Build`] is in contracts.
pub struct BuildView {
    /// What the build waits for
    pub stage: BuildStage,
    /// The path of the root directory
    pub path: Seq<char>,
    /// The cost parameters that were given
    pub params: Option<ArgonParams>,
    /// The password that was given
    pub pass: Option<Seq<char>>,
    /// The tables whose directories are to exist: the declared ones, until
    /// metadata is adopted, and the adopted ones from then on
    pub tables: Seq<Seq<char>>,
    /// The salt that was drawn for fresh metadata
    pub salt: Option<Seq<u8>>,
    /// The key that was derived
    pub key: Option<Seq<u8>>,
}

/// One step of a build.
#[derive(Debug)]
pub enum BuildStep {
    /// The build asks for this action and goes on once it is answered.
    Ask(Build, Action),
    /// The build is over, with this result.
    Done(Result<Database, BuildError>),
}

/// What a [`BuildStep`] is in contracts.
pub enum BuildStepView {
    Ask(BuildView, ActionView),
    Done(Result<DatabaseView, BuildErrorView>),
}

impl View for BuildStep {
    type V = BuildStepView;

    open spec fn view(&self) -> BuildStepView {
        match self {
            BuildStep::Ask(build, action) => BuildStepView::Ask(build@, action@),
            BuildStep::Done(Ok(database)) => BuildStepView::Done(Ok(database@)),
            BuildStep::Done(Err(error)) => BuildStepView::Done(Err(error@)),
        }
    }
}

/// The key of a handle that is opened with `pass` on metadata with these
/// cost parameters and this salt: derived where both a password and a salt
/// are there, and none otherwise.
pub open spec fn handle_key(
    params: Option<ArgonParams>,
    pass: Option<Seq<char>>,
    salt: Option<Seq<u8>>,
) -> Result<Option<Seq<u8>>, UtilsErrorView> {
    match (pass, salt) {
        (Some(pass), Some(salt)) => match spec_derive_key(params, encode_utf8(pass), salt) {
            Ok(key) => Ok(Some(key)),
            Err(error) => Err(error),
        },
        _ => Ok(None),
    }
}

/// The first step of a build: without a path it fails at once, and
/// otherwise it looks at the root. A salt is kept only where a password was
/// given.
pub open spec fn begin_build(builder: DatabaseBuilderView, salt: Option<Seq<u8>>) -> BuildStepView {
    match builder.path {
        None => BuildStepView::Done(Err(BuildErrorView::Database(DBErrorView::NoDatabasePath))),
        Some(path) => BuildStepView::Ask(
            BuildView {
                stage: BuildStage::InspectingRoot,
                path,
                params: builder.params,
                pass: builder.pass,
                tables: builder.tables,
                salt: if builder.pass is Some {
                    salt
                } else {
                    None
                },
                key: None,
            },
            ActionView::InspectRoot,
        ),
    }
}

impl BuildView {
    /// The same build at another stage.
    pub open spec fn at(self, stage: BuildStage) -> BuildView {
        BuildView { stage, ..self }
    }

    /// Whether the build is in a state that [`DatabaseBuilder::build_with`]
    /// and [`Build::advance`] can produce.
    pub open spec fn wf(self) -> bool {
        self.stage is CreatingTables ==> self.tables.len() > 0
    }

    /// A failure of the engine.
    pub open spec fn fail(error: DBErrorView) -> BuildStepView {
        BuildStepView::Done(Err(BuildErrorView::Database(error)))
    }

    /// The handle that the build ends with.
    pub open spec fn handle(self) -> DatabaseView {
        DatabaseView { derived_key: self.key, path: self.path }
    }

    /// The metadata of a new database: the parameters as given, the salt
    /// that was drawn, and the declared tables.
    pub open spec fn fresh_metadata(self) -> MetadataView {
        MetadataView { params: self.params, salt: self.salt, tables: self.tables }
    }

    /// What follows once the metadata is settled: the directories of its
    /// tables are created, at once; where it names none, the build is over.
    pub open spec fn provision(self) -> BuildStepView {
        if self.tables.len() == 0 {
            BuildStepView::Done(Ok(self.handle()))
        } else {
            BuildStepView::Ask(
                self.at(BuildStage::CreatingTables),
                ActionView::CreateTableDirs(self.tables),
            )
        }
    }

    /// What follows where the database has metadata already. The metadata is
    /// adopted as it is: its tables take the place of the declared ones,
    /// nothing is written, and the key is derived from its parameters and
    /// its salt.
    pub open spec fn adopt(self, metadata: MetadataView) -> BuildStepView {
        match handle_key(metadata.params, self.pass, metadata.salt) {
            Err(error) => BuildStepView::Done(Err(BuildErrorView::Utils(error))),
            Ok(key) => (BuildView { tables: metadata.tables, key, ..self }).provision(),
        }
    }

    /// What follows where the database has no metadata yet. With a password,
    /// the salt must have been drawn and the key is derived with it; then
    /// the coordination file is opened anew, for the exclusive lock.
    pub open spec fn create(self) -> BuildStepView {
        if self.pass is Some && self.salt is None {
            BuildStepView::Done(Err(BuildErrorView::Utils(UtilsErrorView::FailedToGenerateSalt)))
        } else {
            match handle_key(self.params, self.pass, self.salt) {
                Err(error) => BuildStepView::Done(Err(BuildErrorView::Utils(error))),
                Ok(key) => BuildStepView::Ask(
                    (BuildView { key, ..self }).at(BuildStage::OpeningToWrite),
                    ActionView::OpenLock,
                ),
            }
        }
    }

    /// The step that follows when the action that the build waits for comes
    /// back with `event`.
    ///
    /// A root that is missing or an empty directory is taken; one that is
    /// occupied is refused. An action counts as done only on
    /// [`EventView::Done`]. Whatever goes wrong while the metadata is read,
    /// the coordination file and the lock included, is a failure to read the
    /// metadata, and likewise for writing it. Where the tables' directories
    /// could not all be created, the error names the table at the index that
    /// the event gives, and the first table where the event gives none of
    /// the batch.
    pub open spec fn next(self, event: EventView) -> BuildStepView {
        match self.stage {
            BuildStage::InspectingRoot => match event {
                EventView::Missing | EventView::Present => if self.tables.len() == 0 {
                    Self::fail(DBErrorView::NoTables)
                } else {
                    BuildStepView::Ask(
                        self.at(BuildStage::CreatingRoot),
                        ActionView::CreateDir(LocationView::Root),
                    )
                },
                EventView::Occupied => Self::fail(DBErrorView::FolderExists(LocationView::Root)),
                _ => BuildStepView::Done(
                    Err(BuildErrorView::Utils(UtilsErrorView::FailedToReadDir(self.path))),
                ),
            },
            BuildStage::CreatingRoot => if event is Done {
                BuildStepView::Ask(self.at(BuildStage::OpeningToRead), ActionView::OpenLock)
            } else {
                Self::fail(DBErrorView::FailedToCreateDatabase(LocationView::Root))
            },
            BuildStage::OpeningToRead => if event is Done {
                BuildStepView::Ask(
                    self.at(BuildStage::LockingToRead),
                    ActionView::Lock(LockMode::Shared),
                )
            } else {
                Self::fail(DBErrorView::FailedToReadMetadata)
            },
            BuildStage::LockingToRead => if event is Done {
                BuildStepView::Ask(self.at(BuildStage::ReadingMetadata), ActionView::ReadMetadata)
            } else {
                Self::fail(DBErrorView::FailedToReadMetadata)
            },
            BuildStage::ReadingMetadata => match event {
                EventView::Metadata(metadata) => self.adopt(metadata),
                EventView::Missing => self.create(),
                _ => Self::fail(DBErrorView::FailedToReadMetadata),
            },
            BuildStage::OpeningToWrite => if event is Done {
                BuildStepView::Ask(
                    self.at(BuildStage::LockingToWrite),
                    ActionView::Lock(LockMode::Exclusive),
                )
            } else {
                Self::fail(DBErrorView::FailedToWriteMetadata)
            },
            BuildStage::LockingToWrite => if event is Done {
                BuildStepView::Ask(
                    self.at(BuildStage::WritingMetadata),
                    ActionView::WriteMetadata(self.fresh_metadata()),
                )
            } else {
                Self::fail(DBErrorView::FailedToWriteMetadata)
            },
            BuildStage::WritingMetadata => if event is Done {
                self.provision()
            } else {
                Self::fail(DBErrorView::FailedToWriteMetadata)
            },
            BuildStage::CreatingTables => match event {
                EventView::Done => BuildStepView::Done(Ok(self.handle())),
                EventView::FailedAt(i) => Self::fail(
                    DBErrorView::FailedToCreateTableDir(
                        LocationView::TableDir(
                            self.tables[if i < self.tables.len() {
                                i as int
                            } else {
                                0
                            }],
                        ),
                    ),
                ),
                _ => Self::fail(
                    DBErrorView::FailedToCreateTableDir(LocationView::TableDir(self.tables[0])),
                ),
            },
        }
    }

    /// A bound on the number of actions that the build may still ask for.
    pub open spec fn rank(self) -> nat {
        match self.stage {
            BuildStage::InspectingRoot => 9,
            BuildStage::CreatingRoot => 8,
            BuildStage::OpeningToRead => 7,
            BuildStage::LockingToRead => 6,
            BuildStage::ReadingMetadata => 5,
            BuildStage::OpeningToWrite => 4,
            BuildStage::LockingToWrite => 3,
            BuildStage::WritingMetadata => 2,
            BuildStage::CreatingTables => 1,
        }
    }
}

impl View for Build {
    type V = BuildView;

    closed spec fn view(&self) -> BuildView {
        BuildView {
            stage: self.stage,
            path: self.path@,
            params: self.params,
            pass: match self.pass {
                Some(pass) => Some(pass@),
                None => None,
            },
            tables: self.tables.deep_view(),
            salt: match self.salt {
                Some(salt) => Some(salt@),
                None => None,
            },
            key: match self.key {
                Some(key) => Some(key@),
                None => None,
            },
        }
    }
}

/// Derives the key of the handle: see [`handle_key`].
fn derive_handle_key(
    params: Option<ArgonParams>,
    pass: &Option<String>,
    salt: &Option<[u8; 16]>,
) -> (key: Result<Option<Vec<u8>>, UtilsError>)
    ensures
        handle_key(
            params,
            match *pass {
                Some(pass) => Some(pass@),
                None => None,
            },
            match *salt {
                Some(salt) => Some(salt@),
                None => None,
            },
        ) == match key {
            Ok(Some(key)) => Ok::<Option<Seq<u8>>, UtilsErrorView>(Some(key@)),
            Ok(None) => Ok(None),
            Err(error) => Err(error@),
        },
{
    match (pass, salt) {
        (Some(pass), Some(salt)) => {
            match derive_key(params, pass.as_str().as_bytes(), salt.as_slice()) {
                Ok(key) => Ok(Some(key)),
                Err(error) => Err(error),
            }
        },
        _ => Ok(None),
    }
}

impl Build {
    #[verifier::type_invariant]
    spec fn inv(self) -> bool {
        self@.wf()
    }

    /// A failure of the engine.
    fn fail(error: DBError) -> (step: BuildStep)
        ensures
            step@ == BuildView::fail(error@),
    {
        BuildStep::Done(Err(BuildError::Database(error)))
    }

    /// The same build at another stage.
    fn at(self, stage: BuildStage) -> (build: Build)
        requires
            self@.at(stage).wf(),
        ensures
            build@ == self@.at(stage),
    {
        Build {
            stage,
            path: self.path,
            params: self.params,
            pass: self.pass,
            tables: self.tables,
            salt: self.salt,
            key: self.key,
        }
    }

    /// Ends the build with the handle.
    fn finish(self) -> (step: BuildStep)
        ensures
            step@ == BuildStepView::Done(Ok(self@.handle())),
    {
        BuildStep::Done(Ok(Database::open(self.path, self.key)))
    }

    /// Goes on to the tables' directories: see [`BuildView::provision`].
    fn provision(self) -> (step: BuildStep)
        ensures
            step@ == self@.provision(),
    {
        if self.tables.len() == 0 {
            self.finish()
        } else {
            let tables = copy_names(&self.tables);
            BuildStep::Ask(self.at(BuildStage::CreatingTables), Action::CreateTableDirs(tables))
        }
    }

    /// Goes on with the metadata that was found: see [`BuildView::adopt`].
    fn adopt(self, metadata: Metadata) -> (step: BuildStep)
        requires
            !(self@.stage is CreatingTables),
        ensures
            step@ == self@.adopt(metadata@),
    {
        match derive_handle_key(metadata.params, &self.pass, &metadata.salt) {
            Err(error) => BuildStep::Done(Err(BuildError::Utils(error))),
            Ok(key) => {
                let build = Build {
                    stage: self.stage,
                    path: self.path,
                    params: self.params,
                    pass: self.pass,
                    tables: metadata.tables,
                    salt: self.salt,
                    key,
                };
                build.provision()
            },
        }
    }

    /// Goes on without metadata: see [`BuildView::create`].
    fn create(self) -> (step: BuildStep)
        requires
            !(self@.stage is CreatingTables),
        ensures
            step@ == self@.create(),
    {
        if self.pass.is_some() && self.salt.is_none() {
            return BuildStep::Done(Err(BuildError::Utils(UtilsError::FailedToGenerateSalt)));
        }
        match derive_handle_key(self.params, &self.pass, &self.salt) {
            Err(error) => BuildStep::Done(Err(BuildError::Utils(error))),
            Ok(key) => {
                let build = Build {
                    stage: BuildStage::OpeningToWrite,
                    path: self.path,
                    params: self.params,
                    pass: self.pass,
                    tables: self.tables,
                    salt: self.salt,
                    key,
                };
                BuildStep::Ask(build, Action::OpenLock)
            },
        }
    }

    /// The metadata of a new database: see [`BuildView::fresh_metadata`].
    fn fresh_metadata(&self) -> (metadata: Metadata)
        ensures
            metadata@ == self@.fresh_metadata(),
    {
        Metadata { params: self.params, salt: self.salt, tables: copy_names(&self.tables) }
    }

    /// Takes the outcome of the action that the build asked for and gives
    /// the step that follows: see [`BuildView::next`].
    pub fn advance(self, event: Event) -> (step: BuildStep)
        ensures
            step@ == self@.next(event@),
    {
        proof {
            use_type_invariant(&self);
        }
        let done = match event {
            Event::Done => true,
            _ => false,
        };
        match self.stage {
            BuildStage::InspectingRoot => {
                match event {
                    Event::Missing | Event::Present => {
                        if self.tables.len() == 0 {
                            Self::fail(DBError::NoTables)
                        } else {
                            BuildStep::Ask(
                                self.at(BuildStage::CreatingRoot),
                                Action::CreateDir(Location::Root),
                            )
                        }
                    },
                    Event::Occupied => Self::fail(DBError::FolderExists(Location::Root)),
                    _ => BuildStep::Done(
                        Err(BuildError::Utils(UtilsError::FailedToReadDir(self.path))),
                    ),
                }
            },
            BuildStage::CreatingRoot => {
                if done {
                    BuildStep::Ask(self.at(BuildStage::OpeningToRead), Action::OpenLock)
                } else {
                    Self::fail(DBError::FailedToCreateDatabase(Location::Root))
                }
            },
            BuildStage::OpeningToRead => {
                if done {
                    BuildStep::Ask(
                        self.at(BuildStage::LockingToRead),
                        Action::Lock(LockMode::Shared),
                    )
                } else {
                    Self::fail(DBError::FailedToReadMetadata)
                }
            },
            BuildStage::LockingToRead => {
                if done {
                    BuildStep::Ask(self.at(BuildStage::ReadingMetadata), Action::ReadMetadata)
                } else {
                    Self::fail(DBError::FailedToReadMetadata)
                }
            },
            BuildStage::ReadingMetadata => {
                match event {
                    Event::Metadata(metadata) => self.adopt(metadata),
                    Event::Missing => self.create(),
                    _ => Self::fail(DBError::FailedToReadMetadata),
                }
            },
            BuildStage::OpeningToWrite => {
                if done {
                    BuildStep::Ask(
                        self.at(BuildStage::LockingToWrite),
                        Action::Lock(LockMode::Exclusive),
                    )
                } else {
                    Self::fail(DBError::FailedToWriteMetadata)
                }
            },
            BuildStage::LockingToWrite => {
                if done {
                    let metadata = self.fresh_metadata();
                    BuildStep::Ask(
                        self.at(BuildStage::WritingMetadata),
                        Action::WriteMetadata(metadata),
                    )
                } else {
                    Self::fail(DBError::FailedToWriteMetadata)
                }
            },
            BuildStage::WritingMetadata => {
                if done {
                    self.provision()
                } else {
                    Self::fail(DBError::FailedToWriteMetadata)
                }
            },
            BuildStage::CreatingTables => {
                match event {
                    Event::Done => self.finish(),
                    Event::FailedAt(i) => {
                        let at: usize = if i < self.tables.len() {
                            i
                        } else {
                            0
                        };
                        Self::fail(
                            DBError::FailedToCreateTableDir(
                                Location::TableDir(self.tables[at].clone()),
                            ),
                        )
                    },
                    _ => Self::fail(
                        DBError::FailedToCreateTableDir(Location::TableDir(self.tables[0].clone())),
                    ),
                }
            },
        }
    }
}

} // verus!
