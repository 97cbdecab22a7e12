//! The errors of the engine and of its utilities.

use crate::layout::{Location, LocationView};
use vstd::prelude::*;

verus! {

/// Represents errors that can occur when using the database's methods
#[derive(Debug, Clone, PartialEq, Eq)]
pub enum DBError {
    /// Failed to create database
    FailedToCreateDatabase(Location),
    /// Failed to create table
    FailedToCreateTableDir(Location),
    /// Failed to deserialize file
    FailedToDeserializeFile(Location),
    /// Failed to take the coordination lock
    FailedToLockFile(Location),
    /// Failed to open the coordination file
    FailedToOpenLockFile(Location),
    /// Failed to read metadata
    FailedToReadMetadata,
    /// Failed to remove/delete file
    FailedToRemoveFile(Location),
    /// Failed to serialize file
    FailedToSerializeFile(Location),
    /// Failed to serialize metadata
    FailedToSerializeMetadata,
    /// Failed to write file
    FailedToWriteFile(Location),
    /// Failed to write metadata
    FailedToWriteMetadata,
    /// File does not exist
    FileDoesNotExist(Location),
    /// Folder already exists
    FolderExists(Location),
    /// Referenced record does not exist
    ForeignKeyViolation {
        /// The field name
        field: String,
        /// The referenced table
        table: String,
        /// The ID of the referenced record
        id: String,
    },
    /// Invalid foreign key
    InvalidForeignKey {
        /// The field name
        field: String,
        /// The referenced table
        table: String,
        /// The ID of the referenced record
        id: String,
    },
    /// Invalid primary key
    InvalidKey(String),
    /// No path was provided for the database
    NoDatabasePath,
    /// Metadata not found
    NoMetadata,
    /// No tables were found in the database
    NoTables,
    /// Record already exists
    RecordAlreadyExists {
        /// The table name
        table: String,
        /// The ID of the record
        id: String,
    },
    /// Record not found
    RecordNotFound {
        /// The table name
        table: String,
        /// The ID of the record
        id: String,
    },
}

/// What a [`DBError`] is in contracts.
pub enum DBErrorView {
    FailedToCreateDatabase(LocationView),
    FailedToCreateTableDir(LocationView),
    FailedToDeserializeFile(LocationView),
    FailedToLockFile(LocationView),
    FailedToOpenLockFile(LocationView),
    FailedToReadMetadata,
    FailedToRemoveFile(LocationView),
    FailedToSerializeFile(LocationView),
    FailedToSerializeMetadata,
    FailedToWriteFile(LocationView),
    FailedToWriteMetadata,
    FileDoesNotExist(LocationView),
    FolderExists(LocationView),
    ForeignKeyViolation { field: Seq<char>, table: Seq<char>, id: Seq<char> },
    InvalidForeignKey { field: Seq<char>, table: Seq<char>, id: Seq<char> },
    InvalidKey(Seq<char>),
    NoDatabasePath,
    NoMetadata,
    NoTables,
    RecordAlreadyExists { table: Seq<char>, id: Seq<char> },
    RecordNotFound { table: Seq<char>, id: Seq<char> },
}

impl View for DBError {
    type V = DBErrorView;

    open spec fn view(&self) -> DBErrorView {
        match self {
            DBError::FailedToCreateDatabase(l) => DBErrorView::FailedToCreateDatabase(l@),
            DBError::FailedToCreateTableDir(l) => DBErrorView::FailedToCreateTableDir(l@),
            DBError::FailedToDeserializeFile(l) => DBErrorView::FailedToDeserializeFile(l@),
            DBError::FailedToLockFile(l) => DBErrorView::FailedToLockFile(l@),
            DBError::FailedToOpenLockFile(l) => DBErrorView::FailedToOpenLockFile(l@),
            DBError::FailedToReadMetadata => DBErrorView::FailedToReadMetadata,
            DBError::FailedToRemoveFile(l) => DBErrorView::FailedToRemoveFile(l@),
            DBError::FailedToSerializeFile(l) => DBErrorView::FailedToSerializeFile(l@),
            DBError::FailedToSerializeMetadata => DBErrorView::FailedToSerializeMetadata,
            DBError::FailedToWriteFile(l) => DBErrorView::FailedToWriteFile(l@),
            DBError::FailedToWriteMetadata => DBErrorView::FailedToWriteMetadata,
            DBError::FileDoesNotExist(l) => DBErrorView::FileDoesNotExist(l@),
            DBError::FolderExists(l) => DBErrorView::FolderExists(l@),
            DBError::ForeignKeyViolation { field, table, id } => DBErrorView::ForeignKeyViolation {
                field: field@,
                table: table@,
                id: id@,
            },
            DBError::InvalidForeignKey { field, table, id } => DBErrorView::InvalidForeignKey {
                field: field@,
                table: table@,
                id: id@,
            },
            DBError::InvalidKey(id) => DBErrorView::InvalidKey(id@),
            DBError::NoDatabasePath => DBErrorView::NoDatabasePath,
            DBError::NoMetadata => DBErrorView::NoMetadata,
            DBError::NoTables => DBErrorView::NoTables,
            DBError::RecordAlreadyExists { table, id } => DBErrorView::RecordAlreadyExists {
                table: table@,
                id: id@,
            },
            DBError::RecordNotFound { table, id } => DBErrorView::RecordNotFound {
                table: table@,
                id: id@,
            },
        }
    }
}

/// Represents errors that can occur when using the utility functions
#[derive(Debug, Clone, PartialEq, Eq)]
pub enum UtilsError {
    /// The Argon2 cost parameters were refused
    FailedToCreateParams,
    /// Failed to create temporary file
    FailedToCreateTempFile,
    /// Failed to derive key
    FailedToDeriveKey,
    /// Failed to deserialize data
    FailedToDeserializeData(Vec<u8>),
    /// Failed to encode salt
    FailedToEncodeSalt(Vec<u8>),
    /// Failed to flush temporary file
    FailedToFlushTempFile(String),
    /// Failed to generate salt
    FailedToGenerateSalt,
    /// Failed to get temporary file from writer
    FailedToGetInnerWriter,
    /// Failed to hash password
    FailedToHashPassword,
    /// Failed to open file
    FailedToOpenFile(String),
    /// Failed to parse PHC string
    FailedToParsePHCString(String),
    /// Failed to persist temporary file
    FailedToPersistTempFile {
        /// The temporary file
        temp: String,
        /// The file that it was to replace
        orig: String,
    },
    /// Failed to read directory
    FailedToReadDir(String),
    /// Failed to read file
    FailedToReadFile(String),
    /// Failed to reopen temporary file
    FailedToReopenTempFile(String),
    /// Failed to serialize value
    FailedToSerializeValue,
    /// Failed to write file
    FailedToWriteTempFile(String),
}

/// What a [`UtilsError`] is in contracts.
pub enum UtilsErrorView {
    FailedToCreateParams,
    FailedToCreateTempFile,
    FailedToDeriveKey,
    FailedToDeserializeData(Seq<u8>),
    FailedToEncodeSalt(Seq<u8>),
    FailedToFlushTempFile(Seq<char>),
    FailedToGenerateSalt,
    FailedToGetInnerWriter,
    FailedToHashPassword,
    FailedToOpenFile(Seq<char>),
    FailedToParsePHCString(Seq<char>),
    FailedToPersistTempFile { temp: Seq<char>, orig: Seq<char> },
    FailedToReadDir(Seq<char>),
    FailedToReadFile(Seq<char>),
    FailedToReopenTempFile(Seq<char>),
    FailedToSerializeValue,
    FailedToWriteTempFile(Seq<char>),
}

impl View for UtilsError {
    type V = UtilsErrorView;

    open spec fn view(&self) -> UtilsErrorView {
        match self {
            UtilsError::FailedToCreateParams => UtilsErrorView::FailedToCreateParams,
            UtilsError::FailedToCreateTempFile => UtilsErrorView::FailedToCreateTempFile,
            UtilsError::FailedToDeriveKey => UtilsErrorView::FailedToDeriveKey,
            UtilsError::FailedToDeserializeData(d) => UtilsErrorView::FailedToDeserializeData(d@),
            UtilsError::FailedToEncodeSalt(s) => UtilsErrorView::FailedToEncodeSalt(s@),
            UtilsError::FailedToFlushTempFile(p) => UtilsErrorView::FailedToFlushTempFile(p@),
            UtilsError::FailedToGenerateSalt => UtilsErrorView::FailedToGenerateSalt,
            UtilsError::FailedToGetInnerWriter => UtilsErrorView::FailedToGetInnerWriter,
            UtilsError::FailedToHashPassword => UtilsErrorView::FailedToHashPassword,
            UtilsError::FailedToOpenFile(p) => UtilsErrorView::FailedToOpenFile(p@),
            UtilsError::FailedToParsePHCString(s) => UtilsErrorView::FailedToParsePHCString(s@),
            UtilsError::FailedToPersistTempFile { temp, orig } => {
                UtilsErrorView::FailedToPersistTempFile { temp: temp@, orig: orig@ }
            },
            UtilsError::FailedToReadDir(p) => UtilsErrorView::FailedToReadDir(p@),
            UtilsError::FailedToReadFile(p) => UtilsErrorView::FailedToReadFile(p@),
            UtilsError::FailedToReopenTempFile(p) => UtilsErrorView::FailedToReopenTempFile(p@),
            UtilsError::FailedToSerializeValue => UtilsErrorView::FailedToSerializeValue,
            UtilsError::FailedToWriteTempFile(p) => UtilsErrorView::FailedToWriteTempFile(p@),
        }
    }
}

/// The errors that are shared between the engine and its tools
#[derive(Debug, Clone, PartialEq, Eq)]
pub enum MiniDBError {
    /// Failed to deserialize file
    FailedToDeserializeFile(String),
    /// Failed to remove/delete file
    FailedToRemoveFile(String),
    /// Failed to write file
    FailedToWriteFile(String),
    /// File does not exist
    FileDoesNotExist(String),
    /// Invalid primary key
    InvalidKey(String),
    /// Record not found
    RecordNotFound {
        /// The table name
        table: String,
        /// The ID of the record
        id: String,
    },
}

} // verus!
