//! The error taxonomy of the runtime. Identifier, ownership and permission
//! failures are local and returned to the immediate caller; store failures
//! wrap the underlying persistence error verbatim.

use vstd::prelude::*;

verus! {

/// A required manifest field that was found missing or empty.
#[derive(Debug, Clone, PartialEq, Eq)]
pub enum ManifestField {
    Name,
    Version,
    Repository,
    CrateName,
    LibraryName,
    EntryPoint,
}

/// Everything the runtime can fail with.
#[derive(Debug, Clone, PartialEq, Eq)]
pub enum Error {
    /// A table, column, order-by or aggregation name failed validation.
    InvalidIdentifier,
    /// An insert was left with no valid column after filtering.
    NoValidColumns,
    /// The store's catalog shows no columns for the table.
    TableNotFound,
    /// The acting plugin does not own the table.
    TableNotOwned,
    /// The owner has not declared the table as exposed.
    TableNotExposed,
    /// The requester is not in the allowed list of an exposed table.
    PermissionDenied,
    /// A `CreateTable` names a table already owned by a different plugin.
    OwnershipConflict,
    /// A plugin with this id is already registered in the runtime.
    AlreadyRegistered,
    /// No plugin with this id is registered in the runtime.
    PluginNotFound,
    /// The plugin does not recognize the invoked command.
    CommandNotFound,
    /// A required parameter is missing or has the wrong shape.
    BadParams,
    /// A required manifest field is missing or empty.
    ManifestInvalid(ManifestField),
    /// The manifest file is not well-formed; carries the parser's message.
    ManifestSyntax(String),
    /// The archive is neither a ZIP nor a gzipped tar.
    ArchiveFormatUnsupported,
    /// An archive entry would resolve outside the destination directory.
    ArchivePathEscape,
    /// The native library could not be opened.
    LibraryLoadFailed,
    /// The creation entry point could not be resolved.
    SymbolResolutionFailed,
    /// The creation entry point returned an empty handle.
    NullPluginHandle,
    /// The store cannot apply this kind of schema change (SQLite cannot add
    /// a foreign key to an existing table).
    UnsupportedSchemaChange,
    /// The requested lifecycle step does not exist from the plugin's
    /// current state.
    InvalidLifecycleStep,
    /// The underlying store failed; carries its message verbatim.
    StoreFailure(String),
}

impl Error {
    /// A human-readable account of the error.
    pub fn message(&self) -> String {
        match self {
            Error::InvalidIdentifier => "invalid identifier".to_owned(),
            Error::NoValidColumns => "no valid columns provided".to_owned(),
            Error::TableNotFound => "table has no columns".to_owned(),
            Error::TableNotOwned => "plugin does not own the table".to_owned(),
            Error::TableNotExposed => "table is not exposed".to_owned(),
            Error::PermissionDenied => "permission denied".to_owned(),
            Error::OwnershipConflict => "table is already owned by another plugin".to_owned(),
            Error::AlreadyRegistered => "plugin is already registered".to_owned(),
            Error::PluginNotFound => "plugin not found".to_owned(),
            Error::CommandNotFound => "unknown command".to_owned(),
            Error::BadParams => "missing or malformed parameters".to_owned(),
            Error::ManifestInvalid(_) => "a required manifest field is missing or empty".to_owned(),
            Error::ManifestSyntax(m) => m.clone(),
            Error::ArchiveFormatUnsupported => "unsupported archive format".to_owned(),
            Error::ArchivePathEscape => "archive entry escapes the destination directory".to_owned(),
            Error::LibraryLoadFailed => "failed to load plugin library".to_owned(),
            Error::SymbolResolutionFailed => "failed to resolve the plugin entry point".to_owned(),
            Error::NullPluginHandle => "plugin creation returned an empty handle".to_owned(),
            Error::UnsupportedSchemaChange => "the store cannot apply this schema change".to_owned(),
            Error::InvalidLifecycleStep => "the lifecycle step is not valid from this state".to_owned(),
            Error::StoreFailure(m) => m.clone(),
        }
    }
}

} // verus!
