//! Error types returned by the registry operations.

use vstd::prelude::*;

verus! {

/// Broad classification of a request failure, as reported to the HTTP layer.
#[derive(Debug, PartialEq, Eq)]
pub enum ErrorKind {
    NotLoggedIn,
    ValidationError,
    GithubApiError,
    DatabaseError(String),
}

/// A user-facing error: what went wrong, what the caller can do about it.
#[derive(Debug, PartialEq, Eq)]
pub struct Error {
    pub kind: ErrorKind,
    pub action: String,
    pub message: String,
}

/// Represents an error that might happen when publishing a plugin.
#[derive(Debug, PartialEq, Eq)]
pub enum PublishError {
    /// Couldn't store the plugin in the database
    DatabaseError,
    /// A plugin with the same name already exists
    AlreadyExists,
    InvalidIcon,
    IoError,
}

/// Represents an error that might happen when creating a version.
#[derive(Debug, PartialEq, Eq)]
pub enum CreateVersionError {
    /// There was an error while trying to write the files
    IOError,
    /// The version already exists
    AlreadyExists,
    /// There is already a greater version
    LessThanLatestVersion,
    /// The plugin doesn't exist
    NonExistentPlugin,
    /// Couldn't store the plugin in the database
    DatabaseError,
    /// The version is not a valid semver
    InvalidSemVer,
}

/// Represents an error that might happen when yanking a version.
#[derive(Debug, PartialEq, Eq)]
pub enum YankVersionError {
    /// The version doesn't exist or was already yanked previously
    NonExistentOrAlreadyYanked,
    /// Couldn't store the plugin in the database
    DatabaseError,
}

/// Represents an error that might happen when unpublishing a plugin.
#[derive(Debug, PartialEq, Eq)]
pub enum UnpublishPluginError {
    /// There was an error while removing the plugin
    IOError,
    /// The plugin doesn't exist
    NonExistent,
    /// Couldn't store the plugin in the database
    DatabaseError,
}

/// Represents an error that might happen when fetching a stored resource.
#[derive(Debug, PartialEq, Eq)]
pub enum GetResourceError {
    NotFound,
    DatabaseError,
    DatabaseConnectionError,
    IoError,
}

} // verus!
