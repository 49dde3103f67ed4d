//! Messages that the application's views send each other.
use vstd::prelude::*;

use std::path::PathBuf;

verus! {

/// A file system path, carried as it is.
#[verifier::external_type_specification]
#[verifier::external_body]
pub struct ExPathBuf(PathBuf);

/// A new schema was created; it travels serialized as JSON.
#[derive(Debug, Clone, PartialEq, Eq)]
pub struct SchemaCreatedAction {
    pub schema_json: String,
}

/// A file was selected to be opened.
#[derive(Debug, PartialEq, Eq)]
pub struct FileOpenedAction {
    pub path: PathBuf,
}

/// A file was selected to save to.
#[derive(Debug, PartialEq, Eq)]
pub struct FileSavedAction {
    pub path: PathBuf,
}

} // verus!
