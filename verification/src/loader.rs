//! Loading a typed configuration value from a JSON file.
//!
//! Reading the file is the caller's part: it reports what the filesystem
//! gave as a [`FileRead`]. What becomes of that report is decided here.

use crate::decode::{DecodeError, DecodeFault, JsonDecode};
use std::path::PathBuf;
use vstd::prelude::*;

verus! {

/// `std::path::PathBuf`. A path is carried from the caller into the error
/// and never looked into.
#[verifier::external_type_specification]
#[verifier::external_body]
pub struct ExPathBuf(PathBuf);

/// What came of opening a file and reading it to its end.
#[derive(Clone, Debug, PartialEq, Eq)]
pub enum FileRead {
    /// The file could not be opened.
    Unopened,
    /// The file was opened, and reading it failed before its end.
    Interrupted,
    /// The whole content of the file.
    Contents(Vec<u8>),
}

/// Why no configuration value could be loaded. Either way the error carries
/// the path that was asked for.
#[derive(Debug, PartialEq, Eq)]
pub enum ConfigError {
    /// The file could not be opened.
    ReadFileError { path: PathBuf },
    /// The file was opened and does not hold a document of the type asked
    /// for.
    JsonParseError { path: PathBuf, cause: DecodeError },
}

/// The mathematical reading of a [`ConfigError`].
pub enum ConfigFault {
    ReadFileError { path: PathBuf },
    JsonParseError { path: PathBuf, cause: DecodeFault },
}

impl View for ConfigError {
    type V = ConfigFault;

    open spec fn view(&self) -> ConfigFault {
        match self {
            ConfigError::ReadFileError { path } => ConfigFault::ReadFileError { path: *path },
            ConfigError::JsonParseError { path, cause } => ConfigFault::JsonParseError {
                path: *path,
                cause: cause@,
            },
        }
    }
}

/// What loading gives for a path and a report of the filesystem: a file
/// that did not open is a read error, never a parse error; a file that
/// opened gives what its content decodes to, and every fault of the content
/// is a parse error with that fault as its cause.
pub open spec fn loaded<T: JsonDecode>(path: PathBuf, file: FileRead) -> Result<T::V, ConfigFault> {
    match file {
        FileRead::Unopened => Err(ConfigFault::ReadFileError { path }),
        FileRead::Interrupted => Err(
            ConfigFault::JsonParseError { path, cause: DecodeFault::Interrupted },
        ),
        FileRead::Contents(document) => match T::decoded(document@) {
            Ok(value) => Ok(value),
            Err(cause) => Err(ConfigFault::JsonParseError { path, cause }),
        },
    }
}

/// Loads a value of type `T` from what was read of the file at `path`.
pub fn read_json_file<T: JsonDecode>(path: PathBuf, file: FileRead) -> (res: Result<T, ConfigError>)
    ensures
        match res {
            Ok(value) => loaded::<T>(path, file) == Ok::<T::V, ConfigFault>(value@),
            Err(e) => loaded::<T>(path, file) == Err::<T::V, ConfigFault>(e@),
        },
{
    match file {
        FileRead::Unopened => Err(ConfigError::ReadFileError { path }),
        FileRead::Interrupted => Err(
            ConfigError::JsonParseError { path, cause: DecodeError::Interrupted },
        ),
        FileRead::Contents(document) => match T::decode(document.as_slice()) {
            Ok(value) => Ok(value),
            Err(cause) => Err(ConfigError::JsonParseError { path, cause }),
        },
    }
}

/// A file that did not open gives a read error with the path that was
/// asked for, whatever type is loaded, and never a parse error.
pub proof fn lemma_unopened_is_read_error<T: JsonDecode>(path: PathBuf)
    ensures
        loaded::<T>(path, FileRead::Unopened) == Err::<T::V, ConfigFault>(
            ConfigFault::ReadFileError { path },
        ),
        !(loaded::<T>(path, FileRead::Unopened) matches Err(ConfigFault::JsonParseError { .. })),
{
}

/// A file that was read to its end gives the value that its content decodes
/// to; where the content decodes to none, it gives a parse error with the
/// path that was asked for and the fault of the content.
pub proof fn lemma_opened_follows_decoder<T: JsonDecode>(path: PathBuf, document: Vec<u8>)
    ensures
        T::decoded(document@) matches Ok(value) ==> loaded::<T>(path, FileRead::Contents(document))
            == Ok::<T::V, ConfigFault>(value),
        T::decoded(document@) matches Err(cause) ==> loaded::<T>(
            path,
            FileRead::Contents(document),
        ) == Err::<T::V, ConfigFault>(ConfigFault::JsonParseError { path, cause }),
{
}

} // verus!
