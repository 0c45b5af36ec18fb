//! The decisions of `save`, `load` and `load_or_default`.
//!
//! The caller performs the filesystem work and the encoding; these functions
//! say where to write, how each failure is reported, and what load-or-default
//! does with each outcome.
use vstd::prelude::*;
use crate::descriptor::{default_path_spec, ConfigDescriptor};
use crate::error::ConfigError;
use crate::format::ConfigFormat;
use crate::paths::{parent_dir, parent_spec};

verus! {

/// What reading the file at a configuration's path produced.
#[derive(Debug, Clone, PartialEq, Eq)]
pub enum ReadOutcome {
    /// No file exists at the path.
    Absent,
    /// The file exists but could not be read; carries the cause's text.
    Failed(String),
    /// The file's full contents.
    Contents(String),
}

/// The steps of a save, in the order they run.
#[derive(Debug, Clone, Copy, PartialEq, Eq, Structural)]
pub enum SaveStep {
    /// Creating the file's directory and its missing ancestors.
    CreateDir,
    /// Creating or truncating the file.
    CreateFile,
    /// Encoding the record in the chosen format.
    Encode,
    /// Writing the encoded text.
    Write,
}

/// Where and how a save writes.
#[derive(Debug, Clone, PartialEq, Eq)]
pub struct SavePlan {
    /// The directory to create first, if the path has one.
    pub dir: Option<String>,
    /// The file to create and write.
    pub path: String,
    /// The format to encode in.
    pub format: ConfigFormat,
}

/// The three ends of load-or-default.
#[derive(Debug, Clone, PartialEq, Eq)]
pub enum Recovery<T> {
    /// The file existed and decoded: use the value.
    Loaded(T),
    /// The file is absent: use the default and persist it.
    Missing,
    /// The file exists but could not be read or decoded: use the default,
    /// report the error, and leave the file as it is.
    Corrupt(ConfigError),
}

/// The error that a failed save step reports: encoding failures are
/// serialization errors, every other step's failure is an I/O error.
pub open spec fn save_failure_spec(step: SaveStep, message: String) -> ConfigError {
    match step {
        SaveStep::Encode => ConfigError::Serialization(message),
        _ => ConfigError::Io(message),
    }
}

/// The first stage of a load: the text to decode, or why there is none.
pub open spec fn load_contents_spec(path: String, read: ReadOutcome) -> Result<String, ConfigError> {
    match read {
        ReadOutcome::Absent => Err(ConfigError::NotFound(path)),
        ReadOutcome::Failed(m) => Err(ConfigError::Io(m)),
        ReadOutcome::Contents(t) => Ok(t),
    }
}

/// The second stage of a load: a decoding failure is a deserialization error.
pub open spec fn finish_load_spec<T>(decoded: Result<T, String>) -> Result<T, ConfigError> {
    match decoded {
        Ok(v) => Ok(v),
        Err(m) => Err(ConfigError::Deserialization(m)),
    }
}

/// A whole load: `decoded` is what the decoder made of the contents, and is
/// only consulted when there were contents.
pub open spec fn load_spec<T>(path: String, read: ReadOutcome, decoded: Result<T, String>) -> Result<
    T,
    ConfigError,
> {
    match load_contents_spec(path, read) {
        Err(e) => Err(e),
        Ok(_) => finish_load_spec(decoded),
    }
}

/// What load-or-default does with the result of a load.
pub open spec fn recover_spec<T>(loaded: Result<T, ConfigError>) -> Recovery<T> {
    match loaded {
        Ok(v) => Recovery::Loaded(v),
        Err(ConfigError::NotFound(_)) => Recovery::Missing,
        Err(e) => Recovery::Corrupt(e),
    }
}

/// The error reported when a save step fails.
pub fn save_failure(step: SaveStep, message: String) -> (r: ConfigError)
    ensures
        r == save_failure_spec(step, message),
{
    match step {
        SaveStep::Encode => ConfigError::Serialization(message),
        _ => ConfigError::Io(message),
    }
}

/// Plans the save of a configuration under `configs_dir`.
pub fn save_plan(d: &ConfigDescriptor, configs_dir: &str) -> (r: SavePlan)
    ensures
        r.path@ == default_path_spec(d@, configs_dir@),
        r.format == d@.format,
        r.dir matches Some(p) ==> parent_spec(r.path@) == Some(p@),
        r.dir is None ==> parent_spec(r.path@) is None,
{
    let path = d.default_path(configs_dir);
    let dir = parent_dir(path.as_str());
    SavePlan { dir, path, format: d.format() }
}

/// The first stage of a load at `path`.
pub fn load_contents(path: String, read: ReadOutcome) -> (r: Result<String, ConfigError>)
    ensures
        r == load_contents_spec(path, read),
{
    match read {
        ReadOutcome::Absent => Err(ConfigError::NotFound(path)),
        ReadOutcome::Failed(m) => Err(ConfigError::Io(m)),
        ReadOutcome::Contents(t) => Ok(t),
    }
}

/// The second stage of a load, from the decoder's result.
pub fn finish_load<T>(decoded: Result<T, String>) -> (r: Result<T, ConfigError>)
    ensures
        r == finish_load_spec(decoded),
{
    match decoded {
        Ok(v) => Ok(v),
        Err(m) => Err(ConfigError::Deserialization(m)),
    }
}

/// Decides how load-or-default ends after a load.
pub fn recover<T>(loaded: Result<T, ConfigError>) -> (r: Recovery<T>)
    ensures
        r == recover_spec(loaded),
{
    match loaded {
        Ok(v) => Recovery::Loaded(v),
        Err(ConfigError::NotFound(_)) => Recovery::Missing,
        Err(e) => Recovery::Corrupt(e),
    }
}

} // verus!
