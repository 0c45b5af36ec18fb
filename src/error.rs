//! The failure kinds that persistence operations report.
use vstd::prelude::*;

verus! {

/// Errors of saving and loading a configuration.
#[derive(Debug, Clone, PartialEq, Eq)]
pub enum ConfigError {
    /// A filesystem operation failed; carries the underlying cause's text.
    Io(String),
    /// Encoding the record in the chosen format failed.
    Serialization(String),
    /// Decoding the file's contents in the chosen format failed.
    Deserialization(String),
    /// No file exists at the carried path.
    NotFound(String),
}

/// The human-readable prefix of each error kind.
pub open spec fn error_prefix(e: ConfigError) -> Seq<char> {
    match e {
        ConfigError::Io(_) => "IO error: "@,
        ConfigError::Serialization(_) => "Serialization error: "@,
        ConfigError::Deserialization(_) => "Deserialization error: "@,
        ConfigError::NotFound(_) => "Configuration file not found at: "@,
    }
}

/// The text that an error carries: the cause's message or the path.
pub open spec fn error_detail(e: ConfigError) -> Seq<char> {
    match e {
        ConfigError::Io(m) => m@,
        ConfigError::Serialization(m) => m@,
        ConfigError::Deserialization(m) => m@,
        ConfigError::NotFound(p) => p@,
    }
}

impl ConfigError {
    /// A one-line diagnostic: the kind's prefix followed by the carried text.
    pub fn message(&self) -> (r: String)
        ensures
            r@ == error_prefix(*self) + error_detail(*self),
    {
        let (prefix, detail) = match self {
            ConfigError::Io(m) => ("IO error: ", m),
            ConfigError::Serialization(m) => ("Serialization error: ", m),
            ConfigError::Deserialization(m) => ("Deserialization error: ", m),
            ConfigError::NotFound(p) => ("Configuration file not found at: ", p),
        };
        let mut r = String::from_str(prefix);
        r.append(detail.as_str());
        r
    }

    /// Whether this is the "file absent" kind, the one that load-or-default
    /// recovers from by persisting a default.
    pub fn is_not_found(&self) -> (r: bool)
        ensures
            r == (*self is NotFound),
    {
        matches!(self, ConfigError::NotFound(_))
    }
}

} // verus!
