//! The closed set of serialization formats and their file extensions.
use vstd::prelude::*;

verus! {

/// A serialization format for configuration files.
#[derive(Debug, Clone, Copy, PartialEq, Eq, Structural)]
pub enum ConfigFormat {
    Json,
    Toml,
    Yaml,
}

/// The file extension (without the dot) used for a format.
pub open spec fn extension_of(f: ConfigFormat) -> Seq<char> {
    match f {
        ConfigFormat::Json => "json"@,
        ConfigFormat::Toml => "toml"@,
        ConfigFormat::Yaml => "yaml"@,
    }
}

/// The format that a textual name selects: the three known names select their
/// format, anything else falls back to TOML.
pub open spec fn format_named(s: Seq<char>) -> ConfigFormat {
    if s == "json"@ {
        ConfigFormat::Json
    } else if s == "yaml"@ {
        ConfigFormat::Yaml
    } else {
        ConfigFormat::Toml
    }
}

/// Whether `s` is one of the three recognized format names.
pub open spec fn is_format_name(s: Seq<char>) -> bool {
    s == "json"@ || s == "toml"@ || s == "yaml"@
}

/// Equality of two string slices by their characters.
pub fn str_equal(a: &str, b: &str) -> (r: bool)
    ensures
        r == (a@ == b@),
{
    let sa = String::from_str(a);
    let sb = String::from_str(b);
    sa == sb
}

impl ConfigFormat {
    /// The extension of this format's files: "json", "toml" or "yaml".
    pub fn extension(&self) -> (r: &'static str)
        ensures
            r@ == extension_of(*self),
    {
        match self {
            ConfigFormat::Json => "json",
            ConfigFormat::Toml => "toml",
            ConfigFormat::Yaml => "yaml",
        }
    }

    /// The format's name as an owned string; it equals the extension.
    pub fn to_string(&self) -> (r: String)
        ensures
            r@ == extension_of(*self),
    {
        String::from_str(self.extension())
    }

    /// Selects a format by name; unknown names give TOML.
    pub fn from_name(value: &str) -> (r: ConfigFormat)
        ensures
            r == format_named(value@),
    {
        if str_equal(value, "json") {
            ConfigFormat::Json
        } else if str_equal(value, "yaml") {
            ConfigFormat::Yaml
        } else {
            ConfigFormat::Toml
        }
    }
}

impl Default for ConfigFormat {
    /// TOML is the default format.
    fn default() -> (r: ConfigFormat)
        ensures
            r == ConfigFormat::Toml,
    {
        ConfigFormat::Toml
    }
}

impl<'a> From<&'a str> for ConfigFormat {
    fn from(value: &'a str) -> (r: ConfigFormat) {
        ConfigFormat::from_name(value)
    }
}

impl<'a> vstd::std_specs::convert::FromSpecImpl<&'a str> for ConfigFormat {
    open spec fn obeys_from_spec() -> bool {
        true
    }

    open spec fn from_spec(v: &'a str) -> ConfigFormat {
        format_named(v@)
    }
}

impl From<String> for ConfigFormat {
    fn from(value: String) -> (r: ConfigFormat) {
        ConfigFormat::from_name(value.as_str())
    }
}

impl vstd::std_specs::convert::FromSpecImpl<String> for ConfigFormat {
    open spec fn obeys_from_spec() -> bool {
        true
    }

    open spec fn from_spec(v: String) -> ConfigFormat {
        format_named(v@)
    }
}

} // verus!
