//! Properties that hold across the operations of a configuration.
use vstd::prelude::*;
use crate::capability::{load_contents_spec, load_spec, recover_spec, ReadOutcome, Recovery};
use crate::descriptor::{
    declared_format, declared_name, default_path_spec, file_name_spec, first_unknown_key,
    resolve_spec, ConfigOption, DescriptorView,
};
use crate::error::ConfigError;
use crate::format::{extension_of, format_named, is_format_name, ConfigFormat};
use crate::paths::join_spec;

verus! {

/// Saving and then loading gives back the saved value: the load reads the file
/// that the save wrote, hands the decoder exactly the written text, and
/// returns what the decoder makes of it unchanged. So whenever the format's
/// decoder gives back `v` for the text its encoder made of `v`, the load
/// returns `v`.
pub proof fn save_then_load_returns_saved<T>(
    d: DescriptorView,
    configs_dir: Seq<char>,
    path: String,
    written: String,
    v: T,
)
    requires
        path@ == default_path_spec(d, configs_dir),
    ensures
        load_contents_spec(path, ReadOutcome::Contents(written)) == Ok::<String, ConfigError>(
            written,
        ),
        load_spec(path, ReadOutcome::Contents(written), Ok::<T, String>(v)) == Ok::<T, ConfigError>(
            v,
        ),
{
}

/// Loading a configuration whose file was never created fails with `NotFound`
/// carrying the resolved path, whatever a decoder would have said.
pub proof fn missing_file_is_not_found<T>(
    d: DescriptorView,
    configs_dir: Seq<char>,
    path: String,
    decoded: Result<T, String>,
)
    requires
        path@ == default_path_spec(d, configs_dir),
    ensures
        load_spec(path, ReadOutcome::Absent, decoded) matches Err(ConfigError::NotFound(p)) && p@
            == default_path_spec(d, configs_dir),
{
}

/// Load-or-default twice on a name with no file: the first call finds the file
/// missing and persists the default; the second reads the persisted text and,
/// when the decoder gives back the default from it, returns the default again.
pub proof fn load_or_default_twice_gives_default<T>(
    path: String,
    written: String,
    default_value: T,
    decoded_first: Result<T, String>,
)
    ensures
        recover_spec(load_spec(path, ReadOutcome::Absent, decoded_first)) == Recovery::<T>::Missing,
        recover_spec(load_spec(path, ReadOutcome::Contents(written), Ok::<T, String>(default_value)))
            == Recovery::<T>::Loaded(default_value),
{
}

/// A declared name overrides the type's own: the file's base name is the
/// declared name followed by the format's extension.
pub proof fn declared_name_names_the_file(
    default_name: Seq<char>,
    opts: Seq<ConfigOption>,
    declared: Seq<char>,
    configs_dir: Seq<char>,
)
    requires
        first_unknown_key(opts) is None,
        declared_name(opts) == Some(declared),
    ensures
        resolve_spec(default_name, opts) matches Ok(d) && d.name == declared && file_name_spec(d)
            == declared + seq!['.'] + extension_of(d.format) && default_path_spec(d, configs_dir)
            == join_spec(configs_dir, declared + seq!['.'] + extension_of(d.format)),
{
}

/// Without a recognized declared format a configuration uses TOML.
pub proof fn undeclared_format_is_toml(default_name: Seq<char>, opts: Seq<ConfigOption>)
    requires
        first_unknown_key(opts) is None,
        declared_format(opts) is None,
    ensures
        resolve_spec(default_name, opts) matches Ok(d) && d.format == ConfigFormat::Toml,
{
}

/// Any text that is not one of the three format names selects TOML.
pub proof fn unknown_format_name_is_toml(s: Seq<char>)
    requires
        !is_format_name(s),
    ensures
        format_named(s) == ConfigFormat::Toml,
{
}

/// Load-or-default persists only when the file is absent: when a file exists,
/// whether it fails to read or to decode, the outcome never asks for the
/// default to be written over it, and the default is persisted exactly when
/// the file is absent.
pub proof fn existing_file_is_never_overwritten<T>(
    path: String,
    read: ReadOutcome,
    decoded: Result<T, String>,
)
    ensures
        (recover_spec(load_spec(path, read, decoded)) is Missing) <==> (read is Absent),
        !(read is Absent) && decoded is Err ==> recover_spec(load_spec(path, read, decoded)) is Corrupt,
{
}

} // verus!
