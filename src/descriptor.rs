//! What a record type declares to become configurable: its logical name and
//! format, resolved from declared options with convention-based defaults.
use vstd::prelude::*;
use crate::format::{extension_of, format_named, is_format_name, str_equal, ConfigFormat};
use crate::paths::{join_path, join_spec};

verus! {

/// One declared option, such as `name = "app_config"` or `format = "json"`.
#[derive(Debug, Clone, PartialEq, Eq)]
pub struct ConfigOption {
    pub key: String,
    pub value: String,
}

/// Why a set of declared options was refused.
#[derive(Debug, Clone, PartialEq, Eq)]
pub enum DeriveError {
    /// An option key other than `name` and `format`; carries the key.
    UnsupportedOption(String),
}

/// The logical name and format that a configuration type resolved to.
#[derive(Debug, Clone, PartialEq, Eq)]
pub struct ConfigDescriptor {
    name: String,
    format: ConfigFormat,
}

/// The mathematical content of a descriptor.
pub struct DescriptorView {
    pub name: Seq<char>,
    pub format: ConfigFormat,
}

impl View for ConfigDescriptor {
    type V = DescriptorView;

    closed spec fn view(&self) -> DescriptorView {
        DescriptorView { name: self.name@, format: self.format }
    }
}

/// The base name of a configuration's file: `<name>.<extension>`.
pub open spec fn file_name_spec(d: DescriptorView) -> Seq<char> {
    d.name + seq!['.'] + extension_of(d.format)
}

/// Where a configuration's file lives under the configuration directory.
pub open spec fn default_path_spec(d: DescriptorView, configs_dir: Seq<char>) -> Seq<char> {
    join_spec(configs_dir, file_name_spec(d))
}

/// The name declared by the options: the value of the last `name` option.
pub open spec fn declared_name(opts: Seq<ConfigOption>) -> Option<Seq<char>>
    decreases opts.len(),
{
    if opts.len() == 0 {
        None
    } else if opts.last().key@ == "name"@ {
        Some(opts.last().value@)
    } else {
        declared_name(opts.drop_last())
    }
}

/// The format declared by the options: set by the last `format` option when its
/// value is a known format name, and unset when that value is unknown.
pub open spec fn declared_format(opts: Seq<ConfigOption>) -> Option<ConfigFormat>
    decreases opts.len(),
{
    if opts.len() == 0 {
        None
    } else if opts.last().key@ == "format"@ {
        if is_format_name(opts.last().value@) {
            Some(format_named(opts.last().value@))
        } else {
            None
        }
    } else {
        declared_format(opts.drop_last())
    }
}

/// The first option key that is neither `name` nor `format`.
pub open spec fn first_unknown_key(opts: Seq<ConfigOption>) -> Option<Seq<char>>
    decreases opts.len(),
{
    if opts.len() == 0 {
        None
    } else {
        match first_unknown_key(opts.drop_last()) {
            Some(k) => Some(k),
            None => if opts.last().key@ == "name"@ || opts.last().key@ == "format"@ {
                None
            } else {
                Some(opts.last().key@)
            },
        }
    }
}

/// The resolution of declared options for a type whose conventional name is
/// `default_name`: refused at the first unknown key; otherwise the declared
/// name or the conventional one, and the declared format or TOML.
pub open spec fn resolve_spec(default_name: Seq<char>, opts: Seq<ConfigOption>) -> Result<
    DescriptorView,
    Seq<char>,
> {
    match first_unknown_key(opts) {
        Some(k) => Err(k),
        None => Ok(
            DescriptorView {
                name: match declared_name(opts) {
                    Some(n) => n,
                    None => default_name,
                },
                format: match declared_format(opts) {
                    Some(f) => f,
                    None => ConfigFormat::Toml,
                },
            },
        ),
    }
}

/// The lower-cased form of a string, as `str::to_lowercase` gives it.
pub uninterp spec fn lower_of(s: Seq<char>) -> Seq<char>;

/// Relies on `str::to_lowercase`: the result depends on the characters alone.
#[verifier::external_body]
fn lowercase(s: &str) -> (r: String)
    ensures
        r@ == lower_of(s@),
{
    s.to_lowercase()
}

impl ConfigDescriptor {
    /// A descriptor with an explicit name and format.
    pub fn new(name: String, format: ConfigFormat) -> (r: ConfigDescriptor)
        ensures
            r@.name == name@,
            r@.format == format,
    {
        ConfigDescriptor { name, format }
    }

    /// The logical name, used as the file's base name.
    pub fn config_name(&self) -> (r: String)
        ensures
            r@ == self@.name,
    {
        self.name.clone()
    }

    /// The chosen serialization format.
    pub fn format(&self) -> (r: ConfigFormat)
        ensures
            r == self@.format,
    {
        self.format
    }

    /// The file's base name: the logical name, a dot and the format's extension.
    pub fn file_name(&self) -> (r: String)
        ensures
            r@ == file_name_spec(self@),
    {
        let mut r = self.name.clone();
        r.append(".");
        proof {
            reveal_strlit(".");
        }
        r.append(self.format.extension());
        assert(r@ =~= file_name_spec(self@));
        r
    }

    /// The file's full path under the configuration directory.
    pub fn default_path(&self, configs_dir: &str) -> (r: String)
        ensures
            r@ == default_path_spec(self@, configs_dir@),
    {
        let f = self.file_name();
        join_path(configs_dir, f.as_str())
    }
}

/// Resolves declared options for a type whose conventional (lower-cased) name
/// is `default_name`.
pub fn describe_configuration(default_name: String, options: &Vec<ConfigOption>) -> (r: Result<
    ConfigDescriptor,
    DeriveError,
>)
    ensures
        match r {
            Ok(d) => resolve_spec(default_name@, options@) == Ok::<DescriptorView, Seq<char>>(d@),
            Err(DeriveError::UnsupportedOption(k)) => resolve_spec(default_name@, options@)
                == Err::<DescriptorView, Seq<char>>(k@),
        },
{
    let mut name: Option<String> = None;
    let mut format: Option<ConfigFormat> = None;
    let mut i: usize = 0;
    while i < options.len()
        invariant
            i <= options@.len(),
            first_unknown_key(options@.subrange(0, i as int)) is None,
            match name {
                Some(n) => declared_name(options@.subrange(0, i as int)) == Some(n@),
                None => declared_name(options@.subrange(0, i as int)) is None,
            },
            format == declared_format(options@.subrange(0, i as int)),
        decreases options@.len() - i,
    {
        let opt = &options[i];
        proof {
            reveal_strlit("name");
            reveal_strlit("format");
        }
        assert(options@.subrange(0, i + 1).drop_last() =~= options@.subrange(0, i as int));
        assert(options@.subrange(0, i + 1).last() == options@[i as int]);
        if str_equal(opt.key.as_str(), "name") {
            name = Some(opt.value.clone());
            assert("name"@.len() != "format"@.len());
        } else if str_equal(opt.key.as_str(), "format") {
            let v = opt.value.as_str();
            if str_equal(v, "json") || str_equal(v, "toml") || str_equal(v, "yaml") {
                format = Some(ConfigFormat::from_name(v));
            } else {
                format = None;
            }
        } else {
            let ghost pre = options@.subrange(0, i + 1);
            assert(first_unknown_key(pre) == Some(opt.key@));
            assert(first_unknown_key(options@) == Some(opt.key@)) by {
                lemma_unknown_key_persists(options@, i as int + 1);
            }
            return Err(DeriveError::UnsupportedOption(opt.key.clone()));
        }
        i = i + 1;
    }
    assert(options@.subrange(0, i as int) =~= options@);
    let name = match name {
        Some(n) => n,
        None => default_name,
    };
    let format = match format {
        Some(f) => f,
        None => ConfigFormat::Toml,
    };
    Ok(ConfigDescriptor { name, format })
}

proof fn lemma_unknown_key_persists(opts: Seq<ConfigOption>, n: int)
    requires
        0 <= n <= opts.len(),
        first_unknown_key(opts.subrange(0, n)) is Some,
    ensures
        first_unknown_key(opts) == first_unknown_key(opts.subrange(0, n)),
    decreases opts.len() - n,
{
    if n < opts.len() {
        assert(opts.subrange(0, n + 1).drop_last() =~= opts.subrange(0, n));
        lemma_unknown_key_persists(opts, n + 1);
    } else {
        assert(opts.subrange(0, n) =~= opts);
    }
}

/// Resolves the declared options of a type named `record_name`: the conventional
/// name is the type's name lower-cased.
pub fn derive_configuration(record_name: &str, options: &Vec<ConfigOption>) -> (r: Result<
    ConfigDescriptor,
    DeriveError,
>)
    ensures
        match r {
            Ok(d) => resolve_spec(lower_of(record_name@), options@) == Ok::<DescriptorView, Seq<char>>(
                d@,
            ),
            Err(DeriveError::UnsupportedOption(k)) => resolve_spec(lower_of(record_name@), options@)
                == Err::<DescriptorView, Seq<char>>(k@),
        },
{
    let default_name = lowercase(record_name);
    describe_configuration(default_name, options)
}

} // verus!
