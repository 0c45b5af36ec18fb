//! The book generator's own configuration and the book manifest derived from it.
use vstd::prelude::*;

verus! {

/// Settings of the book generator, persisted under the logical name `mkbook`.
#[derive(Debug, Clone, PartialEq, Eq)]
pub struct Config {
    pub dir: String,
    pub authors: Option<Vec<String>>,
    pub title: String,
    pub homepage: Option<String>,
    pub repository_url: Option<String>,
    pub repository_edit_url: Option<String>,
    pub rust_edition: Option<String>,
    pub copy_extra_dirs: Vec<String>,
    pub disable_packages: Vec<String>,
    pub enable_packages: Vec<String>,
}

/// The book manifest, section by section.
#[derive(Debug, Clone, PartialEq, Eq)]
pub struct BookConfig {
    pub book: BookSection,
    pub rust: RustSection,
    pub output: OutputSection,
    pub build: BuildSection,
    pub preprocessor: PreprocessorSection,
}

#[derive(Debug, Clone, PartialEq, Eq)]
pub struct BookSection {
    pub authors: Option<Vec<String>>,
    pub language: String,
    pub src: String,
    pub title: String,
}

#[derive(Debug, Clone, PartialEq, Eq)]
pub struct RustSection {
    pub edition: Option<String>,
}

#[derive(Debug, Clone, PartialEq, Eq)]
pub struct OutputSection {
    pub html: HtmlSection,
}

#[derive(Debug, Clone, PartialEq, Eq)]
pub struct HtmlSection {
    pub git_repository_url: Option<String>,
    pub edit_url_template: Option<String>,
    pub additional_js: Vec<String>,
    pub additional_css: Vec<String>,
    pub search: HtmlSearchSection,
    pub playground: HtmlPlaygroundSection,
    pub fold: HtmlFoldSection,
}

#[derive(Debug, Clone, Copy, PartialEq, Eq, Structural)]
pub struct HtmlSearchSection {
    pub limit_results: u32,
    pub use_boolean_and: bool,
    pub boost_title: u32,
    pub boost_hierarchy: u32,
    pub boost_paragraph: u32,
    pub expand: bool,
    pub heading_split_level: u32,
}

#[derive(Debug, Clone, Copy, PartialEq, Eq, Structural)]
pub struct HtmlPlaygroundSection {
    pub editable: bool,
    pub copyable: bool,
    pub copy_js: bool,
    pub line_numbers: bool,
    pub runnable: bool,
}

#[derive(Debug, Clone, Copy, PartialEq, Eq, Structural)]
pub struct HtmlFoldSection {
    pub enable: bool,
    pub level: u32,
}

#[derive(Debug, Clone, Copy, PartialEq, Eq, Structural)]
pub struct BuildSection {
    pub create_missing: bool,
}

#[derive(Debug, Clone, PartialEq, Eq)]
pub struct PreprocessorSection {
    pub callouts: PreprocessorCallouts,
    pub autosummary: Option<()>,
    pub protobuf: PreprocessorProtobuf,
    pub kroki_preprocessor: PreprocessorKroki,
}

#[derive(Debug, Clone, PartialEq, Eq)]
pub struct PreprocessorCallouts {
    pub after: Vec<String>,
}

#[derive(Debug, Clone, PartialEq, Eq)]
pub struct PreprocessorProtobuf {
    pub after: Vec<String>,
    pub command: String,
    pub proto_descriptor: String,
    pub nest_under: String,
    pub proto_url_root: String,
}

#[derive(Debug, Clone, PartialEq, Eq)]
pub struct PreprocessorKroki {
    pub after: Vec<String>,
}

/// The preprocessor that the others run after.
pub const AUTOSUMMARY: &'static str = "autosummary";

/// The stylesheet that the protobuf preprocessor needs.
pub const PROTOBUF_CSS: &'static str = "mdbook-protobuf.css";

/// Where the protobuf preprocessor's links point.
pub const PROTO_URL_ROOT: &'static str = "https://github.com/zakhenry/mdbook-protobuf/tree/master/demo/proto/";

/// Whether `v` holds exactly the one string `s`.
pub open spec fn is_single(v: Vec<String>, s: Seq<char>) -> bool {
    v@.len() == 1 && v@[0]@ == s
}

/// The search settings of every generated manifest.
pub open spec fn search_defaults() -> HtmlSearchSection {
    HtmlSearchSection {
        limit_results: 20,
        use_boolean_and: true,
        boost_title: 2,
        boost_hierarchy: 2,
        boost_paragraph: 1,
        expand: true,
        heading_split_level: 2,
    }
}

/// The playground settings of every generated manifest: everything enabled.
pub open spec fn playground_defaults() -> HtmlPlaygroundSection {
    HtmlPlaygroundSection {
        editable: true,
        copyable: true,
        copy_js: true,
        line_numbers: true,
        runnable: true,
    }
}

/// The manifest `b` is the one made from `c`: the settings carried over from
/// `c`, and the fixed ones.
pub open spec fn manifest_of(c: Config, b: BookConfig) -> bool {
    &&& b.book.authors == c.authors
    &&& b.book.language@ == "en"@
    &&& b.book.src@ == "src"@
    &&& b.book.title == c.title
    &&& b.rust.edition == c.rust_edition
    &&& b.output.html.git_repository_url == c.repository_url
    &&& b.output.html.edit_url_template == c.repository_edit_url
    &&& b.output.html.additional_js@.len() == 0
    &&& is_single(b.output.html.additional_css, PROTOBUF_CSS@)
    &&& b.output.html.search == search_defaults()
    &&& b.output.html.playground == playground_defaults()
    &&& b.output.html.fold == (HtmlFoldSection { enable: true, level: 0 })
    &&& b.build == (BuildSection { create_missing: false })
    &&& is_single(b.preprocessor.callouts.after, AUTOSUMMARY@)
    &&& b.preprocessor.autosummary is None
    &&& is_single(b.preprocessor.protobuf.after, AUTOSUMMARY@)
    &&& b.preprocessor.protobuf.command@ == "mdbook-protobuf"@
    &&& b.preprocessor.protobuf.proto_descriptor@ == "./build/proto_file_descriptor_set.pb"@
    &&& b.preprocessor.protobuf.nest_under@ == "Protocol"@
    &&& b.preprocessor.protobuf.proto_url_root@ == PROTO_URL_ROOT@
    &&& is_single(b.preprocessor.kroki_preprocessor.after, AUTOSUMMARY@)
}

/// A vector holding the one string `s`.
fn single(s: &str) -> (r: Vec<String>)
    ensures
        is_single(r, s@),
{
    let mut v: Vec<String> = Vec::new();
    v.push(String::from_str(s));
    v
}

impl BookConfig {
    /// The manifest for a generator configuration.
    pub fn from_config(config: Config) -> (r: BookConfig)
        ensures
            manifest_of(config, r),
    {
        let ghost c = config;
        BookConfig {
            book: BookSection {
                authors: config.authors,
                language: String::from_str("en"),
                src: String::from_str("src"),
                title: config.title,
            },
            rust: RustSection { edition: config.rust_edition },
            output: OutputSection {
                html: HtmlSection {
                    git_repository_url: config.repository_url,
                    edit_url_template: config.repository_edit_url,
                    additional_js: Vec::new(),
                    additional_css: single(PROTOBUF_CSS),
                    search: HtmlSearchSection {
                        limit_results: 20,
                        use_boolean_and: true,
                        boost_title: 2,
                        boost_hierarchy: 2,
                        boost_paragraph: 1,
                        expand: true,
                        heading_split_level: 2,
                    },
                    playground: HtmlPlaygroundSection {
                        editable: true,
                        copyable: true,
                        copy_js: true,
                        line_numbers: true,
                        runnable: true,
                    },
                    fold: HtmlFoldSection { enable: true, level: 0 },
                },
            },
            build: BuildSection { create_missing: false },
            preprocessor: PreprocessorSection {
                callouts: PreprocessorCallouts { after: single(AUTOSUMMARY) },
                autosummary: None,
                protobuf: PreprocessorProtobuf {
                    after: single(AUTOSUMMARY),
                    command: String::from_str("mdbook-protobuf"),
                    proto_descriptor: String::from_str("./build/proto_file_descriptor_set.pb"),
                    nest_under: String::from_str("Protocol"),
                    proto_url_root: String::from_str(PROTO_URL_ROOT),
                },
                kroki_preprocessor: PreprocessorKroki { after: single(AUTOSUMMARY) },
            },
        }
    }
}

/// `repository` followed by `/tree/` and the branch.
pub open spec fn tree_url(repository: Seq<char>, branch: Seq<char>) -> Seq<char> {
    repository + "/tree/"@ + branch
}

/// `repository` followed by `/edit/`, the branch and the `{path}` placeholder.
pub open spec fn edit_url(repository: Seq<char>, branch: Seq<char>) -> Seq<char> {
    repository + "/edit/"@ + branch + "/{path}"@
}

impl Config {
    /// The configuration used when none is saved, from the package's metadata:
    /// books go in `book`, the title is the package's name, the authors string
    /// becomes a one-element list, and the repository links point at
    /// `default_branch`.
    pub fn from_package(
        name: String,
        authors: Option<String>,
        homepage: Option<String>,
        repository: Option<String>,
        default_branch: &str,
    ) -> (r: Config)
        ensures
            r.dir@ == "book"@,
            match authors {
                Some(a) => r.authors matches Some(v) && is_single(v, a@),
                None => r.authors is None,
            },
            r.title == name,
            r.homepage == homepage,
            match repository {
                Some(repo) => (r.repository_url matches Some(u) && u@ == tree_url(
                    repo@,
                    default_branch@,
                )) && (r.repository_edit_url matches Some(e) && e@ == edit_url(
                    repo@,
                    default_branch@,
                )),
                None => r.repository_url is None && r.repository_edit_url is None,
            },
            r.rust_edition is None,
            r.copy_extra_dirs@.len() == 0,
            r.disable_packages@.len() == 0,
            r.enable_packages@.len() == 0,
    {
        let authors = match authors {
            Some(a) => Some(single(a.as_str())),
            None => None,
        };
        let (repository_url, repository_edit_url) = match repository {
            Some(repo) => {
                let mut tree = repo.clone();
                tree.append("/tree/");
                tree.append(default_branch);
                let mut edit = repo.clone();
                edit.append("/edit/");
                edit.append(default_branch);
                edit.append("/{path}");
                (Some(tree), Some(edit))
            },
            None => (None, None),
        };
        Config {
            dir: String::from_str("book"),
            authors,
            title: name,
            homepage,
            repository_url,
            repository_edit_url,
            rust_edition: None,
            copy_extra_dirs: Vec::new(),
            disable_packages: Vec::new(),
            enable_packages: Vec::new(),
        }
    }
}

} // verus!
