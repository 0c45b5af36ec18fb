//! The book tool's tasks: which one a subcommand selects, what installing
//! runs, and which files a new book consists of.
use vstd::prelude::*;
use crate::book::Config;
use crate::format::str_equal;
use crate::paths::{join_path, join_spec};

verus! {

/// A task of the book tool.
#[derive(Debug, Clone, Copy, PartialEq, Eq, Structural)]
pub enum Task {
    /// Print the environment and the resolved roots.
    Vars,
    /// Install the tools that building a book needs.
    Install,
    /// Write a new book skeleton.
    Generate,
    /// The continuous-integration entry point, also run without a subcommand.
    Ci,
}

/// The task a subcommand name selects: none for an unknown name.
pub open spec fn task_spec(subcommand: Option<Seq<char>>) -> Option<Task> {
    match subcommand {
        None => Some(Task::Ci),
        Some(s) => if s == "ci"@ {
            Some(Task::Ci)
        } else if s == "vars"@ {
            Some(Task::Vars)
        } else if s == "install"@ {
            Some(Task::Install)
        } else if s == "generate"@ {
            Some(Task::Generate)
        } else {
            None
        },
    }
}

/// Selects the task for a (canonical) subcommand name.
pub fn task_for(subcommand: Option<&str>) -> (r: Option<Task>)
    ensures
        r == task_spec(
            match subcommand {
                Some(s) => Some(s@),
                None => None,
            },
        ),
{
    match subcommand {
        None => Some(Task::Ci),
        Some(s) => if str_equal(s, "ci") {
            Some(Task::Ci)
        } else if str_equal(s, "vars") {
            Some(Task::Vars)
        } else if str_equal(s, "install") {
            Some(Task::Install)
        } else if str_equal(s, "generate") {
            Some(Task::Generate)
        } else {
            None
        },
    }
}

/// The views of a list of strings.
pub open spec fn views(v: Seq<String>) -> Seq<Seq<char>> {
    v.map_values(|s: String| s@)
}

/// The arguments that install one tool with `cargo binstall`.
pub open spec fn binstall_spec(tool: Seq<char>) -> Seq<Seq<char>> {
    seq!["cargo"@, "binstall"@, "-y"@, tool]
}

/// The tools that installing fetches, in order.
pub open spec fn install_tools() -> Seq<Seq<char>> {
    seq![
        "cargo-watch"@,
        "cargo-hack"@,
        "mdbook"@,
        "mdbook-callouts"@,
        "mdbook-kroki-preprocessor"@,
        "mdbook-protobuf"@,
        "rustdoc-md"@,
        "cargo-modules"@,
    ]
}

/// The command lines that installing runs, in order: first `cargo-binstall`
/// itself, then each tool through it.
pub open spec fn install_spec() -> Seq<Seq<Seq<char>>> {
    seq![seq!["cargo"@, "install"@, "cargo-binstall"@]] + install_tools().map_values(
        |t: Seq<char>| binstall_spec(t),
    )
}

fn strings(parts: &[&str]) -> (r: Vec<String>)
    ensures
        r@.len() == parts@.len(),
        forall|i: int| 0 <= i < parts@.len() ==> #[trigger] r@[i]@ == parts@[i]@,
{
    let mut out: Vec<String> = Vec::new();
    let mut i: usize = 0;
    while i < parts.len()
        invariant
            i <= parts@.len(),
            out@.len() == i,
            forall|j: int| 0 <= j < i ==> #[trigger] out@[j]@ == parts@[j]@,
        decreases parts@.len() - i,
    {
        out.push(String::from_str(parts[i]));
        i = i + 1;
    }
    out
}

/// The arguments that install one tool with `cargo binstall`.
pub fn binstall(tool: &str) -> (r: Vec<String>)
    ensures
        views(r@) == binstall_spec(tool@),
{
    let r = strings(&["cargo", "binstall", "-y", tool]);
    assert(views(r@) =~= binstall_spec(tool@));
    r
}

/// The command lines that installing runs.
pub fn install() -> (r: Vec<Vec<String>>)
    ensures
        r@.map_values(|c: Vec<String>| views(c@)) == install_spec(),
{
    let tools = [
        "cargo-watch",
        "cargo-hack",
        "mdbook",
        "mdbook-callouts",
        "mdbook-kroki-preprocessor",
        "mdbook-protobuf",
        "rustdoc-md",
        "cargo-modules",
    ];
    let ghost tool_views = install_tools();
    assert(tools@.map_values(|t: &str| t@) =~= tool_views);
    let mut out: Vec<Vec<String>> = Vec::new();
    let first = strings(&["cargo", "install", "cargo-binstall"]);
    assert(views(first@) =~= seq!["cargo"@, "install"@, "cargo-binstall"@]);
    out.push(first);
    let mut i: usize = 0;
    while i < 8
        invariant
            i <= 8,
            tools@.len() == 8,
            tools@.map_values(|t: &str| t@) == tool_views,
            tool_views == install_tools(),
            out@.len() == i + 1,
            out@.map_values(|c: Vec<String>| views(c@)) =~= install_spec().subrange(0, i + 1),
        decreases 8 - i,
    {
        let ghost prev = out@;
        let cmd = binstall(tools[i]);
        assert(tools@[i as int]@ == tool_views[i as int]);
        out.push(cmd);
        assert(out@.map_values(|c: Vec<String>| views(c@)) =~= prev.map_values(
            |c: Vec<String>| views(c@),
        ).push(binstall_spec(tool_views[i as int])));
        i = i + 1;
    }
    out
}

/// A file of a new book: where it goes and what it holds.
#[derive(Debug, Clone, PartialEq, Eq)]
pub struct BookFile {
    pub path: String,
    pub contents: String,
}

/// What generating a book writes: directories to create, then files.
#[derive(Debug, Clone, PartialEq, Eq)]
pub struct BookPlan {
    pub dirs: Vec<String>,
    pub files: Vec<BookFile>,
}

/// The table of contents of a new book.
pub const SUMMARY_TEXT: &'static str = "# SUMMARY\n\n- [readme](<README.md>)\n";

/// The first page of a new book.
pub const README_TEXT: &'static str = "# README\n\nhi\n";

/// What the book's own ignore file holds.
pub const GITIGNORE_TEXT: &'static str = "book/\n";

/// Whether `f` is the file at `path` holding `contents`.
pub open spec fn is_file(f: BookFile, path: Seq<char>, contents: Seq<char>) -> bool {
    f.path@ == path && f.contents@ == contents
}

/// The plan for a book under `workspace_root`, in the configured directory,
/// whose manifest text is `manifest`: the book directory and its `src`
/// directory, then the manifest, the table of contents, the first page and the
/// ignore file.
pub fn book_plan(workspace_root: &str, config: &Config, manifest: String) -> (r: BookPlan)
    ensures
        ({
            let book = join_spec(workspace_root@, config.dir@);
            &&& views(r.dirs@) == seq![book, join_spec(book, "src"@)]
            &&& r.files@.len() == 4
            &&& is_file(r.files@[0], join_spec(book, "book.toml"@), manifest@)
            &&& is_file(r.files@[1], join_spec(book, "src/SUMMARY.md"@), SUMMARY_TEXT@)
            &&& is_file(r.files@[2], join_spec(book, "src/README.md"@), README_TEXT@)
            &&& is_file(r.files@[3], join_spec(book, ".gitignore"@), GITIGNORE_TEXT@)
        }),
{
    let book = join_path(workspace_root, config.dir.as_str());
    let mut dirs: Vec<String> = Vec::new();
    dirs.push(book.clone());
    dirs.push(join_path(book.as_str(), "src"));
    let mut files: Vec<BookFile> = Vec::new();
    files.push(BookFile { path: join_path(book.as_str(), "book.toml"), contents: manifest });
    files.push(
        BookFile {
            path: join_path(book.as_str(), "src/SUMMARY.md"),
            contents: String::from_str(SUMMARY_TEXT),
        },
    );
    files.push(
        BookFile {
            path: join_path(book.as_str(), "src/README.md"),
            contents: String::from_str(README_TEXT),
        },
    );
    files.push(
        BookFile {
            path: join_path(book.as_str(), ".gitignore"),
            contents: String::from_str(GITIGNORE_TEXT),
        },
    );
    assert(views(dirs@) =~= seq![book@, join_spec(book@, "src"@)]);
    BookPlan { dirs, files }
}

} // verus!
