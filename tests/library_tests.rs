use mtc_config::book::{BookConfig, Config};
use mtc_config::capability::{save_failure, SaveStep};
use mtc_config::cmd::{get_cmd_out, CmdError};
use mtc_config::env::{EnvRestore, ScopedEnvVar};
use mtc_config::error::ConfigError;
use mtc_config::paths::{join_path, parent_dir};
use mtc_config::tasks::{binstall, book_plan, install, task_for, Task};
use mtc_config::workspace::{
    get_configs_dir, get_workspace_root, get_workspace_root_one_lv_up, marker_path,
    workspace_candidates,
};

#[test]
fn joins_paths() {
    assert_eq!(join_path("/a/b", "c.toml"), "/a/b/c.toml");
    assert_eq!(join_path("/a/b/", "c.toml"), "/a/b/c.toml");
    assert_eq!(join_path("", "c.toml"), "c.toml");
    assert_eq!(join_path("/a", "/etc/x"), "/etc/x");
}

#[test]
fn parents_of_paths() {
    assert_eq!(parent_dir("/a/b/c"), Some("/a/b".to_string()));
    assert_eq!(parent_dir("/a/b/c/"), Some("/a/b".to_string()));
    assert_eq!(parent_dir("/a"), Some("/".to_string()));
    assert_eq!(parent_dir("/"), None);
    assert_eq!(parent_dir(""), None);
    assert_eq!(parent_dir("foo"), Some("".to_string()));
    assert_eq!(parent_dir("a//b"), Some("a".to_string()));
}

#[test]
fn configs_dir_override_and_default() {
    assert_eq!(get_configs_dir(Some("/tmp/cfg".to_string()), "/pkg"), "/tmp/cfg");
    assert_eq!(get_configs_dir(None, "/pkg"), "/pkg/configs");
}

#[test]
fn workspace_candidates_are_three_ancestors() {
    assert_eq!(workspace_candidates("/w/crates/pkg/sub"), vec!["/w/crates/pkg", "/w/crates", "/w"]);
    assert_eq!(workspace_candidates("/w"), vec!["/"]);
    assert_eq!(marker_path("/w"), "/w/Cargo.toml");
}

#[test]
fn workspace_root_search() {
    let start = "/w/crates/pkg";
    assert_eq!(get_workspace_root(start, &vec![true, true, true]), "/w/crates");
    assert_eq!(get_workspace_root(start, &vec![false, true, false]), "/w");
    assert_eq!(get_workspace_root(start, &vec![false, false, true]), "/");
    assert_eq!(get_workspace_root(start, &vec![false, false, false]), start);
    assert_eq!(get_workspace_root(start, &vec![]), start);
    assert_eq!(get_workspace_root("/w", &vec![false, true, true]), "/w");
}

#[test]
fn one_level_up() {
    assert_eq!(get_workspace_root_one_lv_up("/w/pkg", true), Some("/w".to_string()));
    assert_eq!(get_workspace_root_one_lv_up("/w/pkg", false), None);
    assert_eq!(get_workspace_root_one_lv_up("/", true), None);
}

#[test]
fn error_messages() {
    assert_eq!(ConfigError::Io("denied".to_string()).message(), "IO error: denied");
    assert_eq!(
        ConfigError::NotFound("/c/a.toml".to_string()).message(),
        "Configuration file not found at: /c/a.toml"
    );
    assert_eq!(ConfigError::Serialization("x".to_string()).message(), "Serialization error: x");
    assert_eq!(ConfigError::Deserialization("y".to_string()).message(), "Deserialization error: y");
    assert!(ConfigError::NotFound(String::new()).is_not_found());
    assert!(!ConfigError::Io(String::new()).is_not_found());
}

#[test]
fn save_failures_by_step() {
    assert_eq!(save_failure(SaveStep::Encode, "e".to_string()), ConfigError::Serialization("e".to_string()));
    assert_eq!(save_failure(SaveStep::CreateDir, "d".to_string()), ConfigError::Io("d".to_string()));
    assert_eq!(save_failure(SaveStep::CreateFile, "f".to_string()), ConfigError::Io("f".to_string()));
    assert_eq!(save_failure(SaveStep::Write, "w".to_string()), ConfigError::Io("w".to_string()));
}

#[test]
fn command_output_is_trimmed() {
    assert_eq!(get_cmd_out(&b"  main\n".to_vec()), Ok("main".to_string()));
    assert_eq!(get_cmd_out(&Vec::new()), Ok(String::new()));
    assert_eq!(get_cmd_out(&vec![0xff, 0xfe]), Err(CmdError::InvalidUtf8));
}

#[test]
fn scoped_env_var_restores() {
    let s = ScopedEnvVar::new("OUT_TOOL_STORAGE_DIR".to_string(), Some("/old".to_string()));
    assert_eq!(s.name(), "OUT_TOOL_STORAGE_DIR");
    assert_eq!(
        s.restore(),
        EnvRestore::SetBack { key: "OUT_TOOL_STORAGE_DIR".to_string(), value: "/old".to_string() }
    );
    let s = ScopedEnvVar::new("K".to_string(), None);
    assert_eq!(s.restore(), EnvRestore::Remove { key: "K".to_string() });
}

fn sample_config() -> Config {
    Config::from_package(
        "mkbook".to_string(),
        Some("Ann <ann@example.com>".to_string()),
        None,
        Some("https://example.com/repo".to_string()),
        "main",
    )
}

#[test]
fn config_from_package_metadata() {
    let c = sample_config();
    assert_eq!(c.dir, "book");
    assert_eq!(c.title, "mkbook");
    assert_eq!(c.authors, Some(vec!["Ann <ann@example.com>".to_string()]));
    assert_eq!(c.repository_url.as_deref(), Some("https://example.com/repo/tree/main"));
    assert_eq!(c.repository_edit_url.as_deref(), Some("https://example.com/repo/edit/main/{path}"));
    assert!(c.rust_edition.is_none() && c.copy_extra_dirs.is_empty());
    let bare = Config::from_package("t".to_string(), None, None, None, "main");
    assert!(bare.repository_url.is_none() && bare.authors.is_none());
}

#[test]
fn book_manifest_from_config() {
    let b = BookConfig::from_config(sample_config());
    assert_eq!(b.book.title, "mkbook");
    assert_eq!(b.book.language, "en");
    assert_eq!(b.book.src, "src");
    assert_eq!(b.output.html.git_repository_url.as_deref(), Some("https://example.com/repo/tree/main"));
    assert_eq!(b.output.html.additional_css, vec!["mdbook-protobuf.css".to_string()]);
    assert_eq!(b.output.html.search.limit_results, 20);
    assert_eq!(b.output.html.search.boost_paragraph, 1);
    assert!(b.output.html.playground.runnable);
    assert_eq!(b.output.html.fold.level, 0);
    assert!(!b.build.create_missing);
    assert_eq!(b.preprocessor.protobuf.nest_under, "Protocol");
    assert_eq!(b.preprocessor.kroki_preprocessor.after, vec!["autosummary".to_string()]);
}

#[test]
fn subcommands_select_tasks() {
    assert_eq!(task_for(None), Some(Task::Ci));
    assert_eq!(task_for(Some("ci")), Some(Task::Ci));
    assert_eq!(task_for(Some("vars")), Some(Task::Vars));
    assert_eq!(task_for(Some("install")), Some(Task::Install));
    assert_eq!(task_for(Some("generate")), Some(Task::Generate));
    assert_eq!(task_for(Some("coverage")), None);
}

#[test]
fn install_command_lines() {
    assert_eq!(binstall("mdbook"), vec!["cargo", "binstall", "-y", "mdbook"]);
    let cmds = install();
    assert_eq!(cmds.len(), 9);
    assert_eq!(cmds[0], vec!["cargo", "install", "cargo-binstall"]);
    assert_eq!(cmds[8], vec!["cargo", "binstall", "-y", "cargo-modules"]);
}

#[test]
fn book_plan_files() {
    let plan = book_plan("/w", &sample_config(), "[book]\n".to_string());
    assert_eq!(plan.dirs, vec!["/w/book", "/w/book/src"]);
    assert_eq!(plan.files[0].path, "/w/book/book.toml");
    assert_eq!(plan.files[0].contents, "[book]\n");
    assert_eq!(plan.files[1].path, "/w/book/src/SUMMARY.md");
    assert_eq!(plan.files[1].contents, "# SUMMARY\n\n- [readme](<README.md>)\n");
    assert_eq!(plan.files[2].contents, "# README\n\nhi\n");
    assert_eq!(plan.files[3].path, "/w/book/.gitignore");
}
