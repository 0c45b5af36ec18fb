use mtc_config::capability::{finish_load, load_contents, recover, save_plan, ReadOutcome, Recovery};
use mtc_config::descriptor::{derive_configuration, ConfigDescriptor, ConfigOption};
use mtc_config::error::ConfigError;
use mtc_config::format::ConfigFormat;

const CONFIGS_DIR: &str = "/tmp/mtc_config_tests/configs";

#[derive(Debug, Default, Clone, PartialEq)]
struct TestConfig {
    name: String,
    value: i32,
    enabled: bool,
}

#[derive(Debug, Default, Clone, PartialEq)]
struct CustomNameConfig {
    custom_field: String,
}

fn option(key: &str, value: &str) -> ConfigOption {
    ConfigOption { key: key.to_string(), value: value.to_string() }
}

fn descriptor(record: &str, options: &[(&str, &str)]) -> ConfigDescriptor {
    let opts: Vec<ConfigOption> = options.iter().map(|(k, v)| option(k, v)).collect();
    derive_configuration(record, &opts).expect("options are supported")
}

fn encode(c: &TestConfig) -> String {
    let mut t = toml::Table::new();
    t.insert("name".to_string(), toml::Value::String(c.name.clone()));
    t.insert("value".to_string(), toml::Value::Integer(c.value as i64));
    t.insert("enabled".to_string(), toml::Value::Boolean(c.enabled));
    toml::to_string(&t).unwrap()
}

fn decode(text: &str) -> Result<TestConfig, String> {
    let t: toml::Table = toml::from_str(text).map_err(|e| e.to_string())?;
    let name = t.get("name").and_then(|v| v.as_str()).ok_or("missing name")?;
    let value = t.get("value").and_then(|v| v.as_integer()).ok_or("missing value")?;
    let enabled = t.get("enabled").and_then(|v| v.as_bool()).ok_or("missing enabled")?;
    Ok(TestConfig { name: name.to_string(), value: value as i32, enabled })
}

/// Loads through the library's decisions, given what the file holds.
fn load(d: &ConfigDescriptor, file: Option<&str>) -> Result<TestConfig, ConfigError> {
    let path = d.default_path(CONFIGS_DIR);
    let read = match file {
        None => ReadOutcome::Absent,
        Some(t) => ReadOutcome::Contents(t.to_string()),
    };
    let text = load_contents(path, read)?;
    finish_load(decode(&text))
}

/// Load-or-default through the library's decisions; returns the value and
/// what the file holds afterwards.
fn load_or_default(d: &ConfigDescriptor, file: Option<String>) -> (TestConfig, Option<String>) {
    match recover(load(d, file.as_deref())) {
        Recovery::Loaded(v) => (v, file),
        Recovery::Missing => {
            let v = TestConfig::default();
            let written = encode(&v);
            (v, Some(written))
        }
        Recovery::Corrupt(_) => (TestConfig::default(), file),
    }
}

#[test]
fn test_save_and_load() {
    let d = descriptor("TestConfigForSaveLoad", &[("name", "test_config_3")]);
    let config = TestConfig { name: "Test".to_string(), value: 42, enabled: true };
    let plan = save_plan(&d, CONFIGS_DIR);
    assert_eq!(plan.format, ConfigFormat::Toml);
    assert!(plan.path.ends_with("test_config_3.toml"));
    let written = encode(&config);
    println!("Saved config content:\n{}", written);
    let loaded = load(&d, Some(&written)).expect("Failed to load config");
    assert_eq!(config, loaded, "Loaded config doesn't match saved config");
}

#[test]
fn test_load_nonexistent() {
    let d = descriptor("NonexistentConfig", &[("name", "nonexistent_config")]);
    let result = load(&d, None);
    assert!(matches!(result, Err(ConfigError::NotFound(_))));
}

#[test]
fn test_load_or_default() {
    let d = descriptor("TestConfig", &[("name", "test_config_1")]);
    let (config, file) = load_or_default(&d, None);
    assert_eq!(config, TestConfig::default());
    assert!(file.is_some(), "Config file was not created by load_or_default");
    let (loaded_config, _) = load_or_default(&d, file);
    assert_eq!(
        loaded_config,
        TestConfig::default(),
        "Second load_or_default should still return the default config"
    );
}

#[test]
fn test_custom_config_name() {
    let d = descriptor("CustomNameConfig", &[("name", "custom_config")]);
    let config = CustomNameConfig { custom_field: "Custom Value".to_string() };
    assert_eq!(config.custom_field, "Custom Value");
    let plan = save_plan(&d, CONFIGS_DIR);
    let file_name = plan.path.rsplit('/').next().unwrap();
    assert!(file_name.contains("custom_config"));
    assert_eq!(plan.dir.as_deref(), Some(CONFIGS_DIR));
}

#[test]
fn test_load_or_default_with_modification() {
    let d = descriptor("TestConfigForModification", &[("name", "test_config_2")]);
    let modified_config = TestConfig { name: "Test".to_string(), value: 42, enabled: true };
    let file = Some(encode(&modified_config));
    let (loaded_config, _) = load_or_default(&d, file);
    assert_eq!(loaded_config.name, "Test");
    assert_eq!(loaded_config.value, 42);
    assert!(loaded_config.enabled);
}

#[test]
fn test_custom_format() {
    let d = descriptor("JsonFormatConfig", &[("name", "json_config"), ("format", "json")]);
    let plan = save_plan(&d, CONFIGS_DIR);
    assert!(plan.path.rsplit('.').next().unwrap() == "json");
    assert_eq!(plan.format, ConfigFormat::Json);
}

#[test]
fn test_config_format_default() {
    assert_eq!(ConfigFormat::default(), ConfigFormat::Toml);
}

#[test]
fn test_config_format_from_string() {
    assert_eq!(ConfigFormat::from("json"), ConfigFormat::Json);
    assert_eq!(ConfigFormat::from("toml"), ConfigFormat::Toml);
    assert_eq!(ConfigFormat::from("yaml"), ConfigFormat::Yaml);
    assert_eq!(ConfigFormat::from("unknown"), ConfigFormat::Toml);
}

#[test]
fn format_from_owned_string_and_names() {
    assert_eq!(ConfigFormat::from("yaml".to_string()), ConfigFormat::Yaml);
    assert_eq!(ConfigFormat::from("unknown-string".to_string()), ConfigFormat::Toml);
    assert_eq!(ConfigFormat::Json.to_string(), "json");
    assert_eq!(ConfigFormat::Toml.extension(), "toml");
    assert_eq!(ConfigFormat::Yaml.to_string(), "yaml");
}

#[test]
fn default_name_is_lowercased_record_name() {
    let d = descriptor("TestConfig", &[]);
    assert_eq!(d.config_name(), "testconfig");
    assert_eq!(d.format(), ConfigFormat::Toml);
    assert_eq!(d.file_name(), "testconfig.toml");
}

#[test]
fn unknown_option_key_is_refused() {
    let opts = vec![option("name", "x"), option("colour", "red"), option("other", "y")];
    let r = derive_configuration("Rec", &opts);
    assert_eq!(r, Err(mtc_config::descriptor::DeriveError::UnsupportedOption("colour".to_string())));
}

#[test]
fn unknown_format_value_is_unset() {
    let d = descriptor("Rec", &[("format", "json"), ("format", "xml")]);
    assert_eq!(d.format(), ConfigFormat::Toml);
    let d = descriptor("Rec", &[("format", "yaml")]);
    assert_eq!(d.default_path("/etc/app"), "/etc/app/rec.yaml");
}

#[test]
fn later_name_option_wins() {
    let d = descriptor("Rec", &[("name", "first"), ("name", "second")]);
    assert_eq!(d.config_name(), "second");
}

#[test]
fn explicit_descriptor_paths() {
    let d = ConfigDescriptor::new("app_config".to_string(), ConfigFormat::Json);
    assert_eq!(d.default_path("configs/"), "configs/app_config.json");
    assert_eq!(d.default_path(""), "app_config.json");
}

#[test]
fn concrete_scenario_round_trip_in_toml() {
    let d = descriptor("TestConfigForSaveLoad", &[("name", "test_config_3")]);
    let plan = save_plan(&d, CONFIGS_DIR);
    assert_eq!(plan.path, format!("{}/test_config_3.toml", CONFIGS_DIR));
    let v = TestConfig { name: "Test".to_string(), value: 42, enabled: true };
    let back = load(&d, Some(&encode(&v))).unwrap();
    assert_eq!((back.name.as_str(), back.value, back.enabled), ("Test", 42, true));
}

#[test]
fn corrupt_file_is_left_unchanged() {
    let d = descriptor("TestConfig", &[("name", "corrupt_config")]);
    let malformed = "name = = broken [".to_string();
    let (value, file) = load_or_default(&d, Some(malformed.clone()));
    assert_eq!(value, TestConfig::default());
    assert_eq!(file, Some(malformed));
}

#[test]
fn unreadable_file_is_corrupt_not_missing() {
    let r = recover(load_contents("/x/a.toml".to_string(), ReadOutcome::Failed("denied".to_string())));
    assert_eq!(r, Recovery::Corrupt(ConfigError::Io("denied".to_string())));
}

#[test]
fn decode_failure_is_deserialization() {
    let r: Result<i32, ConfigError> = finish_load(Err("bad".to_string()));
    assert_eq!(r, Err(ConfigError::Deserialization("bad".to_string())));
    let r = recover(r);
    assert!(matches!(r, Recovery::Corrupt(ConfigError::Deserialization(_))));
}

#[test]
fn missing_file_carries_path() {
    let d = descriptor("Rec", &[]);
    let path = d.default_path(CONFIGS_DIR);
    let r = load_contents(path.clone(), ReadOutcome::Absent);
    assert_eq!(r, Err(ConfigError::NotFound(format!("{}/rec.toml", CONFIGS_DIR))));
    assert_eq!(recover::<i32>(Err(ConfigError::NotFound(path))), Recovery::Missing);
}
