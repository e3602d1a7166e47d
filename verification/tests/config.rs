use resolver_hook::config::serialize_params;
use resolver_hook::{ConfigFault, ErrorKind, HookConfig, HookError};

fn sample_params() -> toml::Value {
    let mut rules = toml::value::Table::new();
    rules.insert(
        "deny".to_string(),
        toml::Value::Array(vec![toml::Value::String("left-pad".to_string())]),
    );
    let mut table = toml::value::Table::new();
    table.insert("level".to_string(), toml::Value::Integer(3));
    table.insert("rules".to_string(), toml::Value::Table(rules));
    toml::Value::Table(table)
}

/// A value that the serialiser refuses: a plain value that follows a table.
fn unwritable_params() -> toml::Value {
    let mut inner = toml::value::Table::new();
    inner.insert("k".to_string(), toml::Value::Integer(1));
    let nested = toml::Value::Array(vec![toml::Value::Array(vec![toml::Value::Table(inner)])]);
    let mut outer = toml::value::Table::new();
    outer.insert("a".to_string(), nested);
    outer.insert("b".to_string(), toml::Value::Integer(1));
    toml::Value::Table(outer)
}

#[test]
fn process_config_from_fields() {
    let config = HookConfig::from_fields(Some("process"), Some("/usr/bin/oracle".to_string()), None);
    assert_eq!(config, Ok(HookConfig::Process { path: "/usr/bin/oracle".to_string() }));
    assert_eq!(config.unwrap().path(), "/usr/bin/oracle");
}

#[test]
fn process_config_drops_params() {
    let config =
        HookConfig::from_fields(Some("process"), Some("oracle".to_string()), Some(sample_params()));
    assert_eq!(config, Ok(HookConfig::Process { path: "oracle".to_string() }));
}

#[test]
fn plugin_config_from_fields() {
    let config =
        HookConfig::from_fields(Some("plugin"), Some("libhook.so".to_string()), Some(sample_params()));
    assert_eq!(
        config,
        Ok(HookConfig::Plugin { path: "libhook.so".to_string(), params: Some(sample_params()) })
    );
    let bare = HookConfig::from_fields(Some("plugin"), Some("libhook.so".to_string()), None);
    assert_eq!(bare, Ok(HookConfig::Plugin { path: "libhook.so".to_string(), params: None }));
    assert_eq!(bare.unwrap().path(), "libhook.so");
}

#[test]
fn unknown_kind_is_a_config_error() {
    let config = HookConfig::from_fields(Some("socket"), Some("/run/hook".to_string()), None);
    assert_eq!(
        config,
        Err(HookError::Config { fault: ConfigFault::UnknownKind, detail: "socket".to_string() })
    );
    assert_eq!(config.unwrap_err().kind(), ErrorKind::Config);
}

#[test]
fn kind_tags_are_lower_case() {
    for tag in ["Process", "PLUGIN", "Plugin", "", " process", "plugin "] {
        let config = HookConfig::from_fields(Some(tag), Some("p".to_string()), None);
        assert_eq!(
            config,
            Err(HookError::Config { fault: ConfigFault::UnknownKind, detail: tag.to_string() })
        );
    }
}

#[test]
fn unknown_kind_comes_before_missing_path() {
    let config = HookConfig::from_fields(Some("socket"), None, None);
    assert_eq!(
        config,
        Err(HookError::Config { fault: ConfigFault::UnknownKind, detail: "socket".to_string() })
    );
}

#[test]
fn plugin_without_path_is_a_config_error() {
    let config = HookConfig::from_fields(Some("plugin"), None, Some(sample_params()));
    assert_eq!(
        config,
        Err(HookError::Config { fault: ConfigFault::MissingPath, detail: "plugin".to_string() })
    );
}

#[test]
fn process_without_path_is_a_config_error() {
    let config = HookConfig::from_fields(Some("process"), None, None);
    assert_eq!(
        config,
        Err(HookError::Config { fault: ConfigFault::MissingPath, detail: "process".to_string() })
    );
}

#[test]
fn missing_kind_is_a_config_error() {
    let config = HookConfig::from_fields(None, Some("p".to_string()), None);
    assert_eq!(
        config,
        Err(HookError::Config { fault: ConfigFault::MissingKind, detail: String::new() })
    );
}

#[test]
fn absent_params_give_the_empty_text() {
    assert_eq!(serialize_params("libhook.so", &None), Ok(String::new()));
}

#[test]
fn params_are_written_as_toml() {
    assert_eq!(
        serialize_params("libhook.so", &Some(sample_params())),
        Ok("level = 3\n\n[rules]\ndeny = [\"left-pad\"]\n".to_string())
    );
}

#[test]
fn unwritable_params_are_a_config_error() {
    assert_eq!(
        serialize_params("libhook.so", &Some(unwritable_params())),
        Err(HookError::Config { fault: ConfigFault::Params, detail: "libhook.so".to_string() })
    );
}

#[test]
fn setting_and_fields_are_named() {
    assert_eq!(resolver_hook::config::SETTING, "resolver_hook");
    assert_eq!(resolver_hook::config::KIND_FIELD, "kind");
    assert_eq!(resolver_hook::config::PATH_FIELD, "path");
    assert_eq!(resolver_hook::config::PARAMS_FIELD, "params");
}

#[test]
fn config_from_a_parsed_document() {
    let document: toml::Value = "[resolver_hook]\nkind = \"plugin\"\npath = \"libhook.so\"\n\n[resolver_hook.params]\nlevel = 3\n"
        .parse()
        .unwrap();
    let setting = document.get(resolver_hook::config::SETTING).unwrap();
    let config = HookConfig::from_fields(
        setting.get(resolver_hook::config::KIND_FIELD).and_then(|v| v.as_str()),
        setting.get(resolver_hook::config::PATH_FIELD).and_then(|v| v.as_str()).map(String::from),
        setting.get(resolver_hook::config::PARAMS_FIELD).cloned(),
    )
    .unwrap();
    assert_eq!(config.path(), "libhook.so");
    match &config {
        HookConfig::Plugin { params, .. } => {
            assert_eq!(serialize_params("libhook.so", params), Ok("level = 3\n".to_string()))
        }
        other => panic!("not a plugin: {:?}", other),
    }
}
