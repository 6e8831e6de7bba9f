use script_launcher::config::{AppConfig, CommandConfig, ScriptConfig, SnippetConfig};
use script_launcher::store::{load_config_from, save_config_string, LoadError};

#[test]
fn missing_file_yields_exact_default() {
    let c = load_config_from(None).unwrap();
    assert_eq!(c.theme, "dark");
    assert!(c.scripts.is_empty());
    assert!(c.snippets.is_empty());
    assert_eq!(c.version, "1.0.0");
}

#[test]
fn default_renders_to_expected_text() {
    let c = load_config_from(None).unwrap();
    let text = save_config_string(&c);
    let expected = "{\n  \"theme\": \"dark\",\n  \"scripts\": [],\n  \"snippets\": [],\n  \"version\": \"1.0.0\"\n}";
    assert_eq!(text, expected);
}

fn sample_config() -> AppConfig {
    AppConfig {
        theme: "light".to_string(),
        scripts: vec![ScriptConfig {
            id: "s1".to_string(),
            name: "Build".to_string(),
            icon: None,
            working_dir: "/tmp".to_string(),
            commands: vec![CommandConfig {
                id: "c1".to_string(),
                name: "default".to_string(),
                command: "make".to_string(),
            }],
            command: None,
            description: Some("demo".to_string()),
            created_at: 1000,
            updated_at: 2000,
        }],
        snippets: vec![SnippetConfig {
            id: "n1".to_string(),
            title: "T".to_string(),
            content: "hello".to_string(),
            category: None,
            description: None,
            created_at: 5,
            updated_at: 6,
            usage_count: 0,
        }],
        version: "1.0.0".to_string(),
    }
}

#[test]
fn full_document_renders_exactly() {
    let text = save_config_string(&sample_config());
    let mut expected = String::new();
    expected.push_str("{\n");
    expected.push_str("  \"theme\": \"light\",\n");
    expected.push_str("  \"scripts\": [\n");
    expected.push_str("    {\n");
    expected.push_str("      \"id\": \"s1\",\n");
    expected.push_str("      \"name\": \"Build\",\n");
    expected.push_str("      \"icon\": null,\n");
    expected.push_str("      \"workingDir\": \"/tmp\",\n");
    expected.push_str("      \"commands\": [\n");
    expected.push_str("        {\n");
    expected.push_str("          \"id\": \"c1\",\n");
    expected.push_str("          \"name\": \"default\",\n");
    expected.push_str("          \"command\": \"make\"\n");
    expected.push_str("        }\n");
    expected.push_str("      ],\n");
    expected.push_str("      \"description\": \"demo\",\n");
    expected.push_str("      \"createdAt\": 1000,\n");
    expected.push_str("      \"updatedAt\": 2000\n");
    expected.push_str("    }\n");
    expected.push_str("  ],\n");
    expected.push_str("  \"snippets\": [\n");
    expected.push_str("    {\n");
    expected.push_str("      \"id\": \"n1\",\n");
    expected.push_str("      \"title\": \"T\",\n");
    expected.push_str("      \"content\": \"hello\",\n");
    expected.push_str("      \"category\": null,\n");
    expected.push_str("      \"description\": null,\n");
    expected.push_str("      \"createdAt\": 5,\n");
    expected.push_str("      \"updatedAt\": 6,\n");
    expected.push_str("      \"usageCount\": 0\n");
    expected.push_str("    }\n");
    expected.push_str("  ],\n");
    expected.push_str("  \"version\": \"1.0.0\"\n");
    expected.push_str("}");
    assert_eq!(text, expected);
}

#[test]
fn save_load_save_is_byte_identical() {
    let first = save_config_string(&sample_config());
    let reloaded = load_config_from(Some(&first)).unwrap();
    let second = save_config_string(&reloaded);
    assert_eq!(first, second);
    let reloaded_again = load_config_from(Some(&second)).unwrap();
    let third = save_config_string(&reloaded_again);
    assert_eq!(second, third);
}

#[test]
fn loading_saved_legacy_document_migrates_it() {
    let mut text = String::new();
    text.push_str("{\n");
    text.push_str("  \"theme\": \"dark\",\n");
    text.push_str("  \"scripts\": [\n");
    text.push_str("    {\n");
    text.push_str("      \"id\": \"s1\",\n");
    text.push_str("      \"name\": \"Old\",\n");
    text.push_str("      \"workingDir\": \"/srv\",\n");
    text.push_str("      \"command\": \"npm start\",\n");
    text.push_str("      \"createdAt\": 1000,\n");
    text.push_str("      \"updatedAt\": 1000\n");
    text.push_str("    }\n");
    text.push_str("  ],\n");
    text.push_str("  \"version\": \"1.0.0\"\n");
    text.push_str("}");
    let c = load_config_from(Some(&text)).unwrap();
    assert_eq!(c.scripts.len(), 1);
    let s = &c.scripts[0];
    assert_eq!(s.commands.len(), 1);
    assert_eq!(s.commands[0].id, "cmd-1000");
    assert_eq!(s.commands[0].name, "默认");
    assert_eq!(s.commands[0].command, "npm start");
    assert!(s.command.is_none());
    assert!(s.icon.is_none());
    assert!(s.description.is_none());
    assert!(c.snippets.is_empty());
}

#[test]
fn invalid_json_is_a_syntax_error_not_a_default() {
    let r = load_config_from(Some("{ not json"));
    match r {
        Err(LoadError::Syntax(_)) => {}
        other => panic!("expected a syntax error, got {:?}", other.map(|c| c.theme)),
    }
}

#[test]
fn truncated_json_is_a_syntax_error() {
    let r = load_config_from(Some("{\"theme\": \"dark\", \"scripts\": ["));
    assert!(matches!(r, Err(LoadError::Syntax(_))));
}

#[test]
fn trailing_garbage_is_a_syntax_error() {
    let r = load_config_from(Some("{\"theme\": \"d\", \"scripts\": [], \"version\": \"1\"} x"));
    assert!(matches!(r, Err(LoadError::Syntax(_))));
}

#[test]
fn missing_scripts_field_is_a_schema_error() {
    let r = load_config_from(Some("{\"theme\": \"dark\", \"version\": \"1.0.0\"}"));
    assert_eq!(r.unwrap_err(), LoadError::Schema);
}

#[test]
fn wrong_theme_type_is_a_schema_error() {
    let r = load_config_from(Some("{\"theme\": 3, \"scripts\": [], \"version\": \"1.0.0\"}"));
    assert_eq!(r.unwrap_err(), LoadError::Schema);
}

#[test]
fn duplicate_known_field_is_a_schema_error() {
    let r = load_config_from(Some(
        "{\"theme\": \"a\", \"theme\": \"b\", \"scripts\": [], \"version\": \"1.0.0\"}",
    ));
    assert_eq!(r.unwrap_err(), LoadError::Schema);
}

#[test]
fn unknown_fields_are_ignored() {
    let c = load_config_from(Some(
        "{\"theme\": \"dark\", \"scripts\": [], \"version\": \"2\", \"extra\": {\"a\": [1, true, null]}}",
    ))
    .unwrap();
    assert_eq!(c.theme, "dark");
    assert_eq!(c.version, "2");
}

#[test]
fn snippets_default_to_empty_when_absent() {
    let c = load_config_from(Some("{\"theme\": \"dark\", \"scripts\": [], \"version\": \"1\"}"))
        .unwrap();
    assert!(c.snippets.is_empty());
}

#[test]
fn usage_count_beyond_i32_is_a_schema_error() {
    let mut text = String::new();
    text.push_str("{\"theme\": \"d\", \"scripts\": [], \"version\": \"1\", \"snippets\": [");
    text.push_str("{\"id\": \"n\", \"title\": \"t\", \"content\": \"c\", ");
    text.push_str("\"createdAt\": 1, \"updatedAt\": 1, \"usageCount\": 2147483648}]}");
    assert_eq!(load_config_from(Some(&text)).unwrap_err(), LoadError::Schema);
}

#[test]
fn string_escapes_round_trip() {
    let mut c = sample_config();
    c.theme = "a\"b\\c\nd\te\u{1}f中".to_string();
    let text = save_config_string(&c);
    assert!(text.contains("a\\\"b\\\\c\\nd\\te\\u0001f中"));
    let back = load_config_from(Some(&text)).unwrap();
    assert_eq!(back.theme, c.theme);
}

#[test]
fn unicode_escape_and_surrogate_pair_parse() {
    let c = load_config_from(Some(
        "{\"theme\": \"\\u0041\\uD83D\\uDE00\", \"scripts\": [], \"version\": \"1\"}",
    ))
    .unwrap();
    assert_eq!(c.theme, "A😀");
}

#[test]
fn fractional_number_in_unknown_field_is_tolerated() {
    let c = load_config_from(Some(
        "{\"theme\": \"d\", \"scripts\": [], \"version\": \"1\", \"x\": 1.5e3}",
    ))
    .unwrap();
    assert_eq!(c.theme, "d");
}

#[test]
fn huge_number_in_unknown_field_is_tolerated() {
    let c = load_config_from(Some(
        "{\"theme\": \"d\", \"scripts\": [], \"version\": \"1\", \"x\": 99999999999999999999999}",
    ))
    .unwrap();
    assert_eq!(c.theme, "d");
}

#[test]
fn fractional_timestamp_is_a_schema_error() {
    let mut text = String::new();
    text.push_str("{\"theme\": \"d\", \"version\": \"1\", \"scripts\": [");
    text.push_str("{\"id\": \"s\", \"name\": \"n\", \"workingDir\": \"/\", ");
    text.push_str("\"createdAt\": 1.5, \"updatedAt\": 1}]}");
    assert_eq!(load_config_from(Some(&text)).unwrap_err(), LoadError::Schema);
}

#[test]
fn leading_zero_is_a_syntax_error() {
    let r = load_config_from(Some(
        "{\"theme\": \"d\", \"scripts\": [], \"version\": \"1\", \"x\": 01}",
    ));
    assert!(matches!(r, Err(LoadError::Syntax(_))));
}

#[test]
fn bare_exponent_is_a_syntax_error() {
    let r = load_config_from(Some(
        "{\"theme\": \"d\", \"scripts\": [], \"version\": \"1\", \"x\": 1e}",
    ));
    assert!(matches!(r, Err(LoadError::Syntax(_))));
}

#[test]
fn negative_timestamps_round_trip() {
    let mut c = sample_config();
    c.scripts[0].created_at = -9223372036854775808;
    c.scripts[0].updated_at = -1;
    let text = save_config_string(&c);
    assert!(text.contains("\"createdAt\": -9223372036854775808"));
    let back = load_config_from(Some(&text)).unwrap();
    assert_eq!(back.scripts[0].created_at, i64::MIN);
    assert_eq!(back.scripts[0].updated_at, -1);
}

#[test]
fn empty_strings_round_trip() {
    let mut c = sample_config();
    c.theme = String::new();
    c.scripts[0].name = String::new();
    let text = save_config_string(&c);
    assert!(text.contains("\"theme\": \"\""));
    let back = load_config_from(Some(&text)).unwrap();
    assert_eq!(back.theme, "");
    assert_eq!(back.scripts[0].name, "");
}

#[test]
fn non_object_script_entry_is_a_schema_error() {
    let r = load_config_from(Some(
        "{\"theme\": \"d\", \"scripts\": [7], \"version\": \"1\"}",
    ));
    assert_eq!(r.unwrap_err(), LoadError::Schema);
}

#[test]
fn non_array_commands_value_is_a_schema_error() {
    let mut text = String::new();
    text.push_str("{\"theme\": \"d\", \"version\": \"1\", \"scripts\": [");
    text.push_str("{\"id\": \"s\", \"name\": \"n\", \"workingDir\": \"/\", ");
    text.push_str("\"commands\": 5, \"createdAt\": 1, \"updatedAt\": 1}]}");
    assert_eq!(load_config_from(Some(&text)).unwrap_err(), LoadError::Schema);
}

#[test]
fn surrounding_whitespace_is_tolerated() {
    let c = load_config_from(Some(
        "\n\t {\r\n\"theme\" : \"d\" ,\n \"scripts\" : [ ] , \"version\" : \"1\" }\n ",
    ))
    .unwrap();
    assert_eq!(c.theme, "d");
    assert!(c.scripts.is_empty());
}

#[test]
fn null_for_required_string_is_a_schema_error() {
    let r = load_config_from(Some(
        "{\"theme\": null, \"scripts\": [], \"version\": \"1\"}",
    ));
    assert_eq!(r.unwrap_err(), LoadError::Schema);
}
