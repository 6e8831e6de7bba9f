use script_launcher::config::{CommandConfig, ScriptConfig};
use script_launcher::migrate::migrate_script_config;

fn legacy_script(commands: Vec<CommandConfig>, legacy: Option<&str>, created_at: i64) -> ScriptConfig {
    ScriptConfig {
        id: "s1".to_string(),
        name: "demo".to_string(),
        icon: None,
        working_dir: "/tmp".to_string(),
        commands,
        command: legacy.map(|s| s.to_string()),
        description: None,
        created_at,
        updated_at: created_at,
    }
}

#[test]
fn migrates_legacy_command_into_list() {
    let mut s = legacy_script(vec![], Some("npm start"), 1000);
    migrate_script_config(&mut s);
    assert_eq!(s.commands.len(), 1);
    assert_eq!(s.commands[0].id, "cmd-1000");
    assert_eq!(s.commands[0].name, "默认");
    assert_eq!(s.commands[0].command, "npm start");
    assert!(s.command.is_none());
}

#[test]
fn migration_is_idempotent_on_output() {
    let mut s = legacy_script(vec![], Some("npm start"), 1000);
    migrate_script_config(&mut s);
    let first_commands: Vec<(String, String, String)> = s
        .commands
        .iter()
        .map(|c| (c.id.clone(), c.name.clone(), c.command.clone()))
        .collect();
    migrate_script_config(&mut s);
    let second_commands: Vec<(String, String, String)> = s
        .commands
        .iter()
        .map(|c| (c.id.clone(), c.name.clone(), c.command.clone()))
        .collect();
    assert_eq!(first_commands, second_commands);
    assert!(s.command.is_none());
}

#[test]
fn independent_migrations_of_same_input_agree() {
    let mut a = legacy_script(vec![], Some("cargo run"), 42);
    let mut b = legacy_script(vec![], Some("cargo run"), 42);
    migrate_script_config(&mut a);
    migrate_script_config(&mut b);
    assert_eq!(a.commands.len(), 1);
    assert_eq!(b.commands.len(), 1);
    assert_eq!(a.commands[0].id, b.commands[0].id);
    assert_eq!(a.commands[0].name, b.commands[0].name);
    assert_eq!(a.commands[0].command, b.commands[0].command);
}

#[test]
fn stale_legacy_value_is_cleared_without_touching_commands() {
    let existing = CommandConfig {
        id: "c9".to_string(),
        name: "run".to_string(),
        command: "make".to_string(),
    };
    let mut s = legacy_script(vec![existing], Some("stale"), 7);
    migrate_script_config(&mut s);
    assert_eq!(s.commands.len(), 1);
    assert_eq!(s.commands[0].id, "c9");
    assert_eq!(s.commands[0].command, "make");
    assert!(s.command.is_none());
}

#[test]
fn negative_created_at_gives_signed_id() {
    let mut s = legacy_script(vec![], Some("ls"), -12);
    migrate_script_config(&mut s);
    assert_eq!(s.commands[0].id, "cmd--12");
}

#[test]
fn no_legacy_and_no_commands_stays_empty() {
    let mut s = legacy_script(vec![], None, 1);
    migrate_script_config(&mut s);
    assert!(s.commands.is_empty());
    assert!(s.command.is_none());
}
