use script_launcher::launch::{
    autostart_action, build_launch_plan, config_file_path, execute_outcome, folder_open_program,
    no_selection_message, resolve_directory_pick, AutostartAction, PickResult, Platform,
};

#[test]
fn posix_plan_spawns_a_shell_in_the_working_directory() {
    let plan = build_launch_plan(Platform::Linux, "/tmp", "echo hi");
    assert_eq!(plan.program, "sh");
    assert_eq!(plan.args, vec!["-c".to_string(), "echo hi".to_string()]);
    assert_eq!(plan.cwd.as_deref(), Some("/tmp"));
}

#[test]
fn macos_plan_matches_the_posix_shape() {
    let plan = build_launch_plan(Platform::Macos, "/srv", "ls");
    assert_eq!(plan.program, "sh");
    assert_eq!(plan.args, vec!["-c".to_string(), "ls".to_string()]);
    assert_eq!(plan.cwd.as_deref(), Some("/srv"));
}

#[test]
fn windowed_plan_opens_a_persistent_shell_window() {
    let plan = build_launch_plan(Platform::Windows, "C:\\work", "npm start");
    assert_eq!(plan.program, "cmd");
    assert_eq!(
        plan.args,
        vec![
            "/C".to_string(),
            "start".to_string(),
            "powershell".to_string(),
            "-NoExit".to_string(),
            "-Command".to_string(),
            "Set-Location 'C:\\work'; npm start".to_string(),
        ]
    );
    assert!(plan.cwd.is_none());
}

#[test]
fn successful_spawn_reports_started_regardless_of_command_fate() {
    let r = execute_outcome(Ok(()));
    assert_eq!(r.unwrap(), "脚本已启动");
}

#[test]
fn failed_spawn_reports_the_system_error() {
    let r = execute_outcome(Err("No such file or directory".to_string()));
    assert_eq!(r.unwrap_err(), "执行失败: No such file or directory");
}

#[test]
fn dismissing_the_picker_is_a_cancellation_not_an_error() {
    match resolve_directory_pick(None) {
        PickResult::Cancelled => {}
        PickResult::Picked(p) => panic!("unexpected pick {}", p),
    }
    assert_eq!(no_selection_message(), "未选择目录");
}

#[test]
fn picking_a_directory_returns_it() {
    match resolve_directory_pick(Some("/home/u/proj".to_string())) {
        PickResult::Picked(p) => assert_eq!(p, "/home/u/proj"),
        PickResult::Cancelled => panic!("unexpected cancellation"),
    }
}

#[test]
fn autostart_actions_follow_the_requested_state() {
    assert_eq!(autostart_action(true), AutostartAction::Enable);
    assert_eq!(autostart_action(false), AutostartAction::Disable);
}

#[test]
fn folder_open_programs_per_platform() {
    assert_eq!(folder_open_program(Platform::Windows), "explorer");
    assert_eq!(folder_open_program(Platform::Macos), "open");
    assert_eq!(folder_open_program(Platform::Linux), "xdg-open");
}

#[test]
fn config_path_is_the_fixed_file_in_the_data_directory() {
    assert_eq!(
        config_file_path(Platform::Linux, "/home/u/.local/share/app"),
        "/home/u/.local/share/app/config.json"
    );
    assert_eq!(
        config_file_path(Platform::Windows, "C:\\Users\\u\\AppData\\Roaming\\app"),
        "C:\\Users\\u\\AppData\\Roaming\\app\\config.json"
    );
    assert_eq!(config_file_path(Platform::Macos, "/tmp"), "/tmp/config.json");
}
