//! Planning of command execution and the other platform decisions: which
//! process to start for a script and with what arguments, which program
//! opens a folder, how a directory pick and an autostart switch resolve.
//! The caller spawns the processes; the decisions are made and verified
//! here.

use vstd::prelude::*;

verus! {

/// The build target the caller runs on.
#[derive(Clone, Copy, PartialEq, Eq, Structural, Debug)]
pub enum Platform {
    /// The windowed platform: scripts open a persistent visible shell
    /// window.
    Windows,
    Macos,
    Linux,
}

/// A process to start: program, arguments in order, and an optional
/// working directory to start it in.
pub struct LaunchPlan {
    pub program: String,
    pub args: Vec<String>,
    pub cwd: Option<String>,
}

/// The command string handed to the windowed platform's shell: change to
/// the working directory, then run the command.
pub open spec fn windowed_command(working_dir: Seq<char>, command: Seq<char>) -> Seq<char> {
    "Set-Location '"@ + working_dir + "'; "@ + command
}

/// The program of the plan for each platform.
pub open spec fn plan_program(p: Platform) -> Seq<char> {
    match p {
        Platform::Windows => "cmd"@,
        _ => "sh"@,
    }
}

/// The argument list of the plan for each platform.
pub open spec fn plan_args(p: Platform, working_dir: Seq<char>, command: Seq<char>) -> Seq<
    Seq<char>,
> {
    match p {
        Platform::Windows => seq![
            "/C"@,
            "start"@,
            "powershell"@,
            "-NoExit"@,
            "-Command"@,
            windowed_command(working_dir, command),
        ],
        _ => seq!["-c"@, command],
    }
}

/// The working directory of the plan: the windowed shell changes directory
/// itself, every other platform starts the shell in the directory.
pub open spec fn plan_cwd(p: Platform, working_dir: Seq<char>) -> Option<Seq<char>> {
    match p {
        Platform::Windows => Option::None,
        _ => Option::Some(working_dir),
    }
}

impl View for LaunchPlan {
    type V = (Seq<char>, Seq<Seq<char>>, Option<Seq<char>>);

    open spec fn view(&self) -> (Seq<char>, Seq<Seq<char>>, Option<Seq<char>>) {
        (
            self.program@,
            self.args@.map_values(|a: String| a@),
            crate::config::view_opt_string(self.cwd),
        )
    }
}

/// Builds the fire-and-forget launch plan for a script: on the windowed
/// platform a new visible shell window that changes to the working
/// directory, runs the command and stays open; elsewhere a POSIX shell
/// started in the working directory.
pub fn build_launch_plan(platform: Platform, working_dir: &str, command: &str) -> (plan:
    LaunchPlan)
    ensures
        plan@.0 == plan_program(platform),
        plan@.1 == plan_args(platform, working_dir@, command@),
        plan@.2 == plan_cwd(platform, working_dir@),
{
    match platform {
        Platform::Windows => {
            let mut joined = String::from_str("Set-Location '");
            joined.append(working_dir);
            joined.append("'; ");
            joined.append(command);
            let mut args: Vec<String> = Vec::new();
            args.push(String::from_str("/C"));
            args.push(String::from_str("start"));
            args.push(String::from_str("powershell"));
            args.push(String::from_str("-NoExit"));
            args.push(String::from_str("-Command"));
            args.push(joined);
            let plan = LaunchPlan {
                program: String::from_str("cmd"),
                args,
                cwd: Option::None,
            };
            proof {
                assert(plan@.1 =~= plan_args(platform, working_dir@, command@));
            }
            plan
        },
        _ => {
            let mut args: Vec<String> = Vec::new();
            args.push(String::from_str("-c"));
            args.push(String::from_str(command));
            let plan = LaunchPlan {
                program: String::from_str("sh"),
                args,
                cwd: Option::Some(String::from_str(working_dir)),
            };
            proof {
                assert(plan@.1 =~= plan_args(platform, working_dir@, command@));
            }
            plan
        },
    }
}

/// Turns the outcome of the caller's spawn attempt into the reply for a
/// script execution: a spawned process is reported as started, whatever
/// the command later does; only a failure to create the process is an
/// error, carrying the system's message.
pub fn execute_outcome(spawn_result: Result<(), String>) -> (r: Result<String, String>)
    ensures
        (spawn_result matches Ok(()) ==> r matches Ok(msg) && msg@ == "脚本已启动"@),
        (spawn_result matches Err(e) ==> r matches Err(m) && m@ == "执行失败: "@ + e@),
{
    match spawn_result {
        Result::Ok(()) => Result::Ok(String::from_str("脚本已启动")),
        Result::Err(e) => {
            let mut m = String::from_str("执行失败: ");
            m.append(e.as_str());
            Result::Err(m)
        },
    }
}

/// The program that opens the configuration folder in the platform's file
/// manager.
pub fn folder_open_program(platform: Platform) -> (r: String)
    ensures
        platform == Platform::Windows ==> r@ == "explorer"@,
        platform == Platform::Macos ==> r@ == "open"@,
        platform == Platform::Linux ==> r@ == "xdg-open"@,
{
    match platform {
        Platform::Windows => String::from_str("explorer"),
        Platform::Macos => String::from_str("open"),
        Platform::Linux => String::from_str("xdg-open"),
    }
}

/// How a directory pick resolved: a chosen path, or a dismissal, which is
/// a normal outcome and not an error.
#[derive(Debug)]
pub enum PickResult {
    Picked(String),
    Cancelled,
}

/// Resolves the picker's reply: a path picks it, no path is a
/// cancellation — the two are distinguishable, and dismissal is never
/// mistaken for a pick.
pub fn resolve_directory_pick(pick: Option<String>) -> (r: PickResult)
    ensures
        (pick matches Some(p) ==> (r matches PickResult::Picked(q) && q@ == p@)),
        ((pick is None) <==> (r is Cancelled)),
{
    match pick {
        Option::Some(p) => PickResult::Picked(p),
        Option::None => PickResult::Cancelled,
    }
}

/// The reply for a dismissed directory pick.
pub fn no_selection_message() -> (r: String)
    ensures
        r@ == "未选择目录"@,
{
    String::from_str("未选择目录")
}

/// What the autostart registrar is told to do.
#[derive(Clone, Copy, PartialEq, Eq, Structural, Debug)]
pub enum AutostartAction {
    Enable,
    Disable,
}

/// The registrar action for a requested autostart state: enable exactly
/// when autostart is wanted.
pub fn autostart_action(enabled: bool) -> (a: AutostartAction)
    ensures
        enabled <==> (a is Enable),
{
    if enabled {
        AutostartAction::Enable
    } else {
        AutostartAction::Disable
    }
}

/// The platform's path separator.
pub open spec fn path_sep(p: Platform) -> Seq<char> {
    match p {
        Platform::Windows => "\\"@,
        _ => "/"@,
    }
}

/// The fixed file name joined onto the application data directory with the
/// platform's separator: the configuration lives at
/// `<dir><separator>config.json`.
pub fn config_file_path(platform: Platform, app_data_dir: &str) -> (p: String)
    ensures
        p@ == app_data_dir@ + path_sep(platform) + "config.json"@,
{
    let mut p = String::from_str(app_data_dir);
    match platform {
        Platform::Windows => { p.append("\\"); },
        _ => { p.append("/"); },
    }
    p.append("config.json");
    p
}

} // verus!
