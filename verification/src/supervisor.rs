//! Host-side process supervision: resolving the provisioned directory,
//! planning the provisioning copy and the spawn, the argument list the
//! runner is launched with, the per-process exit-monitoring record, and
//! the interpretation of the coarse terminate-by-name command.
//!
//! The operations report upward as strings: a success message or a
//! descriptive failure line, never a structured code.

use vstd::prelude::*;
use crate::config::{default_config, resolved_config, resolved_title_only_config, ConfigView};

verus! {

/// The directory that holds one provisioned title:
/// `<exe_dir>/games/<app_id>/<relative_path>`.
pub open spec fn game_dir_text(exe_dir: Seq<char>, app_id: Seq<char>, rel: Seq<char>) -> Seq<
    char,
> {
    exe_dir + "/games/"@ + app_id + "/"@ + rel
}

/// The provisioned runner binary inside that directory.
pub open spec fn target_exe_text(
    exe_dir: Seq<char>,
    app_id: Seq<char>,
    rel: Seq<char>,
    exe_name: Seq<char>,
) -> Seq<char> {
    game_dir_text(exe_dir, app_id, rel) + "/"@ + exe_name
}

/// Builds `<exe_dir>/games/<app_id>/<relative_path>`.
pub fn resolve_game_dir(exe_dir: &String, app_id: &String, relative_path: &String) -> (d: String)
    ensures
        d@ == game_dir_text(exe_dir@, app_id@, relative_path@),
{
    let mut d = exe_dir.clone();
    d.append("/games/");
    d.append(app_id.as_str());
    d.append("/");
    d.append(relative_path.as_str());
    d
}

/// The filesystem effects of provisioning one title: create `game_dir`
/// (and the target's own parent, for nested executable names)
/// recursively — already-existing directories are no error — then copy
/// the bundled runner binary to `target_exe`.
pub struct ProvisionPlan {
    pub game_dir: String,
    pub target_exe: String,
}

/// Resolves where one title is provisioned: the directory to create
/// and the path the bundled runner binary is copied to.
pub fn provision_plan(
    exe_dir: &String,
    app_id: &String,
    relative_path: &String,
    executable_name: &String,
) -> (p: ProvisionPlan)
    ensures
        p.game_dir@ == game_dir_text(exe_dir@, app_id@, relative_path@),
        p.target_exe@ == target_exe_text(exe_dir@, app_id@, relative_path@, executable_name@),
{
    let game_dir = resolve_game_dir(exe_dir, app_id, relative_path);
    let mut target_exe = game_dir.clone();
    target_exe.append("/");
    target_exe.append(executable_name.as_str());
    ProvisionPlan { game_dir, target_exe }
}

/// The argument list a runner is launched with: `--title <name>`,
/// then `--icon <url>` when a remote icon was requested.
pub open spec fn spawn_args_text(name: Seq<char>, icon_url: Option<Seq<char>>) -> Seq<Seq<char>> {
    match icon_url {
        Some(u) => seq!["--title"@, name, "--icon"@, u],
        None => seq!["--title"@, name],
    }
}

/// Builds the spawn argument list.
pub fn build_spawn_args(name: &String, icon_url: &Option<String>) -> (a: Vec<String>)
    ensures
        a.deep_view() == spawn_args_text(name@, icon_url.deep_view()),
{
    let mut a: Vec<String> = Vec::new();
    a.push(String::from_str("--title"));
    a.push(name.clone());
    match icon_url {
        Some(url) => {
            a.push(String::from_str("--icon"));
            a.push(url.clone());
            proof {
                assert(a.deep_view() =~= spawn_args_text(name@, icon_url.deep_view()));
            }
        },
        None => {
            proof {
                assert(a.deep_view() =~= spawn_args_text(name@, icon_url.deep_view()));
            }
        },
    }
    a
}

/// The launch of one provisioned title: the binary whose presence is
/// checked and which is run, its working directory and its arguments.
pub struct SpawnPlan {
    pub executable_path: String,
    pub working_dir: String,
    pub args: Vec<String>,
}

/// Resolves how one title is launched.  The executable path is checked
/// before the launch; when it is absent the spawn fails instead.
pub fn spawn_plan(
    exe_dir: &String,
    app_id: &String,
    relative_path: &String,
    executable_name: &String,
    name: &String,
    icon_url: &Option<String>,
) -> (p: SpawnPlan)
    ensures
        p.executable_path@ == target_exe_text(
            exe_dir@,
            app_id@,
            relative_path@,
            executable_name@,
        ),
        p.working_dir@ == game_dir_text(exe_dir@, app_id@, relative_path@),
        p.args.deep_view() == spawn_args_text(name@, icon_url.deep_view()),
{
    let provision = provision_plan(exe_dir, app_id, relative_path, executable_name);
    SpawnPlan {
        executable_path: provision.target_exe,
        working_dir: provision.game_dir,
        args: build_spawn_args(name, icon_url),
    }
}

/// The paths present after the provisioning copy ran on a filesystem
/// holding `files`: the runner binary now stands at the target path.
pub open spec fn files_after_provision(
    files: Set<Seq<char>>,
    exe_dir: Seq<char>,
    app_id: Seq<char>,
    rel: Seq<char>,
    exe_name: Seq<char>,
) -> Set<Seq<char>> {
    files.insert(target_exe_text(exe_dir, app_id, rel, exe_name))
}

/// Provision followed immediately by a spawn for the same identifiers
/// succeeds: the path the spawn checks — `target_exe_text`, by
/// [`spawn_plan`]'s contract — is exactly where the provisioning copy
/// put the binary, so the executable is present whatever else the
/// filesystem held.
pub proof fn lemma_provision_then_spawn_finds_executable(
    files: Set<Seq<char>>,
    exe_dir: Seq<char>,
    app_id: Seq<char>,
    rel: Seq<char>,
    exe_name: Seq<char>,
)
    ensures
        files_after_provision(files, exe_dir, app_id, rel, exe_name).contains(
            target_exe_text(exe_dir, app_id, rel, exe_name),
        ),
{
}

/// The supervision argument contract round-trips: a runner invoked
/// with exactly the argument list the host builds resolves the title
/// and icon the host intended, and even the minimal platform variant
/// still resolves the title, merely dropping the icon.
pub proof fn lemma_spawn_args_resolve(
    prog: Seq<char>,
    name: Seq<char>,
    icon_url: Option<Seq<char>>,
)
    ensures
        resolved_config(seq![prog] + spawn_args_text(name, icon_url)) == (ConfigView {
            title: name,
            start_minimized: false,
            icon_url,
        }),
        resolved_title_only_config(seq![prog] + spawn_args_text(name, icon_url)) == (ConfigView {
            title: name,
            start_minimized: false,
            icon_url: None,
        }),
{
    reveal_strlit("--title");
    reveal_strlit("--icon");
    reveal_strlit("--tray");
    assert("--title"@.len() == 7 && "--icon"@.len() == 6 && "--tray"@.len() == 6);
    assert("--icon"@[2] != "--tray"@[2]);
    let with_title = ConfigView { title: name, ..default_config() };
    match icon_url {
        Some(u) => {
            let a = seq![prog] + spawn_args_text(name, icon_url);
            assert(a.len() == 5);
            assert(a[1] == "--title"@ && a[2] == name && a[3] == "--icon"@ && a[4] == u);
            let with_both = ConfigView { title: name, icon_url: Some(u), ..default_config() };
            assert(crate::config::resolve_from(a, 1, default_config())
                == crate::config::resolve_from(a, 3, with_title));
            assert(crate::config::resolve_from(a, 3, with_title) == crate::config::resolve_from(
                a,
                5,
                with_both,
            ));
            assert(crate::config::resolve_title_from(a, 1, default_config())
                == crate::config::resolve_title_from(a, 3, with_title));
            assert(crate::config::resolve_title_from(a, 3, with_title)
                == crate::config::resolve_title_from(a, 4, with_title));
            assert(crate::config::resolve_title_from(a, 4, with_title)
                == crate::config::resolve_title_from(a, 5, with_title));
        },
        None => {
            let a = seq![prog] + spawn_args_text(name, icon_url);
            assert(a.len() == 3);
            assert(a[1] == "--title"@ && a[2] == name);
            assert(crate::config::resolve_from(a, 1, default_config())
                == crate::config::resolve_from(a, 3, with_title));
            assert(crate::config::resolve_title_from(a, 1, default_config())
                == crate::config::resolve_title_from(a, 3, with_title));
        },
    }
}

/// Status of one spawned runner process.
#[derive(Debug)]
pub enum ProcessStatus {
    /// Spawned and not yet observed to end.
    Running,
    /// Ended with the given exit code.
    ExitedCode(i32),
    /// Could not be awaited; the reason as the platform reported it.
    Failed(String),
}

/// One spawned runner under supervision.  Created at spawn time; the
/// detached exit monitor moves it to a terminal status exactly once,
/// and the exit notification is emitted exactly once, at that moment.
pub struct ManagedProcess {
    pub pid: u32,
    pub executable_path: String,
    pub working_directory: String,
    pub status: ProcessStatus,
    pub exit_notified: bool,
}

impl ManagedProcess {
    /// A terminal status is anything but `Running`.
    pub open spec fn is_terminal(&self) -> bool {
        !(self.status is Running)
    }

    /// The notification is only ever emitted for a terminal status.
    pub open spec fn wf(&self) -> bool {
        self.exit_notified ==> self.is_terminal()
    }

    /// Registers a freshly spawned process: running, nothing notified.
    pub fn register(pid: u32, executable_path: String, working_directory: String) -> (p: Self)
        ensures
            p.wf(),
            p.status is Running,
            !p.exit_notified,
            p.pid == pid,
            p.executable_path@ == executable_path@,
            p.working_directory@ == working_directory@,
    {
        ManagedProcess {
            pid,
            executable_path,
            working_directory,
            status: ProcessStatus::Running,
            exit_notified: false,
        }
    }

    /// The exit monitor's single completion: records the terminal
    /// outcome and hands back the one exit notification to emit.  The
    /// `Running` precondition is what makes both once-only: a completed
    /// record can never be completed again.
    pub fn complete_wait(&mut self, outcome: ProcessStatus) -> (emit: bool)
        requires
            old(self).wf(),
            old(self).status is Running,
            !(outcome is Running),
        ensures
            final(self).wf(),
            final(self).is_terminal(),
            final(self).status == outcome,
            final(self).exit_notified,
            emit,
            final(self).pid == old(self).pid,
            final(self).executable_path == old(self).executable_path,
            final(self).working_directory == old(self).working_directory,
    {
        self.status = outcome;
        self.exit_notified = true;
        true
    }
}

/// Interprets what the terminate-by-name command reported: success
/// yields `Ok`; non-success — among else a name with no matching
/// running process — reports failure carrying the command's own
/// diagnostic output, never a crash.
pub fn interpret_kill_report(success: bool, diagnostic: &String) -> (r: Result<(), String>)
    ensures
        success <==> r is Ok,
        !success ==> (r matches Err(m) && m@ == "Failed to stop process: "@ + diagnostic@),
{
    if success {
        Ok(())
    } else {
        let mut m = String::from_str("Failed to stop process: ");
        m.append(diagnostic.as_str());
        Err(m)
    }
}

/// The line reported when the termination command itself could not
/// run.
pub fn kill_command_failure_message(detail: &String) -> (m: String)
    ensures
        m@ == "Failed to execute taskkill: "@ + detail@,
{
    let mut m = String::from_str("Failed to execute taskkill: ");
    m.append(detail.as_str());
    m
}

/// The success line of a provisioning that copied the runner binary to
/// the given target.
pub fn provision_success_message(target_exe: &String) -> (m: String)
    ensures
        m@ == "Dummy executable copied to: "@ + target_exe@,
{
    let mut m = String::from_str("Dummy executable copied to: ");
    m.append(target_exe.as_str());
    m
}

/// The success line of a spawn; the call returns right after the
/// launch, not after the process ends.
pub fn spawn_success_message() -> (m: String)
    ensures
        m@ == "Process started successfully"@,
{
    String::from_str("Process started successfully")
}

/// The failure line of a spawn whose executable was absent.
pub fn executable_missing_message(path: &String) -> (m: String)
    ensures
        m@ == "Executable not found at "@ + path@,
{
    let mut m = String::from_str("Executable not found at ");
    m.append(path.as_str());
    m
}

/// The failure line of a launch the platform refused.
pub fn spawn_failure_message(detail: &String) -> (m: String)
    ensures
        m@ == "Failed to start process: "@ + detail@,
{
    let mut m = String::from_str("Failed to start process: ");
    m.append(detail.as_str());
    m
}

} // verus!
