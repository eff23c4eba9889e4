//! The workspace-aware tools: which process each tool runs, where, and how
//! its outcome is reported. Starting the processes is left to the caller.

use crate::paths::Platform;
use crate::protocol::{ToolOutput, ToolRunStatus};
use crate::stamp::{ends_with_utc_offset, is_uuid_v4_text, new_uuid_v4, now_rfc3339};
use crate::text::{join3, owned, sort_texts, text_order, views};
use vstd::prelude::*;
use vstd::relations::sorted_by;

verus! {

/// The tools of one workspace.
#[derive(Clone, Debug)]
pub struct ToolRuntime {
    workspace: String,
}

/// A process to start: the tool it serves, the program, its arguments and
/// the directory it runs in.
#[derive(Clone, Debug)]
pub struct ProcessPlan {
    pub tool_name: String,
    pub program: String,
    pub args: Vec<String>,
    pub cwd: String,
}

/// Whether `plan` runs `program` with `args` in `cwd` for the tool `tool_name`.
pub open spec fn plan_is(
    plan: ProcessPlan,
    tool_name: Seq<char>,
    program: Seq<char>,
    args: Seq<Seq<char>>,
    cwd: Seq<char>,
) -> bool {
    &&& plan.tool_name@ == tool_name
    &&& plan.program@ == program
    &&& views(plan.args@) == args
    &&& plan.cwd@ == cwd
}

/// The shell and its arguments that run `command` on `platform`.
pub open spec fn shell_program(platform: Platform) -> Seq<char> {
    if platform == Platform::Windows {
        "cmd"@
    } else {
        "sh"@
    }
}

/// The arguments that make the shell run `command`.
pub open spec fn shell_args(command: Seq<char>, platform: Platform) -> Seq<Seq<char>> {
    if platform == Platform::Windows {
        seq!["/C"@, command]
    } else {
        seq!["-lc"@, command]
    }
}

/// The PowerShell command that opens a terminal in `workspace`.
pub open spec fn set_location_command(workspace: Seq<char>) -> Seq<char> {
    "Set-Location -LiteralPath '"@ + workspace + "'"@
}

/// The plan that runs `command` through the platform's shell in `cwd`.
pub fn shell_plan(tool_name: &str, command: &str, cwd: &str, platform: Platform) -> (r:
    ProcessPlan)
    ensures
        plan_is(r, tool_name@, shell_program(platform), shell_args(command@, platform), cwd@),
{
    let (program, flag) = if platform == Platform::Windows {
        ("cmd", "/C")
    } else {
        ("sh", "-lc")
    };
    let args = vec![owned(flag), owned(command)];
    proof {
        assert(views(args@) =~= shell_args(command@, platform));
    }
    ProcessPlan { tool_name: owned(tool_name), program: owned(program), args, cwd: owned(cwd) }
}

/// The plan that runs `program` with `args` in `cwd`.
pub fn process_plan(tool_name: &str, program: &str, args: Vec<String>, cwd: &str) -> (r:
    ProcessPlan)
    ensures
        plan_is(r, tool_name@, program@, views(args@), cwd@),
{
    ProcessPlan { tool_name: owned(tool_name), program: owned(program), args, cwd: owned(cwd) }
}

impl ProcessPlan {
    /// The report of the finished process: completed when it exited
    /// successfully and failed otherwise, with a fresh id and the current
    /// time as its end.
    pub fn finish(
        &self,
        success: bool,
        stdout: String,
        stderr: String,
        exit_code: Option<i32>,
        started_at: String,
    ) -> (r: ToolOutput)
        ensures
            r.tool_name@ == self.tool_name@,
            r.status == (if success {
                ToolRunStatus::Completed
            } else {
                ToolRunStatus::Failed
            }),
            r.stdout == stdout,
            r.stderr == stderr,
            r.exit_code == exit_code,
            r.started_at == started_at,
            is_uuid_v4_text(r.id@),
            ends_with_utc_offset(r.finished_at@),
    {
        ToolOutput {
            id: new_uuid_v4(),
            tool_name: self.tool_name.clone(),
            status: if success {
                ToolRunStatus::Completed
            } else {
                ToolRunStatus::Failed
            },
            stdout,
            stderr,
            exit_code,
            started_at,
            finished_at: now_rfc3339(),
        }
    }
}

/// A listing sorted ascending, as `list_dir` reports it.
pub fn sorted_listing(names: &Vec<String>) -> (r: Vec<String>)
    ensures
        sorted_by(views(r@), text_order()),
        views(r@).to_multiset() == views(names@).to_multiset(),
{
    sort_texts(names)
}

impl ToolRuntime {
    /// The workspace directory.
    pub closed spec fn workspace_spec(&self) -> Seq<char> {
        self.workspace@
    }

    /// The tools of `workspace`.
    pub fn new(workspace: &str) -> (r: Self)
        ensures
            r.workspace_spec() == workspace@,
    {
        ToolRuntime { workspace: owned(workspace) }
    }

    /// The workspace directory.
    pub fn workspace(&self) -> (r: &str)
        ensures
            r@ == self.workspace_spec(),
    {
        self.workspace.as_str()
    }

    /// The directory `list_dir` reads: `path`, or the workspace when none is given.
    pub fn list_dir_path(&self, path: Option<String>) -> (r: String)
        ensures
            r@ == match path {
                Some(p) => p@,
                None => self.workspace_spec(),
            },
    {
        match path {
            Some(p) => p,
            None => self.workspace.clone(),
        }
    }

    /// `run_command`: `command` through the platform's shell, in the workspace.
    pub fn run_command(&self, command: &str, platform: Platform) -> (r: ProcessPlan)
        ensures
            plan_is(
                r,
                "run_command"@,
                shell_program(platform),
                shell_args(command@, platform),
                self.workspace_spec(),
            ),
    {
        shell_plan("run_command", command, self.workspace.as_str(), platform)
    }

    /// `git_status`: `git status --short` in the workspace.
    pub fn git_status(&self) -> (r: ProcessPlan)
        ensures
            plan_is(
                r,
                "git_status"@,
                "git"@,
                seq!["status"@, "--short"@],
                self.workspace_spec(),
            ),
    {
        let args = vec![owned("status"), owned("--short")];
        assert(views(args@) =~= seq!["status"@, "--short"@]);
        process_plan("git_status", "git", args, self.workspace.as_str())
    }

    /// `git_diff`: `git diff --stat -- .` in the workspace.
    pub fn git_diff(&self) -> (r: ProcessPlan)
        ensures
            plan_is(
                r,
                "git_diff"@,
                "git"@,
                seq!["diff"@, "--stat"@, "--"@, "."@],
                self.workspace_spec(),
            ),
    {
        let args = vec![owned("diff"), owned("--stat"), owned("--"), owned(".")];
        assert(views(args@) =~= seq!["diff"@, "--stat"@, "--"@, "."@]);
        process_plan("git_diff", "git", args, self.workspace.as_str())
    }

    /// The full diff: `git diff -- .` in the workspace, reported as `git_diff`.
    pub fn git_diff_full(&self) -> (r: ProcessPlan)
        ensures
            plan_is(r, "git_diff"@, "git"@, seq!["diff"@, "--"@, "."@], self.workspace_spec()),
    {
        let args = vec![owned("diff"), owned("--"), owned(".")];
        assert(views(args@) =~= seq!["diff"@, "--"@, "."@]);
        process_plan("git_diff", "git", args, self.workspace.as_str())
    }

    /// `open_vscode`: `code <workspace>` in the workspace.
    pub fn open_vscode(&self) -> (r: ProcessPlan)
        ensures
            plan_is(
                r,
                "open_vscode"@,
                "code"@,
                seq![self.workspace_spec()],
                self.workspace_spec(),
            ),
    {
        let args = vec![self.workspace.clone()];
        assert(views(args@) =~= seq![self.workspace@]);
        process_plan("open_vscode", "code", args, self.workspace.as_str())
    }

    /// `open_file_explorer`: `explorer <workspace>`; Windows only.
    pub fn open_file_explorer(&self, platform: Platform) -> (r: Result<ProcessPlan, String>)
        ensures
            platform == Platform::Windows ==> (r is Ok && plan_is(
                r->Ok_0,
                "open_file_explorer"@,
                "explorer"@,
                seq![self.workspace_spec()],
                self.workspace_spec(),
            )),
            platform != Platform::Windows ==> (r is Err && r->Err_0@
                == "open_file_explorer is only supported on Windows in this MVP"@),
    {
        if platform == Platform::Windows {
            let args = vec![self.workspace.clone()];
            assert(views(args@) =~= seq![self.workspace@]);
            Ok(process_plan("open_file_explorer", "explorer", args, self.workspace.as_str()))
        } else {
            Err(owned("open_file_explorer is only supported on Windows in this MVP"))
        }
    }

    /// `open_terminal`: a PowerShell that stays open in the workspace; Windows only.
    pub fn open_terminal(&self, platform: Platform) -> (r: Result<ProcessPlan, String>)
        ensures
            platform == Platform::Windows ==> (r is Ok && plan_is(
                r->Ok_0,
                "open_terminal"@,
                "powershell"@,
                seq!["-NoExit"@, "-Command"@, set_location_command(self.workspace_spec())],
                self.workspace_spec(),
            )),
            platform != Platform::Windows ==> (r is Err && r->Err_0@
                == "open_terminal is only supported on Windows in this MVP"@),
    {
        if platform == Platform::Windows {
            let location = join3("Set-Location -LiteralPath '", self.workspace.as_str(), "'");
            let args = vec![owned("-NoExit"), owned("-Command"), location];
            assert(views(args@) =~= seq![
                "-NoExit"@,
                "-Command"@,
                set_location_command(self.workspace@),
            ]);
            Ok(process_plan("open_terminal", "powershell", args, self.workspace.as_str()))
        } else {
            Err(owned("open_terminal is only supported on Windows in this MVP"))
        }
    }
}

} // verus!
