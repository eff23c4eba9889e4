//! The bridge to the Codex CLI: which executables to try, what to conclude
//! from trying them, and how a prompt is run and reported.
//!
//! Running the executables is left to the caller: it probes the candidates
//! of `command_candidates` in order with `--version`, stopping at the first
//! that exits successfully, and hands the outcomes to `check_outcome` or
//! `resolve_outcome`.

use crate::paths::Platform;
use crate::text::{
    decimal, decimal_text, dedup_sorted, ends_with_ignore_ascii_case,
    ends_with_ignore_ascii_case_exec, eq_ignore_ascii_case, eq_ignore_ascii_case_exec, join2,
    join3, owned, sort_texts, strictly_ascending, trim, trimmed, views,
};
use vstd::prelude::*;

verus! {

/// How to reach the Codex CLI: the configured executable and how long a
/// prompt may run.
#[derive(Clone, Debug)]
pub struct CodexBridge {
    executable: String,
    timeout_seconds: u64,
}

/// Whether the Codex CLI answered `--version`, and with which executable and version.
#[derive(Clone, Debug)]
pub struct CodexCheck {
    pub available: bool,
    pub path: Option<String>,
    pub version: Option<String>,
}

/// What a prompt run produced.
#[derive(Clone, Debug)]
pub struct CodexRunResult {
    pub stdout: String,
    pub stderr: String,
    pub exit_code: Option<i32>,
    pub timed_out: bool,
    pub elapsed_ms: u128,
    pub executable: String,
    pub command: String,
    pub workspace: String,
}

/// How one prompt is run: the executable, its arguments, the command line
/// shown to the user (with the prompt elided), the workspace and the time limit.
#[derive(Clone, Debug)]
pub struct PromptPlan {
    pub executable: String,
    pub args: Vec<String>,
    pub command_line: String,
    pub workspace: String,
    pub timeout_seconds: u64,
}

/// The executables tried for `executable`, before sorting: the executable
/// itself, then on Windows its `.cmd` form (unless it already ends in
/// `.cmd`), then `codex.exe` when the executable is `codex`.
pub open spec fn raw_candidates(executable: Seq<char>, platform: Platform) -> Seq<Seq<char>> {
    seq![executable] + (if platform == Platform::Windows && !ends_with_ignore_ascii_case(
        executable,
        ".cmd"@,
    ) {
        seq![executable + ".cmd"@]
    } else {
        Seq::<Seq<char>>::empty()
    }) + (if platform == Platform::Windows && eq_ignore_ascii_case(executable, "codex"@) {
        seq!["codex.exe"@]
    } else {
        Seq::<Seq<char>>::empty()
    })
}

/// The first index below `n` whose probe succeeded.
pub open spec fn first_success(probes: Seq<Option<String>>, n: int) -> Option<int>
    decreases n,
{
    if n <= 0 {
        None
    } else {
        match first_success(probes, n - 1) {
            Some(k) => Some(k),
            None => if n - 1 < probes.len() && probes[n - 1] is Some {
                Some(n - 1)
            } else {
                None
            },
        }
    }
}

/// The command line reported for a prompt run in `workspace`.
pub open spec fn prompt_command_line(executable: Seq<char>, workspace: Seq<char>) -> Seq<char> {
    executable + " exec --skip-git-repo-check --sandbox read-only --color never --cd \""@
        + workspace + "\" <prompt>"@
}

/// The arguments of a prompt run.
pub open spec fn prompt_args(workspace: Seq<char>, prompt: Seq<char>) -> Seq<Seq<char>> {
    seq![
        "exec"@,
        "--skip-git-repo-check"@,
        "--sandbox"@,
        "read-only"@,
        "--color"@,
        "never"@,
        "--cd"@,
        workspace,
        prompt,
    ]
}

/// The message of a prompt run that ran out of time.
pub open spec fn timeout_message(timeout_seconds: u64) -> Seq<char> {
    "Codex did not finish within "@ + decimal(timeout_seconds as nat) + " seconds."@
}

proof fn lemma_first_success_bounds(probes: Seq<Option<String>>, n: int)
    ensures
        first_success(probes, n) matches Some(k) ==> 0 <= k < n && k < probes.len()
            && probes[k] is Some,
        first_success(probes, n) is None ==> forall|j: int|
            0 <= j < n && j < probes.len() ==> probes[j] is None,
    decreases n,
{
    if n > 0 {
        lemma_first_success_bounds(probes, n - 1);
    }
}

impl CodexBridge {
    /// The configured executable.
    pub closed spec fn executable_spec(&self) -> Seq<char> {
        self.executable@
    }

    /// The time limit of a prompt run, in seconds.
    pub closed spec fn timeout_spec(&self) -> u64 {
        self.timeout_seconds
    }

    /// A bridge to `executable` with a time limit of `timeout_seconds` per prompt.
    pub fn new(executable: &str, timeout_seconds: u64) -> (r: Self)
        ensures
            r.executable_spec() == executable@,
            r.timeout_spec() == timeout_seconds,
    {
        CodexBridge { executable: owned(executable), timeout_seconds }
    }

    /// The executables to try, sorted and without repeats.
    pub fn command_candidates(&self, platform: Platform) -> (r: Vec<String>)
        ensures
            strictly_ascending(views(r@)),
            views(r@).to_set() == raw_candidates(self.executable_spec(), platform).to_set(),
    {
        let mut candidates: Vec<String> = Vec::new();
        candidates.push(self.executable.clone());
        let windows = platform == Platform::Windows;
        let add_cmd = windows && !ends_with_ignore_ascii_case_exec(self.executable.as_str(), ".cmd");
        if add_cmd {
            candidates.push(join2(self.executable.as_str(), ".cmd"));
        }
        let add_exe = windows && eq_ignore_ascii_case_exec(self.executable.as_str(), "codex");
        if add_exe {
            candidates.push(owned("codex.exe"));
        }
        proof {
            assert(views(candidates@) =~= raw_candidates(self.executable@, platform));
        }
        let sorted = sort_texts(&candidates);
        proof {
            broadcast use vstd::seq_lib::group_to_multiset_ensures;
            let a = views(sorted@);
            let b = views(candidates@);
            assert(a.to_set() =~= b.to_set()) by {
                assert forall|x: Seq<char>| a.to_set().contains(x) <==> b.to_set().contains(x) by {
                    assert(a.contains(x) <==> a.to_multiset().count(x) > 0);
                    assert(b.contains(x) <==> b.to_multiset().count(x) > 0);
                }
            }
        }
        dedup_sorted(&sorted)
    }

    /// What a check concludes from the probes of `candidates`:
    /// `probes[i]` is the standard output of candidate `i` when it answered
    /// `--version` successfully, and `None` when it did not. The first
    /// successful candidate is reported with its trimmed output as the
    /// version; when none succeeded, Codex is unavailable.
    pub fn check_outcome(candidates: &Vec<String>, probes: &Vec<Option<String>>) -> (r: CodexCheck)
        ensures
            match first_success(probes@, candidates@.len() as int) {
                Some(k) => {
                    &&& r.available
                    &&& r.path is Some && r.path->0@ == candidates@[k]@
                    &&& r.version is Some && r.version->0@ == trimmed(probes@[k]->0@)
                },
                None => !r.available && r.path is None && r.version is None,
            },
    {
        let mut i: usize = 0;
        while i < candidates.len() && i < probes.len()
            invariant
                i <= candidates.len(),
                i <= probes.len(),
                first_success(probes@, i as int) is None,
            decreases candidates.len() - i,
        {
            match &probes[i] {
                Some(stdout) => {
                    assert(first_success(probes@, i + 1) == Some(i as int));
                    proof {
                        lemma_first_success_bounds(probes@, i + 1);
                        lemma_first_success_prefix(probes@, i + 1, candidates@.len() as int);
                    }
                    return CodexCheck {
                        available: true,
                        path: Some(candidates[i].clone()),
                        version: Some(trim(stdout.as_str())),
                    };
                },
                None => {},
            }
            i = i + 1;
        }
        proof {
            lemma_first_success_tail(probes@, i as int, candidates@.len() as int);
        }
        CodexCheck { available: false, path: None, version: None }
    }

    /// The executable a prompt runs with: the first candidate that answered
    /// `--version` successfully (see `check_outcome` for `probes`), else the
    /// configured executable.
    pub fn resolve_outcome(&self, candidates: &Vec<String>, probes: &Vec<Option<String>>) -> (r:
        String)
        ensures
            match first_success(probes@, candidates@.len() as int) {
                Some(k) => r@ == candidates@[k]@,
                None => r@ == self.executable_spec(),
            },
    {
        let check = Self::check_outcome(candidates, probes);
        match check.path {
            Some(p) => p,
            None => self.executable.clone(),
        }
    }

    /// How a prompt runs with `executable` in `workspace`.
    pub fn prompt_plan(&self, executable: &str, workspace: &str, prompt: &str) -> (r: PromptPlan)
        ensures
            r.executable@ == executable@,
            views(r.args@) == prompt_args(workspace@, prompt@),
            r.command_line@ == prompt_command_line(executable@, workspace@),
            r.workspace@ == workspace@,
            r.timeout_seconds == self.timeout_spec(),
    {
        let args = vec![
            owned("exec"),
            owned("--skip-git-repo-check"),
            owned("--sandbox"),
            owned("read-only"),
            owned("--color"),
            owned("never"),
            owned("--cd"),
            owned(workspace),
            owned(prompt),
        ];
        let mut line = join3(
            executable,
            " exec --skip-git-repo-check --sandbox read-only --color never --cd \"",
            workspace,
        );
        line.append("\" <prompt>");
        proof {
            assert(views(args@) =~= prompt_args(workspace@, prompt@));
        }
        PromptPlan {
            executable: owned(executable),
            args,
            command_line: line,
            workspace: owned(workspace),
            timeout_seconds: self.timeout_seconds,
        }
    }
}

proof fn lemma_first_success_prefix(probes: Seq<Option<String>>, m: int, n: int)
    requires
        m <= n,
        first_success(probes, m) is Some,
    ensures
        first_success(probes, n) == first_success(probes, m),
    decreases n - m,
{
    if n > m {
        lemma_first_success_prefix(probes, m, n - 1);
    }
}

proof fn lemma_first_success_tail(probes: Seq<Option<String>>, m: int, n: int)
    requires
        0 <= m <= n,
        m >= probes.len() || m >= n,
        first_success(probes, m) is None,
    ensures
        first_success(probes, n) is None,
    decreases n - m,
{
    if n > m {
        lemma_first_success_tail(probes, m, n - 1);
    }
}

impl PromptPlan {
    /// The report of a run that did not finish within the time limit.
    pub fn timed_out(&self, elapsed_ms: u128) -> (r: CodexRunResult)
        ensures
            r.stdout@ == Seq::<char>::empty(),
            r.stderr@ == timeout_message(self.timeout_seconds),
            r.exit_code is None,
            r.timed_out,
            r.elapsed_ms == elapsed_ms,
            r.executable@ == self.executable@,
            r.command@ == self.command_line@,
            r.workspace@ == self.workspace@,
    {
        let seconds = decimal_text(self.timeout_seconds);
        let message = join3("Codex did not finish within ", seconds.as_str(), " seconds.");
        CodexRunResult {
            stdout: String::new(),
            stderr: message,
            exit_code: None,
            timed_out: true,
            elapsed_ms,
            executable: self.executable.clone(),
            command: self.command_line.clone(),
            workspace: self.workspace.clone(),
        }
    }

    /// The report of a run that finished with the given output and exit code.
    pub fn finished(
        &self,
        stdout: String,
        stderr: String,
        exit_code: Option<i32>,
        elapsed_ms: u128,
    ) -> (r: CodexRunResult)
        ensures
            r.stdout == stdout,
            r.stderr == stderr,
            r.exit_code == exit_code,
            !r.timed_out,
            r.elapsed_ms == elapsed_ms,
            r.executable@ == self.executable@,
            r.command@ == self.command_line@,
            r.workspace@ == self.workspace@,
    {
        CodexRunResult {
            stdout,
            stderr,
            exit_code,
            timed_out: false,
            elapsed_ms,
            executable: self.executable.clone(),
            command: self.command_line.clone(),
            workspace: self.workspace.clone(),
        }
    }
}

// ---------------------------------------------------------------------------
// Laws
// ---------------------------------------------------------------------------
/// Off Windows the only candidate is the configured executable.
pub proof fn lemma_unix_candidates(executable: Seq<char>)
    ensures
        raw_candidates(executable, Platform::Unix) =~= seq![executable],
{
}

/// The configured executable is always among the candidates.
pub proof fn lemma_candidates_include_executable(executable: Seq<char>, platform: Platform)
    ensures
        raw_candidates(executable, platform).to_set().contains(executable),
{
    assert(raw_candidates(executable, platform)[0] == executable);
}

} // verus!
