//! The daemon's own state and request handling: the selected workspace,
//! the commands waiting for approval, and the answers to the HUD's requests.
//! Network, process and log I/O stay with the caller.

use crate::codex::CodexCheck;
use crate::paths::{file_name, path_file_name, Platform};
use crate::policy::{
    assess_tool_request, assessment_given, block_reason, opt_view, PolicyContext, ToolIntent,
};
use crate::protocol::{
    ApprovalDecision, ApprovalRequest, CodexStatus, PromptAcceptedResponse, RiskLevel,
    RunCommandRequest, StatusResponse, ToolRunStatus, VoiceState, VoiceStatus, WorkspaceInfo,
};
use crate::stamp::{ends_with_utc_offset, is_uuid_v4_text, new_uuid_v4, now_rfc3339};
use crate::text::{owned, same_text};
use vstd::prelude::*;

verus! {

/// A command waiting for the user's decision.
#[derive(Clone, Debug)]
pub struct PendingApproval {
    pub id: String,
    pub command: String,
    pub reason: String,
    pub cwd: String,
}

/// What is kept of a waiting command, by value.
pub struct PendingView {
    pub command: Seq<char>,
    pub reason: Seq<char>,
    pub cwd: Seq<char>,
}

/// The value view of a waiting command.
pub open spec fn pending_view(a: PendingApproval) -> PendingView {
    PendingView { command: a.command@, reason: a.reason@, cwd: a.cwd@ }
}

/// The kind of a failed request, which the HTTP layer turns into a status code.
#[derive(Clone, Copy, Debug, PartialEq, Eq, Structural)]
pub enum ApiErrorKind {
    BadRequest,
    Forbidden,
    NotFound,
    Internal,
}

/// A failed request: its kind and the message shown to the user.
#[derive(Clone, Debug)]
pub struct ApiError {
    pub kind: ApiErrorKind,
    pub message: String,
}

impl ApiError {
    /// A malformed or premature request.
    pub fn bad_request(message: &str) -> (r: Self)
        ensures
            r.kind == ApiErrorKind::BadRequest,
            r.message@ == message@,
    {
        ApiError { kind: ApiErrorKind::BadRequest, message: owned(message) }
    }

    /// A request that the policy refuses.
    pub fn forbidden(message: &str) -> (r: Self)
        ensures
            r.kind == ApiErrorKind::Forbidden,
            r.message@ == message@,
    {
        ApiError { kind: ApiErrorKind::Forbidden, message: owned(message) }
    }

    /// A request about something that does not exist.
    pub fn not_found(message: &str) -> (r: Self)
        ensures
            r.kind == ApiErrorKind::NotFound,
            r.message@ == message@,
    {
        ApiError { kind: ApiErrorKind::NotFound, message: owned(message) }
    }

    /// A request that failed inside the daemon.
    pub fn internal(message: &str) -> (r: Self)
        ensures
            r.kind == ApiErrorKind::Internal,
            r.message@ == message@,
    {
        ApiError { kind: ApiErrorKind::Internal, message: owned(message) }
    }
}

/// Whether `e` is the error of kind `kind` with message `message`.
pub open spec fn error_is(e: ApiError, kind: ApiErrorKind, message: Seq<char>) -> bool {
    e.kind == kind && e.message@ == message
}

/// The ids of a sequence of waiting commands.
pub open spec fn ids(s: Seq<PendingApproval>) -> Seq<Seq<char>> {
    s.map_values(|a: PendingApproval| a.id@)
}

/// The waiting commands of `s` by id.
pub open spec fn approvals_map(s: Seq<PendingApproval>) -> Map<Seq<char>, PendingView> {
    Map::new(
        |id: Seq<char>| ids(s).contains(id),
        |id: Seq<char>| pending_view(s[ids(s).index_of(id)]),
    )
}

/// The decision for a command request in workspace `ws`: the tool is
/// `run_command`, and its path and the policy's workspace are both `ws`.
pub open spec fn command_assessment(
    command: Seq<char>,
    ws: Seq<char>,
    allow_outside_workspace: bool,
    platform: Platform,
) -> (RiskLevel, Seq<char>) {
    assessment_given(
        block_reason(command),
        "run_command"@,
        Some(ws),
        Some(ws),
        allow_outside_workspace,
        platform,
    )
}

/// The reason recorded for a request: the requester's own, else the policy's.
pub open spec fn chosen_reason(requested: Option<String>, policy_reason: Seq<char>) -> Seq<char> {
    match requested {
        Some(r) => r@,
        None => policy_reason,
    }
}

/// Whether `info` describes the workspace `ws` (or no workspace).
pub open spec fn workspace_info_is(
    info: WorkspaceInfo,
    ws: Option<Seq<char>>,
    platform: Platform,
) -> bool {
    match ws {
        None => info.path is None && info.name is None,
        Some(p) => opt_view(info.path) == Some(p) && opt_view(info.name) == file_name(p, platform),
    }
}

/// The event reported when a prompt run ends: launched and exited with 0,
/// launched otherwise, or not launched at all.
pub open spec fn codex_event_type_spec(launched: bool, exit_code: Option<i32>) -> Seq<char> {
    if !launched {
        "codex.error"@
    } else if exit_code == Some(0i32) {
        "codex.completed"@
    } else {
        "codex.failed"@
    }
}

/// The event type for the end of a prompt run.
pub fn codex_event_type(launched: bool, exit_code: Option<i32>) -> (r: &'static str)
    ensures
        r@ == codex_event_type_spec(launched, exit_code),
{
    if !launched {
        "codex.error"
    } else {
        match exit_code {
            Some(0) => "codex.completed",
            _ => "codex.failed",
        }
    }
}

/// The answer to an accepted prompt of session `session_id`.
pub fn prompt_accepted(session_id: String) -> (r: PromptAcceptedResponse)
    ensures
        r.session_id == session_id,
        r.accepted,
{
    PromptAcceptedResponse { session_id, accepted: true }
}

/// The description of the workspace `path`: the path and its final name.
pub fn workspace_info(path: &str, platform: Platform) -> (r: WorkspaceInfo)
    ensures
        workspace_info_is(r, Some(path@), platform),
{
    WorkspaceInfo { name: path_file_name(path, platform), path: Some(owned(path)) }
}

proof fn lemma_map_entry(s: Seq<PendingApproval>, i: int)
    requires
        ids(s).no_duplicates(),
        0 <= i < s.len(),
    ensures
        approvals_map(s).dom().contains(s[i].id@),
        approvals_map(s)[s[i].id@] == pending_view(s[i]),
{
    assert(ids(s)[i] == s[i].id@);
    let j = ids(s).index_of(s[i].id@);
    assert(0 <= j < ids(s).len() && ids(s)[j] == s[i].id@);
}

proof fn lemma_map_push(s: Seq<PendingApproval>, p: PendingApproval)
    requires
        ids(s).no_duplicates(),
        !ids(s).contains(p.id@),
    ensures
        ids(s.push(p)).no_duplicates(),
        approvals_map(s.push(p)) == approvals_map(s).insert(p.id@, pending_view(p)),
{
    let t = s.push(p);
    assert(ids(t) =~= ids(s).push(p.id@));
    assert forall|a: int, b: int| 0 <= a < ids(t).len() && 0 <= b < ids(t).len() && a != b implies ids(
        t,
    )[a] != ids(t)[b] by {
        if a == s.len() {
            assert(ids(s)[b] == ids(t)[b]);
        } else if b == s.len() {
            assert(ids(s)[a] == ids(t)[a]);
        }
    }
    let m = approvals_map(s).insert(p.id@, pending_view(p));
    assert forall|k: Seq<char>| approvals_map(t).dom().contains(k) <==> m.dom().contains(k) by {
        if ids(t).contains(k) {
            let j = choose|j: int| 0 <= j < ids(t).len() && ids(t)[j] == k;
            if j < s.len() {
                assert(ids(s)[j] == k);
            }
        }
        if ids(s).contains(k) {
            let j = choose|j: int| 0 <= j < ids(s).len() && ids(s)[j] == k;
            assert(ids(t)[j] == k);
        }
        if k == p.id@ {
            assert(ids(t)[s.len() as int] == k);
        }
    }
    assert forall|k: Seq<char>| #[trigger] approvals_map(t).dom().contains(k) implies approvals_map(
        t,
    )[k] == m[k] by {
        if k == p.id@ {
            lemma_map_entry(t, s.len() as int);
        } else {
            let j = choose|j: int| 0 <= j < ids(t).len() && ids(t)[j] == k;
            assert(j < s.len());
            lemma_map_entry(t, j);
            lemma_map_entry(s, j);
        }
    }
    assert(approvals_map(t) =~= m);
}

proof fn lemma_map_set(s: Seq<PendingApproval>, i: int, p: PendingApproval)
    requires
        ids(s).no_duplicates(),
        0 <= i < s.len(),
        s[i].id@ == p.id@,
    ensures
        ids(s.update(i, p)).no_duplicates(),
        approvals_map(s.update(i, p)) == approvals_map(s).insert(p.id@, pending_view(p)),
{
    let t = s.update(i, p);
    assert(ids(t) =~= ids(s));
    let m = approvals_map(s).insert(p.id@, pending_view(p));
    lemma_map_entry(s, i);
    assert forall|k: Seq<char>| #[trigger] approvals_map(t).dom().contains(k) implies approvals_map(
        t,
    )[k] == m[k] by {
        let j = choose|j: int| 0 <= j < ids(t).len() && ids(t)[j] == k;
        lemma_map_entry(t, j);
        assert(ids(t)[j] == t[j].id@);
        if j != i {
            assert(t[j] == s[j]);
            assert(ids(s)[j] == s[j].id@);
            assert(ids(s)[i] == s[i].id@);
            assert(ids(s)[j] != ids(s)[i]);
            lemma_map_entry(s, j);
        }
    }
    assert(approvals_map(t) =~= m);
}

proof fn lemma_map_remove(s: Seq<PendingApproval>, i: int)
    requires
        ids(s).no_duplicates(),
        0 <= i < s.len(),
    ensures
        ids(s.remove(i)).no_duplicates(),
        approvals_map(s.remove(i)) == approvals_map(s).remove(s[i].id@),
{
    let t = s.remove(i);
    let id = s[i].id@;
    assert(ids(t) =~= ids(s).remove(i));
    assert forall|a: int, b: int| 0 <= a < ids(t).len() && 0 <= b < ids(t).len() && a != b implies ids(
        t,
    )[a] != ids(t)[b] by {
        let a2 = if a < i {
            a
        } else {
            a + 1
        };
        let b2 = if b < i {
            b
        } else {
            b + 1
        };
        assert(ids(t)[a] == ids(s)[a2]);
        assert(ids(t)[b] == ids(s)[b2]);
    }
    let m = approvals_map(s).remove(id);
    assert forall|k: Seq<char>| approvals_map(t).dom().contains(k) <==> m.dom().contains(k) by {
        if ids(t).contains(k) {
            let j = choose|j: int| 0 <= j < ids(t).len() && ids(t)[j] == k;
            let j2 = if j < i {
                j
            } else {
                j + 1
            };
            assert(ids(s)[j2] == k);
            assert(j2 != i);
            assert(ids(s)[i] == id);
            assert(ids(s)[j2] != ids(s)[i]);
        }
        if ids(s).contains(k) && k != id {
            let j = choose|j: int| 0 <= j < ids(s).len() && ids(s)[j] == k;
            assert(j != i);
            let j2 = if j < i {
                j
            } else {
                j - 1
            };
            assert(ids(t)[j2] == k);
        }
    }
    assert forall|k: Seq<char>| #[trigger] approvals_map(t).dom().contains(k) implies approvals_map(
        t,
    )[k] == m[k] by {
        let j = choose|j: int| 0 <= j < ids(t).len() && ids(t)[j] == k;
        let j2 = if j < i {
            j
        } else {
            j + 1
        };
        assert(t[j] == s[j2]);
        assert(ids(t)[j] == t[j].id@);
        assert(ids(s)[j2] == s[j2].id@);
        assert(j2 != i);
        assert(ids(s)[i] == id);
        assert(ids(s)[j2] != ids(s)[i]);
        lemma_map_entry(t, j);
        lemma_map_entry(s, j2);
    }
    assert(approvals_map(t) =~= m);
}

/// The daemon's state: the selected workspace and the commands waiting for approval.
#[derive(Debug)]
pub struct DaemonState {
    workspace: Option<String>,
    approvals: Vec<PendingApproval>,
}

impl DaemonState {
    /// No two waiting commands share an id.
    pub closed spec fn wf(&self) -> bool {
        ids(self.approvals@).no_duplicates()
    }

    /// The selected workspace.
    pub closed spec fn workspace_spec(&self) -> Option<Seq<char>> {
        opt_view(self.workspace)
    }

    /// The commands waiting for approval, by id.
    pub closed spec fn pending(&self) -> Map<Seq<char>, PendingView> {
        approvals_map(self.approvals@)
    }

    /// A daemon with no workspace and nothing waiting.
    pub fn new() -> (r: Self)
        ensures
            r.wf(),
            r.workspace_spec() is None,
            r.pending() == Map::<Seq<char>, PendingView>::empty(),
    {
        let r = DaemonState { workspace: None, approvals: Vec::new() };
        assert(r.pending() =~= Map::<Seq<char>, PendingView>::empty());
        r
    }

    /// The selected workspace.
    pub fn workspace(&self) -> (r: Option<String>)
        ensures
            opt_view(r) == self.workspace_spec(),
    {
        match &self.workspace {
            Some(w) => Some(w.clone()),
            None => None,
        }
    }

    /// Selects the workspace `path` (which the caller has checked to be a
    /// directory) and describes it.
    pub fn select_workspace(&mut self, path: &str, platform: Platform) -> (r: WorkspaceInfo)
        requires
            old(self).wf(),
        ensures
            final(self).wf(),
            final(self).workspace_spec() == Some(path@),
            final(self).pending() == old(self).pending(),
            workspace_info_is(r, Some(path@), platform),
    {
        self.workspace = Some(owned(path));
        workspace_info(path, platform)
    }

    /// The selected workspace, or the request fails: none is selected yet.
    pub fn require_workspace(&self) -> (r: Result<String, ApiError>)
        ensures
            match self.workspace_spec() {
                Some(w) => r is Ok && r->Ok_0@ == w,
                None => r is Err && error_is(
                    r->Err_0,
                    ApiErrorKind::BadRequest,
                    "Pilih workspace dulu."@,
                ),
            },
    {
        match &self.workspace {
            Some(w) => Ok(w.clone()),
            None => Err(ApiError::bad_request("Pilih workspace dulu.")),
        }
    }

    /// How many commands wait for approval.
    pub fn pending_count(&self) -> (r: usize)
        requires
            self.wf(),
        ensures
            r == self.pending().len(),
    {
        proof {
            let s = self.approvals@;
            assert(approvals_map(s).dom() =~= ids(s).to_set());
            ids(s).unique_seq_to_set();
        }
        self.approvals.len()
    }

    fn find(&self, id: &str) -> (r: Option<usize>)
        requires
            self.wf(),
        ensures
            match r {
                Some(i) => i < self.approvals@.len() && self.approvals@[i as int].id@ == id@,
                None => !self.pending().dom().contains(id@),
            },
    {
        let mut i: usize = 0;
        while i < self.approvals.len()
            invariant
                i <= self.approvals@.len(),
                forall|k: int| 0 <= k < i ==> self.approvals@[k].id@ != id@,
            decreases self.approvals.len() - i,
        {
            if same_text(self.approvals[i].id.as_str(), id) {
                return Some(i);
            }
            i = i + 1;
        }
        proof {
            if ids(self.approvals@).contains(id@) {
                let j = choose|j: int|
                    0 <= j < ids(self.approvals@).len() && ids(self.approvals@)[j] == id@;
                assert(self.approvals@[j].id@ == id@);
            }
        }
        None
    }

    /// Records `p`, replacing a waiting command with the same id.
    fn record(&mut self, p: PendingApproval)
        requires
            old(self).wf(),
        ensures
            final(self).wf(),
            final(self).workspace_spec() == old(self).workspace_spec(),
            final(self).pending() == old(self).pending().insert(p.id@, pending_view(p)),
    {
        match self.find(p.id.as_str()) {
            Some(i) => {
                proof {
                    lemma_map_set(self.approvals@, i as int, p);
                }
                self.approvals.set(i, p);
            },
            None => {
                proof {
                    assert(!ids(self.approvals@).contains(p.id@));
                    lemma_map_push(self.approvals@, p);
                }
                self.approvals.push(p);
            },
        }
    }

    /// `POST /api/tools/command/request`: asks the policy about running
    /// `request.command` in the workspace. A blocked command is refused;
    /// otherwise an approval request is recorded under a fresh id and
    /// returned. Nothing runs here.
    pub fn request_command(
        &mut self,
        request: &RunCommandRequest,
        allow_outside_workspace: bool,
        platform: Platform,
    ) -> (r: Result<ApprovalRequest, ApiError>)
        requires
            old(self).wf(),
        ensures
            final(self).wf(),
            final(self).workspace_spec() == old(self).workspace_spec(),
            match old(self).workspace_spec() {
                None => {
                    &&& r is Err
                    &&& error_is(r->Err_0, ApiErrorKind::BadRequest, "Pilih workspace dulu."@)
                    &&& final(self).pending() == old(self).pending()
                },
                Some(ws) => {
                    let a = command_assessment(
                        request.command@,
                        ws,
                        allow_outside_workspace,
                        platform,
                    );
                    if a.0 == RiskLevel::Block {
                        &&& r is Err
                        &&& error_is(r->Err_0, ApiErrorKind::Forbidden, a.1)
                        &&& final(self).pending() == old(self).pending()
                    } else {
                        &&& r is Ok
                        &&& is_uuid_v4_text(r->Ok_0.id@)
                        &&& r->Ok_0.tool@ == "run_command"@
                        &&& opt_view(r->Ok_0.command) == Some(request.command@)
                        &&& opt_view(r->Ok_0.cwd) == Some(ws)
                        &&& r->Ok_0.risk_level == a.0
                        &&& r->Ok_0.reason@ == chosen_reason(request.reason, a.1)
                        &&& ends_with_utc_offset(r->Ok_0.created_at@)
                        &&& final(self).pending() == old(self).pending().insert(
                            r->Ok_0.id@,
                            PendingView {
                                command: request.command@,
                                reason: r->Ok_0.reason@,
                                cwd: ws,
                            },
                        )
                    }
                },
            },
    {
        let workspace = match self.require_workspace() {
            Ok(w) => w,
            Err(e) => {
                return Err(e);
            },
        };
        let intent = ToolIntent {
            name: owned("run_command"),
            command: Some(request.command.clone()),
            path: Some(workspace.clone()),
        };
        let context = PolicyContext {
            workspace: Some(workspace.clone()),
            allow_outside_workspace,
        };
        let decision = assess_tool_request(&intent, &context, platform);
        if decision.risk_level == RiskLevel::Block {
            return Err(ApiError { kind: ApiErrorKind::Forbidden, message: decision.reason });
        }
        let id = new_uuid_v4();
        let reason = match &request.reason {
            Some(r) => r.clone(),
            None => decision.reason,
        };
        let approval = ApprovalRequest {
            id: id.clone(),
            tool: owned("run_command"),
            command: Some(request.command.clone()),
            cwd: Some(workspace.clone()),
            risk_level: decision.risk_level,
            reason: reason.clone(),
            created_at: now_rfc3339(),
        };
        self.record(
            PendingApproval { id, command: request.command.clone(), reason, cwd: workspace },
        );
        Ok(approval)
    }

    /// `POST /api/approvals/:id/decision`: takes the waiting command `id`
    /// out of the queue and answers with the status it moves to (running when
    /// approved, rejected otherwise) together with the command. An unknown
    /// id is not found.
    pub fn decide_approval(&mut self, id: &str, decision: ApprovalDecision) -> (r: Result<
        (ToolRunStatus, PendingApproval),
        ApiError,
    >)
        requires
            old(self).wf(),
        ensures
            final(self).wf(),
            final(self).workspace_spec() == old(self).workspace_spec(),
            !old(self).pending().dom().contains(id@) ==> {
                &&& r is Err
                &&& error_is(r->Err_0, ApiErrorKind::NotFound, "Approval tidak ditemukan."@)
                &&& final(self).pending() == old(self).pending()
            },
            old(self).pending().dom().contains(id@) ==> {
                &&& r is Ok
                &&& r->Ok_0.0 == (match decision {
                    ApprovalDecision::Approved => ToolRunStatus::Running,
                    ApprovalDecision::Rejected => ToolRunStatus::Rejected,
                })
                &&& r->Ok_0.1.id@ == id@
                &&& pending_view(r->Ok_0.1) == old(self).pending()[id@]
                &&& final(self).pending() == old(self).pending().remove(id@)
            },
    {
        match self.find(id) {
            None => Err(ApiError::not_found("Approval tidak ditemukan.")),
            Some(i) => {
                proof {
                    lemma_map_entry(self.approvals@, i as int);
                    lemma_map_remove(self.approvals@, i as int);
                }
                let approval = self.approvals.remove(i);
                let status = match decision {
                    ApprovalDecision::Approved => ToolRunStatus::Running,
                    ApprovalDecision::Rejected => ToolRunStatus::Rejected,
                };
                Ok((status, approval))
            },
        }
    }

    /// `GET /api/status`: the app's name, the daemon's platform, the Codex
    /// check, the voice capabilities, the workspace and the number of
    /// commands waiting.
    pub fn status(
        &self,
        app_name: &str,
        codex: CodexCheck,
        wake_word_enabled: bool,
        platform_name: &str,
        platform: Platform,
    ) -> (r: StatusResponse)
        requires
            self.wf(),
        ensures
            r.app@ == app_name@,
            r.daemon@ == "running"@,
            r.platform@ == platform_name@,
            r.codex.available == codex.available,
            r.codex.path == codex.path,
            r.codex.version == codex.version,
            r.voice.mic_available,
            r.voice.tts_available,
            r.voice.wake_word_enabled == wake_word_enabled,
            r.voice.state == VoiceState::Idle,
            workspace_info_is(r.workspace, self.workspace_spec(), platform),
            r.pending_approvals == self.pending().len(),
    {
        let workspace = match &self.workspace {
            Some(w) => workspace_info(w.as_str(), platform),
            None => WorkspaceInfo { path: None, name: None },
        };
        StatusResponse {
            app: owned(app_name),
            daemon: owned("running"),
            platform: owned(platform_name),
            codex: CodexStatus {
                available: codex.available,
                path: codex.path,
                version: codex.version,
            },
            voice: VoiceStatus {
                mic_available: true,
                tts_available: true,
                wake_word_enabled,
                state: VoiceState::Idle,
            },
            workspace,
            pending_approvals: self.pending_count(),
        }
    }
}

// ---------------------------------------------------------------------------
// Laws
// ---------------------------------------------------------------------------
/// A command request is never safe: it is blocked for its command, or it
/// waits for approval.
pub proof fn lemma_command_request_never_safe(
    command: Seq<char>,
    ws: Seq<char>,
    allow_outside_workspace: bool,
    platform: Platform,
)
    ensures
        command_assessment(command, ws, allow_outside_workspace, platform).0 != RiskLevel::Safe,
        block_reason(command) is None ==> command_assessment(
            command,
            ws,
            allow_outside_workspace,
            platform,
        ) == (RiskLevel::Ask, "Command dapat mengubah state sistem atau project."@),
{
    crate::paths::lemma_path_inside_itself(ws, platform);
    reveal_strlit("run_command");
    reveal_strlit("list_dir");
    reveal_strlit("read_file");
    reveal_strlit("git_status");
    reveal_strlit("git_diff");
    assert("run_command"@.len() == 11);
    assert("list_dir"@.len() == 8);
    assert("read_file"@.len() == 9);
    assert("git_status"@.len() == 10);
    assert("git_diff"@.len() == 8);
    assert(!crate::policy::is_read_only_tool("run_command"@));
}

/// A request just recorded under `id` is waiting, and deciding it hands back
/// what was recorded and leaves the other waiting commands as they were.
pub proof fn lemma_recorded_request_is_decided(
    pending: Map<Seq<char>, PendingView>,
    id: Seq<char>,
    recorded: PendingView,
)
    ensures
        pending.insert(id, recorded).dom().contains(id),
        pending.insert(id, recorded)[id] == recorded,
        pending.insert(id, recorded).remove(id) == pending.remove(id),
{
    assert(pending.insert(id, recorded).remove(id) =~= pending.remove(id));
}

/// An approval is decided at most once: after a decision its id is no longer
/// waiting, so a second decision on it is not found.
pub proof fn lemma_decided_once(pending: Map<Seq<char>, PendingView>, id: Seq<char>)
    ensures
        !pending.remove(id).dom().contains(id),
{
}

/// A prompt run that was launched is reported completed exactly when it
/// exited with code 0, and failed otherwise; one that could not be launched
/// is reported as an error.
pub proof fn lemma_codex_event_reports_exit_code(launched: bool, exit_code: Option<i32>)
    ensures
        launched ==> (codex_event_type_spec(launched, exit_code) == "codex.completed"@
            <==> exit_code == Some(0i32)),
        launched && exit_code != Some(0i32) ==> codex_event_type_spec(launched, exit_code)
            == "codex.failed"@,
        !launched ==> codex_event_type_spec(launched, exit_code) == "codex.error"@,
{
    reveal_strlit("codex.completed");
    reveal_strlit("codex.failed");
    assert("codex.completed"@.len() == 15);
    assert("codex.failed"@.len() == 12);
}

} // verus!
