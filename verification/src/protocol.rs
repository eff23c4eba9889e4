//! The payloads exchanged between the daemon and the HUD.

use crate::stamp::{ends_with_utc_offset, is_uuid_v4_text, new_uuid_v4, now_rfc3339};
use crate::text::owned;
use vstd::prelude::*;

verus! {

/// `serde_json::Value`, carried opaquely as an event's payload.
#[verifier::external_type_specification]
#[verifier::external_body]
pub struct ExJsonValue(serde_json::Value);

/// Where the voice pipeline is.
#[derive(Clone, Copy, Debug, PartialEq, Eq, Structural)]
pub enum VoiceState {
    Idle,
    ListeningForWakeWord,
    WakeWordDetected,
    RecordingCommand,
    Transcribing,
    Thinking,
    Speaking,
    WaitingApproval,
    Error,
}

impl Default for VoiceState {
    fn default() -> (r: Self)
        ensures
            r == VoiceState::Idle,
    {
        VoiceState::Idle
    }
}

/// How a tool request is treated: run it, ask the user first, or refuse it.
#[derive(Clone, Copy, Debug, PartialEq, Eq, Structural)]
pub enum RiskLevel {
    Safe,
    Ask,
    Block,
}

/// The state of one tool run.
#[derive(Clone, Copy, Debug, PartialEq, Eq, Structural)]
pub enum ToolRunStatus {
    PendingApproval,
    Running,
    Completed,
    Rejected,
    Blocked,
    Failed,
}

/// The selected workspace, by path and by final name.
#[derive(Clone, Debug)]
pub struct WorkspaceInfo {
    pub path: Option<String>,
    pub name: Option<String>,
}

/// Whether the Codex CLI answered, and with which executable and version.
#[derive(Clone, Debug)]
pub struct CodexStatus {
    pub available: bool,
    pub path: Option<String>,
    pub version: Option<String>,
}

/// Voice capabilities and state.
#[derive(Clone, Debug)]
pub struct VoiceStatus {
    pub mic_available: bool,
    pub tts_available: bool,
    pub wake_word_enabled: bool,
    pub state: VoiceState,
}

/// The answer to `GET /api/status`.
#[derive(Clone, Debug)]
pub struct StatusResponse {
    pub app: String,
    pub daemon: String,
    pub platform: String,
    pub codex: CodexStatus,
    pub voice: VoiceStatus,
    pub workspace: WorkspaceInfo,
    pub pending_approvals: usize,
}

/// The body of `POST /api/workspace`.
#[derive(Clone, Debug)]
pub struct SetWorkspaceRequest {
    pub path: String,
}

/// The body of `POST /api/sessions/:id/prompt`.
#[derive(Clone, Debug)]
pub struct PromptRequest {
    pub input_type: String,
    pub message: String,
}

/// The answer to a prompt: accepted for the session.
#[derive(Clone, Debug)]
pub struct PromptAcceptedResponse {
    pub session_id: String,
    pub accepted: bool,
}

/// The body of `POST /api/tools/command/request`.
#[derive(Clone, Debug)]
pub struct RunCommandRequest {
    pub command: String,
    pub reason: Option<String>,
}

/// A command waiting for the user's approval.
#[derive(Clone, Debug)]
pub struct ApprovalRequest {
    pub id: String,
    pub tool: String,
    pub command: Option<String>,
    pub cwd: Option<String>,
    pub risk_level: RiskLevel,
    pub reason: String,
    pub created_at: String,
}

/// The user's answer to an approval request.
#[derive(Clone, Copy, Debug, PartialEq, Eq, Structural)]
pub enum ApprovalDecision {
    Approved,
    Rejected,
}

/// The body of `POST /api/approvals/:id/decision`.
#[derive(Clone, Debug)]
pub struct ApprovalDecisionRequest {
    pub decision: ApprovalDecision,
}

/// What one tool run produced.
#[derive(Clone, Debug)]
pub struct ToolOutput {
    pub id: String,
    pub tool_name: String,
    pub status: ToolRunStatus,
    pub stdout: String,
    pub stderr: String,
    pub exit_code: Option<i32>,
    pub started_at: String,
    pub finished_at: String,
}

/// One event on the daemon's event stream and in its log.
#[derive(Debug)]
pub struct EventEnvelope {
    pub id: String,
    pub event_type: String,
    pub data: serde_json::Value,
    pub created_at: String,
}

impl EventEnvelope {
    /// A new event of type `event_type` carrying `data`, with a fresh random
    /// id and the current time.
    pub fn new(event_type: &str, data: serde_json::Value) -> (r: Self)
        ensures
            r.event_type@ == event_type@,
            r.data == data,
            is_uuid_v4_text(r.id@),
            ends_with_utc_offset(r.created_at@),
    {
        EventEnvelope {
            id: new_uuid_v4(),
            event_type: owned(event_type),
            data,
            created_at: now_rfc3339(),
        }
    }
}

} // verus!
