use nara::codex::CodexCheck;
use nara::daemon::{codex_event_type, prompt_accepted, workspace_info, ApiError, ApiErrorKind, DaemonState};
use nara::paths::Platform;
use nara::protocol::{ApprovalDecision, RiskLevel, RunCommandRequest, ToolRunStatus, VoiceState};

fn request(command: &str, reason: Option<&str>) -> RunCommandRequest {
    RunCommandRequest { command: command.into(), reason: reason.map(|r| r.to_string()) }
}

#[test]
fn commands_need_a_workspace() {
    let mut d = DaemonState::new();
    let e = d.request_command(&request("ls", None), false, Platform::Unix).unwrap_err();
    assert_eq!(e.kind, ApiErrorKind::BadRequest);
    assert_eq!(e.message, "Pilih workspace dulu.");
    assert_eq!(d.require_workspace().unwrap_err().kind, ApiErrorKind::BadRequest);
    assert_eq!(d.pending_count(), 0);
}

#[test]
fn command_request_waits_for_approval() {
    let mut d = DaemonState::new();
    let info = d.select_workspace("/home/u/proj", Platform::Unix);
    assert_eq!(info.name.as_deref(), Some("proj"));
    assert_eq!(info.path.as_deref(), Some("/home/u/proj"));
    let a = d.request_command(&request("cargo test", None), false, Platform::Unix).unwrap();
    assert_eq!(a.tool, "run_command");
    assert_eq!(a.risk_level, RiskLevel::Ask);
    assert_eq!(a.reason, "Command dapat mengubah state sistem atau project.");
    assert_eq!(a.command.as_deref(), Some("cargo test"));
    assert_eq!(a.cwd.as_deref(), Some("/home/u/proj"));
    assert_eq!(a.id.len(), 36);
    assert_eq!(d.pending_count(), 1);
}

#[test]
fn requester_reason_is_kept() {
    let mut d = DaemonState::new();
    d.select_workspace("/w", Platform::Unix);
    let a = d.request_command(&request("make", Some("build it")), false, Platform::Unix).unwrap();
    assert_eq!(a.reason, "build it");
}

#[test]
fn blocked_command_is_refused_and_not_recorded() {
    let mut d = DaemonState::new();
    d.select_workspace("/w", Platform::Unix);
    let e = d.request_command(&request("rm -rf /", None), false, Platform::Unix).unwrap_err();
    assert_eq!(e.kind, ApiErrorKind::Forbidden);
    assert_eq!(e.message, "Command delete massal diblokir.");
    assert_eq!(d.pending_count(), 0);
}

#[test]
fn approval_is_decided_once() {
    let mut d = DaemonState::new();
    d.select_workspace("/w", Platform::Unix);
    let a = d.request_command(&request("npm test", None), false, Platform::Unix).unwrap();
    let (status, pending) = d.decide_approval(&a.id, ApprovalDecision::Approved).unwrap();
    assert_eq!(status, ToolRunStatus::Running);
    assert_eq!(pending.command, "npm test");
    assert_eq!(pending.cwd, "/w");
    assert_eq!(pending.id, a.id);
    assert_eq!(d.pending_count(), 0);
    let e = d.decide_approval(&a.id, ApprovalDecision::Approved).unwrap_err();
    assert_eq!(e.kind, ApiErrorKind::NotFound);
    assert_eq!(e.message, "Approval tidak ditemukan.");
}

#[test]
fn rejection_leaves_other_approvals() {
    let mut d = DaemonState::new();
    d.select_workspace("/w", Platform::Unix);
    let a = d.request_command(&request("one", None), false, Platform::Unix).unwrap();
    let b = d.request_command(&request("two", None), false, Platform::Unix).unwrap();
    assert_eq!(d.pending_count(), 2);
    let (status, pending) = d.decide_approval(&a.id, ApprovalDecision::Rejected).unwrap();
    assert_eq!(status, ToolRunStatus::Rejected);
    assert_eq!(pending.command, "one");
    assert_eq!(d.pending_count(), 1);
    let (_, pending) = d.decide_approval(&b.id, ApprovalDecision::Approved).unwrap();
    assert_eq!(pending.command, "two");
}

#[test]
fn status_reports_the_state() {
    let mut d = DaemonState::new();
    let check = CodexCheck { available: true, path: Some("codex".into()), version: Some("1.0".into()) };
    let s = d.status("NARA", check.clone(), false, "linux", Platform::Unix);
    assert_eq!(s.app, "NARA");
    assert_eq!(s.daemon, "running");
    assert_eq!(s.platform, "linux");
    assert!(s.codex.available);
    assert_eq!(s.codex.version.as_deref(), Some("1.0"));
    assert!(s.voice.mic_available && s.voice.tts_available && !s.voice.wake_word_enabled);
    assert_eq!(s.voice.state, VoiceState::Idle);
    assert_eq!(s.workspace.path, None);
    assert_eq!(s.workspace.name, None);
    d.select_workspace("/w/nara", Platform::Unix);
    d.request_command(&request("x", None), false, Platform::Unix).unwrap();
    let s = d.status("NARA", check, true, "linux", Platform::Unix);
    assert_eq!(s.workspace.name.as_deref(), Some("nara"));
    assert_eq!(s.pending_approvals, 1);
    assert!(s.voice.wake_word_enabled);
}

#[test]
fn prompt_helpers() {
    assert_eq!(codex_event_type(true, Some(0)), "codex.completed");
    assert_eq!(codex_event_type(true, Some(1)), "codex.failed");
    assert_eq!(codex_event_type(true, None), "codex.failed");
    assert_eq!(codex_event_type(false, None), "codex.error");
    let r = prompt_accepted("s1".into());
    assert_eq!(r.session_id, "s1");
    assert!(r.accepted);
    assert_eq!(workspace_info("C:\\w\\proj", Platform::Windows).name.as_deref(), Some("proj"));
}

#[test]
fn api_error_kinds() {
    assert_eq!(ApiError::bad_request("a").kind, ApiErrorKind::BadRequest);
    assert_eq!(ApiError::forbidden("b").kind, ApiErrorKind::Forbidden);
    assert_eq!(ApiError::not_found("c").kind, ApiErrorKind::NotFound);
    let e = ApiError::internal("d");
    assert_eq!(e.kind, ApiErrorKind::Internal);
    assert_eq!(e.message, "d");
}
