use nara::codex::CodexBridge;
use nara::paths::Platform;

fn strings(v: &[&str]) -> Vec<String> {
    v.iter().map(|s| s.to_string()).collect()
}

#[test]
fn unix_tries_only_the_executable() {
    let b = CodexBridge::new("codex", 120);
    assert_eq!(b.command_candidates(Platform::Unix), strings(&["codex"]));
}

#[test]
fn windows_adds_cmd_and_exe_forms() {
    let b = CodexBridge::new("codex", 120);
    assert_eq!(
        b.command_candidates(Platform::Windows),
        strings(&["codex", "codex.cmd", "codex.exe"])
    );
    let b = CodexBridge::new("Codex.CMD", 120);
    assert_eq!(b.command_candidates(Platform::Windows), strings(&["Codex.CMD"]));
    let b = CodexBridge::new("tool", 120);
    assert_eq!(b.command_candidates(Platform::Windows), strings(&["tool", "tool.cmd"]));
}

#[test]
fn check_reports_first_successful_candidate() {
    let candidates = strings(&["codex", "codex.cmd", "codex.exe"]);
    let probes = vec![None, Some(" codex-cli 0.30.0\r\n".to_string())];
    let check = CodexBridge::check_outcome(&candidates, &probes);
    assert!(check.available);
    assert_eq!(check.path.as_deref(), Some("codex.cmd"));
    assert_eq!(check.version.as_deref(), Some("codex-cli 0.30.0"));
}

#[test]
fn check_without_success_is_unavailable() {
    let candidates = strings(&["codex"]);
    let check = CodexBridge::check_outcome(&candidates, &vec![None]);
    assert!(!check.available);
    assert_eq!(check.path, None);
    assert_eq!(check.version, None);
}

#[test]
fn resolve_falls_back_to_configured_executable() {
    let b = CodexBridge::new("my-codex", 5);
    let candidates = strings(&["my-codex"]);
    assert_eq!(b.resolve_outcome(&candidates, &vec![None]), "my-codex");
    assert_eq!(
        b.resolve_outcome(&strings(&["a", "b"]), &vec![None, Some(String::new())]),
        "b"
    );
}

#[test]
fn prompt_plan_and_reports() {
    let b = CodexBridge::new("codex", 90);
    let plan = b.prompt_plan("codex", "/w", "explain this");
    assert_eq!(
        plan.args,
        strings(&[
            "exec",
            "--skip-git-repo-check",
            "--sandbox",
            "read-only",
            "--color",
            "never",
            "--cd",
            "/w",
            "explain this"
        ])
    );
    assert_eq!(
        plan.command_line,
        "codex exec --skip-git-repo-check --sandbox read-only --color never --cd \"/w\" <prompt>"
    );
    assert_eq!(plan.timeout_seconds, 90);
    let t = plan.timed_out(90_001);
    assert!(t.timed_out);
    assert_eq!(t.stderr, "Codex did not finish within 90 seconds.");
    assert_eq!(t.stdout, "");
    assert_eq!(t.exit_code, None);
    assert_eq!(t.elapsed_ms, 90_001);
    assert_eq!(t.workspace, "/w");
    let f = plan.finished("out".into(), "err".into(), Some(0), 12);
    assert!(!f.timed_out);
    assert_eq!(f.stdout, "out");
    assert_eq!(f.exit_code, Some(0));
    assert_eq!(f.executable, "codex");
}

#[test]
fn timeout_message_renders_zero_and_large_values() {
    let plan = CodexBridge::new("c", 0).prompt_plan("c", "w", "p");
    assert_eq!(plan.timed_out(0).stderr, "Codex did not finish within 0 seconds.");
    let plan = CodexBridge::new("c", u64::MAX).prompt_plan("c", "w", "p");
    assert_eq!(
        plan.timed_out(0).stderr,
        "Codex did not finish within 18446744073709551615 seconds."
    );
}
