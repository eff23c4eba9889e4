use nara::paths::Platform;
use nara::policy::{
    assess_tool_request, assess_with_block_reason, blocked_command_reason, PolicyContext,
    PolicyDecision, ToolIntent,
};
use nara::protocol::RiskLevel;

fn intent(name: &str, command: Option<&str>, path: Option<&str>) -> ToolIntent {
    ToolIntent {
        name: name.into(),
        command: command.map(|c| c.to_string()),
        path: path.map(|p| p.to_string()),
    }
}

fn context(workspace: Option<&str>, allow: bool) -> PolicyContext {
    PolicyContext {
        workspace: workspace.map(|w| w.to_string()),
        allow_outside_workspace: allow,
    }
}

#[test]
fn blocks_registry_commands() {
    let intent = ToolIntent {
        name: "run_command".into(),
        command: Some("reg delete HKCU\\Software\\Test".into()),
        path: None,
    };
    let decision = assess_tool_request(
        &intent,
        &PolicyContext {
            workspace: None,
            allow_outside_workspace: false,
        },
        Platform::Windows,
    );
    assert_eq!(decision.risk_level, RiskLevel::Block);
}

#[test]
fn registry_block_reason_is_given() {
    let d = assess_tool_request(
        &intent("run_command", Some("REG ADD HKLM\\x"), None),
        &context(None, false),
        Platform::Unix,
    );
    assert_eq!(d.risk_level, RiskLevel::Block);
    assert_eq!(d.reason, "Edit registry diblokir.");
}

#[test]
fn each_dangerous_pattern_blocks() {
    let cases = [
        ("format c:", "Command format disk diblokir."),
        ("reg import x.reg", "Edit registry diblokir."),
        ("dir C:\\Windows\\System32", "Akses destructive ke folder Windows diblokir."),
        ("open Credential Manager", "Akses credential Windows diblokir."),
        ("Set-MpPreference -DisableRealtimeMonitoring $true", "Menonaktifkan security tools diblokir."),
        ("bcdedit /set", "Command administratif berisiko tinggi diblokir."),
        ("rm -rf /", "Command delete massal diblokir."),
    ];
    for (command, reason) in cases {
        assert_eq!(blocked_command_reason(command).as_deref(), Some(reason), "{command}");
    }
}

#[test]
fn first_matching_pattern_gives_the_reason() {
    // Matches both the format rule and the delete rule; the format rule comes first.
    assert_eq!(
        blocked_command_reason("format && rm -rf /").as_deref(),
        Some("Command format disk diblokir.")
    );
}

#[test]
fn harmless_command_is_not_blocked() {
    assert_eq!(blocked_command_reason("cargo build --release"), None);
    assert_eq!(blocked_command_reason("reformatting"), None);
}

#[test]
fn blocked_command_wins_over_read_only_tool() {
    let d = assess_tool_request(
        &intent("git_status", Some("diskpart"), Some("/ws")),
        &context(Some("/ws"), false),
        Platform::Unix,
    );
    assert_eq!(d.risk_level, RiskLevel::Block);
}

#[test]
fn read_only_tools_inside_workspace_are_safe() {
    for name in ["list_dir", "read_file", "git_status", "git_diff"] {
        let d = assess_tool_request(
            &intent(name, None, Some("/home/u/project/src")),
            &context(Some("/home/u/project"), false),
            Platform::Unix,
        );
        assert_eq!(d.risk_level, RiskLevel::Safe, "{name}");
        assert_eq!(d.reason, "Operasi read-only di workspace.");
    }
}

#[test]
fn path_outside_workspace_needs_approval() {
    let d = assess_tool_request(
        &intent("read_file", None, Some("/etc/passwd")),
        &context(Some("/home/u/project"), false),
        Platform::Unix,
    );
    assert_eq!(d.risk_level, RiskLevel::Ask);
    assert_eq!(d.reason, "Akses path di luar workspace butuh approval eksplisit.");
}

#[test]
fn path_without_workspace_is_outside() {
    let d = assess_tool_request(
        &intent("read_file", None, Some("/home/u/project")),
        &context(None, false),
        Platform::Unix,
    );
    assert_eq!(d.risk_level, RiskLevel::Ask);
}

#[test]
fn allowed_outside_path_falls_back_to_the_tool() {
    let d = assess_tool_request(
        &intent("read_file", None, Some("/etc/passwd")),
        &context(Some("/home/u/project"), true),
        Platform::Unix,
    );
    assert_eq!(d.risk_level, RiskLevel::Safe);
}

#[test]
fn sibling_directory_with_common_prefix_is_outside() {
    let d = assess_tool_request(
        &intent("list_dir", None, Some("/home/u/project2")),
        &context(Some("/home/u/project"), false),
        Platform::Unix,
    );
    assert_eq!(d.risk_level, RiskLevel::Ask);
}

#[test]
fn windows_paths_compare_by_component() {
    let d = assess_tool_request(
        &intent("list_dir", None, Some("c:/Users/me/proj/./src\\")),
        &context(Some("C:\\Users\\me\\proj"), false),
        Platform::Windows,
    );
    assert_eq!(d.risk_level, RiskLevel::Safe);
}

#[test]
fn other_tools_ask() {
    let cases = [
        ("run_command", "Command dapat mengubah state sistem atau project."),
        ("write_file", "Perubahan file harus disetujui pengguna."),
        ("delete_file", "Perubahan file harus disetujui pengguna."),
        ("open_vscode", "Membuka aplikasi eksternal membutuhkan approval."),
        ("open_file_explorer", "Membuka aplikasi eksternal membutuhkan approval."),
        ("open_terminal", "Membuka aplikasi eksternal membutuhkan approval."),
        ("format_disk_tool", "Tool belum masuk daftar safe, jadi butuh approval."),
    ];
    for (name, reason) in cases {
        let d = assess_tool_request(&intent(name, None, None), &context(None, false), Platform::Unix);
        assert_eq!(d.risk_level, RiskLevel::Ask, "{name}");
        assert_eq!(d.reason, reason, "{name}");
    }
}

#[test]
fn given_block_reason_is_used() {
    let d = assess_with_block_reason(
        &intent("list_dir", None, None),
        &context(None, false),
        Platform::Unix,
        Some("custom".to_string()),
    );
    assert_eq!(d.risk_level, RiskLevel::Block);
    assert_eq!(d.reason, "custom");
}

#[test]
fn decision_constructors() {
    assert_eq!(PolicyDecision::safe("a").risk_level, RiskLevel::Safe);
    assert_eq!(PolicyDecision::ask("b").risk_level, RiskLevel::Ask);
    let d = PolicyDecision::block("c");
    assert_eq!(d.risk_level, RiskLevel::Block);
    assert_eq!(d.reason, "c");
}
