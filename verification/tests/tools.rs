use nara::paths::Platform;
use nara::protocol::ToolRunStatus;
use nara::tools::{shell_plan, sorted_listing, ToolRuntime};

#[test]
fn runtime_keeps_its_workspace() {
    let rt = ToolRuntime::new("/home/u/proj");
    assert_eq!(rt.workspace(), "/home/u/proj");
    assert_eq!(rt.list_dir_path(None), "/home/u/proj");
    assert_eq!(rt.list_dir_path(Some("/tmp".into())), "/tmp");
}

#[test]
fn shell_plans_per_platform() {
    let rt = ToolRuntime::new("/w");
    let p = rt.run_command("echo hi", Platform::Unix);
    assert_eq!(p.tool_name, "run_command");
    assert_eq!(p.program, "sh");
    assert_eq!(p.args, vec!["-lc", "echo hi"]);
    assert_eq!(p.cwd, "/w");
    let p = shell_plan("x", "dir", "C:\\w", Platform::Windows);
    assert_eq!(p.program, "cmd");
    assert_eq!(p.args, vec!["/C", "dir"]);
}

#[test]
fn git_plans() {
    let rt = ToolRuntime::new("/w");
    let s = rt.git_status();
    assert_eq!((s.tool_name.as_str(), s.program.as_str()), ("git_status", "git"));
    assert_eq!(s.args, vec!["status", "--short"]);
    assert_eq!(rt.git_diff().args, vec!["diff", "--stat", "--", "."]);
    let full = rt.git_diff_full();
    assert_eq!(full.tool_name, "git_diff");
    assert_eq!(full.args, vec!["diff", "--", "."]);
    let code = rt.open_vscode();
    assert_eq!(code.program, "code");
    assert_eq!(code.args, vec!["/w"]);
}

#[test]
fn windows_only_tools() {
    let rt = ToolRuntime::new("C:\\w");
    assert_eq!(
        rt.open_file_explorer(Platform::Unix).unwrap_err(),
        "open_file_explorer is only supported on Windows in this MVP"
    );
    assert_eq!(
        rt.open_terminal(Platform::Unix).unwrap_err(),
        "open_terminal is only supported on Windows in this MVP"
    );
    let e = rt.open_file_explorer(Platform::Windows).unwrap();
    assert_eq!(e.program, "explorer");
    let t = rt.open_terminal(Platform::Windows).unwrap();
    assert_eq!(t.program, "powershell");
    assert_eq!(
        t.args,
        vec!["-NoExit", "-Command", "Set-Location -LiteralPath 'C:\\w'"]
    );
}

#[test]
fn finished_process_report() {
    let plan = ToolRuntime::new("/w").git_status();
    let ok = plan.finish(true, "M a".into(), String::new(), Some(0), "t0".into());
    assert_eq!(ok.status, ToolRunStatus::Completed);
    assert_eq!(ok.tool_name, "git_status");
    assert_eq!(ok.stdout, "M a");
    assert_eq!(ok.started_at, "t0");
    assert_eq!(ok.id.len(), 36);
    assert!(ok.finished_at.ends_with("+00:00"));
    let bad = plan.finish(false, String::new(), "fatal".into(), Some(128), "t0".into());
    assert_eq!(bad.status, ToolRunStatus::Failed);
    assert_eq!(bad.exit_code, Some(128));
}

#[test]
fn listing_is_sorted() {
    let names: Vec<String> = vec!["/w/src".into(), "/w/Cargo.toml".into(), "/w/.git".into()];
    assert_eq!(sorted_listing(&names), vec!["/w/.git", "/w/Cargo.toml", "/w/src"]);
}
