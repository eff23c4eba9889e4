use nara::paths::Platform;
use nara::store::{
    default_codex_executable, log_file_name, redact_secrets, CodexSection, DaemonSection,
    EventLogger, LogsSection, SecuritySection, VoiceSection,
};

#[test]
fn redacts_api_keys() {
    // The key is assembled at run time so that no key-shaped literal sits in the source.
    let key = format!("{}-{}", "sk", "abcdefghij".repeat(3));
    let input = format!("key {key} end");
    let input = input.as_str();
    let redacted = redact_secrets(input);
    assert_eq!(redacted, "key [REDACTED] end", "redacting {input:?}");
    let plain = EventLogger::new("/logs", true).log_line(input);
    assert_eq!(plain, "key [REDACTED] end\n", "log line of {input:?}");
}

#[test]
fn redacts_named_secrets_keeping_the_key() {
    assert_eq!(redact_secrets("password=hunter2 next"), "password=[REDACTED] next");
    assert_eq!(
        redact_secrets(r#"{"api_key":"abc123","x":1}"#),
        r#"{"api_key":"[REDACTED]","x":1}"#
    );
    assert_eq!(redact_secrets("TOKEN= xyz"), "TOKEN=[REDACTED]");
}

#[test]
fn text_without_secrets_is_unchanged() {
    let text = r#"{"type":"git.status","data":{"stdout":"M src/lib.rs"}}"#;
    assert_eq!(redact_secrets(text), text);
    assert_eq!(redact_secrets("sk-short"), "sk-short");
}

#[test]
fn log_lines() {
    let plain = EventLogger::new("/logs", false);
    assert_eq!(plain.log_dir(), "/logs");
    assert_eq!(plain.log_line("password=x"), "password=x\n");
    let redacting = EventLogger::new("/logs", true);
    assert_eq!(redacting.log_line("password=x"), "password=[REDACTED]\n");
}

#[test]
fn log_file_names() {
    assert_eq!(log_file_name("2026-04-27"), "events-2026-04-27.jsonl");
    let name = EventLogger::new("/logs", true).current_file_name();
    assert!(name.starts_with("events-") && name.ends_with(".jsonl"));
    assert_eq!(name.len(), "events-2026-04-27.jsonl".len());
}

#[test]
fn config_defaults() {
    let d = DaemonSection::defaults();
    assert_eq!((d.host.as_str(), d.port), ("127.0.0.1", 44731));
    let c = CodexSection::defaults(Platform::Unix);
    assert!(c.enabled);
    assert_eq!(c.executable, "codex");
    assert_eq!(c.default_mode, "cli");
    assert_eq!(CodexSection::defaults(Platform::Windows).executable, "codex.cmd");
    assert_eq!(default_codex_executable(Platform::Windows), "codex.cmd");
    let v = VoiceSection::defaults();
    assert_eq!(v.input_mode, "push_to_talk");
    assert!(!v.wake_word_enabled);
    assert_eq!(v.wake_word, "nara");
    assert_eq!((v.stt_provider.as_str(), v.tts_provider.as_str()), ("openai", "windows"));
    assert!(v.enabled && v.speak_responses);
    let s = SecuritySection::defaults();
    assert_eq!(s.approval_mode, "strict");
    assert!(!s.allow_outside_workspace && s.redact_secrets);
    let l = LogsSection::defaults();
    assert!(l.enabled);
    assert_eq!(l.retention_days, 14);
}
