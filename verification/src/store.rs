//! Configuration defaults and the JSONL event log: file naming, line
//! framing and the redaction of secrets.

use crate::paths::Platform;
use crate::pattern::{
    any_of, compile, ignoring_case, regex_compiles, regex_finds_match, regex_replaced_all,
    replace_all,
};
use crate::stamp::utc_date_stamp;
use crate::text::{join3, owned, push_char};
use vstd::prelude::*;

verus! {

/// Where the daemon listens.
#[derive(Clone, Debug)]
pub struct DaemonSection {
    pub host: String,
    pub port: u16,
}

/// How the Codex CLI is reached.
#[derive(Clone, Debug)]
pub struct CodexSection {
    pub enabled: bool,
    pub executable: String,
    pub default_mode: String,
}

/// Voice input and output settings.
#[derive(Clone, Debug)]
pub struct VoiceSection {
    pub enabled: bool,
    pub input_mode: String,
    pub wake_word_enabled: bool,
    pub wake_word: String,
    pub stt_provider: String,
    pub tts_provider: String,
    pub speak_responses: bool,
}

/// Approval and redaction settings.
#[derive(Clone, Debug)]
pub struct SecuritySection {
    pub approval_mode: String,
    pub allow_outside_workspace: bool,
    pub redact_secrets: bool,
}

/// Event-log settings.
#[derive(Clone, Debug)]
pub struct LogsSection {
    pub enabled: bool,
    pub retention_days: u16,
}

/// The Codex executable configured by default on `platform`.
pub open spec fn default_codex_executable_spec(platform: Platform) -> Seq<char> {
    if platform == Platform::Windows {
        "codex.cmd"@
    } else {
        "codex"@
    }
}

/// The Codex executable configured by default on `platform`.
pub fn default_codex_executable(platform: Platform) -> (r: &'static str)
    ensures
        r@ == default_codex_executable_spec(platform),
{
    if platform == Platform::Windows {
        "codex.cmd"
    } else {
        "codex"
    }
}

impl DaemonSection {
    /// The default: listen on the loopback address only, on port 44731.
    pub fn defaults() -> (r: Self)
        ensures
            r.host@ == "127.0.0.1"@,
            r.port == 44731,
    {
        DaemonSection { host: owned("127.0.0.1"), port: 44731 }
    }
}

impl CodexSection {
    /// The default: enabled, through the CLI, with the platform's default executable.
    pub fn defaults(platform: Platform) -> (r: Self)
        ensures
            r.enabled,
            r.executable@ == default_codex_executable_spec(platform),
            r.default_mode@ == "cli"@,
    {
        CodexSection {
            enabled: true,
            executable: owned(default_codex_executable(platform)),
            default_mode: owned("cli"),
        }
    }
}

impl VoiceSection {
    /// The default: push-to-talk, no wake word, spoken responses.
    pub fn defaults() -> (r: Self)
        ensures
            r.enabled,
            r.input_mode@ == "push_to_talk"@,
            !r.wake_word_enabled,
            r.wake_word@ == "nara"@,
            r.stt_provider@ == "openai"@,
            r.tts_provider@ == "windows"@,
            r.speak_responses,
    {
        VoiceSection {
            enabled: true,
            input_mode: owned("push_to_talk"),
            wake_word_enabled: false,
            wake_word: owned("nara"),
            stt_provider: owned("openai"),
            tts_provider: owned("windows"),
            speak_responses: true,
        }
    }
}

impl SecuritySection {
    /// The default: strict approvals, nothing outside the workspace without
    /// approval, secrets redacted.
    pub fn defaults() -> (r: Self)
        ensures
            r.approval_mode@ == "strict"@,
            !r.allow_outside_workspace,
            r.redact_secrets,
    {
        SecuritySection {
            approval_mode: owned("strict"),
            allow_outside_workspace: false,
            redact_secrets: true,
        }
    }
}

impl LogsSection {
    /// The default: logging on, kept for 14 days.
    pub fn defaults() -> (r: Self)
        ensures
            r.enabled,
            r.retention_days == 14,
    {
        LogsSection { enabled: true, retention_days: 14 }
    }
}

/// The patterns of secrets in event logs, in the order they are applied.
pub open spec fn secret_pattern(i: int) -> Seq<char> {
    if i == 0 {
        r"sk-[A-Za-z0-9_\-]{20,}"@
    } else {
        r#"(?i)(api[_-]?key|token|password|secret)(\\?":\\?"|=)\s*[^,"\\\s]+"#@
    }
}

/// What replaces a secret: the key and separator the pattern captured, then `[REDACTED]`.
pub open spec fn redaction_template() -> Seq<char> {
    "$1$2[REDACTED]"@
}

/// `text` with the secret pattern `i` replaced, when that pattern compiles.
pub open spec fn redact_with(text: Seq<char>, i: int) -> Seq<char> {
    if regex_compiles(secret_pattern(i)) {
        regex_replaced_all(secret_pattern(i), text, redaction_template())
    } else {
        text
    }
}

/// `input` with both secret patterns replaced in turn.
pub open spec fn redacted(input: Seq<char>) -> Seq<char> {
    redact_with(redact_with(input, 0), 1)
}

fn secret_pattern_text(i: usize) -> (r: &'static str)
    requires
        i < 2,
    ensures
        r@ == secret_pattern(i as int),
{
    if i == 0 {
        r"sk-[A-Za-z0-9_\-]{20,}"
    } else {
        r#"(?i)(api[_-]?key|token|password|secret)(\\?":\\?"|=)\s*[^,"\\\s]+"#
    }
}

/// Whether no secret pattern matches anywhere in `text`.
pub open spec fn free_of_secrets(text: Seq<char>) -> bool {
    &&& regex_compiles(secret_pattern(0)) ==> !regex_finds_match(secret_pattern(0), text)
    &&& regex_compiles(secret_pattern(1)) ==> !regex_finds_match(secret_pattern(1), text)
}

/// Replaces API keys, tokens, passwords and secrets in `input` by
/// `[REDACTED]`. Text in which no secret pattern matches comes back unchanged.
pub fn redact_secrets(input: &str) -> (r: String)
    ensures
        r@ == redacted(input@),
        free_of_secrets(input@) ==> r@ == input@,
{
    let mut current = owned(input);
    let mut i: usize = 0;
    while i < 2
        invariant
            i <= 2,
            i == 0 ==> current@ == input@,
            i == 1 ==> current@ == redact_with(input@, 0),
            i == 2 ==> current@ == redacted(input@),
            free_of_secrets(input@) ==> current@ == input@,
        decreases 2 - i,
    {
        match compile(secret_pattern_text(i)) {
            Ok(p) => {
                current = replace_all(&p, current.as_str(), "$1$2[REDACTED]");
            },
            Err(_) => {},
        }
        i = i + 1;
    }
    current
}

/// The log file for the day `date`.
pub open spec fn log_file_name_spec(date: Seq<char>) -> Seq<char> {
    "events-"@ + date + ".jsonl"@
}

/// The log file for the day `date` (`YYYY-MM-DD`).
pub fn log_file_name(date: &str) -> (r: String)
    ensures
        r@ == log_file_name_spec(date@),
{
    join3("events-", date, ".jsonl")
}

/// Writes events, one JSON document per line, into daily files of a directory.
#[derive(Clone, Debug)]
pub struct EventLogger {
    log_dir: String,
    redact_secrets: bool,
}

impl EventLogger {
    /// The directory of the log files.
    pub closed spec fn log_dir_spec(&self) -> Seq<char> {
        self.log_dir@
    }

    /// Whether secrets are redacted before writing.
    pub closed spec fn redacts(&self) -> bool {
        self.redact_secrets
    }

    /// A logger writing into `log_dir`, which the caller has created.
    pub fn new(log_dir: &str, redact_secrets: bool) -> (r: Self)
        ensures
            r.log_dir_spec() == log_dir@,
            r.redacts() == redact_secrets,
    {
        EventLogger { log_dir: owned(log_dir), redact_secrets }
    }

    /// The directory of the log files.
    pub fn log_dir(&self) -> (r: &str)
        ensures
            r@ == self.log_dir_spec(),
    {
        self.log_dir.as_str()
    }

    /// The line written for the serialized event `serialized`: redacted when
    /// the logger redacts, and terminated by a newline.
    pub fn log_line(&self, serialized: &str) -> (r: String)
        ensures
            r@ == (if self.redacts() {
                redacted(serialized@)
            } else {
                serialized@
            }).push('\n'),
    {
        let mut line = if self.redact_secrets {
            redact_secrets(serialized)
        } else {
            owned(serialized)
        };
        push_char(&mut line, '\n');
        line
    }

    /// The file that today's events go to, inside the log directory.
    pub fn current_file_name(&self) -> (r: String)
        ensures
            exists|date: Seq<char>| r@ == log_file_name_spec(date),
    {
        let date = utc_date_stamp();
        log_file_name(date.as_str())
    }
}

// ---------------------------------------------------------------------------
// Laws
// ---------------------------------------------------------------------------
/// The key names whose values are redacted: `api_key`, `apikey`, `api-key`
/// (`api[_-]?key`), `token`, `password` and `secret`.
pub open spec fn secret_key_names() -> Seq<Seq<char>> {
    seq![r"api[_-]?key"@, "token"@, "password"@, "secret"@]
}

/// A secret given by name: one of the key names, in any case, then `=` or
/// `":"` (quotes possibly escaped), optional whitespace, and a value that
/// runs up to a comma, a quote, a backslash or whitespace.
pub open spec fn named_secret_pattern() -> Seq<char> {
    ignoring_case(
        any_of(secret_key_names()) + any_of(seq![r#"\\?":\\?""#@, "="@]) + r#"\s*[^,"\\\s]+"#@,
    )
}

/// An API key: `sk-` followed by at least 20 letters, digits, `_` or `-`.
pub open spec fn api_key_pattern() -> Seq<char> {
    "sk-"@ + r"[A-Za-z0-9_\-]"@ + "{20,}"@
}

proof fn lemma_api_key_pattern()
    ensures
        secret_pattern(0) == api_key_pattern(),
{
    reveal_strlit(r"sk-[A-Za-z0-9_\-]{20,}");
    reveal_strlit("sk-");
    reveal_strlit(r"[A-Za-z0-9_\-]");
    reveal_strlit("{20,}");
    assert(secret_pattern(0) =~= api_key_pattern());
}

proof fn lemma_named_secret_pattern()
    ensures
        secret_pattern(1) == named_secret_pattern(),
{
    reveal_with_fuel(crate::pattern::alternation, 5);
    reveal_strlit(r#"(?i)(api[_-]?key|token|password|secret)(\\?":\\?"|=)\s*[^,"\\\s]+"#);
    reveal_strlit(r"api[_-]?key");
    reveal_strlit("token");
    reveal_strlit("password");
    reveal_strlit("secret");
    reveal_strlit(r#"\\?":\\?""#);
    reveal_strlit("=");
    reveal_strlit(r#"\s*[^,"\\\s]+"#);
    assert(secret_pattern(1) =~= named_secret_pattern());
}

/// The secret patterns are the documented ones, and a secret is replaced by
/// its key and separator (the first two groups) followed by `[REDACTED]`.
pub proof fn lemma_secret_patterns_are_documented()
    ensures
        secret_pattern(0) == api_key_pattern(),
        secret_pattern(1) == named_secret_pattern(),
        redaction_template() == "$1"@ + "$2"@ + "[REDACTED]"@,
{
    lemma_api_key_pattern();
    lemma_named_secret_pattern();
    reveal_strlit("$1$2[REDACTED]");
    reveal_strlit("$1");
    reveal_strlit("$2");
    reveal_strlit("[REDACTED]");
    assert(redaction_template() =~= "$1"@ + "$2"@ + "[REDACTED]"@);
}

/// Redaction first replaces API keys, then every documented key name with
/// its value (`api_key`, `token`, `password`, `secret`, ...) in what is left.
pub proof fn lemma_redaction_replaces_named_secrets(input: Seq<char>)
    requires
        regex_compiles(named_secret_pattern()),
    ensures
        redacted(input) == regex_replaced_all(
            named_secret_pattern(),
            redact_with(input, 0),
            "$1"@ + "$2"@ + "[REDACTED]"@,
        ),
{
    lemma_secret_patterns_are_documented();
}

} // verus!
