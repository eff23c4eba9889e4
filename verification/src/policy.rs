//! The SAFE / ASK / BLOCK decision for tool requests.
//!
//! A request is blocked when its command matches one of the dangerous
//! command patterns; otherwise a path outside the workspace needs approval
//! (unless the configuration allows it); otherwise the tool's name decides:
//! the read-only workspace tools are safe and every other tool, known or not,
//! needs approval.

use crate::paths::{is_outside_workspace, outside_workspace, Platform};
use crate::pattern::{
    alternation, any_of, compile, ignoring_case, is_match, regex_compiles, regex_finds_match,
    whole_word,
};
use crate::protocol::RiskLevel;
use crate::text::{owned, same_text};
use vstd::prelude::*;

verus! {

/// What the policy knows of the session: the workspace, and whether paths
/// outside it are allowed without approval.
#[derive(Clone, Debug)]
pub struct PolicyContext {
    pub workspace: Option<String>,
    pub allow_outside_workspace: bool,
}

/// A tool that is about to run: its name, and the command and path it touches.
#[derive(Clone, Debug)]
pub struct ToolIntent {
    pub name: String,
    pub command: Option<String>,
    pub path: Option<String>,
}

/// The policy's answer and the reason shown to the user.
#[derive(Clone, Debug)]
pub struct PolicyDecision {
    pub risk_level: RiskLevel,
    pub reason: String,
}

impl PolicyDecision {
    /// A decision to run without asking.
    pub fn safe(reason: &str) -> (r: Self)
        ensures
            r.risk_level == RiskLevel::Safe,
            r.reason@ == reason@,
    {
        PolicyDecision { risk_level: RiskLevel::Safe, reason: owned(reason) }
    }

    /// A decision to ask the user first.
    pub fn ask(reason: &str) -> (r: Self)
        ensures
            r.risk_level == RiskLevel::Ask,
            r.reason@ == reason@,
    {
        PolicyDecision { risk_level: RiskLevel::Ask, reason: owned(reason) }
    }

    /// A decision to refuse.
    pub fn block(reason: &str) -> (r: Self)
        ensures
            r.risk_level == RiskLevel::Block,
            r.reason@ == reason@,
    {
        PolicyDecision { risk_level: RiskLevel::Block, reason: owned(reason) }
    }
}

/// How many dangerous command patterns there are.
pub const BLOCK_RULE_COUNT: usize = 7;

/// The dangerous command patterns, in the order they are tried.
pub open spec fn block_rule_pattern(i: int) -> Seq<char> {
    if i == 0 {
        r"(?i)\bformat\b"@
    } else if i == 1 {
        r"(?i)\breg\s+(add|delete|import|save|restore)\b"@
    } else if i == 2 {
        r"(?i)\b(system32|c:\\windows|windows\\system32)\b"@
    } else if i == 3 {
        r"(?i)\bcredential\s+manager\b"@
    } else if i == 4 {
        r"(?i)\b(disable.*defender|DisableRealtimeMonitoring|Set-MpPreference)\b"@
    } else if i == 5 {
        r"(?i)\b(cipher\s+/w|bcdedit|diskpart|takeown|icacls)\b"@
    } else {
        r"(?i)(rm\s+-rf\s+/|del\s+/s\s+/q\s+c:\\)"@
    }
}

/// The reason given when the pattern of the same index matches.
pub open spec fn block_rule_reason(i: int) -> Seq<char> {
    if i == 0 {
        "Command format disk diblokir."@
    } else if i == 1 {
        "Edit registry diblokir."@
    } else if i == 2 {
        "Akses destructive ke folder Windows diblokir."@
    } else if i == 3 {
        "Akses credential Windows diblokir."@
    } else if i == 4 {
        "Menonaktifkan security tools diblokir."@
    } else if i == 5 {
        "Command administratif berisiko tinggi diblokir."@
    } else {
        "Command delete massal diblokir."@
    }
}

/// Whether the pattern of index `i` compiles and matches `command`.
pub open spec fn rule_blocks(i: int, command: Seq<char>) -> bool {
    regex_compiles(block_rule_pattern(i)) && regex_finds_match(block_rule_pattern(i), command)
}

/// The reason of the first rule, from index `i` on, that blocks `command`.
pub open spec fn block_reason_from(command: Seq<char>, i: nat) -> Option<Seq<char>>
    decreases BLOCK_RULE_COUNT - i,
{
    if i >= BLOCK_RULE_COUNT {
        None
    } else if rule_blocks(i as int, command) {
        Some(block_rule_reason(i as int))
    } else {
        block_reason_from(command, i + 1)
    }
}

/// The reason of the first rule that blocks `command`, if any rule does.
pub open spec fn block_reason(command: Seq<char>) -> Option<Seq<char>> {
    block_reason_from(command, 0)
}

/// The reason for asking about a path outside the workspace.
pub open spec fn outside_reason() -> Seq<char> {
    "Akses path di luar workspace butuh approval eksplisit."@
}

/// Whether `name` is one of the read-only workspace tools.
pub open spec fn is_read_only_tool(name: Seq<char>) -> bool {
    name == "list_dir"@ || name == "read_file"@ || name == "git_status"@ || name == "git_diff"@
}

/// Whether `name` is one of the tools that open an outside application.
pub open spec fn is_app_tool(name: Seq<char>) -> bool {
    name == "open_vscode"@ || name == "open_file_explorer"@ || name == "open_terminal"@
}

/// The decision for the tool `name` alone.
pub open spec fn tool_assessment(name: Seq<char>) -> (RiskLevel, Seq<char>) {
    if is_read_only_tool(name) {
        (RiskLevel::Safe, "Operasi read-only di workspace."@)
    } else if name == "run_command"@ {
        (RiskLevel::Ask, "Command dapat mengubah state sistem atau project."@)
    } else if name == "write_file"@ || name == "delete_file"@ {
        (RiskLevel::Ask, "Perubahan file harus disetujui pengguna."@)
    } else if is_app_tool(name) {
        (RiskLevel::Ask, "Membuka aplikasi eksternal membutuhkan approval."@)
    } else {
        (RiskLevel::Ask, "Tool belum masuk daftar safe, jadi butuh approval."@)
    }
}

/// The decision for a request whose command is blocked with `blocked` (or not).
pub open spec fn assessment_given(
    blocked: Option<Seq<char>>,
    name: Seq<char>,
    path: Option<Seq<char>>,
    workspace: Option<Seq<char>>,
    allow_outside_workspace: bool,
    platform: Platform,
) -> (RiskLevel, Seq<char>) {
    match blocked {
        Some(reason) => (RiskLevel::Block, reason),
        None => match path {
            Some(p) => if !allow_outside_workspace && outside_workspace(p, workspace, platform) {
                (RiskLevel::Ask, outside_reason())
            } else {
                tool_assessment(name)
            },
            None => tool_assessment(name),
        },
    }
}

/// The views of an optional string.
pub open spec fn opt_view(o: Option<String>) -> Option<Seq<char>> {
    match o {
        Some(s) => Some(s@),
        None => None,
    }
}

/// The block reason of an optional command.
pub open spec fn command_block_reason(command: Option<Seq<char>>) -> Option<Seq<char>> {
    match command {
        Some(c) => block_reason(c),
        None => None,
    }
}

/// The decision for `intent` in `context`.
pub open spec fn assessment(intent: ToolIntent, context: PolicyContext, platform: Platform) -> (
    RiskLevel,
    Seq<char>,
) {
    assessment_given(
        command_block_reason(opt_view(intent.command)),
        intent.name@,
        opt_view(intent.path),
        opt_view(context.workspace),
        context.allow_outside_workspace,
        platform,
    )
}

/// Whether `d` is the decision `a`.
pub open spec fn decision_is(d: PolicyDecision, a: (RiskLevel, Seq<char>)) -> bool {
    d.risk_level == a.0 && d.reason@ == a.1
}

/// The pattern and reason of the rule of index `i`.
fn block_rule(i: usize) -> (r: (&'static str, &'static str))
    requires
        i < BLOCK_RULE_COUNT,
    ensures
        r.0@ == block_rule_pattern(i as int),
        r.1@ == block_rule_reason(i as int),
{
    if i == 0 {
        (r"(?i)\bformat\b", "Command format disk diblokir.")
    } else if i == 1 {
        (r"(?i)\breg\s+(add|delete|import|save|restore)\b", "Edit registry diblokir.")
    } else if i == 2 {
        (
            r"(?i)\b(system32|c:\\windows|windows\\system32)\b",
            "Akses destructive ke folder Windows diblokir.",
        )
    } else if i == 3 {
        (r"(?i)\bcredential\s+manager\b", "Akses credential Windows diblokir.")
    } else if i == 4 {
        (
            r"(?i)\b(disable.*defender|DisableRealtimeMonitoring|Set-MpPreference)\b",
            "Menonaktifkan security tools diblokir.",
        )
    } else if i == 5 {
        (
            r"(?i)\b(cipher\s+/w|bcdedit|diskpart|takeown|icacls)\b",
            "Command administratif berisiko tinggi diblokir.",
        )
    } else {
        (r"(?i)(rm\s+-rf\s+/|del\s+/s\s+/q\s+c:\\)", "Command delete massal diblokir.")
    }
}

/// The reason of the first dangerous pattern that matches `command`; a
/// pattern that does not compile is skipped.
pub fn blocked_command_reason(command: &str) -> (r: Option<String>)
    ensures
        opt_view(r) == block_reason(command@),
{
    let mut i: usize = 0;
    while i < BLOCK_RULE_COUNT
        invariant
            i <= BLOCK_RULE_COUNT,
            block_reason(command@) == block_reason_from(command@, i as nat),
        decreases BLOCK_RULE_COUNT - i,
    {
        let (pattern, reason) = block_rule(i);
        match compile(pattern) {
            Ok(p) => {
                if is_match(&p, command) {
                    return Some(owned(reason));
                }
            },
            Err(_) => {},
        }
        i = i + 1;
    }
    None
}

/// The decision for the tool `name` alone.
fn assess_tool_name(name: &str) -> (r: PolicyDecision)
    ensures
        decision_is(r, tool_assessment(name@)),
{
    if same_text(name, "list_dir") || same_text(name, "read_file") || same_text(name, "git_status")
        || same_text(name, "git_diff") {
        PolicyDecision::safe("Operasi read-only di workspace.")
    } else if same_text(name, "run_command") {
        PolicyDecision::ask("Command dapat mengubah state sistem atau project.")
    } else if same_text(name, "write_file") || same_text(name, "delete_file") {
        PolicyDecision::ask("Perubahan file harus disetujui pengguna.")
    } else if same_text(name, "open_vscode") || same_text(name, "open_file_explorer")
        || same_text(name, "open_terminal") {
        PolicyDecision::ask("Membuka aplikasi eksternal membutuhkan approval.")
    } else {
        PolicyDecision::ask("Tool belum masuk daftar safe, jadi butuh approval.")
    }
}

/// The decision for `intent` in `context`, once the command's block reason
/// (`blocked`, from `blocked_command_reason`) is known.
pub fn assess_with_block_reason(
    intent: &ToolIntent,
    context: &PolicyContext,
    platform: Platform,
    blocked: Option<String>,
) -> (r: PolicyDecision)
    ensures
        decision_is(
            r,
            assessment_given(
                opt_view(blocked),
                intent.name@,
                opt_view(intent.path),
                opt_view(context.workspace),
                context.allow_outside_workspace,
                platform,
            ),
        ),
{
    if let Some(reason) = blocked {
        return PolicyDecision { risk_level: RiskLevel::Block, reason };
    }
    if let Some(path) = &intent.path {
        let outside = match &context.workspace {
            Some(w) => is_outside_workspace(path.as_str(), Some(w.as_str()), platform),
            None => is_outside_workspace(path.as_str(), None, platform),
        };
        if !context.allow_outside_workspace && outside {
            return PolicyDecision::ask("Akses path di luar workspace butuh approval eksplisit.");
        }
    }
    assess_tool_name(intent.name.as_str())
}

/// The policy's decision for `intent` in `context`.
pub fn assess_tool_request(intent: &ToolIntent, context: &PolicyContext, platform: Platform) -> (r:
    PolicyDecision)
    ensures
        decision_is(r, assessment(*intent, *context, platform)),
{
    let blocked = match &intent.command {
        Some(command) => blocked_command_reason(command.as_str()),
        None => None,
    };
    assess_with_block_reason(intent, context, platform, blocked)
}

// ---------------------------------------------------------------------------
// Laws
// ---------------------------------------------------------------------------
/// A command that a dangerous pattern matches is blocked, whatever the tool
/// and the path, with the reason of the first matching pattern.
pub proof fn lemma_blocked_command_is_blocked(
    intent: ToolIntent,
    context: PolicyContext,
    platform: Platform,
    command: String,
)
    requires
        intent.command == Some(command),
        block_reason(command@) is Some,
    ensures
        assessment(intent, context, platform) == (RiskLevel::Block, block_reason(command@)->0),
{
}

/// Only the read-only workspace tools are ever safe, and only when the
/// command is not blocked and the path is inside the workspace (or allowed).
pub proof fn lemma_safe_only_for_read_only_tools(
    intent: ToolIntent,
    context: PolicyContext,
    platform: Platform,
)
    requires
        assessment(intent, context, platform).0 == RiskLevel::Safe,
    ensures
        is_read_only_tool(intent.name@),
        command_block_reason(opt_view(intent.command)) is None,
        intent.path matches Some(p) ==> context.allow_outside_workspace || !outside_workspace(
            p@,
            opt_view(context.workspace),
            platform,
        ),
{
}

/// A read-only tool with no blocked command, on a path inside the workspace
/// or with no path, is safe.
pub proof fn lemma_read_only_inside_workspace_is_safe(
    intent: ToolIntent,
    context: PolicyContext,
    platform: Platform,
)
    requires
        is_read_only_tool(intent.name@),
        command_block_reason(opt_view(intent.command)) is None,
        intent.path matches Some(p) ==> !outside_workspace(
            p@,
            opt_view(context.workspace),
            platform,
        ),
    ensures
        assessment(intent, context, platform) == (
            RiskLevel::Safe,
            "Operasi read-only di workspace."@,
        ),
{
}

/// A request on the workspace path itself is never held up as being outside
/// the workspace: it is blocked for its command, or decided by its tool.
pub proof fn lemma_workspace_path_is_inside(
    intent: ToolIntent,
    context: PolicyContext,
    platform: Platform,
    workspace: String,
)
    requires
        context.workspace == Some(workspace),
        intent.path == Some(workspace),
        command_block_reason(opt_view(intent.command)) is None,
    ensures
        assessment(intent, context, platform) == tool_assessment(intent.name@),
{
    crate::paths::lemma_path_inside_itself(workspace@, platform);
}

/// A read-only tool without a blocked command, on an entry directly in the
/// workspace, is safe.
pub proof fn lemma_read_only_on_workspace_entry_is_safe(
    intent: ToolIntent,
    context: PolicyContext,
    platform: Platform,
    workspace: String,
    entry: Seq<char>,
)
    requires
        is_read_only_tool(intent.name@),
        command_block_reason(opt_view(intent.command)) is None,
        context.workspace == Some(workspace),
        intent.path is Some,
        intent.path->0@ == workspace@ + seq!['/'] + entry,
        entry.len() > 0,
        entry != seq!['.'],
        forall|i: int|
            0 <= i < entry.len() ==> !crate::paths::is_separator(#[trigger] entry[i], platform),
    ensures
        assessment(intent, context, platform).0 == RiskLevel::Safe,
{
    crate::paths::lemma_child_is_inside(workspace@, entry, platform);
}

/// The administrative commands that are refused: `cipher /w`, `bcdedit`,
/// `diskpart`, `takeown` and `icacls`.
pub open spec fn administrative_commands() -> Seq<Seq<char>> {
    seq![r"cipher\s+/w"@, "bcdedit"@, "diskpart"@, "takeown"@, "icacls"@]
}

/// The dangerous command patterns are the documented ones, each with its
/// reason: `format`; `reg` followed by add, delete, import, save or restore;
/// the Windows system folders; the credential manager; disabling Defender;
/// the administrative commands; mass deletion. All but the last match whole
/// words, and all ignore case.
pub proof fn lemma_block_rules_are_documented()
    ensures
        block_rule_pattern(0) == whole_word("format"@),
        block_rule_reason(0) == "Command format disk diblokir."@,
        block_rule_pattern(1) == whole_word(
            "reg"@ + r"\s+"@ + any_of(seq!["add"@, "delete"@, "import"@, "save"@, "restore"@]),
        ),
        block_rule_reason(1) == "Edit registry diblokir."@,
        block_rule_pattern(2) == whole_word(
            any_of(seq!["system32"@, r"c:\\windows"@, r"windows\\system32"@]),
        ),
        block_rule_reason(2) == "Akses destructive ke folder Windows diblokir."@,
        block_rule_pattern(3) == whole_word(r"credential\s+manager"@),
        block_rule_reason(3) == "Akses credential Windows diblokir."@,
        block_rule_pattern(4) == whole_word(
            any_of(
                seq![r"disable.*defender"@, "DisableRealtimeMonitoring"@, "Set-MpPreference"@],
            ),
        ),
        block_rule_reason(4) == "Menonaktifkan security tools diblokir."@,
        block_rule_pattern(5) == whole_word(any_of(administrative_commands())),
        block_rule_reason(5) == "Command administratif berisiko tinggi diblokir."@,
        block_rule_pattern(6) == ignoring_case(
            any_of(seq![r"rm\s+-rf\s+/"@, r"del\s+/s\s+/q\s+c:\\"@]),
        ),
        block_rule_reason(6) == "Command delete massal diblokir."@,
{
    lemma_block_rule_0();
    lemma_block_rule_1();
    lemma_block_rule_2();
    lemma_block_rule_3();
    lemma_block_rule_4();
    lemma_block_rule_5();
    lemma_block_rule_6();
}

proof fn lemma_block_rule_0()
    ensures
        block_rule_pattern(0) == whole_word("format"@),
{
    reveal_with_fuel(alternation, 6);
    reveal_strlit(r"(?i)\bformat\b");
    reveal_strlit("format");
    assert(block_rule_pattern(0) =~= whole_word("format"@));
}

proof fn lemma_block_rule_1()
    ensures
        block_rule_pattern(1) == whole_word(
            "reg"@ + r"\s+"@ + any_of(seq!["add"@, "delete"@, "import"@, "save"@, "restore"@]),
        ),
{
    reveal_with_fuel(alternation, 6);
    reveal_strlit(r"(?i)\breg\s+(add|delete|import|save|restore)\b");
    reveal_strlit("reg");
    reveal_strlit(r"\s+");
    reveal_strlit("add");
    reveal_strlit("delete");
    reveal_strlit("import");
    reveal_strlit("save");
    reveal_strlit("restore");
    assert(block_rule_pattern(1) =~= whole_word(
        "reg"@ + r"\s+"@ + any_of(seq!["add"@, "delete"@, "import"@, "save"@, "restore"@]),
    ));
}

proof fn lemma_block_rule_2()
    ensures
        block_rule_pattern(2) == whole_word(
            any_of(seq!["system32"@, r"c:\\windows"@, r"windows\\system32"@]),
        ),
{
    reveal_with_fuel(alternation, 6);
    reveal_strlit(r"(?i)\b(system32|c:\\windows|windows\\system32)\b");
    reveal_strlit("system32");
    reveal_strlit(r"c:\\windows");
    reveal_strlit(r"windows\\system32");
    assert(block_rule_pattern(2) =~= whole_word(
        any_of(seq!["system32"@, r"c:\\windows"@, r"windows\\system32"@]),
    ));
}

proof fn lemma_block_rule_3()
    ensures
        block_rule_pattern(3) == whole_word(r"credential\s+manager"@),
{
    reveal_with_fuel(alternation, 6);
    reveal_strlit(r"(?i)\bcredential\s+manager\b");
    reveal_strlit(r"credential\s+manager");
    assert(block_rule_pattern(3) =~= whole_word(r"credential\s+manager"@));
}

proof fn lemma_block_rule_4()
    ensures
        block_rule_pattern(4) == whole_word(
            any_of(
                seq![r"disable.*defender"@, "DisableRealtimeMonitoring"@, "Set-MpPreference"@],
            ),
        ),
{
    reveal_with_fuel(alternation, 6);
    reveal_strlit(r"(?i)\b(disable.*defender|DisableRealtimeMonitoring|Set-MpPreference)\b");
    reveal_strlit(r"disable.*defender");
    reveal_strlit("DisableRealtimeMonitoring");
    reveal_strlit("Set-MpPreference");
    assert(block_rule_pattern(4) =~= whole_word(
        any_of(seq![r"disable.*defender"@, "DisableRealtimeMonitoring"@, "Set-MpPreference"@]),
    ));
}

proof fn lemma_block_rule_5()
    ensures
        block_rule_pattern(5) == whole_word(any_of(administrative_commands())),
{
    reveal_with_fuel(alternation, 6);
    reveal_strlit(r"(?i)\b(cipher\s+/w|bcdedit|diskpart|takeown|icacls)\b");
    reveal_strlit(r"cipher\s+/w");
    reveal_strlit("bcdedit");
    reveal_strlit("diskpart");
    reveal_strlit("takeown");
    reveal_strlit("icacls");
    assert(block_rule_pattern(5) =~= whole_word(any_of(administrative_commands())));
}

proof fn lemma_block_rule_6()
    ensures
        block_rule_pattern(6) == ignoring_case(
            any_of(seq![r"rm\s+-rf\s+/"@, r"del\s+/s\s+/q\s+c:\\"@]),
        ),
{
    reveal_with_fuel(alternation, 6);
    reveal_strlit(r"(?i)(rm\s+-rf\s+/|del\s+/s\s+/q\s+c:\\)");
    reveal_strlit(r"rm\s+-rf\s+/");
    reveal_strlit(r"del\s+/s\s+/q\s+c:\\");
    assert(block_rule_pattern(6) =~= ignoring_case(
        any_of(seq![r"rm\s+-rf\s+/"@, r"del\s+/s\s+/q\s+c:\\"@]),
    ));
}

/// The first rule that matches decides: when rule `k` compiles and matches
/// `command` and no earlier rule does, the command is blocked with rule `k`'s reason.
pub proof fn lemma_first_matching_rule_decides(command: Seq<char>, k: nat)
    requires
        k < BLOCK_RULE_COUNT,
        rule_blocks(k as int, command),
        forall|j: int| 0 <= j < k ==> !rule_blocks(j, command),
    ensures
        block_reason(command) == Some(block_rule_reason(k as int)),
{
    lemma_block_reason_from(command, 0, k);
}

proof fn lemma_block_reason_from(command: Seq<char>, i: nat, k: nat)
    requires
        i <= k < BLOCK_RULE_COUNT,
        rule_blocks(k as int, command),
        forall|j: int| i <= j < k ==> !rule_blocks(j, command),
    ensures
        block_reason_from(command, i) == Some(block_rule_reason(k as int)),
    decreases k - i,
{
    if i < k {
        lemma_block_reason_from(command, i + 1, k);
    }
}

/// A command in which the regex crate finds one of the administrative
/// commands (`cipher /w`, `bcdedit`, `diskpart`, `takeown`, `icacls`) as a
/// whole word, ignoring case, is blocked as administrative, unless an earlier
/// rule already blocks it.
pub proof fn lemma_administrative_command_is_blocked(command: Seq<char>)
    requires
        regex_compiles(whole_word(any_of(administrative_commands()))),
        regex_finds_match(whole_word(any_of(administrative_commands())), command),
        forall|j: int| 0 <= j < 5 ==> !rule_blocks(j, command),
    ensures
        block_reason(command) == Some("Command administratif berisiko tinggi diblokir."@),
{
    lemma_block_rules_are_documented();
    lemma_first_matching_rule_decides(command, 5);
}

/// A path on another drive than the workspace needs approval, even for a
/// read-only tool.
pub proof fn lemma_other_drive_needs_approval(
    intent: ToolIntent,
    context: PolicyContext,
    platform: Platform,
    workspace: String,
    path: String,
)
    requires
        command_block_reason(opt_view(intent.command)) is None,
        !context.allow_outside_workspace,
        context.workspace == Some(workspace),
        intent.path == Some(path),
        crate::paths::has_drive(path@, platform),
        crate::paths::has_drive(workspace@, platform),
        crate::text::ascii_upper(path@[0]) != crate::text::ascii_upper(workspace@[0]),
    ensures
        assessment(intent, context, platform) == (RiskLevel::Ask, outside_reason()),
{
    crate::paths::lemma_other_drive_is_outside(path@, workspace@, platform);
}

} // verus!
