//! Pieces shared by the modules' PowerShell commands.

use vstd::prelude::*;
use crate::modules::ai::{first_line_containing, nvcc_release_line, reports_disabled};
use crate::modules::developer::{dev_folders_spec, first_line_or_installed, vscode_version_line};
use crate::text::{lines_of, trim, trimmed, views_of};

verus! {

/// The switch added to every change in a dry run.
pub open spec fn dry_flag_text(dry_run: bool) -> Seq<char> {
    if dry_run {
        "-WhatIf"@
    } else {
        ""@
    }
}

/// The switch added to every change: `-WhatIf` in a dry run, nothing otherwise.
pub fn dry_flag(dry_run: bool) -> (r: &'static str)
    ensures
        r@ == dry_flag_text(dry_run),
{
    if dry_run {
        "-WhatIf"
    } else {
        ""
    }
}

/// `parts` joined with `sep` between neighbours (`[T]::join`).
pub open spec fn joined(parts: Seq<Seq<char>>, sep: Seq<char>) -> Seq<char>
    decreases parts.len(),
{
    if parts.len() == 0 {
        seq![]
    } else if parts.len() == 1 {
        parts[0]
    } else {
        joined(parts.drop_last(), sep) + sep + parts.last()
    }
}

/// The texts `parts` joined with `sep`.
pub fn join_texts(parts: &Vec<String>, sep: &str) -> (r: String)
    ensures
        r@ == joined(views_of(parts@), sep@),
{
    let ghost v = views_of(parts@);
    let mut r = String::new();
    let n = parts.len();
    assert(v.take(0) =~= Seq::<Seq<char>>::empty());
    for i in 0..n
        invariant
            n == parts@.len(),
            v == views_of(parts@),
            r@ == joined(v.take(i as int), sep@),
    {
        assert(v.take(i + 1).drop_last() =~= v.take(i as int));
        assert(v.take(i + 1).last() == parts@[i as int]@);
        if i > 0 {
            r.append(sep);
        } else {
            assert(v.take(1)[0] == parts@[0]@);
            assert(r@ + parts@[0]@ =~= parts@[0]@);
        }
        r.append(parts[i].as_str());
    }
    assert(v.take(n as int) =~= v);
    r
}

/// A command that loads `script` and prints the results of `queries` as one JSON
/// list.
pub open spec fn json_capture_text(script: Seq<char>, queries: Seq<char>) -> Seq<char> {
    ". '"@ + script + "'; @("@ + queries + ") | ConvertTo-Json -Compress"@
}

/// The command that loads `script` and prints `queries`' results as JSON.
pub fn json_capture_command(script: &str, queries: &str) -> (r: String)
    ensures
        r@ == json_capture_text(script@, queries@),
{
    let mut r = String::from_str(". '");
    r.append(script);
    r.append("'; @(");
    r.append(queries);
    r.append(") | ConvertTo-Json -Compress");
    r
}

/// How a command's run ended.
#[derive(Clone, Copy, Debug, PartialEq, Eq, Structural)]
pub enum StepOutcome {
    /// The program could not be started.
    NotStarted,
    /// It ran and exited with a failure status.
    Failed,
    /// It ran and exited successfully.
    Succeeded,
}

/// A change a module applies.
#[derive(Clone, Copy, Debug, PartialEq, Eq, Structural)]
pub enum ApplyItem {
    VirtualMachinePlatform,
    SearchIndexing,
    GpuScheduling,
    GpuTimeout,
    NvidiaTelemetry,
    LongPaths,
    SysMain,
    LastAccess,
    HighPerformancePlan,
    SystemCache,
}

/// How a module judges the run of one of its commands.
#[derive(Clone, Copy, Debug, PartialEq, Eq, Structural)]
pub enum CommandCheck {
    /// It must exit successfully; otherwise the module stops.
    MustSucceed,
    /// A script that disables a service: done when it reports `Disabled`,
    /// otherwise the service is absent.
    ReportsDisabled,
    /// Done when it exits successfully, skipped with a warning otherwise.
    MaySkip,
}

/// The judgement of a command's run.
#[derive(Clone, Copy, Debug, PartialEq, Eq, Structural)]
pub enum CommandVerdict {
    Done,
    Absent,
    Skipped,
    Abort,
}

/// One command of a module.
#[derive(Debug)]
pub struct ModuleCommand {
    pub item: ApplyItem,
    pub program: String,
    pub args: Vec<String>,
    pub check: CommandCheck,
}

/// A module command as plain values.
pub open spec fn command_view(c: ModuleCommand) -> (ApplyItem, Seq<char>, Seq<Seq<char>>, CommandCheck) {
    (c.item, c.program@, views_of(c.args@), c.check)
}

/// The views of a sequence of module commands.
pub open spec fn command_views(v: Seq<ModuleCommand>) -> Seq<(ApplyItem, Seq<char>, Seq<Seq<char>>, CommandCheck)> {
    v.map_values(|c: ModuleCommand| command_view(c))
}

/// A PowerShell script run without profile and with scripts allowed.
pub open spec fn ps_command_view(item: ApplyItem, script: Seq<char>, check: CommandCheck) -> (
    ApplyItem,
    Seq<char>,
    Seq<Seq<char>>,
    CommandCheck,
) {
    (item, "powershell"@, seq!["-NoProfile"@, "-ExecutionPolicy"@, "Bypass"@, "-Command"@, script], check)
}

/// A command run through `cmd /c`.
pub open spec fn cmd_command_view(item: ApplyItem, command: Seq<char>, check: CommandCheck) -> (
    ApplyItem,
    Seq<char>,
    Seq<Seq<char>>,
    CommandCheck,
) {
    (item, "cmd"@, seq!["/c"@, command], check)
}

pub(crate) fn ps_command(item: ApplyItem, script: &str, check: CommandCheck) -> (c: ModuleCommand)
    ensures
        command_view(c) == ps_command_view(item, script@, check),
{
    let args = vec![
        String::from_str("-NoProfile"),
        String::from_str("-ExecutionPolicy"),
        String::from_str("Bypass"),
        String::from_str("-Command"),
        String::from_str(script),
    ];
    let c = ModuleCommand { item, program: String::from_str("powershell"), args, check };
    assert(views_of(c.args@) =~= seq!["-NoProfile"@, "-ExecutionPolicy"@, "Bypass"@, "-Command"@, script@]);
    c
}

pub(crate) fn cmd_command(item: ApplyItem, command: &str, check: CommandCheck) -> (c: ModuleCommand)
    ensures
        command_view(c) == cmd_command_view(item, command@, check),
{
    let args = vec![String::from_str("/c"), String::from_str(command)];
    let c = ModuleCommand { item, program: String::from_str("cmd"), args, check };
    assert(views_of(c.args@) =~= seq!["/c"@, command@]);
    c
}

/// The judgement of a command checked by `check` that ended with `outcome`
/// after printing `stdout`.
pub open spec fn verdict_of(check: CommandCheck, outcome: StepOutcome, stdout: Seq<char>) -> CommandVerdict {
    if outcome == StepOutcome::NotStarted {
        CommandVerdict::Abort
    } else {
        match check {
            CommandCheck::MustSucceed => if outcome == StepOutcome::Succeeded {
                CommandVerdict::Done
            } else {
                CommandVerdict::Abort
            },
            CommandCheck::ReportsDisabled => if trimmed(stdout) == "Disabled"@ {
                CommandVerdict::Done
            } else {
                CommandVerdict::Absent
            },
            CommandCheck::MaySkip => if outcome == StepOutcome::Succeeded {
                CommandVerdict::Done
            } else {
                CommandVerdict::Skipped
            },
        }
    }
}

/// Judges a command's run. A module stops only when a program cannot start or
/// a command that must succeed fails.
pub fn judge(check: CommandCheck, outcome: StepOutcome, stdout: &str) -> (v: CommandVerdict)
    ensures
        v == verdict_of(check, outcome, stdout@),
        v == CommandVerdict::Abort <==> (outcome == StepOutcome::NotStarted || (check
            == CommandCheck::MustSucceed && outcome == StepOutcome::Failed)),
{
    match outcome {
        StepOutcome::NotStarted => CommandVerdict::Abort,
        _ => match check {
            CommandCheck::MustSucceed => match outcome {
                StepOutcome::Succeeded => CommandVerdict::Done,
                _ => CommandVerdict::Abort,
            },
            CommandCheck::ReportsDisabled => if reports_disabled(stdout) {
                CommandVerdict::Done
            } else {
                CommandVerdict::Absent
            },
            CommandCheck::MaySkip => match outcome {
                StepOutcome::Succeeded => CommandVerdict::Done,
                _ => CommandVerdict::Skipped,
            },
        },
    }
}

/// A tool an audit looks for.
#[derive(Clone, Copy, Debug, PartialEq, Eq, Structural)]
pub enum Tool {
    NvidiaGpu,
    CudaToolkit,
    Wsl,
    Docker,
    Python,
    Git,
    Ollama,
    WindowsTerminal,
    VsCode,
    Winget,
    Rust,
}

/// When a probe counts its tool as present.
#[derive(Clone, Copy, Debug, PartialEq, Eq, Structural)]
pub enum ProbeKind {
    /// When the probe exits successfully.
    ExitStatus,
    /// When the probe ran and printed something other than white space.
    NonEmptyOutput,
}

/// What a probe reports of a present tool.
#[derive(Clone, Copy, Debug, PartialEq, Eq, Structural)]
pub enum Reading {
    /// The output, trimmed.
    Trimmed,
    /// The `release` line of `nvcc --version`.
    NvccRelease,
    /// The first line of the output.
    FirstLine,
}

/// The result of a probe.
#[derive(Debug)]
pub enum ProbeResult {
    /// Present; what it reported.
    Found(String),
    /// The probe ran, and the tool is not there.
    Missing,
    /// The probe could not be started.
    NotRun,
}

/// The command that looks for a tool.
#[derive(Debug)]
pub struct ToolProbe {
    pub tool: Tool,
    pub program: String,
    pub args: Vec<String>,
    pub kind: ProbeKind,
    pub reading: Reading,
}

/// A probe as plain values.
pub open spec fn probe_view(p: ToolProbe) -> (Tool, Seq<char>, Seq<Seq<char>>, ProbeKind, Reading) {
    (p.tool, p.program@, views_of(p.args@), p.kind, p.reading)
}

/// The views of a sequence of probes.
pub open spec fn probe_views(v: Seq<ToolProbe>) -> Seq<(Tool, Seq<char>, Seq<Seq<char>>, ProbeKind, Reading)> {
    v.map_values(|p: ToolProbe| probe_view(p))
}

/// `<program> <flag>`, present when it exits successfully.
pub open spec fn flag_probe_view(tool: Tool, program: Seq<char>, flag: Seq<char>, reading: Reading) -> (
    Tool,
    Seq<char>,
    Seq<Seq<char>>,
    ProbeKind,
    Reading,
) {
    (tool, program, seq![flag], ProbeKind::ExitStatus, reading)
}

/// A PowerShell query, present when it prints something.
pub open spec fn query_probe_view(tool: Tool, query: Seq<char>) -> (
    Tool,
    Seq<char>,
    Seq<Seq<char>>,
    ProbeKind,
    Reading,
) {
    (tool, "powershell"@, seq!["-NoProfile"@, "-Command"@, query], ProbeKind::NonEmptyOutput, Reading::Trimmed)
}

pub(crate) fn flag_probe(tool: Tool, program: &str, flag: &str, reading: Reading) -> (p: ToolProbe)
    ensures
        probe_view(p) == flag_probe_view(tool, program@, flag@, reading),
{
    let args = vec![String::from_str(flag)];
    let p = ToolProbe { tool, program: String::from_str(program), args, kind: ProbeKind::ExitStatus, reading };
    assert(views_of(p.args@) =~= seq![flag@]);
    p
}

pub(crate) fn query_probe(tool: Tool, query: &str) -> (p: ToolProbe)
    ensures
        probe_view(p) == query_probe_view(tool, query@),
{
    let args = vec![String::from_str("-NoProfile"), String::from_str("-Command"), String::from_str(query)];
    let p = ToolProbe {
        tool,
        program: String::from_str("powershell"),
        args,
        kind: ProbeKind::NonEmptyOutput,
        reading: Reading::Trimmed,
    };
    assert(views_of(p.args@) =~= seq!["-NoProfile"@, "-Command"@, query@]);
    p
}

/// Whether a probe of `kind` that ended with `outcome` after printing `stdout`
/// found its tool.
pub open spec fn probe_found(kind: ProbeKind, outcome: StepOutcome, stdout: Seq<char>) -> bool {
    match kind {
        ProbeKind::ExitStatus => outcome == StepOutcome::Succeeded,
        ProbeKind::NonEmptyOutput => outcome != StepOutcome::NotStarted && trimmed(stdout).len() > 0,
    }
}

/// What `reading` makes of a probe's output.
pub open spec fn reading_text(reading: Reading, stdout: Seq<char>) -> Seq<char> {
    match reading {
        Reading::Trimmed => trimmed(stdout),
        Reading::NvccRelease => trimmed(
            match first_line_containing(lines_of(stdout), "release"@) {
                Some(l) => l,
                None => "Installed"@,
            },
        ),
        Reading::FirstLine => first_line_or_installed(stdout),
    }
}

/// The result of a probe of `kind` and `reading` that ended with `outcome`
/// after printing `stdout`.
pub fn probe_result(kind: ProbeKind, reading: Reading, outcome: StepOutcome, stdout: &str) -> (r: ProbeResult)
    ensures
        r is NotRun <==> outcome == StepOutcome::NotStarted,
        r is Found <==> probe_found(kind, outcome, stdout@),
        r matches ProbeResult::Found(t) ==> t@ == reading_text(reading, stdout@),
{
    let found = match outcome {
        StepOutcome::NotStarted => {
            return ProbeResult::NotRun;
        },
        StepOutcome::Failed => match kind {
            ProbeKind::ExitStatus => false,
            ProbeKind::NonEmptyOutput => trim(stdout).unicode_len() > 0,
        },
        StepOutcome::Succeeded => match kind {
            ProbeKind::ExitStatus => true,
            ProbeKind::NonEmptyOutput => trim(stdout).unicode_len() > 0,
        },
    };
    if !found {
        return ProbeResult::Missing;
    }
    let text = match reading {
        Reading::Trimmed => String::from_str(trim(stdout)),
        Reading::NvccRelease => nvcc_release_line(stdout),
        Reading::FirstLine => vscode_version_line(stdout),
    };
    ProbeResult::Found(text)
}

/// A piece of system state that a module command can change.
pub enum Setting {
    /// A registry value: key path and value name.
    RegistryValue(Seq<char>, Seq<char>),
    /// The start-up type and status of a service.
    Service(Seq<char>),
    /// Whether the contents of a folder under the user's profile are indexed.
    FolderIndexing(Seq<char>),
    /// The state of an optional Windows feature.
    OptionalFeature(Seq<char>),
}

/// The registry key of the graphics driver settings.
pub open spec fn graphics_drivers_key() -> Seq<char> {
    "HKLM:\\SYSTEM\\CurrentControlSet\\Control\\GraphicsDrivers"@
}

/// The registry key of the file-system settings.
pub open spec fn file_system_key() -> Seq<char> {
    "HKLM:\\SYSTEM\\CurrentControlSet\\Control\\FileSystem"@
}

/// The registry key that holds the active power scheme.
pub open spec fn power_schemes_key() -> Seq<char> {
    "HKLM:\\SYSTEM\\CurrentControlSet\\Control\\Power\\User\\PowerSchemes"@
}

/// The registry key of the memory manager.
pub open spec fn memory_management_key() -> Seq<char> {
    "HKLM:\\SYSTEM\\CurrentControlSet\\Control\\Session Manager\\Memory Management"@
}

/// The state each change of the AI and developer modules modifies.
pub open spec fn changed_settings(item: ApplyItem) -> Seq<Setting> {
    match item {
        ApplyItem::VirtualMachinePlatform => seq![Setting::OptionalFeature("VirtualMachinePlatform"@)],
        ApplyItem::SearchIndexing => dev_folders_spec().map_values(|f: Seq<char>| Setting::FolderIndexing(f)),
        ApplyItem::GpuScheduling => seq![Setting::RegistryValue(graphics_drivers_key(), "HwSchMode"@)],
        ApplyItem::GpuTimeout => seq![
            Setting::RegistryValue(graphics_drivers_key(), "TdrDelay"@),
            Setting::RegistryValue(graphics_drivers_key(), "TdrDdiDelay"@),
        ],
        ApplyItem::NvidiaTelemetry => seq![Setting::Service("NvTelemetryContainer"@)],
        ApplyItem::LongPaths => seq![Setting::RegistryValue(file_system_key(), "LongPathsEnabled"@)],
        ApplyItem::SysMain => seq![Setting::Service("SysMain"@)],
        ApplyItem::LastAccess => seq![Setting::RegistryValue(file_system_key(), "NtfsDisableLastAccessUpdate"@)],
        ApplyItem::HighPerformancePlan => seq![Setting::RegistryValue(power_schemes_key(), "ActivePowerScheme"@)],
        ApplyItem::SystemCache => seq![Setting::RegistryValue(memory_management_key(), "LargeSystemCache"@)],
    }
}

/// Whether a capture of the registry values `keys`, the services `services`,
/// the folders `folders` and the optional features `features` records the
/// previous state of `s`.
pub open spec fn captured_by(
    keys: Seq<(Seq<char>, Seq<char>)>,
    services: Seq<Seq<char>>,
    folders: Seq<Seq<char>>,
    features: Seq<Seq<char>>,
    s: Setting,
) -> bool {
    match s {
        Setting::RegistryValue(path, name) => exists|k: int| 0 <= k < keys.len() && keys[k] == (path, name),
        Setting::Service(name) => exists|k: int| 0 <= k < services.len() && services[k] == name,
        Setting::FolderIndexing(f) => exists|k: int| 0 <= k < folders.len() && folders[k] == f,
        Setting::OptionalFeature(f) => exists|k: int| 0 <= k < features.len() && features[k] == f,
    }
}

/// When a probe finds its tool: a status probe exactly when it exited
/// successfully; an output probe exactly when it ran (whatever its exit status)
/// and printed something other than white space; never when it could not start.
/// A trimmed reading is the output without surrounding white space; a first-line
/// reading is the first line, or `Installed` when there is none.
pub proof fn law_probe_semantics(kind: ProbeKind, outcome: StepOutcome, stdout: Seq<char>)
    ensures
        kind == ProbeKind::ExitStatus ==> (probe_found(kind, outcome, stdout) <==> outcome
            == StepOutcome::Succeeded),
        kind == ProbeKind::NonEmptyOutput ==> (probe_found(kind, outcome, stdout) <==> (outcome
            != StepOutcome::NotStarted && trimmed(stdout).len() > 0)),
        outcome == StepOutcome::NotStarted ==> !probe_found(kind, outcome, stdout),
        reading_text(Reading::Trimmed, stdout) == trimmed(stdout),
        lines_of(stdout).len() > 0 ==> reading_text(Reading::FirstLine, stdout) == lines_of(stdout)[0],
        lines_of(stdout).len() == 0 ==> reading_text(Reading::FirstLine, stdout) == "Installed"@,
{
}

/// How a module judges a command: one that could not start stops the module;
/// one that must succeed is done when it succeeded and stops the module
/// otherwise; a service-disabling script is done exactly when it reports
/// `Disabled` (trimmed), whatever its exit status, and otherwise the service is
/// absent; an optional command is done when it succeeded and skipped when it
/// failed.
pub proof fn law_command_verdicts(check: CommandCheck, outcome: StepOutcome, stdout: Seq<char>)
    ensures
        outcome == StepOutcome::NotStarted ==> verdict_of(check, outcome, stdout) == CommandVerdict::Abort,
        outcome == StepOutcome::Succeeded && check != CommandCheck::ReportsDisabled ==> verdict_of(
            check,
            outcome,
            stdout,
        ) == CommandVerdict::Done,
        outcome == StepOutcome::Failed ==> (check == CommandCheck::MustSucceed <==> verdict_of(
            check,
            outcome,
            stdout,
        ) == CommandVerdict::Abort),
        outcome == StepOutcome::Failed && check == CommandCheck::MaySkip ==> verdict_of(check, outcome, stdout)
            == CommandVerdict::Skipped,
        outcome != StepOutcome::NotStarted && check == CommandCheck::ReportsDisabled ==> verdict_of(
            check,
            outcome,
            stdout,
        ) == (if trimmed(stdout) == "Disabled"@ {
            CommandVerdict::Done
        } else {
            CommandVerdict::Absent
        }),
{
}

/// A dry run marks every change with `-WhatIf`, and a real run marks none.
pub proof fn law_dry_flag(dry_run: bool)
    ensures
        dry_flag_text(true) == "-WhatIf"@,
        dry_flag_text(false) == ""@,
        dry_flag_text(dry_run).len() > 0 <==> dry_run,
{
    reveal_strlit("-WhatIf");
    reveal_strlit("");
}

} // verus!
