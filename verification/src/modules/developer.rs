//! The developer module: the tools its audit looks for, how a version report
//! is read, and the changes it applies.

use vstd::prelude::*;
use crate::modules::common::{
    ApplyItem, CommandCheck, ModuleCommand, ProbeKind, Reading, Tool, ToolProbe,
    captured_by, changed_settings, cmd_command, cmd_command_view, command_views, file_system_key,
    flag_probe, flag_probe_view, joined, memory_management_key, power_schemes_key, probe_views,
    ps_command, ps_command_view, query_probe, query_probe_view,
};
use crate::modules::gaming::pair_views;
use crate::modules::privacy::{quoted_list, quoted_names};
use crate::text::{lines_of, split_lines, views_of};

verus! {

/// The first line of a report, or `Installed` when the report has no line.
pub open spec fn first_line_or_installed(stdout: Seq<char>) -> Seq<char> {
    if lines_of(stdout).len() > 0 {
        lines_of(stdout)[0]
    } else {
        "Installed"@
    }
}

/// The version line printed by `code --version`: its first line.
pub fn vscode_version_line(stdout: &str) -> (r: String)
    ensures
        r@ == first_line_or_installed(stdout@),
{
    let mut lines = split_lines(stdout);
    let ghost ls = views_of(lines@);
    if lines.len() > 0 {
        assert(ls[0] == lines@[0]@);
        lines.swap_remove(0)
    } else {
        String::from_str("Installed")
    }
}

/// The PowerShell query that prints the installed Windows Terminal version.
pub open spec fn terminal_query() -> Seq<char> {
    "(Get-AppxPackage Microsoft.WindowsTerminal* -ErrorAction SilentlyContinue | Select-Object -First 1).Version"@
}

fn terminal_query_text() -> (r: &'static str)
    ensures
        r@ == terminal_query(),
{
    "(Get-AppxPackage Microsoft.WindowsTerminal* -ErrorAction SilentlyContinue | Select-Object -First 1).Version"
}

/// The probes of the developer tooling audit, in the order they run.
pub open spec fn developer_probes_spec() -> Seq<(Tool, Seq<char>, Seq<Seq<char>>, ProbeKind, Reading)> {
    seq![
        flag_probe_view(Tool::Git, "git"@, "--version"@, Reading::Trimmed),
        query_probe_view(Tool::WindowsTerminal, terminal_query()),
        flag_probe_view(Tool::VsCode, "code"@, "--version"@, Reading::FirstLine),
        flag_probe_view(Tool::Winget, "winget"@, "--version"@, Reading::Trimmed),
        flag_probe_view(Tool::Rust, "rustc"@, "--version"@, Reading::Trimmed),
    ]
}

/// The probes of the developer tooling audit.
pub fn developer_probes() -> (r: Vec<ToolProbe>)
    ensures
        probe_views(r@) == developer_probes_spec(),
{
    let mut r: Vec<ToolProbe> = Vec::new();
    r.push(flag_probe(Tool::Git, "git", "--version", Reading::Trimmed));
    r.push(query_probe(Tool::WindowsTerminal, terminal_query_text()));
    r.push(flag_probe(Tool::VsCode, "code", "--version", Reading::FirstLine));
    r.push(flag_probe(Tool::Winget, "winget", "--version", Reading::Trimmed));
    r.push(flag_probe(Tool::Rust, "rustc", "--version", Reading::Trimmed));
    assert(probe_views(r@) =~= developer_probes_spec());
    r
}

/// The script that enables Win32 long paths.
pub open spec fn long_paths_script() -> Seq<char> {
    "\
            Set-ItemProperty \
              -Path 'HKLM:\\SYSTEM\\CurrentControlSet\\Control\\FileSystem' \
              -Name 'LongPathsEnabled' -Value 1 -Type DWord -Force;"@
}

fn long_paths_script_text() -> (r: &'static str)
    ensures
        r@ == long_paths_script(),
{
    "\
            Set-ItemProperty \
              -Path 'HKLM:\\SYSTEM\\CurrentControlSet\\Control\\FileSystem' \
              -Name 'LongPathsEnabled' -Value 1 -Type DWord -Force;"
}

/// The script that disables the SysMain (Superfetch) service when it is there.
pub open spec fn sysmain_script() -> Seq<char> {
    "\
            $svc = Get-Service -Name 'SysMain' -ErrorAction SilentlyContinue; \
            if ($svc) { \
                Stop-Service -Name 'SysMain' -Force -ErrorAction SilentlyContinue; \
                Set-Service -Name 'SysMain' -StartupType Disabled; \
                Write-Host 'Disabled'; \
            } else { Write-Host 'NotPresent'; }"@
}

fn sysmain_script_text() -> (r: &'static str)
    ensures
        r@ == sysmain_script(),
{
    "\
            $svc = Get-Service -Name 'SysMain' -ErrorAction SilentlyContinue; \
            if ($svc) { \
                Stop-Service -Name 'SysMain' -Force -ErrorAction SilentlyContinue; \
                Set-Service -Name 'SysMain' -StartupType Disabled; \
                Write-Host 'Disabled'; \
            } else { Write-Host 'NotPresent'; }"
}

/// The command that stops NTFS from recording last-access times.
pub open spec fn last_access_command() -> Seq<char> {
    "fsutil behavior set disablelastaccess 1"@
}

fn last_access_command_text() -> (r: &'static str)
    ensures
        r@ == last_access_command(),
{
    "fsutil behavior set disablelastaccess 1"
}

/// The command that activates the High Performance power plan.
pub open spec fn high_performance_command() -> Seq<char> {
    "powercfg /setactive 8c5e7fda-e8bf-4a96-9a85-a6e23a8c635c"@
}

fn high_performance_command_text() -> (r: &'static str)
    ensures
        r@ == high_performance_command(),
{
    "powercfg /setactive 8c5e7fda-e8bf-4a96-9a85-a6e23a8c635c"
}

/// The script that lets the system file cache grow large.
pub open spec fn system_cache_script() -> Seq<char> {
    "\
            $path = 'HKLM:\\SYSTEM\\CurrentControlSet\\Control\\Session Manager\\Memory Management'; \
            Set-ItemProperty -Path $path -Name 'LargeSystemCache' -Value 1 -Type DWord -Force;"@
}

fn system_cache_script_text() -> (r: &'static str)
    ensures
        r@ == system_cache_script(),
{
    "\
            $path = 'HKLM:\\SYSTEM\\CurrentControlSet\\Control\\Session Manager\\Memory Management'; \
            Set-ItemProperty -Path $path -Name 'LargeSystemCache' -Value 1 -Type DWord -Force;"
}

/// The folders under the user's profile that hold source trees and toolchain
/// caches: the ones whose contents Windows Search stops indexing.
pub open spec fn dev_folders_spec() -> Seq<Seq<char>> {
    seq!["source"@, "repos"@, "Projects"@, "dev"@, ".cargo"@, ".rustup"@]
}

/// The development folders.
pub fn dev_folders() -> (r: Vec<String>)
    ensures
        views_of(r@) == dev_folders_spec(),
{
    let r = vec![
        String::from_str("source"),
        String::from_str("repos"),
        String::from_str("Projects"),
        String::from_str("dev"),
        String::from_str(".cargo"),
        String::from_str(".rustup"),
    ];
    assert(views_of(r@) =~= dev_folders_spec());
    r
}

/// The script that stops Windows Search from indexing the contents of the
/// `folders` under the user's profile that exist (it clears the folder's
/// "contents indexed" attribute, which the files created in it inherit).
pub open spec fn indexing_script(folders: Seq<Seq<char>>) -> Seq<char> {
    "$dirs = @("@ + joined(quoted_names(folders), ", "@)
        + ") | ForEach-Object { Join-Path $env:USERPROFILE $_ } | Where-Object { Test-Path -LiteralPath $_ }; foreach ($d in $dirs) { $i = Get-Item -LiteralPath $d -Force; $i.Attributes = $i.Attributes -bor [System.IO.FileAttributes]::NotContentIndexed }"@
}

/// The script that stops the indexing of `folders`.
pub fn indexing_script_text(folders: &Vec<String>) -> (r: String)
    ensures
        r@ == indexing_script(views_of(folders@)),
{
    let list = quoted_list(folders, ", ");
    let mut r = String::from_str("$dirs = @(");
    r.append(list.as_str());
    r.append(") | ForEach-Object { Join-Path $env:USERPROFILE $_ } | Where-Object { Test-Path -LiteralPath $_ }; foreach ($d in $dirs) { $i = Get-Item -LiteralPath $d -Force; $i.Attributes = $i.Attributes -bor [System.IO.FileAttributes]::NotContentIndexed }");
    r
}

/// The commands of the developer environment optimisation, in the order they run.
pub open spec fn developer_apply_spec() -> Seq<(ApplyItem, Seq<char>, Seq<Seq<char>>, CommandCheck)> {
    seq![
        ps_command_view(ApplyItem::SearchIndexing, indexing_script(dev_folders_spec()), CommandCheck::MaySkip),
        ps_command_view(ApplyItem::LongPaths, long_paths_script(), CommandCheck::MustSucceed),
        ps_command_view(ApplyItem::SysMain, sysmain_script(), CommandCheck::ReportsDisabled),
        cmd_command_view(ApplyItem::LastAccess, last_access_command(), CommandCheck::MaySkip),
        cmd_command_view(ApplyItem::HighPerformancePlan, high_performance_command(), CommandCheck::MaySkip),
        ps_command_view(ApplyItem::SystemCache, system_cache_script(), CommandCheck::MaySkip),
    ]
}

/// The commands the developer optimisation runs: none in a dry run, every
/// command otherwise.
pub fn developer_apply_commands(dry_run: bool) -> (r: Vec<ModuleCommand>)
    ensures
        command_views(r@) == developer_apply_plan_spec(dry_run),
{
    let mut r: Vec<ModuleCommand> = Vec::new();
    if dry_run {
        assert(command_views(r@) =~= Seq::empty());
        return r;
    }
    let folders = dev_folders();
    let indexing = indexing_script_text(&folders);
    r.push(ps_command(ApplyItem::SearchIndexing, indexing.as_str(), CommandCheck::MaySkip));
    r.push(ps_command(ApplyItem::LongPaths, long_paths_script_text(), CommandCheck::MustSucceed));
    r.push(ps_command(ApplyItem::SysMain, sysmain_script_text(), CommandCheck::ReportsDisabled));
    r.push(cmd_command(ApplyItem::LastAccess, last_access_command_text(), CommandCheck::MaySkip));
    r.push(cmd_command(ApplyItem::HighPerformancePlan, high_performance_command_text(), CommandCheck::MaySkip));
    r.push(ps_command(ApplyItem::SystemCache, system_cache_script_text(), CommandCheck::MaySkip));
    assert(command_views(r@) =~= developer_apply_spec());
    r
}

/// The commands the developer optimisation runs: none in a dry run, every command otherwise.
pub open spec fn developer_apply_plan_spec(dry_run: bool) -> Seq<(ApplyItem, Seq<char>, Seq<Seq<char>>, CommandCheck)> {
    if dry_run {
        seq![]
    } else {
        developer_apply_spec()
    }
}

/// The registry values the developer optimisation changes, whose previous
/// state is recorded before it runs.
pub open spec fn developer_registry_keys_spec() -> Seq<(Seq<char>, Seq<char>)> {
    seq![
        (file_system_key(), "LongPathsEnabled"@),
        (file_system_key(), "NtfsDisableLastAccessUpdate"@),
        (power_schemes_key(), "ActivePowerScheme"@),
        (memory_management_key(), "LargeSystemCache"@),
    ]
}

/// The registry values recorded before the developer optimisation.
pub fn developer_registry_keys() -> (r: Vec<(String, String)>)
    ensures
        pair_views(r@) == developer_registry_keys_spec(),
{
    let r = vec![
        (String::from_str("HKLM:\\SYSTEM\\CurrentControlSet\\Control\\FileSystem"), String::from_str("LongPathsEnabled")),
        (
            String::from_str("HKLM:\\SYSTEM\\CurrentControlSet\\Control\\FileSystem"),
            String::from_str("NtfsDisableLastAccessUpdate"),
        ),
        (
            String::from_str("HKLM:\\SYSTEM\\CurrentControlSet\\Control\\Power\\User\\PowerSchemes"),
            String::from_str("ActivePowerScheme"),
        ),
        (
            String::from_str("HKLM:\\SYSTEM\\CurrentControlSet\\Control\\Session Manager\\Memory Management"),
            String::from_str("LargeSystemCache"),
        ),
    ];
    assert(pair_views(r@) =~= developer_registry_keys_spec());
    r
}

/// The services the developer optimisation changes.
pub open spec fn developer_services_spec() -> Seq<Seq<char>> {
    seq!["SysMain"@]
}

/// The services recorded before the developer optimisation.
pub fn developer_services() -> (r: Vec<String>)
    ensures
        views_of(r@) == developer_services_spec(),
{
    let r = vec![String::from_str("SysMain")];
    assert(views_of(r@) =~= developer_services_spec());
    r
}

/// The command that records, for each of `folders` under the user's profile,
/// its full path, whether it exists and whether its contents are indexed, as
/// JSON.
pub open spec fn folder_capture_text(folders: Seq<Seq<char>>) -> Seq<char> {
    "@("@ + joined(quoted_names(folders), ", "@)
        + ") | ForEach-Object { $p = Join-Path $env:USERPROFILE $_; $e = Test-Path -LiteralPath $p; [PSCustomObject]@{ Folder = $_; Path = $p; Exists = $e; Indexed = ((-not $e) -or -not ((Get-Item -LiteralPath $p -Force).Attributes -band [System.IO.FileAttributes]::NotContentIndexed)) } } | ConvertTo-Json -Compress"@
}

/// The command that records the indexing state of `folders`.
pub fn folder_capture_command(folders: &Vec<String>) -> (r: String)
    ensures
        r@ == folder_capture_text(views_of(folders@)),
{
    let list = quoted_list(folders, ", ");
    let mut r = String::from_str("@(");
    r.append(list.as_str());
    r.append(") | ForEach-Object { $p = Join-Path $env:USERPROFILE $_; $e = Test-Path -LiteralPath $p; [PSCustomObject]@{ Folder = $_; Path = $p; Exists = $e; Indexed = ((-not $e) -or -not ((Get-Item -LiteralPath $p -Force).Attributes -band [System.IO.FileAttributes]::NotContentIndexed)) } } | ConvertTo-Json -Compress");
    r
}

/// Every change of the developer optimisation can be rolled back: each piece of
/// state one of its commands modifies is among the registry values, services
/// and folders whose previous state is recorded before it runs.
pub proof fn law_developer_changes_are_captured()
    ensures
        forall|i: int, j: int|
            0 <= i < developer_apply_spec().len() && 0 <= j < changed_settings(
                developer_apply_spec()[i].0,
            ).len() ==> captured_by(
                developer_registry_keys_spec(),
                developer_services_spec(),
                dev_folders_spec(),
                seq![],
                #[trigger] changed_settings(developer_apply_spec()[i].0)[j],
            ),
{
    let keys = developer_registry_keys_spec();
    let services = developer_services_spec();
    let folders = dev_folders_spec();
    let spec = developer_apply_spec();
    assert forall|i: int, j: int|
        0 <= i < spec.len() && 0 <= j < changed_settings(spec[i].0).len() implies captured_by(
            keys,
            services,
            folders,
            seq![],
            #[trigger] changed_settings(spec[i].0)[j],
        ) by {
        if i == 0 {
            assert(folders[j] == folders[j]);
        } else if i == 1 {
            assert(keys[0] == (file_system_key(), "LongPathsEnabled"@));
        } else if i == 2 {
            assert(services[0] == "SysMain"@);
        } else if i == 3 {
            assert(keys[1] == (file_system_key(), "NtfsDisableLastAccessUpdate"@));
        } else if i == 4 {
            assert(keys[2] == (power_schemes_key(), "ActivePowerScheme"@));
        } else {
            assert(keys[3] == (memory_management_key(), "LargeSystemCache"@));
        }
    }
}

} // verus!
