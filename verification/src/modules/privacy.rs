//! The privacy module: the services and scheduled tasks it hardens and the
//! PowerShell commands that audit, record and change them.

use vstd::prelude::*;
use crate::modules::common::{dry_flag, dry_flag_text, joined, join_texts, json_capture_command, json_capture_text};
use crate::modules::gaming::pair_views;
use crate::text::views_of;

verus! {

/// The services the privacy module disables.
pub open spec fn privacy_services_spec() -> Seq<Seq<char>> {
    seq!["DiagTrack"@, "WerSvc"@, "MapsBroker"@, "RetailDemo"@]
}

/// The services the privacy module disables.
pub fn privacy_services() -> (r: Vec<String>)
    ensures
        views_of(r@) == privacy_services_spec(),
{
    let r = vec![
        String::from_str("DiagTrack"),
        String::from_str("WerSvc"),
        String::from_str("MapsBroker"),
        String::from_str("RetailDemo"),
    ];
    assert(views_of(r@) =~= privacy_services_spec());
    r
}

/// The scheduled tasks (folder, name) the privacy module disables.
pub open spec fn privacy_tasks_spec() -> Seq<(Seq<char>, Seq<char>)> {
    seq![
        ("\\Microsoft\\Windows\\Application Experience\\"@, "Microsoft Compatibility Appraiser"@),
        ("\\Microsoft\\Windows\\Application Experience\\"@, "ProgramDataUpdater"@),
        ("\\Microsoft\\Windows\\Customer Experience Improvement Program\\"@, "Consolidator"@),
        ("\\Microsoft\\Windows\\Customer Experience Improvement Program\\"@, "UsbCeip"@),
    ]
}

/// The scheduled tasks the privacy module disables.
pub fn privacy_tasks() -> (r: Vec<(String, String)>)
    ensures
        pair_views(r@) == privacy_tasks_spec(),
{
    let r = vec![
        (
            String::from_str("\\Microsoft\\Windows\\Application Experience\\"),
            String::from_str("Microsoft Compatibility Appraiser"),
        ),
        (
            String::from_str("\\Microsoft\\Windows\\Application Experience\\"),
            String::from_str("ProgramDataUpdater"),
        ),
        (
            String::from_str("\\Microsoft\\Windows\\Customer Experience Improvement Program\\"),
            String::from_str("Consolidator"),
        ),
        (
            String::from_str("\\Microsoft\\Windows\\Customer Experience Improvement Program\\"),
            String::from_str("UsbCeip"),
        ),
    ];
    assert(pair_views(r@) =~= privacy_tasks_spec());
    r
}

/// The audit command, which prints the telemetry services, the appraiser task and
/// the telemetry policy.
pub open spec fn privacy_audit_text(services_script: Seq<char>, tasks_script: Seq<char>, registry_script: Seq<char>) -> Seq<char> {
    ". '"@ +
    services_script +
    "'; . '"@ +
    tasks_script +
    "'; . '"@ +
    registry_script +
    "'; \
            Write-Host '  Telemetry Service (DiagTrack):' (Get-ServiceStateSafe -ServiceName 'DiagTrack').Status; \
            Write-Host '  Error Reporting (WerSvc):' (Get-ServiceStateSafe -ServiceName 'WerSvc').Status; \
            Write-Host '  Compatibility Appraiser:' (Get-ScheduledTaskStateSafe -TaskPath '\\Microsoft\\Windows\\Application Experience\\' -TaskName 'Microsoft Compatibility Appraiser').State; \
            Write-Host '  AllowTelemetry Policy:' (Get-RegistryValueSafe -Path 'HKLM:\\SOFTWARE\\Policies\\Microsoft\\Windows\\DataCollection' -Name 'AllowTelemetry').Value;"@
}

/// The command that prints the privacy audit.
pub fn privacy_audit_command(services_script: &str, tasks_script: &str, registry_script: &str) -> (r: String)
    ensures
        r@ == privacy_audit_text(services_script@, tasks_script@, registry_script@),
{
    let mut r = String::from_str(". '");
    r.append(services_script);
    r.append("'; . '");
    r.append(tasks_script);
    r.append("'; . '");
    r.append(registry_script);
    r.append("'; \
            Write-Host '  Telemetry Service (DiagTrack):' (Get-ServiceStateSafe -ServiceName 'DiagTrack').Status; \
            Write-Host '  Error Reporting (WerSvc):' (Get-ServiceStateSafe -ServiceName 'WerSvc').Status; \
            Write-Host '  Compatibility Appraiser:' (Get-ScheduledTaskStateSafe -TaskPath '\\Microsoft\\Windows\\Application Experience\\' -TaskName 'Microsoft Compatibility Appraiser').State; \
            Write-Host '  AllowTelemetry Policy:' (Get-RegistryValueSafe -Path 'HKLM:\\SOFTWARE\\Policies\\Microsoft\\Windows\\DataCollection' -Name 'AllowTelemetry').Value;");
    r
}

/// The call that disables one service, carrying `flag`.
pub open spec fn disable_service_text(name: Seq<char>, flag: Seq<char>) -> Seq<char> {
    "Set-ServiceStateSafe -ServiceName '"@ + name + "' -TargetStartupType 'Disabled' -StopIfRunning "@
        + flag
}

/// The call that disables one scheduled task, carrying `flag`.
pub open spec fn disable_task_text(path: Seq<char>, name: Seq<char>, flag: Seq<char>) -> Seq<char> {
    "Set-ScheduledTaskStateSafe -TaskPath '"@ + path + "' -TaskName '"@ + name
        + "' -TargetState 'Disabled' "@ + flag
}

/// The calls of the privacy command, in order: the policies, then each service,
/// then each task, every one carrying `flag`.
pub open spec fn privacy_calls(flag: Seq<char>) -> Seq<Seq<char>> {
    seq!["Set-ObsidianPrivacyPolicies "@ + flag] + privacy_services_spec().map_values(
        |n: Seq<char>| disable_service_text(n, flag),
    ) + privacy_tasks_spec().map_values(
        |t: (Seq<char>, Seq<char>)| disable_task_text(t.0, t.1, flag),
    )
}

/// The command that applies the privacy policies and disables the services and
/// tasks; every change carries `flag`.
pub open spec fn privacy_apply_text(policies_script: Seq<char>, services_script: Seq<char>, tasks_script: Seq<char>, flag: Seq<char>) -> Seq<char> {
    ". '"@ + policies_script + "'; . '"@ + services_script + "'; . '"@ + tasks_script + "'; "@
        + joined(privacy_calls(flag), "; "@) + ";"@
}

/// The call that disables one service.
pub fn disable_service_command(name: &str, flag: &str) -> (r: String)
    ensures
        r@ == disable_service_text(name@, flag@),
{
    let mut r = String::from_str("Set-ServiceStateSafe -ServiceName '");
    r.append(name);
    r.append("' -TargetStartupType 'Disabled' -StopIfRunning ");
    r.append(flag);
    r
}

/// The call that disables one scheduled task.
pub fn disable_task_command(path: &str, name: &str, flag: &str) -> (r: String)
    ensures
        r@ == disable_task_text(path@, name@, flag@),
{
    let mut r = String::from_str("Set-ScheduledTaskStateSafe -TaskPath '");
    r.append(path);
    r.append("' -TaskName '");
    r.append(name);
    r.append("' -TargetState 'Disabled' ");
    r.append(flag);
    r
}

/// The command that applies the privacy hardening; in a dry run every change is
/// marked `-WhatIf`.
pub fn privacy_apply_command(policies_script: &str, services_script: &str, tasks_script: &str, dry_run: bool) -> (r: String)
    ensures
        r@ == privacy_apply_text(policies_script@, services_script@, tasks_script@, dry_flag_text(dry_run)),
{
    let flag = dry_flag(dry_run);
    let ghost calls = privacy_calls(flag@);
    let services = privacy_services();
    let tasks = privacy_tasks();
    let ns = services.len();
    let nt = tasks.len();
    let mut parts: Vec<String> = Vec::new();
    let mut first = String::from_str("Set-ObsidianPrivacyPolicies ");
    first.append(flag);
    parts.push(first);
    assert(views_of(parts@) =~= calls.take(1));
    for i in 0..ns
        invariant
            ns == services@.len(),
            views_of(services@) == privacy_services_spec(),
            calls == privacy_calls(flag@),
            views_of(parts@) == calls.take(1 + i),
    {
        let c = disable_service_command(services[i].as_str(), flag);
        let ghost before = parts@;
        parts.push(c);
        assert(views_of(services@)[i as int] == services@[i as int]@);
        assert(calls[1 + i] == c@);
        assert(views_of(parts@) =~= views_of(before).push(c@));
        assert(views_of(parts@) =~= calls.take(1 + i + 1));
    }
    for i in 0..nt
        invariant
            ns == privacy_services_spec().len(),
            nt == tasks@.len(),
            pair_views(tasks@) == privacy_tasks_spec(),
            calls == privacy_calls(flag@),
            views_of(parts@) == calls.take(1 + ns + i),
    {
        let c = disable_task_command(tasks[i].0.as_str(), tasks[i].1.as_str(), flag);
        let ghost before = parts@;
        parts.push(c);
        assert(pair_views(tasks@)[i as int] == (tasks@[i as int].0@, tasks@[i as int].1@));
        assert(calls[1 + ns + i] == c@);
        assert(views_of(parts@) =~= views_of(before).push(c@));
        assert(views_of(parts@) =~= calls.take(1 + ns + i + 1));
    }
    assert(calls.take(1 + ns + nt) =~= calls);
    let body = join_texts(&parts, "; ");
    let mut r = String::from_str(". '");
    r.append(policies_script);
    r.append("'; . '");
    r.append(services_script);
    r.append("'; . '");
    r.append(tasks_script);
    r.append("'; ");
    r.append(body.as_str());
    r.append(";");
    r
}

/// A name quoted for a PowerShell list.
pub open spec fn quoted_text(name: Seq<char>) -> Seq<char> {
    "'"@ + name + "'"@
}

/// The quoted names.
pub open spec fn quoted_names(names: Seq<Seq<char>>) -> Seq<Seq<char>> {
    names.map_values(|n: Seq<char>| quoted_text(n))
}

/// The command that records the start-up type and status of the services `names`.
pub open spec fn service_capture_text(services_script: Seq<char>, names: Seq<Seq<char>>) -> Seq<char> {
    ". '"@ +
    services_script +
    "'; @("@ +
    joined(quoted_names(names), ","@) +
    ") | ForEach-Object { Get-ServiceStateSafe -ServiceName $_ } | ConvertTo-Json -Compress"@
}

/// The command that records the state of the services `names` as JSON.
pub fn service_capture_command(services_script: &str, names: &Vec<String>) -> (r: String)
    ensures
        r@ == service_capture_text(services_script@, views_of(names@)),
{
    let list = quoted_list(names, ",");
    let mut r = String::from_str(". '");
    r.append(services_script);
    r.append("'; @(");
    r.append(list.as_str());
    r.append(") | ForEach-Object { Get-ServiceStateSafe -ServiceName $_ } | ConvertTo-Json -Compress");
    r
}

/// The names, each in single quotes, joined with `sep`.
pub fn quoted_list(names: &Vec<String>, sep: &str) -> (r: String)
    ensures
        r@ == joined(quoted_names(views_of(names@)), sep@),
{
    let mut quoted: Vec<String> = Vec::new();
    let n = names.len();
    for i in 0..n
        invariant
            n == names@.len(),
            views_of(quoted@) == quoted_names(views_of(names@)).take(i as int),
    {
        let mut q = String::from_str("'");
        q.append(names[i].as_str());
        q.append("'");
        let ghost before = quoted@;
        quoted.push(q);
        assert(views_of(names@)[i as int] == names@[i as int]@);
        assert(views_of(quoted@) =~= views_of(before).push(q@));
        assert(views_of(quoted@) =~= quoted_names(views_of(names@)).take(i + 1));
    }
    assert(quoted_names(views_of(names@)).take(n as int) =~= quoted_names(views_of(names@)));
    join_texts(&quoted, sep)
}

/// The query that reads one scheduled task's state.
pub open spec fn task_query_text(path: Seq<char>, name: Seq<char>) -> Seq<char> {
    "Get-ScheduledTaskStateSafe -TaskPath '"@ +
    path +
    "' -TaskName '"@ +
    name +
    "'"@
}

/// The query for one scheduled task.
pub fn task_query(path: &str, name: &str) -> (r: String)
    ensures
        r@ == task_query_text(path@, name@),
{
    let mut r = String::from_str("Get-ScheduledTaskStateSafe -TaskPath '");
    r.append(path);
    r.append("' -TaskName '");
    r.append(name);
    r.append("'");
    r
}

/// The queries of a list of tasks.
pub open spec fn task_queries(tasks: Seq<(Seq<char>, Seq<char>)>) -> Seq<Seq<char>> {
    tasks.map_values(|t: (Seq<char>, Seq<char>)| task_query_text(t.0, t.1))
}

/// The command that records the state of the scheduled tasks `tasks` as one JSON list.
pub fn task_capture_command(tasks_script: &str, tasks: &Vec<(String, String)>) -> (r: String)
    ensures
        r@ == json_capture_text(tasks_script@, joined(task_queries(pair_views(tasks@)), "; "@)),
{
    let mut parts: Vec<String> = Vec::new();
    let n = tasks.len();
    for i in 0..n
        invariant
            n == tasks@.len(),
            views_of(parts@) == task_queries(pair_views(tasks@)).take(i as int),
    {
        let q = task_query(tasks[i].0.as_str(), tasks[i].1.as_str());
        let ghost before = parts@;
        parts.push(q);
        assert(pair_views(tasks@)[i as int] == (tasks@[i as int].0@, tasks@[i as int].1@));
        assert(task_queries(pair_views(tasks@))[i as int] == q@);
        assert(views_of(parts@) =~= views_of(before).push(q@));
        assert(views_of(parts@) =~= task_queries(pair_views(tasks@)).take(i + 1));
    }
    assert(task_queries(pair_views(tasks@)).take(n as int) =~= task_queries(pair_views(tasks@)));
    let queries = join_texts(&parts, "; ");
    json_capture_command(tasks_script, queries.as_str())
}

/// The services the security model never lets a module modify: Windows Update,
/// RPC, WMI, BITS and the cryptographic services.
pub open spec fn protected_services_spec() -> Seq<Seq<char>> {
    seq!["wuauserv"@, "RpcSs"@, "Winmgmt"@, "BITS"@, "CryptSvc"@]
}

/// Privacy hardening never touches a protected service (Windows Update stays
/// functional).
pub proof fn law_privacy_spares_protected_services()
    ensures
        forall|i: int, j: int|
            0 <= i < privacy_services_spec().len() && 0 <= j < protected_services_spec().len()
                ==> #[trigger] privacy_services_spec()[i] != #[trigger] protected_services_spec()[j],
{
    reveal_strlit("DiagTrack");
    reveal_strlit("WerSvc");
    reveal_strlit("MapsBroker");
    reveal_strlit("RetailDemo");
    reveal_strlit("wuauserv");
    reveal_strlit("RpcSs");
    reveal_strlit("Winmgmt");
    reveal_strlit("BITS");
    reveal_strlit("CryptSvc");
    assert forall|i: int, j: int|
        0 <= i < privacy_services_spec().len() && 0 <= j < protected_services_spec().len()
            implies #[trigger] privacy_services_spec()[i] != #[trigger] protected_services_spec()[j] by {
        let a = privacy_services_spec()[i];
        let b = protected_services_spec()[j];
        if a.len() == b.len() {
            assert(a[0] != b[0]);
        }
    }
}

/// The command that records the state of every service the privacy command
/// disables.
pub fn privacy_service_capture_command(services_script: &str) -> (r: String)
    ensures
        r@ == service_capture_text(services_script@, privacy_services_spec()),
{
    let names = privacy_services();
    service_capture_command(services_script, &names)
}

/// The command that records the state of every scheduled task the privacy
/// command disables.
pub fn privacy_task_capture_command(tasks_script: &str) -> (r: String)
    ensures
        r@ == json_capture_text(tasks_script@, joined(task_queries(privacy_tasks_spec()), "; "@)),
{
    let tasks = privacy_tasks();
    task_capture_command(tasks_script, &tasks)
}

/// Every service and scheduled task the privacy command disables is one whose
/// previous state the privacy captures record: after the policy call, each call
/// of the command disables a service of `privacy_services_spec` (the list
/// `privacy_service_capture_command` records) or a task of `privacy_tasks_spec`
/// (the list `privacy_task_capture_command` records). The policy call itself
/// (`Set-ObsidianPrivacyPolicies`) is not captured.
pub proof fn law_privacy_changes_are_captured(flag: Seq<char>)
    ensures
        privacy_calls(flag)[0] == "Set-ObsidianPrivacyPolicies "@ + flag,
        forall|i: int|
            1 <= i < privacy_calls(flag).len() ==> (exists|k: int|
                0 <= k < privacy_services_spec().len() && #[trigger] privacy_calls(flag)[i]
                    == disable_service_text(privacy_services_spec()[k], flag)) || (exists|k: int|
                0 <= k < privacy_tasks_spec().len() && privacy_calls(flag)[i] == disable_task_text(
                    privacy_tasks_spec()[k].0,
                    privacy_tasks_spec()[k].1,
                    flag,
                )),
{
    let calls = privacy_calls(flag);
    let svc = privacy_services_spec();
    let tasks = privacy_tasks_spec();
    assert forall|i: int| 1 <= i < calls.len() implies (exists|k: int|
        0 <= k < svc.len() && #[trigger] calls[i] == disable_service_text(svc[k], flag)) || (exists|k: int|
        0 <= k < tasks.len() && calls[i] == disable_task_text(tasks[k].0, tasks[k].1, flag)) by {
        if i < 1 + svc.len() {
            assert(calls[i] == disable_service_text(svc[i - 1], flag));
        } else {
            let k = i - 1 - svc.len();
            assert(calls[i] == disable_task_text(tasks[k].0, tasks[k].1, flag));
        }
    }
}

} // verus!
