use obsidian::modules::ai::{
    ai_apply_commands, ai_features, ai_probes, ai_registry_keys, feature_capture_command, ai_services, driver_scan_command, wsl_config, wsl_config_action,
    WslConfigAction,
};
use obsidian::modules::common::{
    judge, probe_result, ApplyItem, CommandCheck, CommandVerdict, ProbeKind, ProbeResult, Reading, StepOutcome, Tool,
};
use obsidian::modules::developer::{
    dev_folders, developer_apply_commands, developer_probes, developer_registry_keys, developer_services,
    folder_capture_command,
};
use obsidian::snapshot::{feature_items_from_output, folder_items_from_output};

fn found(r: ProbeResult) -> Option<String> {
    match r {
        ProbeResult::Found(t) => Some(t),
        _ => None,
    }
}

#[test]
fn ai_doctor_probes_in_order() {
    let probes = ai_probes();
    let tools: Vec<Tool> = probes.iter().map(|p| p.tool).collect();
    assert_eq!(
        tools,
        vec![Tool::NvidiaGpu, Tool::CudaToolkit, Tool::Wsl, Tool::Docker, Tool::Python, Tool::Git, Tool::Ollama]
    );
    assert_eq!(probes[0].program, "powershell");
    assert_eq!(probes[0].kind, ProbeKind::NonEmptyOutput);
    assert!(probes[0].args[2].contains("Win32_VideoController"));
    assert_eq!(probes[1].program, "nvcc");
    assert_eq!(probes[1].reading, Reading::NvccRelease);
    assert_eq!(probes[2].args, vec!["--status"]);
    assert_eq!(probes[6].program, "ollama");
    assert_eq!(probes[6].args, vec!["--version"]);
}

#[test]
fn developer_audit_probes_in_order() {
    let probes = developer_probes();
    let programs: Vec<&str> = probes.iter().map(|p| p.program.as_str()).collect();
    assert_eq!(programs, vec!["git", "powershell", "code", "winget", "rustc"]);
    assert_eq!(probes[1].tool, Tool::WindowsTerminal);
    assert!(probes[1].args[2].starts_with("(Get-AppxPackage Microsoft.WindowsTerminal*"));
    assert_eq!(probes[2].reading, Reading::FirstLine);
}

#[test]
fn probe_results() {
    assert_eq!(
        found(probe_result(ProbeKind::ExitStatus, Reading::Trimmed, StepOutcome::Succeeded, "git version 2.45.1\r\n")),
        Some("git version 2.45.1".to_string())
    );
    assert!(matches!(
        probe_result(ProbeKind::ExitStatus, Reading::Trimmed, StepOutcome::Failed, "git version 2.45.1"),
        ProbeResult::Missing
    ));
    assert!(matches!(
        probe_result(ProbeKind::ExitStatus, Reading::Trimmed, StepOutcome::NotStarted, ""),
        ProbeResult::NotRun
    ));
    assert_eq!(
        found(probe_result(ProbeKind::NonEmptyOutput, Reading::Trimmed, StepOutcome::Failed, "  NVIDIA GeForce RTX 4090 \n")),
        Some("NVIDIA GeForce RTX 4090".to_string())
    );
    assert!(matches!(
        probe_result(ProbeKind::NonEmptyOutput, Reading::Trimmed, StepOutcome::Succeeded, " \r\n"),
        ProbeResult::Missing
    ));
    assert_eq!(
        found(probe_result(
            ProbeKind::ExitStatus,
            Reading::NvccRelease,
            StepOutcome::Succeeded,
            "nvcc: NVIDIA (R) Cuda compiler driver\nCuda compilation tools, release 12.4, V12.4.131\n"
        )),
        Some("Cuda compilation tools, release 12.4, V12.4.131".to_string())
    );
    assert_eq!(
        found(probe_result(ProbeKind::ExitStatus, Reading::FirstLine, StepOutcome::Succeeded, "1.89.1\nabc\nx64\n")),
        Some("1.89.1".to_string())
    );
}

#[test]
fn command_judgements() {
    assert_eq!(judge(CommandCheck::MustSucceed, StepOutcome::Succeeded, ""), CommandVerdict::Done);
    assert_eq!(judge(CommandCheck::MustSucceed, StepOutcome::Failed, ""), CommandVerdict::Abort);
    assert_eq!(judge(CommandCheck::ReportsDisabled, StepOutcome::Succeeded, "Disabled\r\n"), CommandVerdict::Done);
    assert_eq!(judge(CommandCheck::ReportsDisabled, StepOutcome::Succeeded, "NotPresent\r\n"), CommandVerdict::Absent);
    assert_eq!(judge(CommandCheck::ReportsDisabled, StepOutcome::Failed, "Disabled"), CommandVerdict::Done);
    assert_eq!(judge(CommandCheck::MaySkip, StepOutcome::Failed, ""), CommandVerdict::Skipped);
    assert_eq!(judge(CommandCheck::MaySkip, StepOutcome::Succeeded, ""), CommandVerdict::Done);
    assert_eq!(judge(CommandCheck::MaySkip, StepOutcome::NotStarted, ""), CommandVerdict::Abort);
    assert_eq!(judge(CommandCheck::ReportsDisabled, StepOutcome::NotStarted, "Disabled"), CommandVerdict::Abort);
}

#[test]
fn ai_apply_commands_in_order() {
    assert!(ai_apply_commands(true).is_empty());
    let cmds = ai_apply_commands(false);
    let items: Vec<ApplyItem> = cmds.iter().map(|c| c.item).collect();
    assert_eq!(
        items,
        vec![ApplyItem::VirtualMachinePlatform, ApplyItem::GpuScheduling, ApplyItem::GpuTimeout, ApplyItem::NvidiaTelemetry]
    );
    assert!(cmds[0].args[4].contains("Enable-WindowsOptionalFeature -Online -FeatureName 'VirtualMachinePlatform' -NoRestart"));
    assert!(cmds[0].args[4].contains("$f.State -ne 'Enabled'"));
    assert_eq!(cmds[0].check, CommandCheck::MaySkip);
    assert_eq!(cmds[1].args[..4], ["-NoProfile", "-ExecutionPolicy", "Bypass", "-Command"]);
    assert!(cmds[1].args[4].contains("Set-ItemProperty -Path $path -Name 'HwSchMode' -Value 2 -Type DWord -Force;"));
    assert!(cmds[2].args[4].contains("'TdrDelay' -Value 60"));
    assert!(cmds[2].args[4].contains("'TdrDdiDelay' -Value 60"));
    assert_eq!(cmds[3].check, CommandCheck::ReportsDisabled);
    assert!(cmds[3].args[4].contains("NvTelemetryContainer"));
}

#[test]
fn developer_apply_commands_in_order() {
    assert!(developer_apply_commands(true).is_empty());
    let cmds = developer_apply_commands(false);
    let items: Vec<ApplyItem> = cmds.iter().map(|c| c.item).collect();
    assert_eq!(
        items,
        vec![
            ApplyItem::SearchIndexing,
            ApplyItem::LongPaths,
            ApplyItem::SysMain,
            ApplyItem::LastAccess,
            ApplyItem::HighPerformancePlan,
            ApplyItem::SystemCache
        ]
    );
    let checks: Vec<CommandCheck> = cmds.iter().map(|c| c.check).collect();
    assert_eq!(
        checks,
        vec![
            CommandCheck::MaySkip,
            CommandCheck::MustSucceed,
            CommandCheck::ReportsDisabled,
            CommandCheck::MaySkip,
            CommandCheck::MaySkip,
            CommandCheck::MaySkip
        ]
    );
    assert!(cmds[0].args[4].starts_with(
        "$dirs = @('source', 'repos', 'Projects', 'dev', '.cargo', '.rustup') | ForEach-Object { Join-Path $env:USERPROFILE $_ }"
    ));
    assert!(cmds[0].args[4].contains("NotContentIndexed"));
    assert_eq!(cmds[3].program, "cmd");
    assert_eq!(cmds[3].args, vec!["/c", "fsutil behavior set disablelastaccess 1"]);
    assert_eq!(cmds[4].args, vec!["/c", "powercfg /setactive 8c5e7fda-e8bf-4a96-9a85-a6e23a8c635c"]);
    assert!(cmds[1].args[4].contains("'LongPathsEnabled' -Value 1"));
    assert!(cmds[5].args[4].contains("'LargeSystemCache' -Value 1"));
}

#[test]
fn changed_values_are_captured_first() {
    // Every registry value and service the AI and developer scripts name is in
    // the capture lists taken before they run.
    let ai = ai_apply_commands(false);
    let ai_keys = ai_registry_keys();
    for (_, name) in &ai_keys {
        assert!(ai.iter().any(|c| c.args[4].contains(name.as_str())));
    }
    assert_eq!(ai_keys.len(), 3);
    assert!(ai_keys.iter().all(|(p, _)| p == "HKLM:\\SYSTEM\\CurrentControlSet\\Control\\GraphicsDrivers"));
    assert_eq!(ai_services(), vec!["NvTelemetryContainer"]);
    assert!(ai[3].args[4].contains("NvTelemetryContainer"));
    assert_eq!(ai_features(), vec!["VirtualMachinePlatform"]);
    let fc = feature_capture_command(&ai_features());
    assert!(fc.starts_with("@('VirtualMachinePlatform') | ForEach-Object { $f = Get-WindowsOptionalFeature"));
    let dev = developer_apply_commands(false);
    let keys = developer_registry_keys();
    let names: Vec<&str> = keys.iter().map(|(_, n)| n.as_str()).collect();
    assert_eq!(names, vec!["LongPathsEnabled", "NtfsDisableLastAccessUpdate", "ActivePowerScheme", "LargeSystemCache"]);
    assert!(dev[1].args[4].contains("LongPathsEnabled"));
    assert!(dev[5].args[4].contains("LargeSystemCache"));
    assert_eq!(developer_services(), vec!["SysMain"]);
    assert!(dev[2].args[4].contains("'SysMain'"));
    let folders = dev_folders();
    assert_eq!(folders, vec!["source", "repos", "Projects", "dev", ".cargo", ".rustup"]);
    let capture = folder_capture_command(&folders);
    assert!(capture.starts_with("@('source', 'repos', 'Projects', 'dev', '.cargo', '.rustup') | ForEach-Object"));
    assert!(capture.ends_with("| ConvertTo-Json -Compress"));
}

#[test]
fn folder_capture_parsing() {
    let out = r#"[{"Folder":"source","Path":"C:\\Users\\a\\source","Exists":true,"Indexed":true},{"Folder":".cargo","Path":"C:\\Users\\a\\.cargo","Exists":false,"Indexed":true},{"Folder":"","Path":"x"}]"#;
    let items = folder_items_from_output(out);
    assert_eq!(items.len(), 2);
    assert_eq!(items[0].folder, "source");
    assert_eq!(items[0].path, "C:\\Users\\a\\source");
    assert!(items[0].existed && items[0].indexed);
    assert!(!items[1].existed);
    let one = folder_items_from_output(r#"{"Folder":"dev","Path":"p","Exists":"yes"}"#);
    assert_eq!(one.len(), 1);
    assert!(!one[0].existed && !one[0].indexed);
    assert!(folder_items_from_output("not json").is_empty());
}

#[test]
fn feature_capture_parsing() {
    let items = feature_items_from_output(r#"{"Name":"VirtualMachinePlatform","State":"Disabled"}"#);
    assert_eq!(items.len(), 1);
    assert_eq!(items[0].name, "VirtualMachinePlatform");
    assert_eq!(items[0].previous_state, "Disabled");
    let items = feature_items_from_output(r#"[{"Name":"A"},{"State":"Enabled"}]"#);
    assert_eq!(items.len(), 1);
    assert_eq!(items[0].previous_state, "Unknown");
}

#[test]
fn wsl_config_is_never_overwritten() {
    assert_eq!(wsl_config_action(false, StepOutcome::Succeeded, false), WslConfigAction::Create);
    assert_eq!(wsl_config_action(false, StepOutcome::Succeeded, true), WslConfigAction::KeepExisting);
    assert_eq!(wsl_config_action(false, StepOutcome::Failed, false), WslConfigAction::SkipNoWsl);
    assert_eq!(wsl_config_action(false, StepOutcome::NotStarted, true), WslConfigAction::SkipNoWsl);
    assert_eq!(wsl_config_action(true, StepOutcome::Succeeded, false), WslConfigAction::SkipDryRun);
    assert_eq!(wsl_config(), "[wsl2]\nmemory=8GB\nprocessors=4\nswap=4GB\nlocalhostForwarding=true\n");
}

#[test]
fn driver_scan_reports_errors_or_clean() {
    let s = driver_scan_command();
    assert!(s.contains("Write-Host \"CLEAN\""));
    assert!(s.contains("Write-Host \"ERROR|$($_.Name)|Code $code|$meaning\""));
    assert!(s.contains("43 { \"Device stopped — Windows reported a problem (Code 43)\" }"));
}
