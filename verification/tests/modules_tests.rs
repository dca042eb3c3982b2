use obsidian::benchmark::{count_delta, count_verdict, thread_count_from_output, DeltaVerdict};
use obsidian::embedded::{cache_version_file, choose_scripts_root, stamp_is_stale, FsPath, ScriptsRoot};
use obsidian::i18n::LanguageSetting;
use obsidian::modules::ai::{driver_advice, nvcc_release_line, parse_driver_report, reports_disabled};
use obsidian::modules::common::{dry_flag, join_texts, json_capture_command};
use obsidian::modules::developer::vscode_version_line;
use obsidian::modules::gaming::{gaming_apply_command, gaming_audit_command, gaming_registry, registry_capture_command, registry_query};
use obsidian::modules::privacy::{
    privacy_apply_command, privacy_audit_command, privacy_services, privacy_tasks, service_capture_command, task_capture_command,
};

#[test]
fn driver_report_parsing() {
    let out = "ERROR|NVIDIA GeForce|Code 43|Device stopped — Windows reported a problem (Code 43)\r\n\
               noise line\n  ERROR|USB Hub|Code 28|Drivers not installed (Code 28)  \nERROR|short|x\nCLEAN\nERROR|after|Code 10|ignored\n";
    let cs = parse_driver_report(out);
    assert_eq!(cs.len(), 2);
    assert_eq!(cs[0].device, "NVIDIA GeForce");
    assert_eq!(cs[0].code, "Code 43");
    assert_eq!(cs[0].meaning, "Device stopped — Windows reported a problem (Code 43)");
    assert_eq!(cs[1].device, "USB Hub");
    assert_eq!(cs[1].meaning, "Drivers not installed (Code 28)");
    assert!(parse_driver_report("CLEAN\n").is_empty());
    assert_eq!(parse_driver_report("ERROR|a|b|c|d").len(), 1);
    assert_eq!(parse_driver_report("ERROR|a|b|c|d")[0].meaning, "c|d");
}

#[test]
fn driver_advice_by_code() {
    let en = LanguageSetting { spanish: false };
    let es = LanguageSetting { spanish: true };
    assert!(driver_advice("Code 43", &en).contains("Code 43: GPU/Device stopped"));
    assert!(driver_advice("Code 43", &es).contains("Código 43"));
    assert!(driver_advice("Code 10", &en).contains("Device cannot start"));
    assert!(driver_advice("Code 28", &en).contains("No driver installed"));
    assert!(driver_advice("Code 12", &en).contains("Resource conflict"));
    assert!(driver_advice("Code 52", &en).contains("WHQL"));
    assert_eq!(driver_advice("Code 1", &en), "");
    // 43 is checked before 10
    assert!(driver_advice("Code 4310", &en).contains("Code 43"));
}

#[test]
fn tool_reports() {
    let nvcc = "nvcc: NVIDIA (R) Cuda compiler driver\r\nCuda compilation tools, release 12.4, V12.4.131\r\nBuild cuda_12.4\r\n";
    assert_eq!(nvcc_release_line(nvcc), "Cuda compilation tools, release 12.4, V12.4.131");
    assert_eq!(nvcc_release_line("nothing here"), "Installed");
    assert_eq!(vscode_version_line("1.95.3\r\nabc123\r\nx64\r\n"), "1.95.3");
    assert_eq!(vscode_version_line(""), "Installed");
    assert!(reports_disabled("Disabled\r\n"));
    assert!(!reports_disabled("NotPresent"));
}

#[test]
fn dry_run_marks_every_change() {
    assert_eq!(dry_flag(true), "-WhatIf");
    assert_eq!(dry_flag(false), "");
    let dry = gaming_apply_command("C:\\p\\Registry.ps1", true);
    assert_eq!(dry.matches("-WhatIf").count(), 5);
    assert_eq!(dry.matches("Set-RegistryValueSafe").count(), 5);
    assert!(dry.starts_with(". 'C:\\p\\Registry.ps1'; "));
    assert!(!gaming_apply_command("r", false).contains("-WhatIf"));
    let p = privacy_apply_command("pol", "svc", "tsk", true);
    assert_eq!(p.matches("-WhatIf").count(), 9);
    assert!(p.starts_with(". 'pol'; . 'svc'; . 'tsk'; "));
    assert!(!privacy_apply_command("pol", "svc", "tsk", false).contains("-WhatIf"));
}

#[test]
fn capture_commands() {
    assert_eq!(
        registry_query("HKCU:\\A", "B"),
        "[PSCustomObject]@{ Path='HKCU:\\A'; Name='B'; Data=(Get-RegistryValueSafe -Path 'HKCU:\\A' -Name 'B') }"
    );
    let keys = gaming_registry();
    assert_eq!(keys.len(), 5);
    assert_eq!(keys[4], ("HKCU:\\System\\GameConfigStore".to_string(), "GameDVR_Enabled".to_string()));
    let cmd = registry_capture_command("reg.ps1", &keys[..2].to_vec());
    assert_eq!(
        cmd,
        ". 'reg.ps1'; @([PSCustomObject]@{ Path='HKCU:\\Software\\Microsoft\\GameBar'; Name='AllowAutoGameMode'; Data=(Get-RegistryValueSafe -Path 'HKCU:\\Software\\Microsoft\\GameBar' -Name 'AllowAutoGameMode') }; [PSCustomObject]@{ Path='HKCU:\\Software\\Microsoft\\GameBar'; Name='AutoGameModeEnabled'; Data=(Get-RegistryValueSafe -Path 'HKCU:\\Software\\Microsoft\\GameBar' -Name 'AutoGameModeEnabled') }) | ConvertTo-Json -Compress"
    );
    assert_eq!(
        service_capture_command("svc.ps1", &privacy_services()),
        ". 'svc.ps1'; @('DiagTrack','WerSvc','MapsBroker','RetailDemo') | ForEach-Object { Get-ServiceStateSafe -ServiceName $_ } | ConvertTo-Json -Compress"
    );
    let tasks = privacy_tasks();
    assert_eq!(tasks.len(), 4);
    assert_eq!(
        task_capture_command("t.ps1", &tasks[2..3].to_vec()),
        ". 't.ps1'; @(Get-ScheduledTaskStateSafe -TaskPath '\\Microsoft\\Windows\\Customer Experience Improvement Program\\' -TaskName 'Consolidator') | ConvertTo-Json -Compress"
    );
    assert_eq!(json_capture_command("s", "q"), ". 's'; @(q) | ConvertTo-Json -Compress");
    assert_eq!(join_texts(&vec!["a".to_string(), "b".to_string(), "c".to_string()], ", "), "a, b, c");
    assert_eq!(join_texts(&Vec::new(), ","), "");
}

#[test]
fn audit_commands() {
    let g = gaming_audit_command("r.ps1");
    assert!(g.starts_with(". 'r.ps1'; $gm = Get-RegistryValueSafe"));
    assert!(g.contains("{ 'Active [Recommended]' }"));
    assert!(g.ends_with("100%% Intact (EAC, BattlEye, Vanguard preserved)';"));
    let p = privacy_audit_command("s", "t", "r");
    assert!(p.starts_with(". 's'; . 't'; . 'r'; Write-Host '  Telemetry Service (DiagTrack):'"));
}

#[test]
fn benchmark_counts() {
    assert_eq!(count_delta(354, 312), -42);
    assert_eq!(count_delta(3120, 3500), 380);
    assert_eq!(count_verdict(-42), DeltaVerdict::Better);
    assert_eq!(count_verdict(380), DeltaVerdict::Higher);
    assert_eq!(count_verdict(0), DeltaVerdict::Same);
    assert_eq!(DeltaVerdict::Better.label(), "↓ BETTER");
    assert_eq!(DeltaVerdict::Higher.label(), "↑ higher");
    assert_eq!(DeltaVerdict::Same.label(), "≈ same");
    assert_eq!(DeltaVerdict::Better.arrow(), "↓");
    assert_eq!(count_verdict(count_delta(5, 3)), DeltaVerdict::Better);
    assert_eq!(count_verdict(count_delta(3, 5)), DeltaVerdict::Higher);
    assert_eq!(thread_count_from_output(Some(" 3500\r\n"), 10), 3500);
    assert_eq!(thread_count_from_output(Some(""), 10), 10);
    assert_eq!(thread_count_from_output(Some("n/a"), 10), 10);
    assert_eq!(thread_count_from_output(None, 7), 7);
}

#[test]
fn script_cache() {
    let root = FsPath { parts: vec!["/".to_string(), "tmp".to_string(), "ProjectObsidian".to_string()] };
    let stamp = cache_version_file(&root);
    assert_eq!(stamp.parts, vec!["/", "tmp", "ProjectObsidian", ".obsidian_version"]);
    assert!(stamp_is_stale(None, "1.0.0", true));
    assert!(!stamp_is_stale(Some("1.0.0\n"), "1.0.0", true));
    assert!(!stamp_is_stale(Some("1.0.0"), "1.0.0", true));
    assert!(stamp_is_stale(Some("0.9.0"), "1.0.0", true));
    // A fresh stamp does not keep missing scripts from being unpacked again.
    assert!(stamp_is_stale(Some("1.0.0"), "1.0.0", false));
    assert!(stamp_is_stale(None, "1.0.0", false));
    assert_eq!(choose_scripts_root(true, true), ScriptsRoot::WorkingDir);
    assert_eq!(choose_scripts_root(false, true), ScriptsRoot::ExecutableDir);
    assert_eq!(choose_scripts_root(false, false), ScriptsRoot::TempDir);
}
