use obsidian::modules::gaming::{gaming_apply_command, gaming_audit_command};
use obsidian::modules::privacy::{privacy_apply_command, privacy_audit_command};

#[test]
fn gaming_apply_text_is_exact() {
    for (dry, flag) in [(true, "-WhatIf"), (false, "")] {
        let expected = format!(
            ". '{}'; \
            Set-RegistryValueSafe -Path 'HKCU:\\Software\\Microsoft\\GameBar' -Name 'AllowAutoGameMode' -Value 1 -PropertyType 'DWord' {}; \
            Set-RegistryValueSafe -Path 'HKCU:\\Software\\Microsoft\\GameBar' -Name 'AutoGameModeEnabled' -Value 1 -PropertyType 'DWord' {}; \
            Set-RegistryValueSafe -Path 'HKCU:\\Software\\Microsoft\\GameBar' -Name 'ShowStartupPanel' -Value 0 -PropertyType 'DWord' {}; \
            Set-RegistryValueSafe -Path 'HKCU:\\Software\\Microsoft\\Windows\\CurrentVersion\\GameDVR' -Name 'AppCaptureEnabled' -Value 0 -PropertyType 'DWord' {}; \
            Set-RegistryValueSafe -Path 'HKCU:\\System\\GameConfigStore' -Name 'GameDVR_Enabled' -Value 0 -PropertyType 'DWord' {};",
            "C:\\scripts\\powershell\\Registry.ps1",
            flag, flag, flag, flag, flag
        );
        assert_eq!(gaming_apply_command("C:\\scripts\\powershell\\Registry.ps1", dry), expected);
    }
}

#[test]
fn gaming_audit_text_is_exact() {
    let expected = format!(
        ". '{}'; \
            $gm = Get-RegistryValueSafe -Path 'HKCU:\\Software\\Microsoft\\GameBar' -Name 'AllowAutoGameMode'; \
            $dvr = Get-RegistryValueSafe -Path 'HKCU:\\Software\\Microsoft\\Windows\\CurrentVersion\\GameDVR' -Name 'AppCaptureEnabled'; \
            $gmTxt = if ($gm.Value -eq 1 -or -not $gm.Exists) {{ 'Active [Recommended]' }} else {{ 'Disabled' }}; \
            $dvrTxt = if ($dvr.Value -eq 0) {{ 'Disabled (Zero CPU/Disk Penalty)' }} else {{ 'Enabled' }}; \
            Write-Host '  Windows Game Mode:        ' $gmTxt; \
            Write-Host '  Background DVR Capture:   ' $dvrTxt; \
            Write-Host '  Anti-Cheat Protection:     100%% Intact (EAC, BattlEye, Vanguard preserved)';",
        "r.ps1"
    );
    assert_eq!(gaming_audit_command("r.ps1"), expected);
}

#[test]
fn privacy_apply_text_is_exact() {
    for (dry, f) in [(true, "-WhatIf"), (false, "")] {
        let expected = format!(
            ". '{}'; . '{}'; . '{}'; \
            Set-ObsidianPrivacyPolicies {}; \
            Set-ServiceStateSafe -ServiceName 'DiagTrack' -TargetStartupType 'Disabled' -StopIfRunning {}; \
            Set-ServiceStateSafe -ServiceName 'WerSvc' -TargetStartupType 'Disabled' -StopIfRunning {}; \
            Set-ServiceStateSafe -ServiceName 'MapsBroker' -TargetStartupType 'Disabled' -StopIfRunning {}; \
            Set-ServiceStateSafe -ServiceName 'RetailDemo' -TargetStartupType 'Disabled' -StopIfRunning {}; \
            Set-ScheduledTaskStateSafe -TaskPath '\\Microsoft\\Windows\\Application Experience\\' -TaskName 'Microsoft Compatibility Appraiser' -TargetState 'Disabled' {}; \
            Set-ScheduledTaskStateSafe -TaskPath '\\Microsoft\\Windows\\Application Experience\\' -TaskName 'ProgramDataUpdater' -TargetState 'Disabled' {}; \
            Set-ScheduledTaskStateSafe -TaskPath '\\Microsoft\\Windows\\Customer Experience Improvement Program\\' -TaskName 'Consolidator' -TargetState 'Disabled' {}; \
            Set-ScheduledTaskStateSafe -TaskPath '\\Microsoft\\Windows\\Customer Experience Improvement Program\\' -TaskName 'UsbCeip' -TargetState 'Disabled' {};",
            "pol.ps1", "svc.ps1", "tsk.ps1",
            f, f, f, f, f, f, f, f, f
        );
        assert_eq!(privacy_apply_command("pol.ps1", "svc.ps1", "tsk.ps1", dry), expected);
    }
}

#[test]
fn privacy_audit_text_is_exact() {
    let expected = format!(
        ". '{}'; . '{}'; . '{}'; \
            Write-Host '  Telemetry Service (DiagTrack):' (Get-ServiceStateSafe -ServiceName 'DiagTrack').Status; \
            Write-Host '  Error Reporting (WerSvc):' (Get-ServiceStateSafe -ServiceName 'WerSvc').Status; \
            Write-Host '  Compatibility Appraiser:' (Get-ScheduledTaskStateSafe -TaskPath '\\Microsoft\\Windows\\Application Experience\\' -TaskName 'Microsoft Compatibility Appraiser').State; \
            Write-Host '  AllowTelemetry Policy:' (Get-RegistryValueSafe -Path 'HKLM:\\SOFTWARE\\Policies\\Microsoft\\Windows\\DataCollection' -Name 'AllowTelemetry').Value;",
        "s.ps1", "t.ps1", "r.ps1"
    );
    assert_eq!(privacy_audit_command("s.ps1", "t.ps1", "r.ps1"), expected);
}
