use obsidian::cli::ProfileType;
use obsidian::i18n::{is_spanish, set_language, toggle_language, LanguageSetting};
use obsidian::modules::gaming::{gaming_capture_command, gaming_registry, gaming_settings};
use obsidian::modules::privacy::{
    privacy_apply_command, privacy_service_capture_command, privacy_services, privacy_task_capture_command, privacy_tasks,
};
use obsidian::profiles::OptimizationProfile;

#[test]
fn gaming_captures_exactly_the_values_it_sets() {
    let captured = gaming_registry();
    let set = gaming_settings();
    assert_eq!(captured.len(), set.len());
    for (c, s) in captured.iter().zip(set.iter()) {
        assert_eq!(c.0, s.0);
        assert_eq!(c.1, s.1);
    }
}

#[test]
fn privacy_never_touches_protected_services() {
    let services = privacy_services();
    for protected in ["wuauserv", "RpcSs", "Winmgmt", "BITS", "CryptSvc"] {
        assert!(!services.iter().any(|s| s == protected));
    }
    assert_eq!(services, vec!["DiagTrack", "WerSvc", "MapsBroker", "RetailDemo"]);
}

#[test]
fn ultimate_covers_every_profile() {
    let u = OptimizationProfile::from_type(ProfileType::Ultimate);
    for t in [ProfileType::Privacy, ProfileType::Gaming, ProfileType::Ai, ProfileType::Developer] {
        let p = OptimizationProfile::from_type(t);
        assert!(!p.enable_privacy || u.enable_privacy);
        assert!(!p.enable_gaming || u.enable_gaming);
        assert!(!p.enable_ai_doctor || u.enable_ai_doctor);
        assert!(!p.enable_developer || u.enable_developer);
    }
}

#[test]
fn toggling_twice_restores_the_language() {
    for start in [false, true] {
        let mut lang = LanguageSetting { spanish: start };
        toggle_language(&mut lang);
        assert_eq!(is_spanish(&lang), !start);
        toggle_language(&mut lang);
        assert_eq!(is_spanish(&lang), start);
        set_language(&mut lang, true);
        assert!(is_spanish(&lang));
    }
}

#[test]
fn privacy_and_gaming_captures_cover_their_changes() {
    let svc = privacy_service_capture_command("s.ps1");
    assert_eq!(
        svc,
        ". 's.ps1'; @('DiagTrack','WerSvc','MapsBroker','RetailDemo') | ForEach-Object { Get-ServiceStateSafe -ServiceName $_ } | ConvertTo-Json -Compress"
    );
    let apply = privacy_apply_command("p.ps1", "s.ps1", "t.ps1", false);
    for name in ["DiagTrack", "WerSvc", "MapsBroker", "RetailDemo"] {
        assert!(apply.contains(&format!("-ServiceName '{}' -TargetStartupType 'Disabled'", name)));
    }
    let tasks = privacy_task_capture_command("t.ps1");
    for (path, name) in privacy_tasks() {
        assert!(tasks.contains(&format!("-TaskPath '{}' -TaskName '{}'", path, name)));
        assert!(apply.contains(&format!("-TaskPath '{}' -TaskName '{}' -TargetState 'Disabled'", path, name)));
    }
    let gaming = gaming_capture_command("r.ps1");
    for (path, name) in gaming_registry() {
        assert!(gaming.contains(&format!("Path='{}'", path)) || gaming.contains(&path));
        assert!(gaming.contains(&name));
    }
}
