use obsidian::modules::common::StepOutcome;
use obsidian::modules::tweaks::{Tweak, TweakAction, TweakPolicy, TweakSection, TweaksModule};

#[test]
fn dry_run_plans_no_tweak() {
    assert!(TweaksModule::plan(true).is_empty());
    assert_eq!(TweaksModule::plan(false).len(), 8);
}

#[test]
fn tweaks_run_in_documented_order() {
    let tweaks: Vec<Tweak> = TweaksModule::steps().iter().map(|s| s.tweak).collect();
    assert_eq!(
        tweaks,
        vec![
            Tweak::NagleOff,
            Tweak::NetworkThrottleOff,
            Tweak::PeerSeedingOff,
            Tweak::IrqPriority,
            Tweak::TimerResolution,
            Tweak::MmcssGames,
            Tweak::LastAccessOff,
            Tweak::MemoryCompressionOff
        ]
    );
    let sections: Vec<TweakSection> = TweaksModule::steps().iter().map(|s| s.section).collect();
    assert_eq!(sections[0], TweakSection::Network);
    assert_eq!(sections[3], TweakSection::Irq);
    assert_eq!(sections[7], TweakSection::Memory);
}

#[test]
fn scripts_run_through_powershell() {
    let steps = TweaksModule::steps();
    let timer = &steps[4];
    assert_eq!(timer.program, "powershell");
    assert_eq!(timer.args[..4], ["-NoProfile", "-ExecutionPolicy", "Bypass", "-Command"]);
    assert!(timer.args[4].contains("GlobalTimerResolutionRequests' -Value 1"));
    assert!(steps[0].args[4].contains("'TCPNoDelay' -Value 1"));
    assert_eq!(steps[7].args[4], "Disable-MMAgent -MemoryCompression");
    assert_eq!(steps[7].policy, TweakPolicy::WarnOnFailure);
}

#[test]
fn last_access_uses_fsutil() {
    let steps = TweaksModule::steps();
    assert_eq!(steps[6].program, "fsutil");
    assert_eq!(steps[6].args, vec!["behavior", "set", "disablelastaccess", "1"]);
    assert_eq!(steps[6].policy, TweakPolicy::ConfirmOnSuccess);
}

#[test]
fn failed_script_warns_with_its_error() {
    match TweaksModule::after_tweak(TweakPolicy::WarnOnFailure, StepOutcome::Failed, "  Access denied\r\n") {
        TweakAction::WarnThenConfirm(w) => assert_eq!(w, "[warn] PowerShell: Access denied"),
        other => panic!("unexpected {:?}", other),
    }
    assert!(matches!(
        TweaksModule::after_tweak(TweakPolicy::WarnOnFailure, StepOutcome::Failed, " \n"),
        TweakAction::Confirm
    ));
}

#[test]
fn only_a_command_that_cannot_start_stops_the_run() {
    assert!(matches!(
        TweaksModule::after_tweak(TweakPolicy::WarnOnFailure, StepOutcome::NotStarted, ""),
        TweakAction::Abort
    ));
    assert!(matches!(
        TweaksModule::after_tweak(TweakPolicy::ConfirmOnSuccess, StepOutcome::NotStarted, ""),
        TweakAction::Abort
    ));
    assert!(matches!(
        TweaksModule::after_tweak(TweakPolicy::ConfirmOnSuccess, StepOutcome::Failed, "x"),
        TweakAction::Quiet
    ));
    assert!(matches!(
        TweaksModule::after_tweak(TweakPolicy::ConfirmOnSuccess, StepOutcome::Succeeded, ""),
        TweakAction::Confirm
    ));
}
