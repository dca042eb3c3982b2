use obsidian::modules::common::StepOutcome;
use obsidian::modules::power::{PowerModule, PowerStage, StepAction, StepPolicy};

#[test]
fn dry_run_plans_no_command() {
    assert!(PowerModule::plan(true).is_empty());
    assert_eq!(PowerModule::plan(false).len(), 16);
}

#[test]
fn first_step_activates_high_performance_with_fallback() {
    let steps = PowerModule::steps();
    assert_eq!(steps[0].stage, PowerStage::HighPerformancePlan);
    assert_eq!(steps[0].program, "cmd");
    assert_eq!(steps[0].args, vec!["/c", "powercfg /setactive 8c5e7fda-e8bf-4a96-9a85-a6e23a8c635c"]);
    assert_eq!(steps[0].policy, StepPolicy::FallbackOnFailure);
    let f = PowerModule::fallback();
    assert_eq!(f.args, vec!["/c", "powercfg -duplicatescheme 8c5e7fda-e8bf-4a96-9a85-a6e23a8c635c"]);
    assert_eq!(f.policy, StepPolicy::BestEffort);
}

#[test]
fn last_step_turns_fast_startup_off() {
    let steps = PowerModule::steps();
    let last = steps.last().unwrap();
    assert_eq!(last.stage, PowerStage::FastStartup);
    assert_eq!(last.program, "powershell");
    assert_eq!(
        last.args[4],
        "Set-ItemProperty -Path 'HKLM:\\SYSTEM\\CurrentControlSet\\Control\\Session Manager\\Power' -Name 'HiberbootEnabled' -Value 0 -Type DWord -Force"
    );
    assert_eq!(last.policy, StepPolicy::Required);
}

#[test]
fn every_timeout_is_set_to_never() {
    let steps = PowerModule::steps();
    let mut changed = Vec::new();
    for s in &steps {
        if s.args.len() == 3 && s.args[0] == "/change" {
            assert_eq!(s.program, "powercfg");
            assert_eq!(s.args[2], "0");
            changed.push(s.args[1].clone());
        }
    }
    assert_eq!(
        changed,
        vec![
            "standby-timeout-ac",
            "standby-timeout-dc",
            "hibernate-timeout-ac",
            "hibernate-timeout-dc",
            "monitor-timeout-ac",
            "monitor-timeout-dc"
        ]
    );
}

#[test]
fn stages_run_in_order() {
    let stages: Vec<PowerStage> = PowerModule::steps().iter().map(|s| s.stage).collect();
    let mut dedup = stages.clone();
    dedup.dedup();
    assert_eq!(
        dedup,
        vec![
            PowerStage::HighPerformancePlan,
            PowerStage::Sleep,
            PowerStage::Hibernate,
            PowerStage::HybridSleep,
            PowerStage::Display,
            PowerStage::UsbSuspend,
            PowerStage::CpuMinimum,
            PowerStage::FastStartup
        ]
    );
}

#[test]
fn failure_policy_decides_next_action() {
    assert_eq!(PowerModule::after_step(StepPolicy::Required, StepOutcome::Succeeded), StepAction::Continue);
    assert_eq!(PowerModule::after_step(StepPolicy::Required, StepOutcome::Failed), StepAction::Abort);
    assert_eq!(PowerModule::after_step(StepPolicy::Required, StepOutcome::NotStarted), StepAction::Abort);
    assert_eq!(PowerModule::after_step(StepPolicy::BestEffort, StepOutcome::Failed), StepAction::Continue);
    assert_eq!(PowerModule::after_step(StepPolicy::BestEffort, StepOutcome::NotStarted), StepAction::Continue);
    assert_eq!(PowerModule::after_step(StepPolicy::FallbackOnFailure, StepOutcome::Failed), StepAction::RunFallback);
    assert_eq!(PowerModule::after_step(StepPolicy::FallbackOnFailure, StepOutcome::NotStarted), StepAction::Abort);
    assert_eq!(PowerModule::after_step(StepPolicy::FallbackOnFailure, StepOutcome::Succeeded), StepAction::Continue);
}
