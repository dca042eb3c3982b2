use obsidian::cli::ProfileType;
use obsidian::profiles::{ApplyPlan, ApplyStep, Module, OptimizationProfile};

#[test]
fn test_profile_configuration_flags() {
    let privacy = OptimizationProfile::from_type(ProfileType::Privacy);
    assert!(privacy.enable_privacy);
    assert!(!privacy.enable_gaming);

    let gaming = OptimizationProfile::from_type(ProfileType::Gaming);
    assert!(!gaming.enable_privacy);
    assert!(gaming.enable_gaming);

    let ultimate = OptimizationProfile::from_type(ProfileType::Ultimate);
    assert!(ultimate.enable_privacy);
    assert!(ultimate.enable_gaming);
    assert!(ultimate.enable_ai_doctor);
    assert!(ultimate.enable_developer);
}

#[test]
fn profile_names_and_descriptions() {
    let ai = OptimizationProfile::from_type(ProfileType::Ai);
    assert_eq!(ai.name, "AI Workstation");
    assert_eq!(ai.description, "Audits CUDA, NVIDIA drivers, WSL2, Docker, Python, and local model runtimes.");
    assert_eq!(ai.profile_type, ProfileType::Ai);
    assert!(!ai.enable_privacy && !ai.enable_gaming && ai.enable_ai_doctor && ai.enable_developer);

    let dev = OptimizationProfile::from_type(ProfileType::Developer);
    assert_eq!(dev.name, "Developer Workstation");
    assert!(dev.enable_privacy && !dev.enable_gaming && dev.enable_ai_doctor && dev.enable_developer);

    assert_eq!(OptimizationProfile::from_type(ProfileType::Privacy).name, "Privacy Hardening");
    assert_eq!(OptimizationProfile::from_type(ProfileType::Gaming).name, "Gaming Optimization");
    assert_eq!(OptimizationProfile::from_type(ProfileType::Ultimate).name, "Ultimate Workstation");
}

#[test]
fn every_profile_enables_some_module() {
    for t in [ProfileType::Privacy, ProfileType::Gaming, ProfileType::Ai, ProfileType::Developer, ProfileType::Ultimate] {
        let p = OptimizationProfile::from_type(t);
        assert!(p.enable_privacy || p.enable_gaming || p.enable_ai_doctor || p.enable_developer);
    }
}

#[test]
fn dry_run_plan_changes_nothing() {
    for admin in [false, true] {
        let plan = ApplyPlan::new(&OptimizationProfile::from_type(ProfileType::Ultimate), true, admin);
        assert!(!plan.elevate);
        assert!(!plan.capture_state);
        assert!(!plan.save_snapshot);
        assert!(plan.run_privacy && plan.run_gaming && plan.run_ai && plan.run_developer);
    }
}

#[test]
fn real_run_without_admin_only_elevates() {
    let plan = ApplyPlan::new(&OptimizationProfile::from_type(ProfileType::Gaming), false, false);
    assert!(plan.elevate);
    assert!(!plan.run_privacy && !plan.run_gaming && !plan.run_ai && !plan.run_developer);
    assert!(!plan.save_snapshot && !plan.capture_state);
}

#[test]
fn real_run_as_admin_records_and_saves() {
    let plan = ApplyPlan::new(&OptimizationProfile::from_type(ProfileType::Privacy), false, true);
    assert!(!plan.elevate);
    assert!(plan.run_privacy && !plan.run_gaming && !plan.run_ai && !plan.run_developer);
    assert!(plan.capture_state && plan.save_snapshot);
}

#[test]
fn dry_run_writes_no_report_and_real_run_compares() {
    let p = OptimizationProfile::from_type(ProfileType::Ultimate);
    let dry = ApplyPlan::new(&p, true, true);
    assert!(!dry.write_report && !dry.save_snapshot && !dry.capture_state);
    assert!(dry.compare_after);
    let real = ApplyPlan::new(&p, false, true);
    assert!(real.write_report && real.compare_after && real.capture_state);
    let denied = ApplyPlan::new(&p, false, false);
    assert!(denied.elevate && !denied.compare_after && !denied.write_report);
}

#[test]
fn real_run_captures_each_module_right_before_changing_it() {
    let plan = ApplyPlan::new(&OptimizationProfile::from_type(ProfileType::Ultimate), false, true);
    assert_eq!(
        plan.steps(),
        vec![
            ApplyStep::Capture(Module::Privacy),
            ApplyStep::Change(Module::Privacy),
            ApplyStep::Capture(Module::Gaming),
            ApplyStep::Change(Module::Gaming),
            ApplyStep::Capture(Module::Ai),
            ApplyStep::Change(Module::Ai),
            ApplyStep::Capture(Module::Developer),
            ApplyStep::Change(Module::Developer),
            ApplyStep::SaveSnapshot
        ]
    );
    let privacy = ApplyPlan::new(&OptimizationProfile::from_type(ProfileType::Privacy), false, true);
    assert_eq!(
        privacy.steps(),
        vec![ApplyStep::Capture(Module::Privacy), ApplyStep::Change(Module::Privacy), ApplyStep::SaveSnapshot]
    );
}

#[test]
fn dry_run_steps_capture_and_save_nothing() {
    let plan = ApplyPlan::new(&OptimizationProfile::from_type(ProfileType::Gaming), true, false);
    assert_eq!(plan.steps(), vec![ApplyStep::Change(Module::Gaming)]);
    let denied = ApplyPlan::new(&OptimizationProfile::from_type(ProfileType::Gaming), false, false);
    assert!(denied.steps().is_empty());
}
