//! The optimisation profiles and the plan an `apply` command follows.

use vstd::prelude::*;
use crate::cli::ProfileType;
use crate::modules::ai::{
    ai_apply_plan_spec, ai_apply_spec, ai_features_spec, ai_registry_keys_spec, ai_services_spec,
    law_ai_changes_are_captured, wsl_config_action_spec, WslConfigAction,
};
use crate::modules::common::{captured_by, changed_settings, dry_flag_text, StepOutcome};
use crate::modules::developer::{
    dev_folders_spec, developer_apply_plan_spec, developer_apply_spec, developer_registry_keys_spec,
    developer_services_spec, law_developer_changes_are_captured,
};
use crate::modules::gaming::{gaming_settings_spec, set_dword_calls};
use crate::modules::privacy::privacy_calls;
use crate::text::ends_with_text;

verus! {

/// What a profile configures.
#[derive(Debug)]
pub struct OptimizationProfile {
    pub profile_type: ProfileType,
    pub name: String,
    pub description: String,
    pub enable_privacy: bool,
    pub enable_gaming: bool,
    pub enable_ai_doctor: bool,
    pub enable_developer: bool,
}

/// The display name of each profile.
pub open spec fn profile_name(p: ProfileType) -> Seq<char> {
    match p {
        ProfileType::Privacy => "Privacy Hardening"@,
        ProfileType::Gaming => "Gaming Optimization"@,
        ProfileType::Ai => "AI Workstation"@,
        ProfileType::Developer => "Developer Workstation"@,
        ProfileType::Ultimate => "Ultimate Workstation"@,
    }
}

/// The description of each profile.
pub open spec fn profile_description(p: ProfileType) -> Seq<char> {
    match p {
        ProfileType::Privacy => "Maximizes privacy by strictly limiting telemetry, advertising IDs, and telemetry tasks."@,
        ProfileType::Gaming => "Optimizes latency, maintains Game Mode and HAGS, removes background clutter without affecting anticheats."@,
        ProfileType::Ai => "Audits CUDA, NVIDIA drivers, WSL2, Docker, Python, and local model runtimes."@,
        ProfileType::Developer => "Configures developer subsystems (WSL2, Git, Docker, Windows Terminal, Python)."@,
        ProfileType::Ultimate => "Combines privacy, gaming responsiveness, and AI development readiness in a single coherent profile."@,
    }
}

/// Whether a profile runs the privacy hardening.
pub open spec fn enables_privacy(p: ProfileType) -> bool {
    p == ProfileType::Privacy || p == ProfileType::Developer || p == ProfileType::Ultimate
}

/// Whether a profile runs the gaming optimisations.
pub open spec fn enables_gaming(p: ProfileType) -> bool {
    p == ProfileType::Gaming || p == ProfileType::Ultimate
}

/// Whether a profile runs the AI workstation module.
pub open spec fn enables_ai(p: ProfileType) -> bool {
    p == ProfileType::Ai || p == ProfileType::Developer || p == ProfileType::Ultimate
}

/// Whether a profile runs the developer module.
pub open spec fn enables_developer(p: ProfileType) -> bool {
    p == ProfileType::Ai || p == ProfileType::Developer || p == ProfileType::Ultimate
}

impl OptimizationProfile {
    /// The profile of the given type.
    pub fn from_type(p_type: ProfileType) -> (r: OptimizationProfile)
        ensures
            r.profile_type == p_type,
            r.name@ == profile_name(p_type),
            r.description@ == profile_description(p_type),
            r.enable_privacy == enables_privacy(p_type),
            r.enable_gaming == enables_gaming(p_type),
            r.enable_ai_doctor == enables_ai(p_type),
            r.enable_developer == enables_developer(p_type),
    {
        match p_type {
            ProfileType::Privacy => OptimizationProfile {
                profile_type: p_type,
                name: String::from_str("Privacy Hardening"),
                description: String::from_str("Maximizes privacy by strictly limiting telemetry, advertising IDs, and telemetry tasks."),
                enable_privacy: true,
                enable_gaming: false,
                enable_ai_doctor: false,
                enable_developer: false,
            },
            ProfileType::Gaming => OptimizationProfile {
                profile_type: p_type,
                name: String::from_str("Gaming Optimization"),
                description: String::from_str("Optimizes latency, maintains Game Mode and HAGS, removes background clutter without affecting anticheats."),
                enable_privacy: false,
                enable_gaming: true,
                enable_ai_doctor: false,
                enable_developer: false,
            },
            ProfileType::Ai => OptimizationProfile {
                profile_type: p_type,
                name: String::from_str("AI Workstation"),
                description: String::from_str("Audits CUDA, NVIDIA drivers, WSL2, Docker, Python, and local model runtimes."),
                enable_privacy: false,
                enable_gaming: false,
                enable_ai_doctor: true,
                enable_developer: true,
            },
            ProfileType::Developer => OptimizationProfile {
                profile_type: p_type,
                name: String::from_str("Developer Workstation"),
                description: String::from_str("Configures developer subsystems (WSL2, Git, Docker, Windows Terminal, Python)."),
                enable_privacy: true,
                enable_gaming: false,
                enable_ai_doctor: true,
                enable_developer: true,
            },
            ProfileType::Ultimate => OptimizationProfile {
                profile_type: p_type,
                name: String::from_str("Ultimate Workstation"),
                description: String::from_str("Combines privacy, gaming responsiveness, and AI development readiness in a single coherent profile."),
                enable_privacy: true,
                enable_gaming: true,
                enable_ai_doctor: true,
                enable_developer: true,
            },
        }
    }
}

/// The steps an `apply` command takes, in order: elevation (when it is needed,
/// nothing else happens), the modules of the profile, the rollback snapshot,
/// the before/after benchmark comparison and the report.
#[derive(Clone, Copy, Debug, PartialEq, Eq, Structural)]
pub struct ApplyPlan {
    /// Re-launch the program elevated and stop.
    pub elevate: bool,
    pub run_privacy: bool,
    pub run_gaming: bool,
    pub run_ai: bool,
    pub run_developer: bool,
    /// The modules record the state they are about to change.
    pub capture_state: bool,
    /// The recorded state is written to the snapshot directory.
    pub save_snapshot: bool,
    /// A second benchmark is taken after the modules and compared with the
    /// one taken before them.
    pub compare_after: bool,
    /// `report.md` and `report.json` are written.
    pub write_report: bool,
}

/// The plan of `apply` for a profile, a dry-run flag and the user's privileges.
pub open spec fn apply_plan_spec(p: OptimizationProfile, dry_run: bool, is_admin: bool) -> ApplyPlan {
    if !is_admin && !dry_run {
        ApplyPlan {
            elevate: true,
            run_privacy: false,
            run_gaming: false,
            run_ai: false,
            run_developer: false,
            capture_state: false,
            save_snapshot: false,
            compare_after: false,
            write_report: false,
        }
    } else {
        ApplyPlan {
            elevate: false,
            run_privacy: p.enable_privacy,
            run_gaming: p.enable_gaming,
            run_ai: p.enable_ai_doctor,
            run_developer: p.enable_developer,
            capture_state: !dry_run,
            save_snapshot: !dry_run,
            compare_after: true,
            write_report: !dry_run,
        }
    }
}

impl ApplyPlan {
    /// The plan of `apply` for `profile`.
    pub fn new(profile: &OptimizationProfile, dry_run: bool, is_admin: bool) -> (r: ApplyPlan)
        ensures
            r == apply_plan_spec(*profile, dry_run, is_admin),
    {
        if !is_admin && !dry_run {
            ApplyPlan {
                elevate: true,
                run_privacy: false,
                run_gaming: false,
                run_ai: false,
                run_developer: false,
                capture_state: false,
                save_snapshot: false,
                compare_after: false,
                write_report: false,
            }
        } else {
            ApplyPlan {
                elevate: false,
                run_privacy: profile.enable_privacy,
                run_gaming: profile.enable_gaming,
                run_ai: profile.enable_ai_doctor,
                run_developer: profile.enable_developer,
                capture_state: !dry_run,
                save_snapshot: !dry_run,
                compare_after: true,
                write_report: !dry_run,
            }
        }
    }
}

/// A module that `apply` runs.
#[derive(Clone, Copy, Debug, PartialEq, Eq, Structural)]
pub enum Module {
    Privacy,
    Gaming,
    Ai,
    Developer,
}

/// One step of an `apply` run's changes, in the order they happen.
#[derive(Clone, Copy, Debug, PartialEq, Eq, Structural)]
pub enum ApplyStep {
    /// Record the previous state of what the module is about to change.
    Capture(Module),
    /// Run the module's changes.
    Change(Module),
    /// Write the recorded state to the snapshot directory.
    SaveSnapshot,
}

/// The steps of one module: its capture (when state is recorded) right before
/// its changes, or nothing when the module does not run.
pub open spec fn module_steps(m: Module, run: bool, capture: bool) -> Seq<ApplyStep> {
    if !run {
        seq![]
    } else if capture {
        seq![ApplyStep::Capture(m), ApplyStep::Change(m)]
    } else {
        seq![ApplyStep::Change(m)]
    }
}

/// The steps of a plan: privacy, gaming, AI and developer in turn, then the
/// snapshot.
pub open spec fn apply_steps_spec(plan: ApplyPlan) -> Seq<ApplyStep> {
    module_steps(Module::Privacy, plan.run_privacy, plan.capture_state)
        + module_steps(Module::Gaming, plan.run_gaming, plan.capture_state)
        + module_steps(Module::Ai, plan.run_ai, plan.capture_state)
        + module_steps(Module::Developer, plan.run_developer, plan.capture_state)
        + (if plan.save_snapshot {
        seq![ApplyStep::SaveSnapshot]
    } else {
        seq![]
    })
}

fn push_module_steps(r: &mut Vec<ApplyStep>, m: Module, run: bool, capture: bool)
    ensures
        final(r)@ == old(r)@ + module_steps(m, run, capture),
{
    if run {
        if capture {
            r.push(ApplyStep::Capture(m));
        }
        r.push(ApplyStep::Change(m));
    }
    assert(r@ =~= old(r)@ + module_steps(m, run, capture));
}

impl ApplyPlan {
    /// The steps of this plan's changes, in order.
    pub fn steps(&self) -> (r: Vec<ApplyStep>)
        ensures
            r@ == apply_steps_spec(*self),
    {
        let mut r: Vec<ApplyStep> = Vec::new();
        push_module_steps(&mut r, Module::Privacy, self.run_privacy, self.capture_state);
        push_module_steps(&mut r, Module::Gaming, self.run_gaming, self.capture_state);
        push_module_steps(&mut r, Module::Ai, self.run_ai, self.capture_state);
        push_module_steps(&mut r, Module::Developer, self.run_developer, self.capture_state);
        if self.save_snapshot {
            r.push(ApplyStep::SaveSnapshot);
        }
        assert(r@ =~= apply_steps_spec(*self));
        r
    }
}

/// Every change step comes right after the capture of the same module.
#[verifier::opaque]
pub open spec fn captured_right_before(s: Seq<ApplyStep>) -> bool {
    forall|i: int|
        0 <= i < s.len() ==> (#[trigger] s[i] matches ApplyStep::Change(m) ==> i >= 1 && s[i - 1]
            == ApplyStep::Capture(m))
}

proof fn lemma_captured_right_before_append(a: Seq<ApplyStep>, b: Seq<ApplyStep>)
    requires
        captured_right_before(a),
        captured_right_before(b),
        b.len() > 0 ==> !(b[0] is Change),
    ensures
        captured_right_before(a + b),
{
    reveal(captured_right_before);
    let s = a + b;
    assert forall|i: int| 0 <= i < s.len() implies (#[trigger] s[i] matches ApplyStep::Change(m) ==> i
        >= 1 && s[i - 1] == ApplyStep::Capture(m)) by {
        if i >= a.len() {
            assert(s[i] == b[i - a.len()]);
            if i - a.len() >= 1 {
                assert(s[i - 1] == b[i - a.len() - 1]);
            }
        }
    }
}

proof fn lemma_module_steps(m: Module, run: bool)
    ensures
        captured_right_before(module_steps(m, run, true)),
        module_steps(m, run, true).len() > 0 ==> !(module_steps(m, run, true)[0] is Change),
{
    reveal(captured_right_before);
}

/// No step is the snapshot, and a capture only happens when `capture` holds.
#[verifier::opaque]
pub open spec fn module_phase_steps(s: Seq<ApplyStep>, capture: bool) -> bool {
    forall|i: int|
        0 <= i < s.len() ==> !(#[trigger] s[i] is SaveSnapshot) && (s[i] is Capture ==> capture)
}

proof fn lemma_module_phase_append(a: Seq<ApplyStep>, b: Seq<ApplyStep>, capture: bool)
    requires
        module_phase_steps(a, capture),
        module_phase_steps(b, capture),
    ensures
        module_phase_steps(a + b, capture),
{
    reveal(module_phase_steps);
    let s = a + b;
    assert forall|i: int| 0 <= i < s.len() implies !(#[trigger] s[i] is SaveSnapshot) && (s[i] is Capture
        ==> capture) by {
        if i < a.len() {
            assert(s[i] == a[i]);
        } else {
            assert(s[i] == b[i - a.len()]);
        }
    }
}

proof fn lemma_module_phase(m: Module, run: bool, capture: bool)
    ensures
        module_phase_steps(module_steps(m, run, capture), capture),
{
    reveal(module_phase_steps);
}

proof fn lemma_modules_phase(plan: ApplyPlan)
    ensures
        module_phase_steps(
            module_steps(Module::Privacy, plan.run_privacy, plan.capture_state) + module_steps(
                Module::Gaming,
                plan.run_gaming,
                plan.capture_state,
            ) + module_steps(Module::Ai, plan.run_ai, plan.capture_state) + module_steps(
                Module::Developer,
                plan.run_developer,
                plan.capture_state,
            ),
            plan.capture_state,
        ),
        plan.capture_state ==> captured_right_before(
            module_steps(Module::Privacy, plan.run_privacy, plan.capture_state) + module_steps(
                Module::Gaming,
                plan.run_gaming,
                plan.capture_state,
            ) + module_steps(Module::Ai, plan.run_ai, plan.capture_state) + module_steps(
                Module::Developer,
                plan.run_developer,
                plan.capture_state,
            ),
        ),
{
    let c = plan.capture_state;
    let p = module_steps(Module::Privacy, plan.run_privacy, c);
    let g = module_steps(Module::Gaming, plan.run_gaming, c);
    let a = module_steps(Module::Ai, plan.run_ai, c);
    let d = module_steps(Module::Developer, plan.run_developer, c);
    lemma_module_phase(Module::Privacy, plan.run_privacy, c);
    lemma_module_phase(Module::Gaming, plan.run_gaming, c);
    lemma_module_phase(Module::Ai, plan.run_ai, c);
    lemma_module_phase(Module::Developer, plan.run_developer, c);
    lemma_module_phase_append(p, g, c);
    lemma_module_phase_append(p + g, a, c);
    lemma_module_phase_append(p + g + a, d, c);
    if c {
        lemma_module_steps(Module::Privacy, plan.run_privacy);
        lemma_module_steps(Module::Gaming, plan.run_gaming);
        lemma_module_steps(Module::Ai, plan.run_ai);
        lemma_module_steps(Module::Developer, plan.run_developer);
        lemma_captured_right_before_append(p, g);
        lemma_captured_right_before_append(p + g, a);
        lemma_captured_right_before_append(p + g + a, d);
    }
}

/// What the rollback guarantee needs of the order of an `apply` run. When state
/// is recorded, each module's changes come right after the capture of that
/// module's state, so nothing is changed before its previous state is
/// recorded; no capture happens otherwise; and the snapshot is written last,
/// after every capture.
pub proof fn law_capture_precedes_change(plan: ApplyPlan)
    ensures
        plan.capture_state ==> captured_right_before(apply_steps_spec(plan)),
        forall|i: int|
            0 <= i < apply_steps_spec(plan).len() && (#[trigger] apply_steps_spec(plan)[i] is Capture)
                ==> plan.capture_state,
        forall|i: int|
            0 <= i < apply_steps_spec(plan).len() && (#[trigger] apply_steps_spec(plan)[i] is SaveSnapshot)
                ==> i == apply_steps_spec(plan).len() - 1,
{
    let c = plan.capture_state;
    let body = module_steps(Module::Privacy, plan.run_privacy, c) + module_steps(
        Module::Gaming,
        plan.run_gaming,
        c,
    ) + module_steps(Module::Ai, plan.run_ai, c) + module_steps(Module::Developer, plan.run_developer, c);
    let tail = if plan.save_snapshot {
        seq![ApplyStep::SaveSnapshot]
    } else {
        seq![]
    };
    let s = apply_steps_spec(plan);
    assert(s == body + tail);
    lemma_modules_phase(plan);
    if c {
        assert(captured_right_before(tail)) by {
            reveal(captured_right_before);
        }
        lemma_captured_right_before_append(body, tail);
    }
    assert forall|i: int| 0 <= i < s.len() implies ((#[trigger] s[i] is Capture) ==> c) && (s[i] is SaveSnapshot
        ==> i == s.len() - 1) by {
        reveal(module_phase_steps);
        if i < body.len() {
            assert(s[i] == body[i]);
        } else {
            assert(s[i] == tail[i - body.len()]);
        }
    }
}

/// Every profile configures something.
pub proof fn law_every_profile_does_something(p: ProfileType)
    ensures
        enables_privacy(p) || enables_gaming(p) || enables_ai(p) || enables_developer(p),
{
}

/// The ultimate profile runs every module.
pub proof fn law_ultimate_runs_everything()
    ensures
        enables_privacy(ProfileType::Ultimate),
        enables_gaming(ProfileType::Ultimate),
        enables_ai(ProfileType::Ultimate),
        enables_developer(ProfileType::Ultimate),
{
}

/// Every module that some profile runs, the ultimate profile runs too.
pub proof fn law_ultimate_covers_every_profile(p: ProfileType)
    ensures
        enables_privacy(p) ==> enables_privacy(ProfileType::Ultimate),
        enables_gaming(p) ==> enables_gaming(ProfileType::Ultimate),
        enables_ai(p) ==> enables_ai(ProfileType::Ultimate),
        enables_developer(p) ==> enables_developer(ProfileType::Ultimate),
{
}

/// A text that ends with `f` once `f` is appended to it.
proof fn lemma_ends_with_appended(a: Seq<char>, f: Seq<char>)
    ensures
        ends_with_text(a + f, f),
{
    assert((a + f).subrange(a.len() as int, (a + f).len() as int) =~= f);
}

/// A dry run changes nothing, whatever the profile and the privileges: it
/// never elevates, records no state and writes no snapshot or report; the
/// privacy and gaming commands carry `-WhatIf` on every change; the AI and
/// developer modules run no command and write no `.wslconfig`.
pub proof fn law_dry_run_changes_nothing(p: OptimizationProfile, is_admin: bool)
    ensures
        !apply_plan_spec(p, true, is_admin).elevate,
        !apply_plan_spec(p, true, is_admin).capture_state,
        !apply_plan_spec(p, true, is_admin).save_snapshot,
        !apply_plan_spec(p, true, is_admin).write_report,
        forall|i: int|
            0 <= i < privacy_calls(dry_flag_text(true)).len() ==> ends_with_text(
                #[trigger] privacy_calls(dry_flag_text(true))[i],
                "-WhatIf"@,
            ),
        forall|i: int|
            0 <= i < set_dword_calls(gaming_settings_spec(), dry_flag_text(true)).len()
                ==> ends_with_text(
                #[trigger] set_dword_calls(gaming_settings_spec(), dry_flag_text(true))[i],
                "-WhatIf"@,
            ),
        ai_apply_plan_spec(true).len() == 0,
        developer_apply_plan_spec(true).len() == 0,
        forall|status: StepOutcome, exists_already: bool|
            #[trigger] wsl_config_action_spec(true, status, exists_already) != WslConfigAction::Create,
{
    let flag = dry_flag_text(true);
    let calls = privacy_calls(flag);
    assert forall|i: int| 0 <= i < calls.len() implies ends_with_text(#[trigger] calls[i], "-WhatIf"@) by {
        let head = seq!["Set-ObsidianPrivacyPolicies "@ + flag];
        let svc = crate::modules::privacy::privacy_services_spec().map_values(
            |n: Seq<char>| crate::modules::privacy::disable_service_text(n, flag),
        );
        if i == 0 {
            lemma_ends_with_appended("Set-ObsidianPrivacyPolicies "@, flag);
        } else if i < 1 + svc.len() {
            let n = crate::modules::privacy::privacy_services_spec()[i - 1];
            assert(calls[i] == crate::modules::privacy::disable_service_text(n, flag));
            lemma_ends_with_appended(
                "Set-ServiceStateSafe -ServiceName '"@ + n + "' -TargetStartupType 'Disabled' -StopIfRunning "@,
                flag,
            );
        } else {
            let t = crate::modules::privacy::privacy_tasks_spec()[i - 1 - svc.len()];
            assert(calls[i] == crate::modules::privacy::disable_task_text(t.0, t.1, flag));
            lemma_ends_with_appended(
                "Set-ScheduledTaskStateSafe -TaskPath '"@ + t.0 + "' -TaskName '"@ + t.1
                    + "' -TargetState 'Disabled' "@,
                flag,
            );
        }
    }
    let sets = set_dword_calls(gaming_settings_spec(), flag);
    assert forall|i: int| 0 <= i < sets.len() implies ends_with_text(#[trigger] sets[i], "-WhatIf"@) by {
        let t = gaming_settings_spec()[i];
        lemma_ends_with_appended(
            "Set-RegistryValueSafe -Path '"@ + t.0 + "' -Name '"@ + t.1 + "' -Value "@ + t.2
                + " -PropertyType 'DWord' "@,
            flag,
        );
    }
}

/// Every real run that goes ahead measures the system again after the modules
/// and compares the figures with those taken before them.
pub proof fn law_apply_compares_before_and_after(p: OptimizationProfile, dry_run: bool, is_admin: bool)
    ensures
        !apply_plan_spec(p, dry_run, is_admin).elevate ==> apply_plan_spec(p, dry_run, is_admin).compare_after,
{
}

/// A real run by an administrator is reversible: it records the previous state
/// and writes the rollback snapshot and the report, and every piece of state the
/// AI and developer commands modify is among what their captures record. The
/// gaming and privacy captures are covered by `law_gaming_records_what_it_sets`
/// and `law_privacy_changes_are_captured` (which leaves out the policy call), and
/// the order of captures and changes by `law_capture_precedes_change`. A real
/// run by any other user only elevates, and runs no module.
pub proof fn law_real_run_is_reversible(p: OptimizationProfile, is_admin: bool)
    ensures
        is_admin ==> {
            let plan = apply_plan_spec(p, false, is_admin);
            plan.capture_state && plan.save_snapshot && plan.write_report && !plan.elevate
        },
        !is_admin ==> {
            let plan = apply_plan_spec(p, false, is_admin);
            plan.elevate && !plan.run_privacy && !plan.run_gaming && !plan.run_ai
                && !plan.run_developer && !plan.save_snapshot
        },
        forall|i: int, j: int|
            0 <= i < ai_apply_spec().len() && 0 <= j < changed_settings(ai_apply_spec()[i].0).len()
                ==> captured_by(
                ai_registry_keys_spec(),
                ai_services_spec(),
                seq![],
                ai_features_spec(),
                #[trigger] changed_settings(ai_apply_spec()[i].0)[j],
            ),
        forall|i: int, j: int|
            0 <= i < developer_apply_spec().len() && 0 <= j < changed_settings(
                developer_apply_spec()[i].0,
            ).len() ==> captured_by(
                developer_registry_keys_spec(),
                developer_services_spec(),
                dev_folders_spec(),
                seq![],
                #[trigger] changed_settings(developer_apply_spec()[i].0)[j],
            ),
{
    law_ai_changes_are_captured();
    law_developer_changes_are_captured();
}

/// An administrator, or a dry run, runs exactly the modules that the profile enables.
pub proof fn law_plan_follows_profile(p: OptimizationProfile, dry_run: bool, is_admin: bool)
    requires
        is_admin || dry_run,
        p.enable_privacy == enables_privacy(p.profile_type),
        p.enable_gaming == enables_gaming(p.profile_type),
        p.enable_ai_doctor == enables_ai(p.profile_type),
        p.enable_developer == enables_developer(p.profile_type),
    ensures
        ({
            let plan = apply_plan_spec(p, dry_run, is_admin);
            &&& plan.run_privacy == enables_privacy(p.profile_type)
            &&& plan.run_gaming == enables_gaming(p.profile_type)
            &&& plan.run_ai == enables_ai(p.profile_type)
            &&& plan.run_developer == enables_developer(p.profile_type)
        }),
{
}

} // verus!
