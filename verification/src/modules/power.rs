//! The power module: the `powercfg` and registry commands of the
//! "maximum performance, never sleep" profile, and what a failed command does
//! to the run.

use vstd::prelude::*;
use crate::modules::common::StepOutcome;
use crate::text::views_of;

verus! {

/// The setting a step of the power profile changes.
#[derive(Clone, Copy, Debug, PartialEq, Eq, Structural)]
pub enum PowerStage {
    HighPerformancePlan,
    Sleep,
    Hibernate,
    HybridSleep,
    Display,
    UsbSuspend,
    CpuMinimum,
    FastStartup,
}

/// What a failure of a step does to the run.
#[derive(Clone, Copy, Debug, PartialEq, Eq, Structural)]
pub enum StepPolicy {
    /// The run stops when the command cannot start or reports failure.
    Required,
    /// Whatever happens, the run goes on.
    BestEffort,
    /// The run stops when the command cannot start; when it reports failure,
    /// the fallback command runs and the run goes on.
    FallbackOnFailure,
}

/// What the run does after a step.
#[derive(Clone, Copy, Debug, PartialEq, Eq, Structural)]
pub enum StepAction {
    Continue,
    RunFallback,
    Abort,
}

/// One command of the power profile.
#[derive(Debug)]
pub struct PowerStep {
    pub stage: PowerStage,
    pub program: String,
    pub args: Vec<String>,
    pub policy: StepPolicy,
}

/// A step as plain values: stage, program, arguments, policy.
pub open spec fn step_view(s: PowerStep) -> (PowerStage, Seq<char>, Seq<Seq<char>>, StepPolicy) {
    (s.stage, s.program@, views_of(s.args@), s.policy)
}

/// The views of a sequence of steps.
pub open spec fn step_views(v: Seq<PowerStep>) -> Seq<(PowerStage, Seq<char>, Seq<Seq<char>>, StepPolicy)> {
    v.map_values(|s: PowerStep| step_view(s))
}

/// A command run through `cmd /c`.
pub open spec fn cmd_view(stage: PowerStage, command: Seq<char>, policy: StepPolicy) -> (
    PowerStage,
    Seq<char>,
    Seq<Seq<char>>,
    StepPolicy,
) {
    (stage, "cmd"@, seq!["/c"@, command], policy)
}

/// `powercfg /change <setting> 0`, which must succeed.
pub open spec fn change_view(stage: PowerStage, setting: Seq<char>) -> (
    PowerStage,
    Seq<char>,
    Seq<Seq<char>>,
    StepPolicy,
) {
    (stage, "powercfg"@, seq!["/change"@, setting, "0"@], StepPolicy::Required)
}

/// The registry command that turns Fast Startup off.
pub open spec fn fast_startup_command() -> Seq<char> {
    "Set-ItemProperty -Path 'HKLM:\\SYSTEM\\CurrentControlSet\\Control\\Session Manager\\Power' -Name 'HiberbootEnabled' -Value 0 -Type DWord -Force"@
}

/// The steps of the power profile, in the order they run.
pub open spec fn power_steps_spec() -> Seq<(PowerStage, Seq<char>, Seq<Seq<char>>, StepPolicy)> {
    seq![
        cmd_view(
            PowerStage::HighPerformancePlan,
            "powercfg /setactive 8c5e7fda-e8bf-4a96-9a85-a6e23a8c635c"@,
            StepPolicy::FallbackOnFailure,
        ),
        change_view(PowerStage::Sleep, "standby-timeout-ac"@),
        change_view(PowerStage::Sleep, "standby-timeout-dc"@),
        (PowerStage::Hibernate, "powercfg"@, seq!["/hibernate"@, "off"@], StepPolicy::Required),
        change_view(PowerStage::Hibernate, "hibernate-timeout-ac"@),
        change_view(PowerStage::Hibernate, "hibernate-timeout-dc"@),
        cmd_view(
            PowerStage::HybridSleep,
            "powercfg /setacvalueindex SCHEME_CURRENT SUB_SLEEP HYBRIDSLEEP 0"@,
            StepPolicy::BestEffort,
        ),
        cmd_view(
            PowerStage::HybridSleep,
            "powercfg /setdcvalueindex SCHEME_CURRENT SUB_SLEEP HYBRIDSLEEP 0"@,
            StepPolicy::BestEffort,
        ),
        cmd_view(PowerStage::HybridSleep, "powercfg /setactive SCHEME_CURRENT"@, StepPolicy::BestEffort),
        change_view(PowerStage::Display, "monitor-timeout-ac"@),
        change_view(PowerStage::Display, "monitor-timeout-dc"@),
        cmd_view(
            PowerStage::UsbSuspend,
            "powercfg /setacvalueindex SCHEME_CURRENT 2a737441-1930-4402-8d77-b2bebba308a3 48e6b7a6-50f5-4782-a5d4-53bb8f07e226 0"@,
            StepPolicy::BestEffort,
        ),
        cmd_view(PowerStage::UsbSuspend, "powercfg /setactive SCHEME_CURRENT"@, StepPolicy::BestEffort),
        cmd_view(
            PowerStage::CpuMinimum,
            "powercfg /setacvalueindex SCHEME_CURRENT SUB_PROCESSOR PROCTHROTTLEMIN 100"@,
            StepPolicy::BestEffort,
        ),
        cmd_view(PowerStage::CpuMinimum, "powercfg /setactive SCHEME_CURRENT"@, StepPolicy::BestEffort),
        (
            PowerStage::FastStartup,
            "powershell"@,
            seq!["-NoProfile"@, "-ExecutionPolicy"@, "Bypass"@, "-Command"@, fast_startup_command()],
            StepPolicy::Required,
        ),
    ]
}

/// The command run when the High Performance plan cannot be activated: it
/// creates the plan.
pub open spec fn fallback_spec() -> (PowerStage, Seq<char>, Seq<Seq<char>>, StepPolicy) {
    cmd_view(
        PowerStage::HighPerformancePlan,
        "powercfg -duplicatescheme 8c5e7fda-e8bf-4a96-9a85-a6e23a8c635c"@,
        StepPolicy::BestEffort,
    )
}

/// What the run does after a step with `policy` ended with `outcome`.
pub open spec fn action_after(policy: StepPolicy, outcome: StepOutcome) -> StepAction {
    match policy {
        StepPolicy::Required => if outcome == StepOutcome::Succeeded {
            StepAction::Continue
        } else {
            StepAction::Abort
        },
        StepPolicy::BestEffort => StepAction::Continue,
        StepPolicy::FallbackOnFailure => match outcome {
            StepOutcome::NotStarted => StepAction::Abort,
            StepOutcome::Failed => StepAction::RunFallback,
            StepOutcome::Succeeded => StepAction::Continue,
        },
    }
}

fn cmd_step(stage: PowerStage, command: &str, policy: StepPolicy) -> (s: PowerStep)
    ensures
        step_view(s) == cmd_view(stage, command@, policy),
{
    let args = vec![String::from_str("/c"), String::from_str(command)];
    let s = PowerStep { stage, program: String::from_str("cmd"), args, policy };
    assert(views_of(s.args@) =~= seq!["/c"@, command@]);
    s
}

fn change_step(stage: PowerStage, setting: &str) -> (s: PowerStep)
    ensures
        step_view(s) == change_view(stage, setting@),
{
    let args = vec![String::from_str("/change"), String::from_str(setting), String::from_str("0")];
    let s = PowerStep {
        stage,
        program: String::from_str("powercfg"),
        args,
        policy: StepPolicy::Required,
    };
    assert(views_of(s.args@) =~= seq!["/change"@, setting@, "0"@]);
    s
}

fn hibernate_off_step() -> (s: PowerStep)
    ensures
        step_view(s) == power_steps_spec()[3],
{
    let args = vec![String::from_str("/hibernate"), String::from_str("off")];
    let s = PowerStep {
        stage: PowerStage::Hibernate,
        program: String::from_str("powercfg"),
        args,
        policy: StepPolicy::Required,
    };
    assert(views_of(s.args@) =~= seq!["/hibernate"@, "off"@]);
    s
}

fn fast_startup_step() -> (s: PowerStep)
    ensures
        step_view(s) == power_steps_spec()[15],
{
    let args = vec![
        String::from_str("-NoProfile"),
        String::from_str("-ExecutionPolicy"),
        String::from_str("Bypass"),
        String::from_str("-Command"),
        String::from_str(
            "Set-ItemProperty -Path 'HKLM:\\SYSTEM\\CurrentControlSet\\Control\\Session Manager\\Power' -Name 'HiberbootEnabled' -Value 0 -Type DWord -Force",
        ),
    ];
    let s = PowerStep {
        stage: PowerStage::FastStartup,
        program: String::from_str("powershell"),
        args,
        policy: StepPolicy::Required,
    };
    assert(views_of(s.args@) =~= seq![
        "-NoProfile"@,
        "-ExecutionPolicy"@,
        "Bypass"@,
        "-Command"@,
        fast_startup_command(),
    ]);
    s
}

/// The module that applies the power profile.
pub struct PowerModule;

impl PowerModule {
    /// Every step of the power profile, in order.
    pub fn steps() -> (r: Vec<PowerStep>)
        ensures
            step_views(r@) == power_steps_spec(),
    {
        let mut r: Vec<PowerStep> = Vec::new();
        r.push(
            cmd_step(
                PowerStage::HighPerformancePlan,
                "powercfg /setactive 8c5e7fda-e8bf-4a96-9a85-a6e23a8c635c",
                StepPolicy::FallbackOnFailure,
            ),
        );
        r.push(change_step(PowerStage::Sleep, "standby-timeout-ac"));
        r.push(change_step(PowerStage::Sleep, "standby-timeout-dc"));
        r.push(hibernate_off_step());
        r.push(change_step(PowerStage::Hibernate, "hibernate-timeout-ac"));
        r.push(change_step(PowerStage::Hibernate, "hibernate-timeout-dc"));
        r.push(
            cmd_step(
                PowerStage::HybridSleep,
                "powercfg /setacvalueindex SCHEME_CURRENT SUB_SLEEP HYBRIDSLEEP 0",
                StepPolicy::BestEffort,
            ),
        );
        r.push(
            cmd_step(
                PowerStage::HybridSleep,
                "powercfg /setdcvalueindex SCHEME_CURRENT SUB_SLEEP HYBRIDSLEEP 0",
                StepPolicy::BestEffort,
            ),
        );
        r.push(cmd_step(PowerStage::HybridSleep, "powercfg /setactive SCHEME_CURRENT", StepPolicy::BestEffort));
        r.push(change_step(PowerStage::Display, "monitor-timeout-ac"));
        r.push(change_step(PowerStage::Display, "monitor-timeout-dc"));
        r.push(
            cmd_step(
                PowerStage::UsbSuspend,
                "powercfg /setacvalueindex SCHEME_CURRENT 2a737441-1930-4402-8d77-b2bebba308a3 48e6b7a6-50f5-4782-a5d4-53bb8f07e226 0",
                StepPolicy::BestEffort,
            ),
        );
        r.push(cmd_step(PowerStage::UsbSuspend, "powercfg /setactive SCHEME_CURRENT", StepPolicy::BestEffort));
        r.push(
            cmd_step(
                PowerStage::CpuMinimum,
                "powercfg /setacvalueindex SCHEME_CURRENT SUB_PROCESSOR PROCTHROTTLEMIN 100",
                StepPolicy::BestEffort,
            ),
        );
        r.push(cmd_step(PowerStage::CpuMinimum, "powercfg /setactive SCHEME_CURRENT", StepPolicy::BestEffort));
        r.push(fast_startup_step());
        assert(step_views(r@) =~= power_steps_spec());
        r
    }

    /// The steps `apply` runs: none in a dry run, every step otherwise.
    pub fn plan(dry_run: bool) -> (r: Vec<PowerStep>)
        ensures
            r@.len() == 0 <==> dry_run,
            !dry_run ==> step_views(r@) == power_steps_spec(),
    {
        if dry_run {
            Vec::new()
        } else {
            let r = Self::steps();
            assert(step_views(r@).len() == r@.len());
            r
        }
    }

    /// The command that creates the High Performance plan when it cannot be
    /// activated.
    pub fn fallback() -> (s: PowerStep)
        ensures
            step_view(s) == fallback_spec(),
    {
        cmd_step(
            PowerStage::HighPerformancePlan,
            "powercfg -duplicatescheme 8c5e7fda-e8bf-4a96-9a85-a6e23a8c635c",
            StepPolicy::BestEffort,
        )
    }

    /// What the run does after a step with `policy` ended with `outcome`.
    pub fn after_step(policy: StepPolicy, outcome: StepOutcome) -> (a: StepAction)
        ensures
            a == action_after(policy, outcome),
    {
        match policy {
            StepPolicy::Required => match outcome {
                StepOutcome::Succeeded => StepAction::Continue,
                _ => StepAction::Abort,
            },
            StepPolicy::BestEffort => StepAction::Continue,
            StepPolicy::FallbackOnFailure => match outcome {
                StepOutcome::NotStarted => StepAction::Abort,
                StepOutcome::Failed => StepAction::RunFallback,
                StepOutcome::Succeeded => StepAction::Continue,
            },
        }
    }
}

/// The power timeouts the profile turns off: sleep, hibernate and monitor, on
/// AC power and on battery.
pub open spec fn timeout_settings() -> Seq<Seq<char>> {
    seq![
        "standby-timeout-ac"@,
        "standby-timeout-dc"@,
        "hibernate-timeout-ac"@,
        "hibernate-timeout-dc"@,
        "monitor-timeout-ac"@,
        "monitor-timeout-dc"@,
    ]
}

/// The system never sleeps: every timeout the profile changes is set to zero
/// (never), and each sleep, hibernate and monitor timeout, on AC and on battery,
/// is changed by one of its steps.
pub proof fn law_power_never_sleeps()
    ensures
        forall|i: int|
            0 <= i < power_steps_spec().len() && (#[trigger] power_steps_spec()[i]).2.len() == 3
                && power_steps_spec()[i].2[0] == "/change"@ ==> power_steps_spec()[i].2[2] == "0"@,
        forall|j: int|
            0 <= j < timeout_settings().len() ==> exists|i: int|
                0 <= i < power_steps_spec().len() && power_steps_spec()[i].1 == "powercfg"@
                    && power_steps_spec()[i].2 == seq!["/change"@, #[trigger] timeout_settings()[j], "0"@],
{
    let s = power_steps_spec();
    let t = timeout_settings();
    assert forall|j: int| 0 <= j < t.len() implies exists|i: int|
        0 <= i < s.len() && s[i].1 == "powercfg"@ && s[i].2 == seq!["/change"@, #[trigger] t[j], "0"@] by {
        let at: Seq<int> = seq![1int, 2int, 4int, 5int, 9int, 10int];
        let i = at[j];
        assert(s[i].2 == seq!["/change"@, t[j], "0"@]);
    }
}

/// What a step's outcome does to the run: a step that succeeded never stops
/// it; a best-effort step never stops it; a required step stops it whenever it
/// did not succeed; a step with a fallback runs the fallback exactly when its
/// command ran and failed, and stops the run only when it could not start.
pub proof fn law_power_failure_policy(policy: StepPolicy, outcome: StepOutcome)
    ensures
        outcome == StepOutcome::Succeeded ==> action_after(policy, outcome) == StepAction::Continue,
        policy == StepPolicy::BestEffort ==> action_after(policy, outcome) == StepAction::Continue,
        action_after(policy, outcome) == StepAction::Abort <==> ((policy == StepPolicy::Required
            && outcome != StepOutcome::Succeeded) || (policy == StepPolicy::FallbackOnFailure && outcome
            == StepOutcome::NotStarted)),
        action_after(policy, outcome) == StepAction::RunFallback <==> (policy
            == StepPolicy::FallbackOnFailure && outcome == StepOutcome::Failed),
{
}

/// Which steps may fail: every step run directly (`powercfg` or the registry
/// script) must succeed; every step run through `cmd` is best effort, except
/// the first, the activation of the High Performance plan, which falls back to
/// creating the plan.
pub proof fn law_power_step_policies()
    ensures
        forall|i: int|
            0 <= i < power_steps_spec().len() ==> ((#[trigger] power_steps_spec()[i]).3 == StepPolicy::Required
                <==> power_steps_spec()[i].1 != "cmd"@),
        forall|i: int|
            0 <= i < power_steps_spec().len() ==> ((#[trigger] power_steps_spec()[i]).3
                == StepPolicy::FallbackOnFailure <==> i == 0),
{
    reveal_strlit("cmd");
    reveal_strlit("powercfg");
    reveal_strlit("powershell");
    assert("powercfg"@[0] != "cmd"@[0]);
    assert("powershell"@[0] != "cmd"@[0]);
}

} // verus!
