//! The low-latency tweaks: the registry scripts and commands that tune the
//! network stack, interrupt priorities, the timer, the multimedia scheduler,
//! NTFS and memory, and what a failed command does to the run.

use vstd::prelude::*;
use crate::modules::common::StepOutcome;
use crate::text::{trim, trimmed, views_of};

verus! {

/// The group a tweak is shown under.
#[derive(Clone, Copy, Debug, PartialEq, Eq, Structural)]
pub enum TweakSection {
    Network,
    Irq,
    Timer,
    Multimedia,
    Filesystem,
    Memory,
}

/// One tweak.
#[derive(Clone, Copy, Debug, PartialEq, Eq, Structural)]
pub enum Tweak {
    NagleOff,
    NetworkThrottleOff,
    PeerSeedingOff,
    IrqPriority,
    TimerResolution,
    MmcssGames,
    LastAccessOff,
    MemoryCompressionOff,
}

/// How the run treats a tweak's command.
#[derive(Clone, Copy, Debug, PartialEq, Eq, Structural)]
pub enum TweakPolicy {
    /// A PowerShell script: a failure is reported as a warning (when it said
    /// why) and the tweak is still confirmed.
    WarnOnFailure,
    /// A command whose success alone is confirmed; a failure passes silently.
    ConfirmOnSuccess,
}

/// What the run does after a tweak's command.
#[derive(Debug)]
pub enum TweakAction {
    /// Print the tweak's confirmation.
    Confirm,
    /// Print this warning, then the tweak's confirmation.
    WarnThenConfirm(String),
    /// Print nothing more for this tweak.
    Quiet,
    /// Stop the run: the command could not be started.
    Abort,
}

/// One command of the tweaks.
#[derive(Debug)]
pub struct TweakStep {
    pub tweak: Tweak,
    pub section: TweakSection,
    pub program: String,
    pub args: Vec<String>,
    pub policy: TweakPolicy,
}

/// A tweak step as plain values.
pub open spec fn tweak_view(s: TweakStep) -> (Tweak, TweakSection, Seq<char>, Seq<Seq<char>>, TweakPolicy) {
    (s.tweak, s.section, s.program@, views_of(s.args@), s.policy)
}

/// The views of a sequence of tweak steps.
pub open spec fn tweak_views(v: Seq<TweakStep>) -> Seq<(Tweak, TweakSection, Seq<char>, Seq<Seq<char>>, TweakPolicy)> {
    v.map_values(|s: TweakStep| tweak_view(s))
}

/// A PowerShell script run without profile and with scripts allowed.
pub open spec fn ps_view(tweak: Tweak, section: TweakSection, script: Seq<char>) -> (
    Tweak,
    TweakSection,
    Seq<char>,
    Seq<Seq<char>>,
    TweakPolicy,
) {
    (
        tweak,
        section,
        "powershell"@,
        seq!["-NoProfile"@, "-ExecutionPolicy"@, "Bypass"@, "-Command"@, script],
        TweakPolicy::WarnOnFailure,
    )
}

/// The PowerShell script of one tweak.
pub open spec fn nagle_script() -> Seq<char> {
    "\n            $path = 'HKLM:\\SYSTEM\\CurrentControlSet\\Services\\Tcpip\\Parameters\\Interfaces'\n            Get-ChildItem $path | ForEach-Object {\n                Set-ItemProperty -Path $_.PSPath -Name 'TcpAckFrequency' -Value 1 -Type DWord -Force -ErrorAction SilentlyContinue\n                Set-ItemProperty -Path $_.PSPath -Name 'TCPNoDelay'      -Value 1 -Type DWord -Force -ErrorAction SilentlyContinue\n                Set-ItemProperty -Path $_.PSPath -Name 'TcpDelAckTicks'  -Value 0 -Type DWord -Force -ErrorAction SilentlyContinue\n            }\n            Set-ItemProperty -Path 'HKLM:\\SYSTEM\\CurrentControlSet\\Services\\Tcpip\\Parameters' `\n                -Name 'TCPNoDelay' -Value 1 -Type DWord -Force\n        "@
}

/// The PowerShell script of one tweak.
pub open spec fn network_throttle_script() -> Seq<char> {
    "\n            $path = 'HKLM:\\SOFTWARE\\Microsoft\\Windows NT\\CurrentVersion\\Multimedia\\SystemProfile'\n            Set-ItemProperty -Path $path -Name 'NetworkThrottlingIndex' -Value 0xFFFFFFFF -Type DWord -Force\n            Set-ItemProperty -Path $path -Name 'SystemResponsiveness'   -Value 0          -Type DWord -Force\n        "@
}

/// The PowerShell script of one tweak.
pub open spec fn peer_seeding_script() -> Seq<char> {
    "\n            $path = 'HKLM:\\SOFTWARE\\Policies\\Microsoft\\Windows\\DeliveryOptimization'\n            if (-not (Test-Path $path)) { New-Item -Path $path -Force | Out-Null }\n            Set-ItemProperty -Path $path -Name 'DODownloadMode' -Value 0 -Type DWord -Force\n        "@
}

/// The PowerShell script of one tweak.
pub open spec fn irq_priority_script() -> Seq<char> {
    "\n            $path = 'HKLM:\\SYSTEM\\CurrentControlSet\\Control\\PriorityControl'\n            Set-ItemProperty -Path $path -Name 'IRQ8Priority'          -Value 1  -Type DWord -Force\n            Set-ItemProperty -Path $path -Name 'Win32PrioritySeparation'-Value 38 -Type DWord -Force\n        "@
}

/// The PowerShell script of one tweak.
pub open spec fn timer_resolution_script() -> Seq<char> {
    "\n            $path = 'HKLM:\\SYSTEM\\CurrentControlSet\\Control\\Session Manager\\kernel'\n            Set-ItemProperty -Path $path -Name 'GlobalTimerResolutionRequests' -Value 1 -Type DWord -Force\n        "@
}

/// The PowerShell script of one tweak.
pub open spec fn mmcss_games_script() -> Seq<char> {
    "\n            $base = 'HKLM:\\SOFTWARE\\Microsoft\\Windows NT\\CurrentVersion\\Multimedia\\SystemProfile\\Tasks'\n            $games = Join-Path $base 'Games'\n            if (-not (Test-Path $games)) { New-Item -Path $games -Force | Out-Null }\n            Set-ItemProperty -Path $games -Name 'Affinity'              -Value 0  -Type DWord  -Force\n            Set-ItemProperty -Path $games -Name 'Background Only'       -Value 'False' -Type String -Force\n            Set-ItemProperty -Path $games -Name 'Clock Rate'            -Value 10000 -Type DWord -Force\n            Set-ItemProperty -Path $games -Name 'GPU Priority'          -Value 8  -Type DWord  -Force\n            Set-ItemProperty -Path $games -Name 'Priority'              -Value 6  -Type DWord  -Force\n            Set-ItemProperty -Path $games -Name 'Scheduling Category'   -Value 'High'  -Type String -Force\n            Set-ItemProperty -Path $games -Name 'SFIO Priority'         -Value 'High'  -Type String -Force\n        "@
}

/// The PowerShell command that turns memory compression off.
pub open spec fn memory_compression_script() -> Seq<char> {
    "Disable-MMAgent -MemoryCompression"@
}

/// The tweaks, in the order they run.
pub open spec fn tweak_steps_spec() -> Seq<(Tweak, TweakSection, Seq<char>, Seq<Seq<char>>, TweakPolicy)> {
    seq![
        ps_view(Tweak::NagleOff, TweakSection::Network, nagle_script()),
        ps_view(Tweak::NetworkThrottleOff, TweakSection::Network, network_throttle_script()),
        ps_view(Tweak::PeerSeedingOff, TweakSection::Network, peer_seeding_script()),
        ps_view(Tweak::IrqPriority, TweakSection::Irq, irq_priority_script()),
        ps_view(Tweak::TimerResolution, TweakSection::Timer, timer_resolution_script()),
        ps_view(Tweak::MmcssGames, TweakSection::Multimedia, mmcss_games_script()),
        (
            Tweak::LastAccessOff,
            TweakSection::Filesystem,
            "fsutil"@,
            seq!["behavior"@, "set"@, "disablelastaccess"@, "1"@],
            TweakPolicy::ConfirmOnSuccess,
        ),
        ps_view(Tweak::MemoryCompressionOff, TweakSection::Memory, memory_compression_script()),
    ]
}

/// The warning printed for a script that failed with `stderr`.
pub open spec fn warning_text(stderr: Seq<char>) -> Seq<char> {
    "[warn] PowerShell: "@ + trimmed(stderr)
}

fn nagle_script_text() -> (r: &'static str)
    ensures
        r@ == nagle_script(),
{
    "\n            $path = 'HKLM:\\SYSTEM\\CurrentControlSet\\Services\\Tcpip\\Parameters\\Interfaces'\n            Get-ChildItem $path | ForEach-Object {\n                Set-ItemProperty -Path $_.PSPath -Name 'TcpAckFrequency' -Value 1 -Type DWord -Force -ErrorAction SilentlyContinue\n                Set-ItemProperty -Path $_.PSPath -Name 'TCPNoDelay'      -Value 1 -Type DWord -Force -ErrorAction SilentlyContinue\n                Set-ItemProperty -Path $_.PSPath -Name 'TcpDelAckTicks'  -Value 0 -Type DWord -Force -ErrorAction SilentlyContinue\n            }\n            Set-ItemProperty -Path 'HKLM:\\SYSTEM\\CurrentControlSet\\Services\\Tcpip\\Parameters' `\n                -Name 'TCPNoDelay' -Value 1 -Type DWord -Force\n        "
}

fn network_throttle_script_text() -> (r: &'static str)
    ensures
        r@ == network_throttle_script(),
{
    "\n            $path = 'HKLM:\\SOFTWARE\\Microsoft\\Windows NT\\CurrentVersion\\Multimedia\\SystemProfile'\n            Set-ItemProperty -Path $path -Name 'NetworkThrottlingIndex' -Value 0xFFFFFFFF -Type DWord -Force\n            Set-ItemProperty -Path $path -Name 'SystemResponsiveness'   -Value 0          -Type DWord -Force\n        "
}

fn peer_seeding_script_text() -> (r: &'static str)
    ensures
        r@ == peer_seeding_script(),
{
    "\n            $path = 'HKLM:\\SOFTWARE\\Policies\\Microsoft\\Windows\\DeliveryOptimization'\n            if (-not (Test-Path $path)) { New-Item -Path $path -Force | Out-Null }\n            Set-ItemProperty -Path $path -Name 'DODownloadMode' -Value 0 -Type DWord -Force\n        "
}

fn irq_priority_script_text() -> (r: &'static str)
    ensures
        r@ == irq_priority_script(),
{
    "\n            $path = 'HKLM:\\SYSTEM\\CurrentControlSet\\Control\\PriorityControl'\n            Set-ItemProperty -Path $path -Name 'IRQ8Priority'          -Value 1  -Type DWord -Force\n            Set-ItemProperty -Path $path -Name 'Win32PrioritySeparation'-Value 38 -Type DWord -Force\n        "
}

fn timer_resolution_script_text() -> (r: &'static str)
    ensures
        r@ == timer_resolution_script(),
{
    "\n            $path = 'HKLM:\\SYSTEM\\CurrentControlSet\\Control\\Session Manager\\kernel'\n            Set-ItemProperty -Path $path -Name 'GlobalTimerResolutionRequests' -Value 1 -Type DWord -Force\n        "
}

fn mmcss_games_script_text() -> (r: &'static str)
    ensures
        r@ == mmcss_games_script(),
{
    "\n            $base = 'HKLM:\\SOFTWARE\\Microsoft\\Windows NT\\CurrentVersion\\Multimedia\\SystemProfile\\Tasks'\n            $games = Join-Path $base 'Games'\n            if (-not (Test-Path $games)) { New-Item -Path $games -Force | Out-Null }\n            Set-ItemProperty -Path $games -Name 'Affinity'              -Value 0  -Type DWord  -Force\n            Set-ItemProperty -Path $games -Name 'Background Only'       -Value 'False' -Type String -Force\n            Set-ItemProperty -Path $games -Name 'Clock Rate'            -Value 10000 -Type DWord -Force\n            Set-ItemProperty -Path $games -Name 'GPU Priority'          -Value 8  -Type DWord  -Force\n            Set-ItemProperty -Path $games -Name 'Priority'              -Value 6  -Type DWord  -Force\n            Set-ItemProperty -Path $games -Name 'Scheduling Category'   -Value 'High'  -Type String -Force\n            Set-ItemProperty -Path $games -Name 'SFIO Priority'         -Value 'High'  -Type String -Force\n        "
}

fn ps_step(tweak: Tweak, section: TweakSection, script: &str) -> (s: TweakStep)
    ensures
        tweak_view(s) == ps_view(tweak, section, script@),
{
    let args = vec![
        String::from_str("-NoProfile"),
        String::from_str("-ExecutionPolicy"),
        String::from_str("Bypass"),
        String::from_str("-Command"),
        String::from_str(script),
    ];
    let s = TweakStep {
        tweak,
        section,
        program: String::from_str("powershell"),
        args,
        policy: TweakPolicy::WarnOnFailure,
    };
    assert(views_of(s.args@) =~= seq!["-NoProfile"@, "-ExecutionPolicy"@, "Bypass"@, "-Command"@, script@]);
    s
}

fn last_access_step() -> (s: TweakStep)
    ensures
        tweak_view(s) == tweak_steps_spec()[6],
{
    let args = vec![
        String::from_str("behavior"),
        String::from_str("set"),
        String::from_str("disablelastaccess"),
        String::from_str("1"),
    ];
    let s = TweakStep {
        tweak: Tweak::LastAccessOff,
        section: TweakSection::Filesystem,
        program: String::from_str("fsutil"),
        args,
        policy: TweakPolicy::ConfirmOnSuccess,
    };
    assert(views_of(s.args@) =~= seq!["behavior"@, "set"@, "disablelastaccess"@, "1"@]);
    s
}

/// The module that applies the low-latency tweaks.
pub struct TweaksModule;

impl TweaksModule {
    /// Every tweak, in order.
    pub fn steps() -> (r: Vec<TweakStep>)
        ensures
            tweak_views(r@) == tweak_steps_spec(),
    {
        let mut r: Vec<TweakStep> = Vec::new();
        r.push(ps_step(Tweak::NagleOff, TweakSection::Network, nagle_script_text()));
        r.push(ps_step(Tweak::NetworkThrottleOff, TweakSection::Network, network_throttle_script_text()));
        r.push(ps_step(Tweak::PeerSeedingOff, TweakSection::Network, peer_seeding_script_text()));
        r.push(ps_step(Tweak::IrqPriority, TweakSection::Irq, irq_priority_script_text()));
        r.push(ps_step(Tweak::TimerResolution, TweakSection::Timer, timer_resolution_script_text()));
        r.push(ps_step(Tweak::MmcssGames, TweakSection::Multimedia, mmcss_games_script_text()));
        r.push(last_access_step());
        r.push(ps_step(Tweak::MemoryCompressionOff, TweakSection::Memory, "Disable-MMAgent -MemoryCompression"));
        assert(tweak_views(r@) =~= tweak_steps_spec());
        r
    }

    /// The tweaks `apply` runs: none in a dry run, every tweak otherwise.
    pub fn plan(dry_run: bool) -> (r: Vec<TweakStep>)
        ensures
            r@.len() == 0 <==> dry_run,
            !dry_run ==> tweak_views(r@) == tweak_steps_spec(),
    {
        if dry_run {
            Vec::new()
        } else {
            let r = Self::steps();
            assert(tweak_views(r@).len() == r@.len());
            r
        }
    }

    /// What the run does after a tweak with `policy` ended with `outcome`,
    /// the command having written `stderr`. Only a command that cannot start
    /// stops the run.
    pub fn after_tweak(policy: TweakPolicy, outcome: StepOutcome, stderr: &str) -> (a: TweakAction)
        ensures
            a is Abort <==> outcome == StepOutcome::NotStarted,
            a is Quiet <==> policy == TweakPolicy::ConfirmOnSuccess && outcome == StepOutcome::Failed,
            a is WarnThenConfirm <==> policy == TweakPolicy::WarnOnFailure && outcome
                == StepOutcome::Failed && trimmed(stderr@).len() > 0,
            a matches TweakAction::WarnThenConfirm(w) ==> w@ == warning_text(stderr@),
    {
        match outcome {
            StepOutcome::NotStarted => TweakAction::Abort,
            StepOutcome::Succeeded => TweakAction::Confirm,
            StepOutcome::Failed => match policy {
                TweakPolicy::ConfirmOnSuccess => TweakAction::Quiet,
                TweakPolicy::WarnOnFailure => {
                    let err = trim(stderr);
                    if err.unicode_len() == 0 {
                        TweakAction::Confirm
                    } else {
                        let mut w = String::from_str("[warn] PowerShell: ");
                        w.append(err);
                        TweakAction::WarnThenConfirm(w)
                    }
                },
            },
        }
    }
}

/// The warning of a failed script is the PowerShell prefix followed by what the
/// script wrote on its error stream, with surrounding white space removed.
pub proof fn law_warning_text(stderr: Seq<char>)
    ensures
        warning_text(stderr) == "[warn] PowerShell: "@ + trimmed(stderr),
        warning_text(stderr).len() == "[warn] PowerShell: "@.len() + trimmed(stderr).len(),
{
}

/// Only the `fsutil` tweak is confirmed on success alone; every other tweak is a
/// PowerShell script whose failure is reported as a warning.
pub proof fn law_tweak_policies()
    ensures
        forall|i: int|
            0 <= i < tweak_steps_spec().len() ==> ((#[trigger] tweak_steps_spec()[i]).4
                == TweakPolicy::ConfirmOnSuccess <==> tweak_steps_spec()[i].2 == "fsutil"@),
        forall|i: int|
            0 <= i < tweak_steps_spec().len() && (#[trigger] tweak_steps_spec()[i]).4 == TweakPolicy::WarnOnFailure
                ==> tweak_steps_spec()[i].2 == "powershell"@,
{
    reveal_strlit("fsutil");
    reveal_strlit("powershell");
    assert("fsutil"@[0] != "powershell"@[0]);
}

} // verus!
