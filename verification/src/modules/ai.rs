//! The AI workstation doctor and optimiser: the tools it looks for, the driver
//! health scan and how its report is read, and the changes it applies.

use vstd::prelude::*;
use crate::i18n::LanguageSetting;
use crate::modules::common::{
    ApplyItem, CommandCheck, ModuleCommand, ProbeKind, Reading, StepOutcome, Tool, ToolProbe,
    captured_by, changed_settings, command_views, flag_probe, flag_probe_view,
    graphics_drivers_key, probe_views, ps_command, ps_command_view, query_probe, query_probe_view,
};
use crate::modules::common::joined;
use crate::modules::gaming::pair_views;
use crate::modules::privacy::{quoted_list, quoted_names};
use crate::text::{
    joined_by, law_split_n_rejoins, contains, contains_text, lines_of, split_at_most, split_lines, split_n, starts_with,
    starts_with_text, trim, trimmed, text_eq, views_of,
};

verus! {

/// A device whose driver reports a problem.
#[derive(Debug)]
pub struct DriverConflict {
    pub device: String,
    pub code: String,
    pub meaning: String,
}

/// The mathematical content of a conflict.
pub struct ConflictRecord {
    pub device: Seq<char>,
    pub code: Seq<char>,
    pub meaning: Seq<char>,
}

impl DriverConflict {
    pub open spec fn record(self) -> ConflictRecord {
        ConflictRecord { device: self.device@, code: self.code@, meaning: self.meaning@ }
    }
}

/// The conflict a (trimmed) line of the scan reports: `ERROR|device|code|meaning`,
/// where the meaning is everything after the third `|`.
pub open spec fn conflict_of_line(t: Seq<char>) -> Option<ConflictRecord> {
    if starts_with_text(t, "ERROR|"@) {
        let parts = split_n(t, '|', 4);
        if parts.len() == 4 {
            Some(ConflictRecord { device: parts[1], code: parts[2], meaning: parts[3] })
        } else {
            None
        }
    } else {
        None
    }
}

/// The conflicts the scan lines report, in order, up to a line that reads `CLEAN`.
pub open spec fn conflicts_in(lines: Seq<Seq<char>>) -> Seq<ConflictRecord>
    decreases lines.len(),
{
    if lines.len() == 0 {
        seq![]
    } else {
        let t = trimmed(lines[0]);
        if t == "CLEAN"@ {
            seq![]
        } else {
            let rest = conflicts_in(lines.drop_first());
            match conflict_of_line(t) {
                Some(c) => seq![c] + rest,
                None => rest,
            }
        }
    }
}

/// The records of a sequence of conflicts.
pub open spec fn conflict_views(cs: Seq<DriverConflict>) -> Seq<ConflictRecord> {
    cs.map_values(|c: DriverConflict| c.record())
}

/// The conflict reported by one (trimmed) line of the scan, if any.
pub fn conflict_from_line(t: &str) -> (r: Option<DriverConflict>)
    ensures
        match r {
            Some(c) => conflict_of_line(t@) == Some(c.record()),
            None => conflict_of_line(t@) is None,
        },
{
    if !starts_with(t, "ERROR|") {
        return None;
    }
    let mut parts = split_at_most(t, '|', 4);
    if parts.len() != 4 {
        return None;
    }
    let ghost v = views_of(parts@);
    assert(v[1] == parts@[1]@ && v[2] == parts@[2]@ && v[3] == parts@[3]@);
    let meaning = parts.pop().unwrap();
    let code = parts.pop().unwrap();
    let device = parts.pop().unwrap();
    Some(DriverConflict { device, code, meaning })
}

/// The driver conflicts printed by the device scan.
pub fn parse_driver_report(output: &str) -> (r: Vec<DriverConflict>)
    ensures
        conflict_views(r@) == conflicts_in(lines_of(output@)),
{
    let lines = split_lines(output);
    let ghost ls = views_of(lines@);
    let n = lines.len();
    let mut found: Vec<DriverConflict> = Vec::new();
    let mut i: usize = 0;
    assert(ls.skip(0) =~= ls);
    assert(conflict_views(found@) + conflicts_in(ls) =~= conflicts_in(ls));
    while i < n
        invariant
            n == lines@.len(),
            ls == views_of(lines@),
            ls == lines_of(output@),
            i <= n,
            conflicts_in(ls) == conflict_views(found@) + conflicts_in(ls.skip(i as int)),
        decreases n - i,
    {
        let ghost rest = ls.skip(i as int);
        assert(rest[0] == lines@[i as int]@);
        assert(rest.drop_first() =~= ls.skip(i + 1));
        let t = trim(lines[i].as_str());
        if text_eq(t, "CLEAN") {
            assert(conflict_views(found@) + conflicts_in(rest) =~= conflict_views(found@));
            return found;
        }
        let ghost before = found@;
        if let Some(c) = conflict_from_line(t) {
            found.push(c);
            assert(conflict_views(found@) =~= conflict_views(before).push(c.record()));
            assert(conflict_views(found@) + conflicts_in(ls.skip(i + 1)) =~= conflict_views(before)
                + (seq![c.record()] + conflicts_in(ls.skip(i + 1))));
        }
        i = i + 1;
    }
    assert(ls.skip(n as int) =~= Seq::<Seq<char>>::empty());
    assert(conflict_views(found@) + conflicts_in(ls.skip(n as int)) =~= conflict_views(found@));
    found
}

/// The advice printed under a conflict, by the first of the codes 43, 10, 28, 12, 52
/// that its code text mentions; empty when it mentions none.
pub open spec fn advice_for(code: Seq<char>, spanish: bool) -> Seq<char> {
    if contains_text(code, "43"@) {
        if spanish {
            "           → Código 43: GPU/Dispositivo detenido. Intenta: reinstalación limpia (DDU), revisa conexiones."@
        } else {
            "           → Code 43: GPU/Device stopped. Try: clean driver reinstall (DDU), check connections."@
        }
    } else if contains_text(code, "10"@) {
        if spanish {
            "           → Código 10: El dispositivo no puede iniciar. Actualiza el driver desde el Administrador de Dispositivos."@
        } else {
            "           → Code 10: Device cannot start. Update driver via Device Manager."@
        }
    } else if contains_text(code, "28"@) {
        if spanish {
            "           → Código 28: Sin driver instalado. Instala el driver faltante."@
        } else {
            "           → Code 28: No driver installed. Install missing driver."@
        }
    } else if contains_text(code, "12"@) {
        if spanish {
            "           → Código 12: Conflicto de recursos (IRQ). Prueba otro puerto PCIe o revisa la BIOS."@
        } else {
            "           → Code 12: Resource conflict (IRQ). Try another PCIe slot or check BIOS."@
        }
    } else if contains_text(code, "52"@) {
        if spanish {
            "           → Código 52: Driver bloqueado (sin firma). Requiere un driver con firma WHQL."@
        } else {
            "           → Code 52: Driver blocked (unsigned). Need WHQL-signed driver."@
        }
    } else {
        ""@
    }
}

/// The advice for a conflict code, in the current language.
pub fn driver_advice(code: &str, lang: &LanguageSetting) -> (r: String)
    ensures
        r@ == advice_for(code@, lang.spanish),
{
    let es = lang.spanish;
    if contains(code, "43") {
        if es {
            String::from_str("           → Código 43: GPU/Dispositivo detenido. Intenta: reinstalación limpia (DDU), revisa conexiones.")
        } else {
            String::from_str("           → Code 43: GPU/Device stopped. Try: clean driver reinstall (DDU), check connections.")
        }
    } else if contains(code, "10") {
        if es {
            String::from_str("           → Código 10: El dispositivo no puede iniciar. Actualiza el driver desde el Administrador de Dispositivos.")
        } else {
            String::from_str("           → Code 10: Device cannot start. Update driver via Device Manager.")
        }
    } else if contains(code, "28") {
        if es {
            String::from_str("           → Código 28: Sin driver instalado. Instala el driver faltante.")
        } else {
            String::from_str("           → Code 28: No driver installed. Install missing driver.")
        }
    } else if contains(code, "12") {
        if es {
            String::from_str("           → Código 12: Conflicto de recursos (IRQ). Prueba otro puerto PCIe o revisa la BIOS.")
        } else {
            String::from_str("           → Code 12: Resource conflict (IRQ). Try another PCIe slot or check BIOS.")
        }
    } else if contains(code, "52") {
        if es {
            String::from_str("           → Código 52: Driver bloqueado (sin firma). Requiere un driver con firma WHQL.")
        } else {
            String::from_str("           → Code 52: Driver blocked (unsigned). Need WHQL-signed driver.")
        }
    } else {
        String::from_str("")
    }
}

/// The first line that contains `needle`, if any.
pub open spec fn first_line_containing(lines: Seq<Seq<char>>, needle: Seq<char>) -> Option<Seq<char>>
    decreases lines.len(),
{
    if lines.len() == 0 {
        None
    } else if contains_text(lines[0], needle) {
        Some(lines[0])
    } else {
        first_line_containing(lines.drop_first(), needle)
    }
}

/// The release line of `nvcc --version` (trimmed), or `Installed` when there is none.
pub fn nvcc_release_line(stdout: &str) -> (r: String)
    ensures
        r@ == trimmed(match first_line_containing(lines_of(stdout@), "release"@) {
            Some(l) => l,
            None => "Installed"@,
        }),
{
    let lines = split_lines(stdout);
    let ghost ls = views_of(lines@);
    let n = lines.len();
    let mut i: usize = 0;
    assert(ls.skip(0) =~= ls);
    while i < n
        invariant
            n == lines@.len(),
            ls == views_of(lines@),
            ls == lines_of(stdout@),
            i <= n,
            first_line_containing(ls, "release"@) == first_line_containing(ls.skip(i as int), "release"@),
        decreases n - i,
    {
        let ghost rest = ls.skip(i as int);
        assert(rest[0] == lines@[i as int]@);
        assert(rest.drop_first() =~= ls.skip(i + 1));
        if contains(lines[i].as_str(), "release") {
            return String::from_str(trim(lines[i].as_str()));
        }
        i = i + 1;
    }
    assert(ls.skip(n as int) =~= Seq::<Seq<char>>::empty());
    String::from_str(trim("Installed"))
}

/// Whether a service-disabling script reported that it disabled the service (its
/// output, trimmed, reads `Disabled`; anything else means the service is absent).
pub fn reports_disabled(stdout: &str) -> (r: bool)
    ensures
        r == (trimmed(stdout@) == "Disabled"@),
{
    text_eq(trim(stdout), "Disabled")
}

/// The PowerShell query that names the first NVIDIA adapter.
pub open spec fn gpu_query() -> Seq<char> {
    "(Get-CimInstance Win32_VideoController | Where-Object { $_.Name -like '*NVIDIA*' } | Select-Object -First 1).Name"@
}

fn gpu_query_text() -> (r: &'static str)
    ensures
        r@ == gpu_query(),
{
    "(Get-CimInstance Win32_VideoController | Where-Object { $_.Name -like '*NVIDIA*' } | Select-Object -First 1).Name"
}

/// The probes of the AI workstation diagnostics, in the order they run.
pub open spec fn ai_probes_spec() -> Seq<(Tool, Seq<char>, Seq<Seq<char>>, ProbeKind, Reading)> {
    seq![
        query_probe_view(Tool::NvidiaGpu, gpu_query()),
        flag_probe_view(Tool::CudaToolkit, "nvcc"@, "--version"@, Reading::NvccRelease),
        flag_probe_view(Tool::Wsl, "wsl"@, "--status"@, Reading::Trimmed),
        flag_probe_view(Tool::Docker, "docker"@, "--version"@, Reading::Trimmed),
        flag_probe_view(Tool::Python, "python"@, "--version"@, Reading::Trimmed),
        flag_probe_view(Tool::Git, "git"@, "--version"@, Reading::Trimmed),
        flag_probe_view(Tool::Ollama, "ollama"@, "--version"@, Reading::Trimmed),
    ]
}

/// The probes of the AI workstation diagnostics.
pub fn ai_probes() -> (r: Vec<ToolProbe>)
    ensures
        probe_views(r@) == ai_probes_spec(),
{
    let mut r: Vec<ToolProbe> = Vec::new();
    r.push(query_probe(Tool::NvidiaGpu, gpu_query_text()));
    r.push(flag_probe(Tool::CudaToolkit, "nvcc", "--version", Reading::NvccRelease));
    r.push(flag_probe(Tool::Wsl, "wsl", "--status", Reading::Trimmed));
    r.push(flag_probe(Tool::Docker, "docker", "--version", Reading::Trimmed));
    r.push(flag_probe(Tool::Python, "python", "--version", Reading::Trimmed));
    r.push(flag_probe(Tool::Git, "git", "--version", Reading::Trimmed));
    r.push(flag_probe(Tool::Ollama, "ollama", "--version", Reading::Trimmed));
    assert(probe_views(r@) =~= ai_probes_spec());
    r
}

/// The PowerShell script that lists the devices whose driver reports an error, one `ERROR|name|Code n|meaning` line each, or `CLEAN`.
pub open spec fn driver_scan_script() -> Seq<char> {
    "\n            [Console]::OutputEncoding = [System.Text.Encoding]::UTF8\n            $problems = Get-CimInstance Win32_PnPEntity |\n                Where-Object { $_.ConfigManagerErrorCode -ne 0 } |\n                Select-Object Name, ConfigManagerErrorCode, DeviceID |\n                Sort-Object ConfigManagerErrorCode\n\n            if ($null -eq $problems -or @($problems).Count -eq 0) {\n                Write-Host \"CLEAN\"\n            } else {\n                $problems | ForEach-Object {\n                    $code = $_.ConfigManagerErrorCode\n                    $meaning = switch ($code) {\n                        1  { \"Device not configured correctly\" }\n                        3  { \"Driver cannot load / corrupted\" }\n                        10 { \"Device cannot start (Code 10)\" }\n                        12 { \"IRQ/DMA resource conflict\" }\n                        14 { \"Requires restart to finish installing\" }\n                        18 { \"Reinstall drivers required\" }\n                        22 { \"Device is disabled\" }\n                        28 { \"Drivers not installed (Code 28)\" }\n                        31 { \"Device not working properly\" }\n                        43 { \"Device stopped — Windows reported a problem (Code 43)\" }\n                        45 { \"Device not present (was recently connected)\" }\n                        47 { \"Exceeded max resources — cannot start\" }\n                        52 { \"Driver blocked from starting (unsigned/policy)\" }\n                        default { \"Unknown error code $code\" }\n                    }\n                    Write-Host \"ERROR|$($_.Name)|Code $code|$meaning\"\n                }\n            }\n        "@
}

fn driver_scan_script_text() -> (r: &'static str)
    ensures
        r@ == driver_scan_script(),
{
    "\n            [Console]::OutputEncoding = [System.Text.Encoding]::UTF8\n            $problems = Get-CimInstance Win32_PnPEntity |\n                Where-Object { $_.ConfigManagerErrorCode -ne 0 } |\n                Select-Object Name, ConfigManagerErrorCode, DeviceID |\n                Sort-Object ConfigManagerErrorCode\n\n            if ($null -eq $problems -or @($problems).Count -eq 0) {\n                Write-Host \"CLEAN\"\n            } else {\n                $problems | ForEach-Object {\n                    $code = $_.ConfigManagerErrorCode\n                    $meaning = switch ($code) {\n                        1  { \"Device not configured correctly\" }\n                        3  { \"Driver cannot load / corrupted\" }\n                        10 { \"Device cannot start (Code 10)\" }\n                        12 { \"IRQ/DMA resource conflict\" }\n                        14 { \"Requires restart to finish installing\" }\n                        18 { \"Reinstall drivers required\" }\n                        22 { \"Device is disabled\" }\n                        28 { \"Drivers not installed (Code 28)\" }\n                        31 { \"Device not working properly\" }\n                        43 { \"Device stopped — Windows reported a problem (Code 43)\" }\n                        45 { \"Device not present (was recently connected)\" }\n                        47 { \"Exceeded max resources — cannot start\" }\n                        52 { \"Driver blocked from starting (unsigned/policy)\" }\n                        default { \"Unknown error code $code\" }\n                    }\n                    Write-Host \"ERROR|$($_.Name)|Code $code|$meaning\"\n                }\n            }\n        "
}

/// The PowerShell script that scans the devices for driver errors.
pub fn driver_scan_command() -> (r: String)
    ensures
        r@ == driver_scan_script(),
{
    String::from_str(driver_scan_script_text())
}

/// The script that turns Hardware-Accelerated GPU Scheduling on.
pub open spec fn hags_script() -> Seq<char> {
    "\
            $path = 'HKLM:\\SYSTEM\\CurrentControlSet\\Control\\GraphicsDrivers'; \
            if (-not (Test-Path $path)) { New-Item -Path $path -Force | Out-Null }; \
            Set-ItemProperty -Path $path -Name 'HwSchMode' -Value 2 -Type DWord -Force;"@
}

fn hags_script_text() -> (r: &'static str)
    ensures
        r@ == hags_script(),
{
    "\
            $path = 'HKLM:\\SYSTEM\\CurrentControlSet\\Control\\GraphicsDrivers'; \
            if (-not (Test-Path $path)) { New-Item -Path $path -Force | Out-Null }; \
            Set-ItemProperty -Path $path -Name 'HwSchMode' -Value 2 -Type DWord -Force;"
}

/// The script that extends the GPU timeout to 60 seconds.
pub open spec fn tdr_script() -> Seq<char> {
    "\
            $path = 'HKLM:\\SYSTEM\\CurrentControlSet\\Control\\GraphicsDrivers'; \
            Set-ItemProperty -Path $path -Name 'TdrDelay' -Value 60 -Type DWord -Force; \
            Set-ItemProperty -Path $path -Name 'TdrDdiDelay' -Value 60 -Type DWord -Force;"@
}

fn tdr_script_text() -> (r: &'static str)
    ensures
        r@ == tdr_script(),
{
    "\
            $path = 'HKLM:\\SYSTEM\\CurrentControlSet\\Control\\GraphicsDrivers'; \
            Set-ItemProperty -Path $path -Name 'TdrDelay' -Value 60 -Type DWord -Force; \
            Set-ItemProperty -Path $path -Name 'TdrDdiDelay' -Value 60 -Type DWord -Force;"
}

/// The script that disables the NVIDIA telemetry service when it is there.
pub open spec fn nvidia_telemetry_script() -> Seq<char> {
    "\
            $svc = Get-Service -Name 'NvTelemetryContainer' -ErrorAction SilentlyContinue; \
            if ($svc) { \
                Stop-Service -Name 'NvTelemetryContainer' -Force -ErrorAction SilentlyContinue; \
                Set-Service -Name 'NvTelemetryContainer' -StartupType Disabled -ErrorAction SilentlyContinue; \
                Write-Host 'Disabled'; \
            } else { \
                Write-Host 'NotPresent'; \
            }"@
}

fn nvidia_telemetry_script_text() -> (r: &'static str)
    ensures
        r@ == nvidia_telemetry_script(),
{
    "\
            $svc = Get-Service -Name 'NvTelemetryContainer' -ErrorAction SilentlyContinue; \
            if ($svc) { \
                Stop-Service -Name 'NvTelemetryContainer' -Force -ErrorAction SilentlyContinue; \
                Set-Service -Name 'NvTelemetryContainer' -StartupType Disabled -ErrorAction SilentlyContinue; \
                Write-Host 'Disabled'; \
            } else { \
                Write-Host 'NotPresent'; \
            }"
}

/// The script that enables the Virtual Machine Platform feature WSL2 runs on,
/// when it is not enabled yet.
pub open spec fn vmp_script() -> Seq<char> {
    "$f = Get-WindowsOptionalFeature -Online -FeatureName 'VirtualMachinePlatform' -ErrorAction SilentlyContinue; if ($f -and $f.State -ne 'Enabled') { Enable-WindowsOptionalFeature -Online -FeatureName 'VirtualMachinePlatform' -NoRestart -ErrorAction Stop | Out-Null }"@
}

fn vmp_script_text() -> (r: &'static str)
    ensures
        r@ == vmp_script(),
{
    "$f = Get-WindowsOptionalFeature -Online -FeatureName 'VirtualMachinePlatform' -ErrorAction SilentlyContinue; if ($f -and $f.State -ne 'Enabled') { Enable-WindowsOptionalFeature -Online -FeatureName 'VirtualMachinePlatform' -NoRestart -ErrorAction Stop | Out-Null }"
}

/// The commands of the AI workstation optimisation, in the order they run.
pub open spec fn ai_apply_spec() -> Seq<(ApplyItem, Seq<char>, Seq<Seq<char>>, CommandCheck)> {
    seq![
        ps_command_view(ApplyItem::VirtualMachinePlatform, vmp_script(), CommandCheck::MaySkip),
        ps_command_view(ApplyItem::GpuScheduling, hags_script(), CommandCheck::MustSucceed),
        ps_command_view(ApplyItem::GpuTimeout, tdr_script(), CommandCheck::MustSucceed),
        ps_command_view(ApplyItem::NvidiaTelemetry, nvidia_telemetry_script(), CommandCheck::ReportsDisabled),
    ]
}

/// The commands the AI workstation optimisation runs: none in a dry run, every
/// command otherwise.
pub fn ai_apply_commands(dry_run: bool) -> (r: Vec<ModuleCommand>)
    ensures
        command_views(r@) == ai_apply_plan_spec(dry_run),
{
    let mut r: Vec<ModuleCommand> = Vec::new();
    if dry_run {
        assert(command_views(r@) =~= Seq::empty());
        return r;
    }
    r.push(ps_command(ApplyItem::VirtualMachinePlatform, vmp_script_text(), CommandCheck::MaySkip));
    r.push(ps_command(ApplyItem::GpuScheduling, hags_script_text(), CommandCheck::MustSucceed));
    r.push(ps_command(ApplyItem::GpuTimeout, tdr_script_text(), CommandCheck::MustSucceed));
    r.push(ps_command(ApplyItem::NvidiaTelemetry, nvidia_telemetry_script_text(), CommandCheck::ReportsDisabled));
    assert(command_views(r@) =~= ai_apply_spec());
    r
}

/// The commands the AI optimisation runs: none in a dry run, every command otherwise.
pub open spec fn ai_apply_plan_spec(dry_run: bool) -> Seq<(ApplyItem, Seq<char>, Seq<Seq<char>>, CommandCheck)> {
    if dry_run {
        seq![]
    } else {
        ai_apply_spec()
    }
}

/// The `.wslconfig` written for WSL2: memory, processors, swap and localhost forwarding.
pub open spec fn wsl_config_spec() -> Seq<char> {
    "[wsl2]\nmemory=8GB\nprocessors=4\nswap=4GB\nlocalhostForwarding=true\n"@
}

fn wsl_config_spec_text() -> (r: &'static str)
    ensures
        r@ == wsl_config_spec(),
{
    "[wsl2]\nmemory=8GB\nprocessors=4\nswap=4GB\nlocalhostForwarding=true\n"
}

/// The `.wslconfig` written for WSL2.
pub fn wsl_config() -> (r: String)
    ensures
        r@ == wsl_config_spec(),
{
    String::from_str(wsl_config_spec_text())
}

/// What the optimisation does about `.wslconfig`.
#[derive(Clone, Copy, Debug, PartialEq, Eq, Structural)]
pub enum WslConfigAction {
    /// Write it.
    Create,
    /// Leave the user's own file alone.
    KeepExisting,
    /// WSL is not installed: nothing to configure.
    SkipNoWsl,
    /// A dry run writes no file.
    SkipDryRun,
}

/// What to do about `.wslconfig` in a run (a dry run or not), given how
/// `wsl --status` ended and whether the file exists. An existing file is never
/// overwritten, and a dry run writes none.
pub open spec fn wsl_config_action_spec(dry_run: bool, wsl_status: StepOutcome, config_exists: bool) -> WslConfigAction {
    if dry_run {
        WslConfigAction::SkipDryRun
    } else if wsl_status != StepOutcome::Succeeded {
        WslConfigAction::SkipNoWsl
    } else if config_exists {
        WslConfigAction::KeepExisting
    } else {
        WslConfigAction::Create
    }
}

/// What to do about `.wslconfig`.
pub fn wsl_config_action(dry_run: bool, wsl_status: StepOutcome, config_exists: bool) -> (a: WslConfigAction)
    ensures
        a == wsl_config_action_spec(dry_run, wsl_status, config_exists),
{
    if dry_run {
        return WslConfigAction::SkipDryRun;
    }
    match wsl_status {
        StepOutcome::Succeeded => if config_exists {
            WslConfigAction::KeepExisting
        } else {
            WslConfigAction::Create
        },
        _ => WslConfigAction::SkipNoWsl,
    }
}

/// The registry values the AI optimisation changes, whose previous state is
/// recorded before it runs.
pub open spec fn ai_registry_keys_spec() -> Seq<(Seq<char>, Seq<char>)> {
    seq![
        (graphics_drivers_key(), "HwSchMode"@),
        (graphics_drivers_key(), "TdrDelay"@),
        (graphics_drivers_key(), "TdrDdiDelay"@),
    ]
}

/// The registry values recorded before the AI optimisation.
pub fn ai_registry_keys() -> (r: Vec<(String, String)>)
    ensures
        pair_views(r@) == ai_registry_keys_spec(),
{
    let r = vec![
        (String::from_str("HKLM:\\SYSTEM\\CurrentControlSet\\Control\\GraphicsDrivers"), String::from_str("HwSchMode")),
        (String::from_str("HKLM:\\SYSTEM\\CurrentControlSet\\Control\\GraphicsDrivers"), String::from_str("TdrDelay")),
        (String::from_str("HKLM:\\SYSTEM\\CurrentControlSet\\Control\\GraphicsDrivers"), String::from_str("TdrDdiDelay")),
    ];
    assert(pair_views(r@) =~= ai_registry_keys_spec());
    r
}

/// The services the AI optimisation changes.
pub open spec fn ai_services_spec() -> Seq<Seq<char>> {
    seq!["NvTelemetryContainer"@]
}

/// The services recorded before the AI optimisation.
pub fn ai_services() -> (r: Vec<String>)
    ensures
        views_of(r@) == ai_services_spec(),
{
    let r = vec![String::from_str("NvTelemetryContainer")];
    assert(views_of(r@) =~= ai_services_spec());
    r
}

/// The optional Windows features the AI optimisation changes.
pub open spec fn ai_features_spec() -> Seq<Seq<char>> {
    seq!["VirtualMachinePlatform"@]
}

/// The optional features recorded before the AI optimisation.
pub fn ai_features() -> (r: Vec<String>)
    ensures
        views_of(r@) == ai_features_spec(),
{
    let r = vec![String::from_str("VirtualMachinePlatform")];
    assert(views_of(r@) =~= ai_features_spec());
    r
}

/// The command that records the state of the optional features `features`
/// (`Enabled`, `Disabled`, ..., or `Unknown`) as JSON.
pub open spec fn feature_capture_text(features: Seq<Seq<char>>) -> Seq<char> {
    "@("@ + joined(quoted_names(features), ", "@)
        + ") | ForEach-Object { $f = Get-WindowsOptionalFeature -Online -FeatureName $_ -ErrorAction SilentlyContinue; [PSCustomObject]@{ Name = $_; State = $(if ($f) { [string]$f.State } else { 'Unknown' }) } } | ConvertTo-Json -Compress"@
}

/// The command that records the state of `features`.
pub fn feature_capture_command(features: &Vec<String>) -> (r: String)
    ensures
        r@ == feature_capture_text(views_of(features@)),
{
    let list = quoted_list(features, ", ");
    let mut r = String::from_str("@(");
    r.append(list.as_str());
    r.append(") | ForEach-Object { $f = Get-WindowsOptionalFeature -Online -FeatureName $_ -ErrorAction SilentlyContinue; [PSCustomObject]@{ Name = $_; State = $(if ($f) { [string]$f.State } else { 'Unknown' }) } } | ConvertTo-Json -Compress");
    r
}

/// Every change of the AI optimisation can be rolled back: each piece of state
/// one of its commands modifies is among the registry values, services and
/// optional features whose previous state is recorded before it runs.
pub proof fn law_ai_changes_are_captured()
    ensures
        forall|i: int, j: int|
            0 <= i < ai_apply_spec().len() && 0 <= j < changed_settings(ai_apply_spec()[i].0).len()
                ==> captured_by(
                ai_registry_keys_spec(),
                ai_services_spec(),
                seq![],
                ai_features_spec(),
                #[trigger] changed_settings(ai_apply_spec()[i].0)[j],
            ),
{
    let keys = ai_registry_keys_spec();
    let services = ai_services_spec();
    let features = ai_features_spec();
    let spec = ai_apply_spec();
    assert forall|i: int, j: int|
        0 <= i < spec.len() && 0 <= j < changed_settings(spec[i].0).len() implies captured_by(
            keys,
            services,
            seq![],
            features,
            #[trigger] changed_settings(spec[i].0)[j],
        ) by {
        if i == 0 {
            assert(features[0] == "VirtualMachinePlatform"@);
        } else if i == 1 {
            assert(keys[0] == (graphics_drivers_key(), "HwSchMode"@));
        } else if i == 2 {
            if j == 0 {
                assert(keys[1] == (graphics_drivers_key(), "TdrDelay"@));
            } else {
                assert(keys[2] == (graphics_drivers_key(), "TdrDdiDelay"@));
            }
        } else {
            assert(services[0] == "NvTelemetryContainer"@);
        }
    }
}

/// `.wslconfig` is written exactly in a real run where WSL answered and no such
/// file exists: an existing file is never overwritten, a dry run never writes
/// one, and without WSL nothing is configured.
pub proof fn law_wsl_config_written_only_when_safe(dry_run: bool, wsl_status: StepOutcome, config_exists: bool)
    ensures
        wsl_config_action_spec(dry_run, wsl_status, config_exists) == WslConfigAction::Create <==> (!dry_run
            && wsl_status == StepOutcome::Succeeded && !config_exists),
        config_exists ==> wsl_config_action_spec(dry_run, wsl_status, config_exists) != WslConfigAction::Create,
        !dry_run && wsl_status == StepOutcome::Succeeded && config_exists ==> wsl_config_action_spec(
            dry_run,
            wsl_status,
            config_exists,
        ) == WslConfigAction::KeepExisting,
        !dry_run && wsl_status != StepOutcome::Succeeded ==> wsl_config_action_spec(
            dry_run,
            wsl_status,
            config_exists,
        ) == WslConfigAction::SkipNoWsl,
{
}

/// A driver-scan line is read as a conflict only when it starts with `ERROR|`,
/// and then the line is its first field, the device, the code and the meaning
/// joined with `|`, where the first field, the device and the code hold no `|`
/// (the meaning keeps any further `|`). A line that reads `CLEAN` ends the
/// report.
pub proof fn law_conflict_line_fields(t: Seq<char>, lines: Seq<Seq<char>>)
    ensures
        !starts_with_text(t, "ERROR|"@) ==> conflict_of_line(t) is None,
        conflict_of_line(t) matches Some(r) ==> {
            let p0 = split_n(t, '|', 4)[0];
            &&& starts_with_text(t, "ERROR|"@)
            &&& t == p0.push('|') + r.device.push('|') + r.code.push('|') + r.meaning
            &&& forall|j: int| 0 <= j < p0.len() ==> p0[j] != '|'
            &&& forall|j: int| 0 <= j < r.device.len() ==> r.device[j] != '|'
            &&& forall|j: int| 0 <= j < r.code.len() ==> r.code[j] != '|'
        },
        lines.len() > 0 && trimmed(lines[0]) == "CLEAN"@ ==> conflicts_in(lines) == Seq::<ConflictRecord>::empty(),
{
    if conflict_of_line(t) is Some {
        let parts = split_n(t, '|', 4);
        law_split_n_rejoins(t, '|', 4);
        assert(parts.len() == 4);
        let q1 = parts.drop_first();
        let q2 = q1.drop_first();
        let q3 = q2.drop_first();
        assert(q3 =~= seq![parts[3]]);
        assert(joined_by(q3, '|') == parts[3]);
        assert(q2.len() == 2 && q2[0] == parts[2]);
        assert(joined_by(q2, '|') == parts[2].push('|') + parts[3]);
        assert(q1.len() == 3 && q1[0] == parts[1]);
        assert(joined_by(q1, '|') == parts[1].push('|') + (parts[2].push('|') + parts[3]));
        assert(t == parts[0].push('|') + (parts[1].push('|') + (parts[2].push('|') + parts[3])));
        assert(parts[0].push('|') + (parts[1].push('|') + (parts[2].push('|') + parts[3])) =~= parts[0].push('|')
            + parts[1].push('|') + parts[2].push('|') + parts[3]);
        assert forall|j: int| 0 <= j < parts[0].len() implies parts[0][j] != '|' by {
            assert(parts[0][j] == split_n(t, '|', 4)[0][j]);
        }
        assert forall|j: int| 0 <= j < parts[1].len() implies parts[1][j] != '|' by {
            assert(parts[1][j] == split_n(t, '|', 4)[1][j]);
        }
        assert forall|j: int| 0 <= j < parts[2].len() implies parts[2][j] != '|' by {
            assert(parts[2][j] == split_n(t, '|', 4)[2][j]);
        }
    }
}

/// The release line is the first line that mentions `release`: it does, and no
/// line before it does; there is none exactly when no line mentions it.
pub proof fn law_first_line_containing(lines: Seq<Seq<char>>, needle: Seq<char>)
    ensures
        first_line_containing(lines, needle) matches Some(l) ==> exists|i: int|
            0 <= i < lines.len() && #[trigger] lines[i] == l && contains_text(l, needle) && forall|j: int|
                0 <= j < i ==> !contains_text(lines[j], needle),
        first_line_containing(lines, needle) is None ==> forall|i: int|
            0 <= i < lines.len() ==> !contains_text(#[trigger] lines[i], needle),
    decreases lines.len(),
{
    if lines.len() > 0 {
        law_first_line_containing(lines.drop_first(), needle);
        if !contains_text(lines[0], needle) {
            if first_line_containing(lines, needle) is Some {
                let l = first_line_containing(lines, needle)->0;
                let i = choose|i: int|
                    0 <= i < lines.drop_first().len() && #[trigger] lines.drop_first()[i] == l && contains_text(l, needle)
                        && forall|j: int| 0 <= j < i ==> !contains_text(lines.drop_first()[j], needle);
                assert(lines[i + 1] == lines.drop_first()[i]);
                assert forall|j: int| 0 <= j < i + 1 implies !contains_text(lines[j], needle) by {
                    if j > 0 {
                        assert(lines[j] == lines.drop_first()[j - 1]);
                    }
                }
            } else {
                assert forall|i: int| 0 <= i < lines.len() implies !contains_text(#[trigger] lines[i], needle) by {
                    if i > 0 {
                        assert(lines[i] == lines.drop_first()[i - 1]);
                    }
                }
            }
        } else {
            assert(lines[0] == first_line_containing(lines, needle)->0);
        }
    }
}

} // verus!
