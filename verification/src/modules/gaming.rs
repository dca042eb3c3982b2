//! The gaming module: the registry values it manages and the PowerShell commands
//! that audit, record and set them.

use vstd::prelude::*;
use crate::modules::common::{dry_flag, dry_flag_text, joined, join_texts, json_capture_command, json_capture_text};
use crate::text::views_of;

verus! {

/// The registry values (key path, value name) the gaming module changes.
pub open spec fn gaming_registry_spec() -> Seq<(Seq<char>, Seq<char>)> {
    seq![
        ("HKCU:\\Software\\Microsoft\\GameBar"@, "AllowAutoGameMode"@),
        ("HKCU:\\Software\\Microsoft\\GameBar"@, "AutoGameModeEnabled"@),
        ("HKCU:\\Software\\Microsoft\\GameBar"@, "ShowStartupPanel"@),
        ("HKCU:\\Software\\Microsoft\\Windows\\CurrentVersion\\GameDVR"@, "AppCaptureEnabled"@),
        ("HKCU:\\System\\GameConfigStore"@, "GameDVR_Enabled"@),
    ]
}

/// The views of (path, name) pairs.
pub open spec fn pair_views(v: Seq<(String, String)>) -> Seq<(Seq<char>, Seq<char>)> {
    v.map_values(|x: (String, String)| (x.0@, x.1@))
}

/// The registry values the gaming module changes.
pub fn gaming_registry() -> (r: Vec<(String, String)>)
    ensures
        pair_views(r@) == gaming_registry_spec(),
{
    let r = vec![
        (String::from_str("HKCU:\\Software\\Microsoft\\GameBar"), String::from_str("AllowAutoGameMode")),
        (String::from_str("HKCU:\\Software\\Microsoft\\GameBar"), String::from_str("AutoGameModeEnabled")),
        (String::from_str("HKCU:\\Software\\Microsoft\\GameBar"), String::from_str("ShowStartupPanel")),
        (
            String::from_str("HKCU:\\Software\\Microsoft\\Windows\\CurrentVersion\\GameDVR"),
            String::from_str("AppCaptureEnabled"),
        ),
        (String::from_str("HKCU:\\System\\GameConfigStore"), String::from_str("GameDVR_Enabled")),
    ];
    assert(pair_views(r@) =~= gaming_registry_spec());
    r
}

/// The audit command, which prints the Game Mode and Game DVR state.
pub open spec fn gaming_audit_text(registry_script: Seq<char>) -> Seq<char> {
    ". '"@ +
    registry_script +
    "'; \
            $gm = Get-RegistryValueSafe -Path 'HKCU:\\Software\\Microsoft\\GameBar' -Name 'AllowAutoGameMode'; \
            $dvr = Get-RegistryValueSafe -Path 'HKCU:\\Software\\Microsoft\\Windows\\CurrentVersion\\GameDVR' -Name 'AppCaptureEnabled'; \
            $gmTxt = if ($gm.Value -eq 1 -or -not $gm.Exists) { 'Active [Recommended]' } else { 'Disabled' }; \
            $dvrTxt = if ($dvr.Value -eq 0) { 'Disabled (Zero CPU/Disk Penalty)' } else { 'Enabled' }; \
            Write-Host '  Windows Game Mode:        ' $gmTxt; \
            Write-Host '  Background DVR Capture:   ' $dvrTxt; \
            Write-Host '  Anti-Cheat Protection:     100%% Intact (EAC, BattlEye, Vanguard preserved)';"@
}

/// The command that prints the gaming audit, with the registry helpers loaded
/// from `registry_script`.
pub fn gaming_audit_command(registry_script: &str) -> (r: String)
    ensures
        r@ == gaming_audit_text(registry_script@),
{
    let mut r = String::from_str(". '");
    r.append(registry_script);
    r.append("'; \
            $gm = Get-RegistryValueSafe -Path 'HKCU:\\Software\\Microsoft\\GameBar' -Name 'AllowAutoGameMode'; \
            $dvr = Get-RegistryValueSafe -Path 'HKCU:\\Software\\Microsoft\\Windows\\CurrentVersion\\GameDVR' -Name 'AppCaptureEnabled'; \
            $gmTxt = if ($gm.Value -eq 1 -or -not $gm.Exists) { 'Active [Recommended]' } else { 'Disabled' }; \
            $dvrTxt = if ($dvr.Value -eq 0) { 'Disabled (Zero CPU/Disk Penalty)' } else { 'Enabled' }; \
            Write-Host '  Windows Game Mode:        ' $gmTxt; \
            Write-Host '  Background DVR Capture:   ' $dvrTxt; \
            Write-Host '  Anti-Cheat Protection:     100%% Intact (EAC, BattlEye, Vanguard preserved)';");
    r
}

/// The registry values (key path, value name, DWORD data) the gaming module sets.
pub open spec fn gaming_settings_spec() -> Seq<(Seq<char>, Seq<char>, Seq<char>)> {
    seq![
        ("HKCU:\\Software\\Microsoft\\GameBar"@, "AllowAutoGameMode"@, "1"@),
        ("HKCU:\\Software\\Microsoft\\GameBar"@, "AutoGameModeEnabled"@, "1"@),
        ("HKCU:\\Software\\Microsoft\\GameBar"@, "ShowStartupPanel"@, "0"@),
        ("HKCU:\\Software\\Microsoft\\Windows\\CurrentVersion\\GameDVR"@, "AppCaptureEnabled"@, "0"@),
        ("HKCU:\\System\\GameConfigStore"@, "GameDVR_Enabled"@, "0"@),
    ]
}

/// The views of (path, name, data) triples.
pub open spec fn triple_views(v: Seq<(String, String, String)>) -> Seq<(Seq<char>, Seq<char>, Seq<char>)> {
    v.map_values(|x: (String, String, String)| (x.0@, x.1@, x.2@))
}

/// The registry values the gaming module sets, with their data.
pub fn gaming_settings() -> (r: Vec<(String, String, String)>)
    ensures
        triple_views(r@) == gaming_settings_spec(),
{
    let r = vec![
        (
            String::from_str("HKCU:\\Software\\Microsoft\\GameBar"),
            String::from_str("AllowAutoGameMode"),
            String::from_str("1"),
        ),
        (
            String::from_str("HKCU:\\Software\\Microsoft\\GameBar"),
            String::from_str("AutoGameModeEnabled"),
            String::from_str("1"),
        ),
        (
            String::from_str("HKCU:\\Software\\Microsoft\\GameBar"),
            String::from_str("ShowStartupPanel"),
            String::from_str("0"),
        ),
        (
            String::from_str("HKCU:\\Software\\Microsoft\\Windows\\CurrentVersion\\GameDVR"),
            String::from_str("AppCaptureEnabled"),
            String::from_str("0"),
        ),
        (
            String::from_str("HKCU:\\System\\GameConfigStore"),
            String::from_str("GameDVR_Enabled"),
            String::from_str("0"),
        ),
    ];
    assert(triple_views(r@) =~= gaming_settings_spec());
    r
}

/// The call that sets one DWORD registry value, carrying `flag`.
pub open spec fn set_dword_text(path: Seq<char>, name: Seq<char>, data: Seq<char>, flag: Seq<char>) -> Seq<char> {
    "Set-RegistryValueSafe -Path '"@ + path + "' -Name '"@ + name + "' -Value "@ + data
        + " -PropertyType 'DWord' "@ + flag
}

/// The calls that set `settings`, each carrying `flag`.
pub open spec fn set_dword_calls(settings: Seq<(Seq<char>, Seq<char>, Seq<char>)>, flag: Seq<char>) -> Seq<Seq<char>> {
    settings.map_values(|t: (Seq<char>, Seq<char>, Seq<char>)| set_dword_text(t.0, t.1, t.2, flag))
}

/// The command that sets the gaming values; every change carries `flag`.
pub open spec fn gaming_apply_text(registry_script: Seq<char>, flag: Seq<char>) -> Seq<char> {
    ". '"@ + registry_script + "'; "@ + joined(set_dword_calls(gaming_settings_spec(), flag), "; "@)
        + ";"@
}

/// The call that sets one DWORD value.
pub fn set_dword_command(path: &str, name: &str, data: &str, flag: &str) -> (r: String)
    ensures
        r@ == set_dword_text(path@, name@, data@, flag@),
{
    let mut r = String::from_str("Set-RegistryValueSafe -Path '");
    r.append(path);
    r.append("' -Name '");
    r.append(name);
    r.append("' -Value ");
    r.append(data);
    r.append(" -PropertyType 'DWord' ");
    r.append(flag);
    r
}

/// The command that applies the gaming values; in a dry run every change is
/// marked `-WhatIf`.
pub fn gaming_apply_command(registry_script: &str, dry_run: bool) -> (r: String)
    ensures
        r@ == gaming_apply_text(registry_script@, dry_flag_text(dry_run)),
{
    let flag = dry_flag(dry_run);
    let settings = gaming_settings();
    let ghost calls = set_dword_calls(gaming_settings_spec(), flag@);
    let mut parts: Vec<String> = Vec::new();
    let n = settings.len();
    for i in 0..n
        invariant
            n == settings@.len(),
            triple_views(settings@) == gaming_settings_spec(),
            calls == set_dword_calls(gaming_settings_spec(), flag@),
            views_of(parts@) == calls.take(i as int),
    {
        let c = set_dword_command(settings[i].0.as_str(), settings[i].1.as_str(), settings[i].2.as_str(), flag);
        let ghost before = parts@;
        parts.push(c);
        assert(triple_views(settings@)[i as int] == (settings@[i as int].0@, settings@[i as int].1@, settings@[i as int].2@));
        assert(calls[i as int] == c@);
        assert(views_of(parts@) =~= views_of(before).push(c@));
        assert(views_of(parts@) =~= calls.take(i + 1));
    }
    assert(calls.take(n as int) =~= calls);
    let body = join_texts(&parts, "; ");
    let mut r = String::from_str(". '");
    r.append(registry_script);
    r.append("'; ");
    r.append(body.as_str());
    r.append(";");
    r
}

/// Every registry value the gaming command sets is one whose previous state the
/// capture command records first, and no other is recorded: the two lists name the
/// same values in the same order.
pub proof fn law_gaming_records_what_it_sets()
    ensures
        gaming_registry_spec().len() == gaming_settings_spec().len(),
        forall|i: int|
            0 <= i < gaming_settings_spec().len() ==> #[trigger] gaming_registry_spec()[i] == (
                gaming_settings_spec()[i].0,
                gaming_settings_spec()[i].1,
            ),
{
}

/// The query that reads one registry value with its key path and name.
pub open spec fn registry_query_text(path: Seq<char>, name: Seq<char>) -> Seq<char> {
    "[PSCustomObject]@{ Path='"@ +
    path +
    "'; Name='"@ +
    name +
    "'; Data=(Get-RegistryValueSafe -Path '"@ +
    path +
    "' -Name '"@ +
    name +
    "') }"@
}

/// The query for one registry value.
pub fn registry_query(path: &str, name: &str) -> (r: String)
    ensures
        r@ == registry_query_text(path@, name@),
{
    let mut r = String::from_str("[PSCustomObject]@{ Path='");
    r.append(path);
    r.append("'; Name='");
    r.append(name);
    r.append("'; Data=(Get-RegistryValueSafe -Path '");
    r.append(path);
    r.append("' -Name '");
    r.append(name);
    r.append("') }");
    r
}

/// The queries of a list of registry values.
pub open spec fn registry_queries(keys: Seq<(Seq<char>, Seq<char>)>) -> Seq<Seq<char>> {
    keys.map_values(|k: (Seq<char>, Seq<char>)| registry_query_text(k.0, k.1))
}

/// The command that records the current state of the registry values `keys` as
/// one JSON list.
pub fn registry_capture_command(registry_script: &str, keys: &Vec<(String, String)>) -> (r: String)
    ensures
        r@ == json_capture_text(registry_script@, joined(registry_queries(pair_views(keys@)), "; "@)),
{
    let mut parts: Vec<String> = Vec::new();
    let n = keys.len();
    for i in 0..n
        invariant
            n == keys@.len(),
            views_of(parts@) == registry_queries(pair_views(keys@)).take(i as int),
    {
        let q = registry_query(keys[i].0.as_str(), keys[i].1.as_str());
        let ghost before = parts@;
        parts.push(q);
        assert(pair_views(keys@)[i as int] == (keys@[i as int].0@, keys@[i as int].1@));
        assert(registry_queries(pair_views(keys@))[i as int] == q@);
        assert(views_of(parts@) =~= views_of(before).push(q@));
        assert(views_of(parts@) =~= registry_queries(pair_views(keys@)).take(i + 1));
    }
    assert(registry_queries(pair_views(keys@)).take(n as int) =~= registry_queries(pair_views(keys@)));
    let queries = join_texts(&parts, "; ");
    json_capture_command(registry_script, queries.as_str())
}

/// The command that records the previous state of every registry value the
/// gaming command sets.
pub fn gaming_capture_command(registry_script: &str) -> (r: String)
    ensures
        r@ == json_capture_text(
            registry_script@,
            joined(registry_queries(gaming_registry_spec()), "; "@),
        ),
{
    let keys = gaming_registry();
    registry_capture_command(registry_script, &keys)
}

} // verus!
