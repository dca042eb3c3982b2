//! The rollback engine's call of the restore script.

use vstd::prelude::*;
use crate::text::views_of;

verus! {

/// The arguments given to `powershell` to run the restore script: from the
/// snapshot at `snapshot`, or, without one, the script's own restoration of the
/// default policies.
pub open spec fn restore_args_spec(snapshot: Option<Seq<char>>) -> Seq<Seq<char>> {
    let base = seq![
        "-NoProfile"@,
        "-ExecutionPolicy"@,
        "Bypass"@,
        "-File"@,
        "Restore-Obsidian.ps1"@,
    ];
    match snapshot {
        Some(p) => base + seq!["-SnapshotPath"@, p],
        None => base,
    }
}

/// The arguments of the restore script's invocation.
pub fn restore_args(snapshot: Option<&str>) -> (r: Vec<String>)
    ensures
        views_of(r@) == restore_args_spec(match snapshot {
            Some(p) => Some(p@),
            None => None,
        }),
{
    let mut r: Vec<String> = Vec::new();
    r.push(String::from_str("-NoProfile"));
    r.push(String::from_str("-ExecutionPolicy"));
    r.push(String::from_str("Bypass"));
    r.push(String::from_str("-File"));
    r.push(String::from_str("Restore-Obsidian.ps1"));
    if let Some(p) = snapshot {
        r.push(String::from_str("-SnapshotPath"));
        r.push(String::from_str(p));
    }
    proof {
        assert(views_of(r@) =~= restore_args_spec(match snapshot {
            Some(p) => Some(p@),
            None => None,
        }));
    }
    r
}

} // verus!
