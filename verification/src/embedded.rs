//! Where the PowerShell scripts the program drives are found, and when the
//! copies it unpacks into the temporary directory are out of date.

use vstd::prelude::*;
use crate::text::{trim, trimmed, text_eq, views_of};

verus! {

/// A file-system path, held as its components in order (the first may be a
/// drive prefix or the root).
#[derive(Debug)]
pub struct FsPath {
    pub parts: Vec<String>,
}

impl FsPath {
    /// The components of the path.
    pub open spec fn components(self) -> Seq<Seq<char>> {
        views_of(self.parts@)
    }

    /// `self` with the relative path `name` appended, as `Path::join` does for a
    /// one-component relative name.
    pub fn join(&self, name: &str) -> (r: FsPath)
        ensures
            r.components() == self.components().push(name@),
    {
        let mut parts = self.parts.clone();
        parts.push(String::from_str(name));
        proof {
            assert(views_of(parts@) =~= self.components().push(name@));
        }
        FsPath { parts }
    }
}

/// The name of the file that records which release unpacked the scripts.
pub open spec fn version_stamp_name() -> Seq<char> {
    ".obsidian_version"@
}

/// The version stamp file inside the unpacked-scripts directory `temp_root`.
pub fn cache_version_file(temp_root: &FsPath) -> (r: FsPath)
    ensures
        r.components() == temp_root.components().push(version_stamp_name()),
{
    temp_root.join(".obsidian_version")
}

/// Whether the unpacked scripts must be written again: when the scripts are not
/// all on disk, when there is no readable stamp, or when the stamp (surrounding
/// white space ignored) names another release.
pub open spec fn cache_stale(stamp: Option<Seq<char>>, version: Seq<char>, scripts_present: bool) -> bool {
    !scripts_present || match stamp {
        Some(v) => trimmed(v) != version,
        None => true,
    }
}

/// Whether the unpacked scripts must be written again, given the stamp's text
/// (if it could be read) and whether the scripts are on disk.
pub fn stamp_is_stale(stamp: Option<&str>, version: &str, scripts_present: bool) -> (r: bool)
    ensures
        r == cache_stale(
            match stamp {
                Some(v) => Some(v@),
                None => None,
            },
            version@,
            scripts_present,
        ),
{
    if !scripts_present {
        return true;
    }
    match stamp {
        Some(v) => !text_eq(trim(v), version),
        None => true,
    }
}

/// Unpacking makes the cache fresh: once the scripts are written and the stamp
/// holds the release's version (a version without surrounding white space),
/// the cache is not stale; and missing scripts are always unpacked again,
/// whatever the stamp says.
pub proof fn law_unpacked_cache_is_fresh(version: Seq<char>, stamp: Option<Seq<char>>)
    requires
        trimmed(version) == version,
    ensures
        !cache_stale(Some(version), version, true),
        cache_stale(stamp, version, false),
{
}

/// Where the scripts are taken from.
#[derive(Clone, Copy, Debug, PartialEq, Eq, Structural)]
pub enum ScriptsRoot {
    /// The working directory holds `powershell/Services.ps1`.
    WorkingDir,
    /// The executable's directory holds `powershell/Services.ps1`.
    ExecutableDir,
    /// The copies unpacked into the temporary directory.
    TempDir,
}

/// The source of the scripts: the working directory first, then the
/// executable's directory, and the unpacked copies otherwise.
pub fn choose_scripts_root(in_working_dir: bool, in_executable_dir: bool) -> (r: ScriptsRoot)
    ensures
        r == (if in_working_dir {
            ScriptsRoot::WorkingDir
        } else if in_executable_dir {
            ScriptsRoot::ExecutableDir
        } else {
            ScriptsRoot::TempDir
        }),
{
    if in_working_dir {
        ScriptsRoot::WorkingDir
    } else if in_executable_dir {
        ScriptsRoot::ExecutableDir
    } else {
        ScriptsRoot::TempDir
    }
}

/// The cache is stale exactly when a script is missing, when there is no
/// stamp, or when the stamp, without its surrounding white space, is not the
/// release's version.
pub proof fn law_cache_staleness(stamp: Option<Seq<char>>, version: Seq<char>, scripts_present: bool)
    ensures
        cache_stale(stamp, version, scripts_present) <==> (!scripts_present || stamp is None || trimmed(
            stamp->0,
        ) != version),
{
}

} // verus!
