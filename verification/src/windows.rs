//! What the library reads of the running Windows installation.

use vstd::prelude::*;
use crate::json::{JsonNode, JsonValue, field_of, text_of, text_field, parsed_json, parse_json};
use crate::text::{contains, contains_text, lowercase, to_lowercase, trim, trimmed, text_eq, parse_unsigned, parsed_unsigned};

verus! {

/// The operating system as the library describes it.
#[derive(Debug)]
pub struct WindowsInfo {
    pub caption: String,
    pub version: String,
    pub build_number: u32,
    pub is_win11: bool,
    pub is_admin: bool,
    pub edition: String,
}

/// The build assumed when the system does not report one that parses.
pub const DEFAULT_BUILD: u32 = 22631;

/// The first build of Windows 11.
pub const FIRST_WINDOWS_11_BUILD: u32 = 22000;

/// The edition named in a caption: Pro, Enterprise or Home, in that order of
/// precedence, ignoring case; Pro when the caption names none of them.
pub open spec fn edition_of(caption: Seq<char>) -> Seq<char> {
    if contains_text(lowercase(caption), "pro"@) {
        "Pro"@
    } else if contains_text(lowercase(caption), "enterprise"@) {
        "Enterprise"@
    } else if contains_text(lowercase(caption), "home"@) {
        "Home"@
    } else {
        "Pro"@
    }
}

/// The build number reported as `BuildNumber` text, or the default when it is
/// missing or does not parse as a `u32`.
pub open spec fn build_of(v: Option<JsonValue>) -> nat {
    match v {
        Some(doc) => match text_of(field_of(doc, "BuildNumber"@)) {
            Some(t) => match parsed_unsigned(t, u32::MAX as nat) {
                Some(b) => b,
                None => DEFAULT_BUILD as nat,
            },
            None => DEFAULT_BUILD as nat,
        },
        None => DEFAULT_BUILD as nat,
    }
}

/// A text member of the parsed record, or `default` when the record did not parse
/// or the member is no text.
pub open spec fn member_or(v: Option<JsonValue>, key: Seq<char>, default: Seq<char>) -> Seq<char> {
    match v {
        Some(doc) => match text_of(field_of(doc, key)) {
            Some(t) => t,
            None => default,
        },
        None => default,
    }
}

/// `w` is what the operating-system record `v` describes, for a user who is an
/// administrator when `is_admin`.
pub open spec fn windows_read_from(w: WindowsInfo, v: Option<JsonValue>, is_admin: bool) -> bool {
    &&& w.caption@ == member_or(v, "Caption"@, "Windows 11"@)
    &&& w.version@ == member_or(v, "Version"@, "10.0"@)
    &&& w.build_number as nat == build_of(v)
    &&& w.is_win11 == (w.build_number >= FIRST_WINDOWS_11_BUILD)
    &&& w.is_admin == is_admin
    &&& w.edition@ == edition_of(w.caption@)
}

/// The edition named in `caption`.
pub fn edition_from_caption(caption: &str) -> (r: String)
    ensures
        r@ == edition_of(caption@),
{
    let lower = to_lowercase(caption);
    if contains(lower.as_str(), "pro") {
        String::from_str("Pro")
    } else if contains(lower.as_str(), "enterprise") {
        String::from_str("Enterprise")
    } else if contains(lower.as_str(), "home") {
        String::from_str("Home")
    } else {
        String::from_str("Pro")
    }
}

impl WindowsInfo {
    /// The description read from a parsed `Win32_OperatingSystem` record.
    pub fn from_json(doc: Option<JsonNode>, is_admin: bool) -> (r: WindowsInfo)
        ensures
            windows_read_from(r, match doc {
                Some(n) => Some(n.value()),
                None => None,
            }, is_admin),
    {
        let mut caption = String::from_str("Windows 11");
        let mut version = String::from_str("10.0");
        let mut build_number: u32 = DEFAULT_BUILD;
        if let Some(val) = &doc {
            if let Some(c) = text_field(val, "Caption") {
                caption = c;
            }
            if let Some(v) = text_field(val, "Version") {
                version = v;
            }
            if let Some(b) = text_field(val, "BuildNumber") {
                build_number = match parse_unsigned(b.as_str(), 0xFFFF_FFFF) {
                    Some(n) => n as u32,
                    None => DEFAULT_BUILD,
                };
            }
        }
        let edition = edition_from_caption(caption.as_str());
        let is_win11 = build_number >= FIRST_WINDOWS_11_BUILD;
        WindowsInfo { caption, version, build_number, is_win11, is_admin, edition }
    }

    /// The description read from the output of the operating-system query.
    pub fn from_output(stdout: &str, is_admin: bool) -> (r: WindowsInfo)
        ensures
            windows_read_from(r, parsed_json(stdout@), is_admin),
    {
        WindowsInfo::from_json(parse_json(stdout), is_admin)
    }
}

/// Whether the output of the role query says the user is an administrator: it
/// reads `true`, ignoring case and surrounding white space.  No output (the query
/// could not run) means no.
pub fn admin_from_output(stdout: Option<&str>) -> (r: bool)
    ensures
        r == match stdout {
            Some(s) => lowercase(trimmed(s@)) == "true"@,
            None => false,
        },
{
    match stdout {
        Some(s) => {
            let lower = to_lowercase(trim(s));
            text_eq(lower.as_str(), "true")
        },
        None => false,
    }
}

/// The PowerShell command that starts `exe` again with administrator rights.
pub fn elevation_command(exe: &str) -> (r: String)
    ensures
        r@ == "Start-Process -FilePath '"@ + exe@ + "' -Verb RunAs"@,
{
    let mut r = String::from_str("Start-Process -FilePath '");
    r.append(exe);
    r.append("' -Verb RunAs");
    r
}

/// The system is read from its record: the `Caption` and `Version` texts (with
/// defaults when the record did not parse or lacks them), Windows 11 exactly
/// from build 22000 on, the given privileges, and an edition that is Pro,
/// Enterprise or Home as the caption (ignoring case) names it, Pro first and
/// by default.
pub proof fn law_windows_fields(w: WindowsInfo, v: Option<JsonValue>, is_admin: bool)
    requires
        windows_read_from(w, v, is_admin),
    ensures
        v matches Some(doc) ==> (text_of(field_of(doc, "Caption"@)) matches Some(t) ==> w.caption@ == t),
        v is None ==> w.caption@ == "Windows 11"@ && w.version@ == "10.0"@ && w.build_number
            == DEFAULT_BUILD,
        w.is_win11 <==> w.build_number >= 22000,
        w.is_admin == is_admin,
        contains_text(lowercase(w.caption@), "pro"@) ==> w.edition@ == "Pro"@,
        !contains_text(lowercase(w.caption@), "pro"@) && contains_text(lowercase(w.caption@), "enterprise"@)
            ==> w.edition@ == "Enterprise"@,
        !contains_text(lowercase(w.caption@), "pro"@) && !contains_text(
            lowercase(w.caption@),
            "enterprise"@,
        ) && contains_text(lowercase(w.caption@), "home"@) ==> w.edition@ == "Home"@,
        !contains_text(lowercase(w.caption@), "pro"@) && !contains_text(
            lowercase(w.caption@),
            "enterprise"@,
        ) && !contains_text(lowercase(w.caption@), "home"@) ==> w.edition@ == "Pro"@,
{
}

/// The build number is the record's `BuildNumber` text read as a `u32`, and
/// the default build when the record did not parse, has no such text, or the
/// text is no such number.
pub proof fn law_build_number(v: Option<JsonValue>)
    ensures
        (v matches Some(doc) && (text_of(field_of(doc, "BuildNumber"@)) matches Some(t)
            && parsed_unsigned(t, u32::MAX as nat) matches Some(b))) ==> build_of(v) == parsed_unsigned(
            text_of(field_of(v->0, "BuildNumber"@))->0,
            u32::MAX as nat,
        )->0,
        v is None ==> build_of(v) == DEFAULT_BUILD,
        (v matches Some(doc) && text_of(field_of(doc, "BuildNumber"@)) is None) ==> build_of(v) == DEFAULT_BUILD,
        (v matches Some(doc) && (text_of(field_of(doc, "BuildNumber"@)) matches Some(t) && parsed_unsigned(
            t,
            u32::MAX as nat,
        ) is None)) ==> build_of(v) == DEFAULT_BUILD,
        build_of(v) <= u32::MAX,
{
}

} // verus!
