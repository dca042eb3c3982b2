//! The post-flight health matrix reported by the PowerShell layer
//! (`Test-ObsidianHealth | ConvertTo-Json`).

use vstd::prelude::*;
use crate::json::{JsonNode, JsonValue, field_of, text_of, text_or, bool_of, text_field_or, bool_field, parsed_json, parse_json, lemma_text_member};

verus! {

/// One line of the health matrix.
#[derive(Debug)]
pub struct ValidationCheck {
    pub component: String,
    pub category: String,
    pub status: String,
    pub passed: bool,
    pub details: String,
}

/// `c` is the check read from the record `v`: missing or non-text members read as
/// the empty text, a missing or non-boolean `Passed` as a failure.
pub open spec fn check_read_from(c: ValidationCheck, v: JsonValue) -> bool {
    &&& c.component@ == text_or(field_of(v, "Component"@), ""@)
    &&& c.category@ == text_or(field_of(v, "Category"@), ""@)
    &&& c.status@ == text_or(field_of(v, "Status"@), ""@)
    &&& c.passed == (bool_of(field_of(v, "Passed"@)) == Some(true))
    &&& c.details@ == text_or(field_of(v, "Details"@), ""@)
}

/// The checks read from a parsed report: one per element when the report is a
/// list, none otherwise.
pub open spec fn checks_read_from(checks: Seq<ValidationCheck>, doc: Option<JsonValue>) -> bool {
    match doc {
        Some(JsonValue::Array(items)) => {
            &&& checks.len() == items.len()
            &&& forall|i: int| 0 <= i < items.len() ==> check_read_from(#[trigger] checks[i], items[i])
        },
        _ => checks.len() == 0,
    }
}

/// The check described by one record of the report.
pub fn check_from_record(item: &JsonNode) -> (r: ValidationCheck)
    ensures
        check_read_from(r, item.value()),
{
    let component = text_field_or(item, "Component", "");
    let category = text_field_or(item, "Category", "");
    let passed = match bool_field(item, "Passed") {
        Some(b) => b,
        None => false,
    };
    let status = text_field_or(item, "Status", "");
    let details = text_field_or(item, "Details", "");
    ValidationCheck { component, category, status, passed, details }
}

/// The checks of a parsed report.
pub fn checks_from_json(doc: Option<JsonNode>) -> (r: Vec<ValidationCheck>)
    ensures
        checks_read_from(r@, match doc {
            Some(n) => Some(n.value()),
            None => None,
        }),
{
    let mut out: Vec<ValidationCheck> = Vec::new();
    if let Some(JsonNode::Array(items)) = doc {
        let n = items.len();
        for i in 0..n
            invariant
                n == items@.len(),
                out@.len() == i,
                forall|j: int| 0 <= j < i ==> check_read_from(#[trigger] out@[j], items@[j].value()),
        {
            let c = check_from_record(&items[i]);
            out.push(c);
        }
    }
    out
}

/// The checks of the report printed by the health script.
pub fn checks_from_output(stdout: &str) -> (r: Vec<ValidationCheck>)
    ensures
        checks_read_from(r@, parsed_json(stdout@)),
{
    checks_from_json(parse_json(stdout))
}

/// Whether every check passed (an empty matrix counts as healthy).
pub fn all_passed(checks: &Vec<ValidationCheck>) -> (r: bool)
    ensures
        r == (forall|i: int| 0 <= i < checks@.len() ==> (#[trigger] checks@[i]).passed),
{
    let n = checks.len();
    for i in 0..n
        invariant
            n == checks@.len(),
            forall|j: int| 0 <= j < i ==> (#[trigger] checks@[j]).passed,
    {
        if !checks[i].passed {
            return false;
        }
    }
    true
}

/// The command that loads the validation script and prints its health checks as
/// JSON.
pub fn validation_command(script: &str) -> (r: String)
    ensures
        r@ == ". '"@ + script@ + "'; Test-ObsidianHealth | ConvertTo-Json"@,
{
    let mut r = String::from_str(". '");
    r.append(script);
    r.append("'; Test-ObsidianHealth | ConvertTo-Json");
    r
}

/// A check passes exactly when its record's `Passed` member is the boolean
/// `true`, whatever its status or details say; its texts are the record's
/// members, empty when a member is missing or no text.
pub proof fn law_check_fields(c: ValidationCheck, v: JsonValue)
    requires
        check_read_from(c, v),
    ensures
        c.passed <==> field_of(v, "Passed"@) == JsonValue::Bool(true),
        text_of(field_of(v, "Component"@)) matches Some(t) ==> c.component@ == t,
        text_of(field_of(v, "Category"@)) matches Some(t) ==> c.category@ == t,
        text_of(field_of(v, "Status"@)) matches Some(t) ==> c.status@ == t,
        text_of(field_of(v, "Details"@)) matches Some(t) ==> c.details@ == t,
        text_of(field_of(v, "Component"@)) is None ==> c.component@ == ""@,
        text_of(field_of(v, "Details"@)) is None ==> c.details@ == ""@,
{
    lemma_text_member(v, "Component"@, ""@);
    lemma_text_member(v, "Category"@, ""@);
    lemma_text_member(v, "Status"@, ""@);
    lemma_text_member(v, "Details"@, ""@);
    match field_of(v, "Passed"@) {
        JsonValue::Bool(b) => {},
        _ => {},
    }
}

/// The matrix is read element by element: a list of records gives one check per
/// record, each the check of that record, and anything else gives no check.
pub proof fn law_checks_follow_records(checks: Seq<ValidationCheck>, items: Seq<JsonValue>, i: int)
    requires
        checks_read_from(checks, Some(JsonValue::Array(items))),
        0 <= i < items.len(),
    ensures
        checks.len() == items.len(),
        checks[i].passed <==> field_of(items[i], "Passed"@) == JsonValue::Bool(true),
{
    law_check_fields(checks[i], items[i]);
}

} // verus!
