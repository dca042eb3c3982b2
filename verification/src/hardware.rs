//! What the library reads of the machine's processor and graphics adapters.

use vstd::prelude::*;
use crate::json::{JsonNode, JsonValue, field_of, text_of, text_or, text_field_or, parsed_json, parse_json, lemma_text_member};
use crate::text::{contains, contains_text, lowercase, to_lowercase};

verus! {

/// One graphics adapter.
#[derive(Debug)]
pub struct GpuInfo {
    pub name: String,
    pub driver_version: String,
    pub is_nvidia: bool,
}

/// An adapter name that (ignoring case) mentions NVIDIA or GeForce.
pub open spec fn is_nvidia_name(name: Seq<char>) -> bool {
    contains_text(lowercase(name), "nvidia"@) || contains_text(lowercase(name), "geforce"@)
}

/// `g` is the adapter read from the record `v` (`Win32_VideoController`'s `Name`
/// and `DriverVersion`, empty when missing).
pub open spec fn gpu_read_from(g: GpuInfo, v: JsonValue) -> bool {
    &&& g.name@ == text_or(field_of(v, "Name"@), ""@)
    &&& g.driver_version@ == text_or(field_of(v, "DriverVersion"@), ""@)
    &&& g.is_nvidia == is_nvidia_name(g.name@)
}

/// The adapters read from a parsed adapter list: one per element of a list, the
/// one adapter of an object, none for anything else.
pub open spec fn gpus_read_from(gpus: Seq<GpuInfo>, doc: Option<JsonValue>) -> bool {
    match doc {
        Some(JsonValue::Array(items)) => {
            &&& gpus.len() == items.len()
            &&& forall|i: int| 0 <= i < items.len() ==> gpu_read_from(#[trigger] gpus[i], items[i])
        },
        Some(JsonValue::Object(m)) => gpus.len() == 1 && gpu_read_from(gpus[0], JsonValue::Object(m)),
        _ => gpus.len() == 0,
    }
}

/// Whether an adapter name is an NVIDIA one.
pub fn nvidia_name(name: &str) -> (r: bool)
    ensures
        r == is_nvidia_name(name@),
{
    let lower = to_lowercase(name);
    contains(lower.as_str(), "nvidia") || contains(lower.as_str(), "geforce")
}

impl GpuInfo {
    /// The adapter described by one record.
    pub fn from_record(item: &JsonNode) -> (r: GpuInfo)
        ensures
            gpu_read_from(r, item.value()),
    {
        let name = text_field_or(item, "Name", "");
        let driver_version = text_field_or(item, "DriverVersion", "");
        let is_nvidia = nvidia_name(name.as_str());
        GpuInfo { name, driver_version, is_nvidia }
    }
}

/// The adapters of a parsed adapter list.
pub fn gpus_from_json(doc: Option<JsonNode>) -> (r: Vec<GpuInfo>)
    ensures
        gpus_read_from(r@, match doc {
            Some(n) => Some(n.value()),
            None => None,
        }),
{
    let mut out: Vec<GpuInfo> = Vec::new();
    match doc {
        Some(JsonNode::Array(items)) => {
            let n = items.len();
            for i in 0..n
                invariant
                    n == items@.len(),
                    out@.len() == i,
                    forall|j: int| 0 <= j < i ==> gpu_read_from(#[trigger] out@[j], items@[j].value()),
            {
                let g = GpuInfo::from_record(&items[i]);
                out.push(g);
            }
        },
        Some(JsonNode::Object(m)) => {
            let node = JsonNode::Object(m);
            let g = GpuInfo::from_record(&node);
            out.push(g);
        },
        _ => {},
    }
    out
}

/// The adapters listed by the `Win32_VideoController` query.
pub fn gpus_from_output(stdout: &str) -> (r: Vec<GpuInfo>)
    ensures
        gpus_read_from(r@, parsed_json(stdout@)),
{
    gpus_from_json(parse_json(stdout))
}

/// Whether some adapter is an NVIDIA one.
pub fn any_nvidia(gpus: &Vec<GpuInfo>) -> (r: bool)
    ensures
        r == (exists|i: int| 0 <= i < gpus@.len() && (#[trigger] gpus@[i]).is_nvidia),
{
    let n = gpus.len();
    for i in 0..n
        invariant
            n == gpus@.len(),
            forall|j: int| 0 <= j < i ==> !(#[trigger] gpus@[j]).is_nvidia,
    {
        if gpus[i].is_nvidia {
            return true;
        }
    }
    false
}

/// The processor as the library describes it.
#[derive(Debug)]
pub struct CpuIdentity {
    pub brand: String,
    pub is_amd: bool,
    pub is_intel: bool,
}

/// The brand of the first processor, or the placeholder used when none is reported.
pub open spec fn brand_or_unknown(first_brand: Option<Seq<char>>) -> Seq<char> {
    match first_brand {
        Some(b) => b,
        None => "Unknown Processor"@,
    }
}

impl CpuIdentity {
    /// The identity of a processor from the brand of its first core, if any.
    pub fn from_brand(first_brand: Option<String>) -> (r: CpuIdentity)
        ensures
            r.brand@ == brand_or_unknown(match first_brand {
                Some(b) => Some(b@),
                None => None,
            }),
            r.is_amd == contains_text(lowercase(r.brand@), "amd"@),
            r.is_intel == contains_text(lowercase(r.brand@), "intel"@),
    {
        let brand = match first_brand {
            Some(b) => b,
            None => String::from_str("Unknown Processor"),
        };
        let lower = to_lowercase(brand.as_str());
        let is_amd = contains(lower.as_str(), "amd");
        let is_intel = contains(lower.as_str(), "intel");
        CpuIdentity { brand, is_amd, is_intel }
    }
}

/// An adapter is read from its record's `Name` and `DriverVersion` (empty when
/// missing), and counts as NVIDIA exactly when its name, lower-cased, mentions
/// `nvidia` or `geforce`.
pub proof fn law_gpu_fields(g: GpuInfo, v: JsonValue)
    requires
        gpu_read_from(g, v),
    ensures
        text_of(field_of(v, "Name"@)) matches Some(t) ==> g.name@ == t,
        text_of(field_of(v, "Name"@)) is None ==> g.name@ == ""@,
        text_of(field_of(v, "DriverVersion"@)) matches Some(t) ==> g.driver_version@ == t,
        g.is_nvidia <==> (contains_text(lowercase(g.name@), "nvidia"@) || contains_text(
            lowercase(g.name@),
            "geforce"@,
        )),
{
    lemma_text_member(v, "Name"@, ""@);
    lemma_text_member(v, "DriverVersion"@, ""@);
}

} // verus!
