//! The rollback snapshot: the records of the state the modules are about to
//! change, and the naming of the snapshot files restore picks from.

use vstd::prelude::*;
use crate::json::{JsonNode, JsonValue, field_of, text_of, text_or, bool_of, opt_text, field, text_field, text_field_or, bool_field, parsed_json, parse_json, lemma_text_member};
use crate::text::{starts_with, ends_with, starts_with_text, ends_with_text, chars_of};

verus! {

/// The previous state of one registry value.
#[derive(Debug)]
pub struct SnapshotRegistryItem {
    pub path: String,
    pub name: String,
    pub previous_exists: bool,
    pub previous_value: Option<JsonNode>,
    pub previous_type: Option<String>,
}

/// The previous state of one service.
#[derive(Debug)]
pub struct SnapshotServiceItem {
    pub name: String,
    pub previous_startup: String,
    pub previous_status: String,
}

/// Whether a folder under the user's profile existed and had its contents
/// indexed before the indexing was turned off.
#[derive(Debug)]
pub struct SnapshotFolderItem {
    /// The folder's name under the profile.
    pub folder: String,
    /// Its full path.
    pub path: String,
    pub existed: bool,
    pub indexed: bool,
}

/// The previous state of one optional Windows feature.
#[derive(Debug)]
pub struct SnapshotFeatureItem {
    pub name: String,
    pub previous_state: String,
}

/// The previous state of one scheduled task.
#[derive(Debug)]
pub struct SnapshotTaskItem {
    pub path: String,
    pub name: String,
    pub previous_state: String,
}

/// The records of a capture report: the elements of a list, a single record
/// otherwise, and none when the report did not parse.
pub open spec fn capture_records(doc: Option<JsonValue>) -> Seq<JsonValue> {
    match doc {
        Some(JsonValue::Array(items)) => items,
        Some(other) => seq![other],
        None => seq![],
    }
}

// ---------------------------------------------------------------------------
// Registry values
// ---------------------------------------------------------------------------

/// The mathematical content of a registry record.
pub struct RegistryRecord {
    pub path: Seq<char>,
    pub name: Seq<char>,
    pub previous_exists: bool,
    pub previous_value: Option<JsonValue>,
    pub previous_type: Option<Seq<char>>,
}

impl SnapshotRegistryItem {
    pub open spec fn record(self) -> RegistryRecord {
        RegistryRecord {
            path: self.path@,
            name: self.name@,
            previous_exists: self.previous_exists,
            previous_value: match self.previous_value {
                Some(v) => Some(v.value()),
                None => None,
            },
            previous_type: opt_text(self.previous_type),
        }
    }
}

/// The registry record read from one element `{Path, Name, Data}` of the capture
/// report, where `Data` is `Get-RegistryValueSafe`'s `{Exists, Value, Type}`; none
/// when the path or the name is empty.
pub open spec fn registry_record_of(v: JsonValue) -> Option<RegistryRecord> {
    let path = text_or(field_of(v, "Path"@), ""@);
    let name = text_or(field_of(v, "Name"@), ""@);
    let data = field_of(v, "Data"@);
    let exists = bool_of(field_of(data, "Exists"@)) == Some(true);
    if path.len() == 0 || name.len() == 0 {
        None
    } else {
        Some(
            RegistryRecord {
                path,
                name,
                previous_exists: exists,
                previous_value: if exists {
                    Some(field_of(data, "Value"@))
                } else {
                    None
                },
                previous_type: text_of(field_of(data, "Type"@)),
            },
        )
    }
}

/// The registry records read from the elements `items`, in order.
pub open spec fn registry_records(items: Seq<JsonValue>) -> Seq<RegistryRecord>
    decreases items.len(),
{
    if items.len() == 0 {
        seq![]
    } else {
        let rest = registry_records(items.drop_last());
        match registry_record_of(items.last()) {
            Some(r) => rest.push(r),
            None => rest,
        }
    }
}

/// The records of a sequence of registry items.
pub open spec fn registry_views(items: Seq<SnapshotRegistryItem>) -> Seq<RegistryRecord> {
    items.map_values(|x: SnapshotRegistryItem| x.record())
}

/// The registry item read from one element of the capture report.
pub fn registry_item_from_record(item: &JsonNode) -> (r: Option<SnapshotRegistryItem>)
    ensures
        match r {
            Some(x) => registry_record_of(item.value()) == Some(x.record()),
            None => registry_record_of(item.value()) is None,
        },
{
    let path = text_field_or(item, "Path", "");
    let name = text_field_or(item, "Name", "");
    if path.unicode_len() == 0 || name.unicode_len() == 0 {
        return None;
    }
    let (previous_exists, previous_value, previous_type) = match field(item, "Data") {
        Some(data) => {
            let exists = match bool_field(data, "Exists") {
                Some(b) => b,
                None => false,
            };
            let value = if exists {
                match field(data, "Value") {
                    Some(v) => Some(v.duplicate()),
                    None => Some(JsonNode::Null),
                }
            } else {
                None
            };
            (exists, value, text_field(data, "Type"))
        },
        None => (false, None, None),
    };
    Some(SnapshotRegistryItem { path, name, previous_exists, previous_value, previous_type })
}

/// The registry items read from a parsed capture report.
pub fn registry_items_from_json(doc: Option<JsonNode>) -> (r: Vec<SnapshotRegistryItem>)
    ensures
        registry_views(r@) == registry_records(capture_records(match doc {
            Some(n) => Some(n.value()),
            None => None,
        })),
{
    let mut out: Vec<SnapshotRegistryItem> = Vec::new();
    match doc {
        Some(JsonNode::Array(items)) => {
            let ghost vals = capture_records(Some(JsonNode::Array(items).value()));
            let n = items.len();
            assert(vals.take(0) =~= Seq::<JsonValue>::empty());
            assert(registry_views(out@) =~= Seq::<RegistryRecord>::empty());
            for i in 0..n
                invariant
                    n == items@.len(),
                    vals.len() == n,
                    forall|j: int| 0 <= j < n ==> #[trigger] vals[j] == items@[j].value(),
                    registry_views(out@) == registry_records(vals.take(i as int)),
            {
                let ghost before = out@;
                assert(vals.take(i + 1).drop_last() =~= vals.take(i as int));
                if let Some(x) = registry_item_from_record(&items[i]) {
                    out.push(x);
                    assert(registry_views(out@) =~= registry_views(before).push(x.record()));
                }
            }
            assert(vals.take(n as int) =~= vals);
            assert(registry_views(out@) == registry_records(vals));
        },
        Some(other) => {
            let ghost vals = capture_records(Some(other.value()));
            assert(vals.drop_last() =~= Seq::<JsonValue>::empty());
            assert(registry_records(vals.drop_last()) =~= Seq::<RegistryRecord>::empty());
            if let Some(x) = registry_item_from_record(&other) {
                out.push(x);
                assert(registry_views(out@) =~= seq![x.record()]);
            } else {
                assert(registry_views(out@) =~= Seq::<RegistryRecord>::empty());
            }
        },
        None => {
            assert(registry_views(out@) =~= Seq::<RegistryRecord>::empty());
        },
    }
    out
}

/// The registry items read from the output of the capture command.
pub fn registry_items_from_output(stdout: &str) -> (r: Vec<SnapshotRegistryItem>)
    ensures
        registry_views(r@) == registry_records(capture_records(parsed_json(stdout@))),
{
    registry_items_from_json(parse_json(stdout))
}

// ---------------------------------------------------------------------------
// Services
// ---------------------------------------------------------------------------

/// The mathematical content of a service record.
pub struct ServiceRecord {
    pub name: Seq<char>,
    pub previous_startup: Seq<char>,
    pub previous_status: Seq<char>,
}

impl SnapshotServiceItem {
    pub open spec fn record(self) -> ServiceRecord {
        ServiceRecord {
            name: self.name@,
            previous_startup: self.previous_startup@,
            previous_status: self.previous_status@,
        }
    }
}

/// The service record read from one element `{Name, StartupType, Status}` of the
/// capture report (`Get-ServiceStateSafe`); none when the name is empty, `Unknown`
/// for a missing start-up type or status.
pub open spec fn service_record_of(v: JsonValue) -> Option<ServiceRecord> {
    let name = text_or(field_of(v, "Name"@), ""@);
    if name.len() == 0 {
        None
    } else {
        Some(
            ServiceRecord {
                name,
                previous_startup: text_or(field_of(v, "StartupType"@), "Unknown"@),
                previous_status: text_or(field_of(v, "Status"@), "Unknown"@),
            },
        )
    }
}

/// The service records read from the elements `items`, in order.
pub open spec fn service_records(items: Seq<JsonValue>) -> Seq<ServiceRecord>
    decreases items.len(),
{
    if items.len() == 0 {
        seq![]
    } else {
        let rest = service_records(items.drop_last());
        match service_record_of(items.last()) {
            Some(r) => rest.push(r),
            None => rest,
        }
    }
}

/// The records of a sequence of service items.
pub open spec fn service_views(items: Seq<SnapshotServiceItem>) -> Seq<ServiceRecord> {
    items.map_values(|x: SnapshotServiceItem| x.record())
}

/// The service item read from one element of the capture report.
pub fn service_item_from_record(item: &JsonNode) -> (r: Option<SnapshotServiceItem>)
    ensures
        match r {
            Some(x) => service_record_of(item.value()) == Some(x.record()),
            None => service_record_of(item.value()) is None,
        },
{
    let name = text_field_or(item, "Name", "");
    if name.unicode_len() == 0 {
        return None;
    }
    let previous_startup = text_field_or(item, "StartupType", "Unknown");
    let previous_status = text_field_or(item, "Status", "Unknown");
    Some(SnapshotServiceItem { name, previous_startup, previous_status })
}

/// The service items read from a parsed capture report.
pub fn service_items_from_json(doc: Option<JsonNode>) -> (r: Vec<SnapshotServiceItem>)
    ensures
        service_views(r@) == service_records(capture_records(match doc {
            Some(n) => Some(n.value()),
            None => None,
        })),
{
    let mut out: Vec<SnapshotServiceItem> = Vec::new();
    match doc {
        Some(JsonNode::Array(items)) => {
            let ghost vals = capture_records(Some(JsonNode::Array(items).value()));
            let n = items.len();
            assert(vals.take(0) =~= Seq::<JsonValue>::empty());
            assert(service_views(out@) =~= Seq::<ServiceRecord>::empty());
            for i in 0..n
                invariant
                    n == items@.len(),
                    vals.len() == n,
                    forall|j: int| 0 <= j < n ==> #[trigger] vals[j] == items@[j].value(),
                    service_views(out@) == service_records(vals.take(i as int)),
            {
                let ghost before = out@;
                assert(vals.take(i + 1).drop_last() =~= vals.take(i as int));
                if let Some(x) = service_item_from_record(&items[i]) {
                    out.push(x);
                    assert(service_views(out@) =~= service_views(before).push(x.record()));
                }
            }
            assert(vals.take(n as int) =~= vals);
            assert(service_views(out@) == service_records(vals));
        },
        Some(other) => {
            let ghost vals = capture_records(Some(other.value()));
            assert(vals.drop_last() =~= Seq::<JsonValue>::empty());
            assert(service_records(vals.drop_last()) =~= Seq::<ServiceRecord>::empty());
            if let Some(x) = service_item_from_record(&other) {
                out.push(x);
                assert(service_views(out@) =~= seq![x.record()]);
            } else {
                assert(service_views(out@) =~= Seq::<ServiceRecord>::empty());
            }
        },
        None => {
            assert(service_views(out@) =~= Seq::<ServiceRecord>::empty());
        },
    }
    out
}

/// The service items read from the output of the capture command.
pub fn service_items_from_output(stdout: &str) -> (r: Vec<SnapshotServiceItem>)
    ensures
        service_views(r@) == service_records(capture_records(parsed_json(stdout@))),
{
    service_items_from_json(parse_json(stdout))
}

// ---------------------------------------------------------------------------
// Optional features
// ---------------------------------------------------------------------------

/// The mathematical content of a feature record.
pub struct FeatureRecord {
    pub name: Seq<char>,
    pub previous_state: Seq<char>,
}

impl SnapshotFeatureItem {
    pub open spec fn record(self) -> FeatureRecord {
        FeatureRecord { name: self.name@, previous_state: self.previous_state@ }
    }
}

/// The feature record read from one element `{Name, State}` of the capture
/// report; none when the name is empty, `Unknown` for a missing state.
pub open spec fn feature_record_of(v: JsonValue) -> Option<FeatureRecord> {
    let name = text_or(field_of(v, "Name"@), ""@);
    if name.len() == 0 {
        None
    } else {
        Some(FeatureRecord { name, previous_state: text_or(field_of(v, "State"@), "Unknown"@) })
    }
}

/// The feature records read from the elements `items`, in order.
pub open spec fn feature_records(items: Seq<JsonValue>) -> Seq<FeatureRecord>
    decreases items.len(),
{
    if items.len() == 0 {
        seq![]
    } else {
        let rest = feature_records(items.drop_last());
        match feature_record_of(items.last()) {
            Some(r) => rest.push(r),
            None => rest,
        }
    }
}

/// The records of a sequence of feature items.
pub open spec fn feature_views(items: Seq<SnapshotFeatureItem>) -> Seq<FeatureRecord> {
    items.map_values(|x: SnapshotFeatureItem| x.record())
}

/// The feature item read from one element of the capture report.
pub fn feature_item_from_record(item: &JsonNode) -> (r: Option<SnapshotFeatureItem>)
    ensures
        match r {
            Some(x) => feature_record_of(item.value()) == Some(x.record()),
            None => feature_record_of(item.value()) is None,
        },
{
    let name = text_field_or(item, "Name", "");
    if name.unicode_len() == 0 {
        return None;
    }
    let previous_state = text_field_or(item, "State", "Unknown");
    Some(SnapshotFeatureItem { name, previous_state })
}

/// The feature items read from a parsed capture report.
pub fn feature_items_from_json(doc: Option<JsonNode>) -> (r: Vec<SnapshotFeatureItem>)
    ensures
        feature_views(r@) == feature_records(capture_records(match doc {
            Some(n) => Some(n.value()),
            None => None,
        })),
{
    let mut out: Vec<SnapshotFeatureItem> = Vec::new();
    match doc {
        Some(JsonNode::Array(items)) => {
            let ghost vals = capture_records(Some(JsonNode::Array(items).value()));
            let n = items.len();
            assert(vals.take(0) =~= Seq::<JsonValue>::empty());
            assert(feature_views(out@) =~= Seq::<FeatureRecord>::empty());
            for i in 0..n
                invariant
                    n == items@.len(),
                    vals.len() == n,
                    forall|j: int| 0 <= j < n ==> #[trigger] vals[j] == items@[j].value(),
                    feature_views(out@) == feature_records(vals.take(i as int)),
            {
                let ghost before = out@;
                assert(vals.take(i + 1).drop_last() =~= vals.take(i as int));
                if let Some(x) = feature_item_from_record(&items[i]) {
                    out.push(x);
                    assert(feature_views(out@) =~= feature_views(before).push(x.record()));
                }
            }
            assert(vals.take(n as int) =~= vals);
            assert(feature_views(out@) == feature_records(vals));
        },
        Some(other) => {
            let ghost vals = capture_records(Some(other.value()));
            assert(vals.drop_last() =~= Seq::<JsonValue>::empty());
            assert(feature_records(vals.drop_last()) =~= Seq::<FeatureRecord>::empty());
            if let Some(x) = feature_item_from_record(&other) {
                out.push(x);
                assert(feature_views(out@) =~= seq![x.record()]);
            } else {
                assert(feature_views(out@) =~= Seq::<FeatureRecord>::empty());
            }
        },
        None => {
            assert(feature_views(out@) =~= Seq::<FeatureRecord>::empty());
        },
    }
    out
}

/// The feature items read from the output of the capture command.
pub fn feature_items_from_output(stdout: &str) -> (r: Vec<SnapshotFeatureItem>)
    ensures
        feature_views(r@) == feature_records(capture_records(parsed_json(stdout@))),
{
    feature_items_from_json(parse_json(stdout))
}

// ---------------------------------------------------------------------------
// Folders
// ---------------------------------------------------------------------------

/// The mathematical content of a folder record.
pub struct FolderRecord {
    pub folder: Seq<char>,
    pub path: Seq<char>,
    pub existed: bool,
    pub indexed: bool,
}

impl SnapshotFolderItem {
    pub open spec fn record(self) -> FolderRecord {
        FolderRecord { folder: self.folder@, path: self.path@, existed: self.existed, indexed: self.indexed }
    }
}

/// The truth value of a JSON value, `false` when it is no boolean.
pub open spec fn flag_of(v: JsonValue) -> bool {
    match bool_of(v) {
        Some(b) => b,
        None => false,
    }
}

/// The folder record read from one element `{Folder, Path, Exists, Indexed}` of
/// the capture report; none when the folder name is empty, `false` for a flag
/// that is missing or no boolean.
pub open spec fn folder_record_of(v: JsonValue) -> Option<FolderRecord> {
    let folder = text_or(field_of(v, "Folder"@), ""@);
    if folder.len() == 0 {
        None
    } else {
        Some(
            FolderRecord {
                folder,
                path: text_or(field_of(v, "Path"@), ""@),
                existed: flag_of(field_of(v, "Exists"@)),
                indexed: flag_of(field_of(v, "Indexed"@)),
            },
        )
    }
}

/// The folder records read from the elements `items`, in order.
pub open spec fn folder_records(items: Seq<JsonValue>) -> Seq<FolderRecord>
    decreases items.len(),
{
    if items.len() == 0 {
        seq![]
    } else {
        let rest = folder_records(items.drop_last());
        match folder_record_of(items.last()) {
            Some(r) => rest.push(r),
            None => rest,
        }
    }
}

/// The records of a sequence of folder items.
pub open spec fn folder_views(items: Seq<SnapshotFolderItem>) -> Seq<FolderRecord> {
    items.map_values(|x: SnapshotFolderItem| x.record())
}

/// The folder item read from one element of the capture report.
pub fn folder_item_from_record(item: &JsonNode) -> (r: Option<SnapshotFolderItem>)
    ensures
        match r {
            Some(x) => folder_record_of(item.value()) == Some(x.record()),
            None => folder_record_of(item.value()) is None,
        },
{
    let folder = text_field_or(item, "Folder", "");
    if folder.unicode_len() == 0 {
        return None;
    }
    let path = text_field_or(item, "Path", "");
    let existed = match bool_field(item, "Exists") {
        Some(b) => b,
        None => false,
    };
    let indexed = match bool_field(item, "Indexed") {
        Some(b) => b,
        None => false,
    };
    Some(SnapshotFolderItem { folder, path, existed, indexed })
}

/// The folder items read from a parsed capture report.
pub fn folder_items_from_json(doc: Option<JsonNode>) -> (r: Vec<SnapshotFolderItem>)
    ensures
        folder_views(r@) == folder_records(capture_records(match doc {
            Some(n) => Some(n.value()),
            None => None,
        })),
{
    let mut out: Vec<SnapshotFolderItem> = Vec::new();
    match doc {
        Some(JsonNode::Array(items)) => {
            let ghost vals = capture_records(Some(JsonNode::Array(items).value()));
            let n = items.len();
            assert(vals.take(0) =~= Seq::<JsonValue>::empty());
            assert(folder_views(out@) =~= Seq::<FolderRecord>::empty());
            for i in 0..n
                invariant
                    n == items@.len(),
                    vals.len() == n,
                    forall|j: int| 0 <= j < n ==> #[trigger] vals[j] == items@[j].value(),
                    folder_views(out@) == folder_records(vals.take(i as int)),
            {
                let ghost before = out@;
                assert(vals.take(i + 1).drop_last() =~= vals.take(i as int));
                if let Some(x) = folder_item_from_record(&items[i]) {
                    out.push(x);
                    assert(folder_views(out@) =~= folder_views(before).push(x.record()));
                }
            }
            assert(vals.take(n as int) =~= vals);
            assert(folder_views(out@) == folder_records(vals));
        },
        Some(other) => {
            let ghost vals = capture_records(Some(other.value()));
            assert(vals.drop_last() =~= Seq::<JsonValue>::empty());
            assert(folder_records(vals.drop_last()) =~= Seq::<FolderRecord>::empty());
            if let Some(x) = folder_item_from_record(&other) {
                out.push(x);
                assert(folder_views(out@) =~= seq![x.record()]);
            } else {
                assert(folder_views(out@) =~= Seq::<FolderRecord>::empty());
            }
        },
        None => {
            assert(folder_views(out@) =~= Seq::<FolderRecord>::empty());
        },
    }
    out
}

/// The folder items read from the output of the capture command.
pub fn folder_items_from_output(stdout: &str) -> (r: Vec<SnapshotFolderItem>)
    ensures
        folder_views(r@) == folder_records(capture_records(parsed_json(stdout@))),
{
    folder_items_from_json(parse_json(stdout))
}

// ---------------------------------------------------------------------------
// Scheduled tasks
// ---------------------------------------------------------------------------

/// The mathematical content of a task record.
pub struct TaskRecord {
    pub path: Seq<char>,
    pub name: Seq<char>,
    pub previous_state: Seq<char>,
}

impl SnapshotTaskItem {
    pub open spec fn record(self) -> TaskRecord {
        TaskRecord { path: self.path@, name: self.name@, previous_state: self.previous_state@ }
    }
}

/// The task record read from one element `{TaskPath, TaskName, State}` of the
/// capture report (`Get-ScheduledTaskStateSafe`); none when the name is empty,
/// `Unknown` for a missing state.
pub open spec fn task_record_of(v: JsonValue) -> Option<TaskRecord> {
    let name = text_or(field_of(v, "TaskName"@), ""@);
    if name.len() == 0 {
        None
    } else {
        Some(
            TaskRecord {
                path: text_or(field_of(v, "TaskPath"@), ""@),
                name,
                previous_state: text_or(field_of(v, "State"@), "Unknown"@),
            },
        )
    }
}

/// The task records read from the elements `items`, in order.
pub open spec fn task_records(items: Seq<JsonValue>) -> Seq<TaskRecord>
    decreases items.len(),
{
    if items.len() == 0 {
        seq![]
    } else {
        let rest = task_records(items.drop_last());
        match task_record_of(items.last()) {
            Some(r) => rest.push(r),
            None => rest,
        }
    }
}

/// The records of a sequence of task items.
pub open spec fn task_views(items: Seq<SnapshotTaskItem>) -> Seq<TaskRecord> {
    items.map_values(|x: SnapshotTaskItem| x.record())
}

/// The task item read from one element of the capture report.
pub fn task_item_from_record(item: &JsonNode) -> (r: Option<SnapshotTaskItem>)
    ensures
        match r {
            Some(x) => task_record_of(item.value()) == Some(x.record()),
            None => task_record_of(item.value()) is None,
        },
{
    let path = text_field_or(item, "TaskPath", "");
    let name = text_field_or(item, "TaskName", "");
    if name.unicode_len() == 0 {
        return None;
    }
    let previous_state = text_field_or(item, "State", "Unknown");
    Some(SnapshotTaskItem { path, name, previous_state })
}

/// The task items read from a parsed capture report.
pub fn task_items_from_json(doc: Option<JsonNode>) -> (r: Vec<SnapshotTaskItem>)
    ensures
        task_views(r@) == task_records(capture_records(match doc {
            Some(n) => Some(n.value()),
            None => None,
        })),
{
    let mut out: Vec<SnapshotTaskItem> = Vec::new();
    match doc {
        Some(JsonNode::Array(items)) => {
            let ghost vals = capture_records(Some(JsonNode::Array(items).value()));
            let n = items.len();
            assert(vals.take(0) =~= Seq::<JsonValue>::empty());
            assert(task_views(out@) =~= Seq::<TaskRecord>::empty());
            for i in 0..n
                invariant
                    n == items@.len(),
                    vals.len() == n,
                    forall|j: int| 0 <= j < n ==> #[trigger] vals[j] == items@[j].value(),
                    task_views(out@) == task_records(vals.take(i as int)),
            {
                let ghost before = out@;
                assert(vals.take(i + 1).drop_last() =~= vals.take(i as int));
                if let Some(x) = task_item_from_record(&items[i]) {
                    out.push(x);
                    assert(task_views(out@) =~= task_views(before).push(x.record()));
                }
            }
            assert(vals.take(n as int) =~= vals);
            assert(task_views(out@) == task_records(vals));
        },
        Some(other) => {
            let ghost vals = capture_records(Some(other.value()));
            assert(vals.drop_last() =~= Seq::<JsonValue>::empty());
            assert(task_records(vals.drop_last()) =~= Seq::<TaskRecord>::empty());
            if let Some(x) = task_item_from_record(&other) {
                out.push(x);
                assert(task_views(out@) =~= seq![x.record()]);
            } else {
                assert(task_views(out@) =~= Seq::<TaskRecord>::empty());
            }
        },
        None => {
            assert(task_views(out@) =~= Seq::<TaskRecord>::empty());
        },
    }
    out
}

/// The task items read from the output of the capture command.
pub fn task_items_from_output(stdout: &str) -> (r: Vec<SnapshotTaskItem>)
    ensures
        task_views(r@) == task_records(capture_records(parsed_json(stdout@))),
{
    task_items_from_json(parse_json(stdout))
}

// ---------------------------------------------------------------------------
// Snapshot files
// ---------------------------------------------------------------------------

/// The file name a snapshot taken at `stamp` is written under.
pub open spec fn snapshot_name(stamp: Seq<char>) -> Seq<char> {
    "snapshot-"@ + stamp + ".json"@
}

/// A file name restore considers a snapshot: it starts with `snapshot-` and has
/// the extension `json` (given the prefix, exactly: it ends with `.json`).
pub open spec fn is_snapshot_name(name: Seq<char>) -> bool {
    starts_with_text(name, "snapshot-"@) && ends_with_text(name, ".json"@)
}

/// The file name of the snapshot taken at `stamp`.
pub fn snapshot_file_name(stamp: &str) -> (r: String)
    ensures
        r@ == snapshot_name(stamp@),
{
    let mut r = String::from_str("snapshot-");
    r.append(stamp);
    r.append(".json");
    r
}

/// Whether `name` is the file name of a snapshot.
pub fn is_snapshot_file_name(name: &str) -> (r: bool)
    ensures
        r == is_snapshot_name(name@),
{
    starts_with(name, "snapshot-") && ends_with(name, ".json")
}

/// `a` sorts before `b`: the order of `Path`s in one directory, character by
/// character (code points; UTF-8 bytes sort the same way).
pub open spec fn text_less(a: Seq<char>, b: Seq<char>) -> bool
    decreases a.len(),
{
    if a.len() == 0 {
        b.len() > 0
    } else if b.len() == 0 {
        false
    } else if a[0] != b[0] {
        a[0] < b[0]
    } else {
        text_less(a.drop_first(), b.drop_first())
    }
}

proof fn lemma_text_less_transitive(a: Seq<char>, b: Seq<char>, c: Seq<char>)
    requires
        text_less(a, b),
        text_less(b, c),
    ensures
        text_less(a, c),
    decreases a.len(),
{
    if a.len() > 0 && b.len() > 0 && c.len() > 0 && a[0] == b[0] && b[0] == c[0] {
        lemma_text_less_transitive(a.drop_first(), b.drop_first(), c.drop_first());
    }
}

proof fn lemma_text_less_total(a: Seq<char>, b: Seq<char>)
    ensures
        text_less(a, b) || text_less(b, a) || a == b,
    decreases a.len(),
{
    if a.len() > 0 && b.len() > 0 && a[0] == b[0] {
        lemma_text_less_total(a.drop_first(), b.drop_first());
        if a.drop_first() == b.drop_first() {
            assert forall|i: int| 0 <= i < a.len() implies a[i] == b[i] by {
                if i > 0 {
                    assert(a[i] == a.drop_first()[i - 1]);
                    assert(b[i] == b.drop_first()[i - 1]);
                }
            }
            assert(a =~= b);
        }
    } else if a.len() == 0 && b.len() == 0 {
        assert(a =~= b);
    } else if a.len() > 0 && b.len() > 0 {
    }
}

proof fn lemma_text_less_irreflexive(a: Seq<char>)
    ensures
        !text_less(a, a),
    decreases a.len(),
{
    if a.len() > 0 {
        lemma_text_less_irreflexive(a.drop_first());
    }
}

/// Whether `a` sorts before `b`.
pub fn sorts_before(a: &str, b: &str) -> (r: bool)
    ensures
        r == text_less(a@, b@),
{
    let ca = chars_of(a);
    let cb = chars_of(b);
    let na = ca.len();
    let nb = cb.len();
    let mut k: usize = 0;
    assert(a@.skip(0) =~= a@);
    assert(b@.skip(0) =~= b@);
    loop
        invariant
            ca@ == a@,
            cb@ == b@,
            na == a@.len(),
            nb == b@.len(),
            k <= na,
            k <= nb,
            text_less(a@, b@) == text_less(a@.skip(k as int), b@.skip(k as int)),
        decreases na - k,
    {
        let ghost sa = a@.skip(k as int);
        let ghost sb = b@.skip(k as int);
        if k == na {
            return k < nb;
        }
        if k == nb {
            return false;
        }
        assert(sa[0] == ca@[k as int]);
        assert(sb[0] == cb@[k as int]);
        if ca[k] != cb[k] {
            return ca[k] < cb[k];
        }
        assert(sa.drop_first() =~= a@.skip(k + 1));
        assert(sb.drop_first() =~= b@.skip(k + 1));
        k = k + 1;
    }
}

/// Restore's choice among the file names of the snapshot directory: the position
/// of the snapshot name that sorts last, or nothing when there is no snapshot.
pub open spec fn is_latest_snapshot(names: Seq<Seq<char>>, i: int) -> bool {
    &&& 0 <= i < names.len()
    &&& is_snapshot_name(names[i])
    &&& forall|j: int| 0 <= j < names.len() && is_snapshot_name(names[j]) ==> !text_less(names[i], #[trigger] names[j])
}

/// The position of the latest snapshot among the file names of a directory.
pub fn latest_snapshot(names: &Vec<String>) -> (r: Option<usize>)
    ensures
        match r {
            Some(i) => is_latest_snapshot(crate::text::views_of(names@), i as int),
            None => forall|j: int| 0 <= j < names@.len() ==> !is_snapshot_name(#[trigger] names@[j]@),
        },
{
    let ghost v = crate::text::views_of(names@);
    let n = names.len();
    let mut best: Option<usize> = None;
    for i in 0..n
        invariant
            n == names@.len(),
            v == crate::text::views_of(names@),
            match best {
                Some(b) => {
                    &&& b < i
                    &&& is_snapshot_name(v[b as int])
                    &&& forall|j: int| 0 <= j < i && is_snapshot_name(v[j]) ==> !text_less(v[b as int], #[trigger] v[j])
                },
                None => forall|j: int| 0 <= j < i ==> !is_snapshot_name(#[trigger] names@[j]@),
            },
    {
        if is_snapshot_file_name(names[i].as_str()) {
            match best {
                None => {
                    proof {
                        lemma_text_less_irreflexive(v[i as int]);
                        assert forall|j: int| 0 <= j < i + 1 && is_snapshot_name(v[j]) implies !text_less(v[i as int], #[trigger] v[j]) by {
                            assert(v[j] == names@[j]@);
                        }
                    }
                    best = Some(i);
                },
                Some(b) => {
                    if sorts_before(names[b].as_str(), names[i].as_str()) {
                        proof {
                            lemma_text_less_irreflexive(v[i as int]);
                            assert forall|j: int| 0 <= j < i + 1 && is_snapshot_name(v[j]) implies !text_less(v[i as int], #[trigger] v[j]) by {
                                if j < i && text_less(v[i as int], v[j]) {
                                    lemma_text_less_transitive(v[b as int], v[i as int], v[j]);
                                }
                            }
                        }
                        best = Some(i);
                    } else {
                        proof {
                            lemma_text_less_total(v[b as int], v[i as int]);
                            lemma_text_less_irreflexive(v[b as int]);
                        }
                    }
                },
            }
        }
    }
    proof {
        if let Some(b) = best {
            assert forall|j: int| 0 <= j < names@.len() && is_snapshot_name(v[j]) implies !text_less(v[b as int], #[trigger] v[j]) by {}
        }
    }
    best
}

/// A snapshot file is always found again by restore: the name it is saved under is
/// a snapshot name, whatever the time stamp.
pub proof fn law_saved_snapshot_is_recognised(stamp: Seq<char>)
    ensures
        is_snapshot_name(snapshot_name(stamp)),
{
    let n = snapshot_name(stamp);
    assert(n.subrange(0, 9) =~= "snapshot-"@) by {
        reveal_strlit("snapshot-");
    }
    assert(n.subrange(n.len() - 5, n.len() as int) =~= ".json"@) by {
        reveal_strlit(".json");
    }
    reveal_strlit("snapshot-");
    reveal_strlit(".json");
}

proof fn lemma_common_prefix(p: Seq<char>, x: Seq<char>, y: Seq<char>)
    ensures
        text_less(p + x, p + y) == text_less(x, y),
    decreases p.len(),
{
    if p.len() == 0 {
        assert(p + x =~= x);
        assert(p + y =~= y);
    } else {
        assert((p + x)[0] == p[0]);
        assert((p + y)[0] == p[0]);
        assert((p + x).drop_first() =~= p.drop_first() + x);
        assert((p + y).drop_first() =~= p.drop_first() + y);
        lemma_common_prefix(p.drop_first(), x, y);
    }
}

proof fn lemma_common_suffix(x: Seq<char>, y: Seq<char>, s: Seq<char>)
    requires
        x.len() == y.len(),
    ensures
        text_less(x + s, y + s) == text_less(x, y),
    decreases x.len(),
{
    if x.len() == 0 {
        assert(x + s =~= s);
        assert(y + s =~= s);
        lemma_text_less_irreflexive(s);
    } else {
        assert((x + s)[0] == x[0]);
        assert((y + s)[0] == y[0]);
        assert((x + s).drop_first() =~= x.drop_first() + s);
        assert((y + s).drop_first() =~= y.drop_first() + s);
        lemma_common_suffix(x.drop_first(), y.drop_first(), s);
    }
}

/// Snapshot file names sort as their time stamps do, when the stamps have one
/// length (the `%Y%m%d-%H%M%S` stamps the program writes all do).
pub proof fn law_snapshot_names_sort_as_stamps(t1: Seq<char>, t2: Seq<char>)
    requires
        t1.len() == t2.len(),
    ensures
        text_less(snapshot_name(t1), snapshot_name(t2)) == text_less(t1, t2),
{
    let p = "snapshot-"@;
    let j = ".json"@;
    assert(snapshot_name(t1) =~= p + (t1 + j));
    assert(snapshot_name(t2) =~= p + (t2 + j));
    lemma_common_prefix(p, t1 + j, t2 + j);
    lemma_common_suffix(t1, t2, j);
}

/// Restore picks the most recent snapshot: when the directory holds snapshots
/// saved under time stamps of one length, the one it picks has a stamp that no other
/// stamp sorts after.
pub proof fn law_restore_picks_latest_stamp(stamps: Seq<Seq<char>>, i: int)
    requires
        forall|a: int, b: int| 0 <= a < stamps.len() && 0 <= b < stamps.len() ==> #[trigger] stamps[a].len() == #[trigger] stamps[b].len(),
        is_latest_snapshot(stamps.map_values(|t: Seq<char>| snapshot_name(t)), i),
    ensures
        forall|j: int| 0 <= j < stamps.len() ==> !text_less(stamps[i], #[trigger] stamps[j]),
{
    let names = stamps.map_values(|t: Seq<char>| snapshot_name(t));
    assert forall|j: int| 0 <= j < stamps.len() implies !text_less(stamps[i], #[trigger] stamps[j]) by {
        law_saved_snapshot_is_recognised(stamps[j]);
        assert(names[j] == snapshot_name(stamps[j]));
        law_snapshot_names_sort_as_stamps(stamps[i], stamps[j]);
    }
}

// ---------------------------------------------------------------------------
// What the readers and the order mean, stated on the inputs
// ---------------------------------------------------------------------------

proof fn lemma_text_less_first_difference(a: Seq<char>, b: Seq<char>, k: int)
    requires
        0 <= k < a.len(),
        k < b.len(),
        a.take(k) == b.take(k),
        a[k] != b[k],
    ensures
        text_less(a, b) == (a[k] < b[k]),
    decreases k,
{
    if k > 0 {
        assert(a[0] == a.take(k)[0]);
        assert(b[0] == b.take(k)[0]);
        assert(a.drop_first().take(k - 1) =~= a.take(k).drop_first());
        assert(b.drop_first().take(k - 1) =~= b.take(k).drop_first());
        lemma_text_less_first_difference(a.drop_first(), b.drop_first(), k - 1);
    }
}

proof fn lemma_text_less_proper_prefix(a: Seq<char>, b: Seq<char>)
    requires
        a.len() < b.len(),
        b.take(a.len() as int) == a,
    ensures
        text_less(a, b),
        !text_less(b, a),
    decreases a.len(),
{
    if a.len() > 0 {
        assert(a[0] == b.take(a.len() as int)[0]);
        assert(b.drop_first().take(a.len() - 1) =~= a.drop_first());
        lemma_text_less_proper_prefix(a.drop_first(), b.drop_first());
    }
}

/// Snapshot names are ordered character by character, by code point: at the
/// first position where two names differ, the one with the smaller character
/// sorts first; a name that is a proper prefix of another sorts before it; and
/// no name sorts before itself. For two stamps of one length this puts the
/// later time stamp after the earlier one.
pub proof fn law_text_less_is_code_point_order(a: Seq<char>, b: Seq<char>, k: int)
    ensures
        0 <= k < a.len() && k < b.len() && a.take(k) == b.take(k) && a[k] != b[k] ==> (text_less(a, b)
            <==> a[k] < b[k]),
        a.len() < b.len() && b.take(a.len() as int) == a ==> text_less(a, b) && !text_less(b, a),
        !text_less(a, a),
{
    if 0 <= k < a.len() && k < b.len() && a.take(k) == b.take(k) && a[k] != b[k] {
        lemma_text_less_first_difference(a, b, k);
    }
    if a.len() < b.len() && b.take(a.len() as int) == a {
        lemma_text_less_proper_prefix(a, b);
    }
    lemma_text_less_irreflexive(a);
}

/// A registry record names the captured `Path` and `Name`, records whether
/// `Data.Exists` is `true`, the `Data.Value` only when it did exist, and the
/// `Data.Type` text; a record without a non-empty path and name is dropped.
pub proof fn law_registry_record_fields(v: JsonValue)
    ensures
        registry_record_of(v) is Some <==> (text_or(field_of(v, "Path"@), ""@).len() > 0 && text_or(
            field_of(v, "Name"@),
            ""@,
        ).len() > 0),
        registry_record_of(v) matches Some(r) ==> {
            &&& text_of(field_of(v, "Path"@)) == Some(r.path)
            &&& text_of(field_of(v, "Name"@)) == Some(r.name)
            &&& r.previous_exists == (bool_of(field_of(field_of(v, "Data"@), "Exists"@)) == Some(true))
            &&& r.previous_value == (if r.previous_exists {
                Some(field_of(field_of(v, "Data"@), "Value"@))
            } else {
                None
            })
            &&& r.previous_type == text_of(field_of(field_of(v, "Data"@), "Type"@))
        },
{
    lemma_text_member(v, "Path"@, ""@);
    lemma_text_member(v, "Name"@, ""@);
    lemma_text_member(field_of(v, "Data"@), "Type"@, ""@);
}

/// A service record names the captured `Name` and keeps its `StartupType` and
/// `Status` texts (`Unknown` when absent); a record without a name is dropped.
pub proof fn law_service_record_fields(v: JsonValue)
    ensures
        service_record_of(v) is Some <==> text_or(field_of(v, "Name"@), ""@).len() > 0,
        service_record_of(v) matches Some(r) ==> {
            &&& text_of(field_of(v, "Name"@)) == Some(r.name)
            &&& (text_of(field_of(v, "StartupType"@)) matches Some(t) ==> r.previous_startup == t)
            &&& (text_of(field_of(v, "StartupType"@)) is None ==> r.previous_startup == "Unknown"@)
            &&& (text_of(field_of(v, "Status"@)) matches Some(t) ==> r.previous_status == t)
            &&& (text_of(field_of(v, "Status"@)) is None ==> r.previous_status == "Unknown"@)
        },
{
    lemma_text_member(v, "Name"@, ""@);
    lemma_text_member(v, "StartupType"@, "Unknown"@);
    lemma_text_member(v, "Status"@, "Unknown"@);
}

/// A task record names the captured `TaskName`, keeps the `TaskPath` text (empty
/// when absent) and the `State` text (`Unknown` when absent); a record without
/// a task name is dropped.
pub proof fn law_task_record_fields(v: JsonValue)
    ensures
        task_record_of(v) is Some <==> text_or(field_of(v, "TaskName"@), ""@).len() > 0,
        task_record_of(v) matches Some(r) ==> {
            &&& text_of(field_of(v, "TaskName"@)) == Some(r.name)
            &&& (text_of(field_of(v, "TaskPath"@)) matches Some(t) ==> r.path == t)
            &&& (text_of(field_of(v, "TaskPath"@)) is None ==> r.path == ""@)
            &&& (text_of(field_of(v, "State"@)) matches Some(t) ==> r.previous_state == t)
            &&& (text_of(field_of(v, "State"@)) is None ==> r.previous_state == "Unknown"@)
        },
{
    lemma_text_member(v, "TaskName"@, ""@);
    lemma_text_member(v, "TaskPath"@, ""@);
    lemma_text_member(v, "State"@, "Unknown"@);
}

/// A feature record names the captured `Name` and keeps its `State` text
/// (`Unknown` when absent); a record without a name is dropped.
pub proof fn law_feature_record_fields(v: JsonValue)
    ensures
        feature_record_of(v) is Some <==> text_or(field_of(v, "Name"@), ""@).len() > 0,
        feature_record_of(v) matches Some(r) ==> {
            &&& text_of(field_of(v, "Name"@)) == Some(r.name)
            &&& (text_of(field_of(v, "State"@)) matches Some(t) ==> r.previous_state == t)
            &&& (text_of(field_of(v, "State"@)) is None ==> r.previous_state == "Unknown"@)
        },
{
    lemma_text_member(v, "Name"@, ""@);
    lemma_text_member(v, "State"@, "Unknown"@);
}

/// A folder record names the captured `Folder`, keeps the `Path` text, and
/// records `Exists` and `Indexed` as true exactly when they are the boolean
/// `true`; a record without a folder name is dropped.
pub proof fn law_folder_record_fields(v: JsonValue)
    ensures
        folder_record_of(v) is Some <==> text_or(field_of(v, "Folder"@), ""@).len() > 0,
        folder_record_of(v) matches Some(r) ==> {
            &&& text_of(field_of(v, "Folder"@)) == Some(r.folder)
            &&& (text_of(field_of(v, "Path"@)) matches Some(t) ==> r.path == t)
            &&& r.existed == (bool_of(field_of(v, "Exists"@)) == Some(true))
            &&& r.indexed == (bool_of(field_of(v, "Indexed"@)) == Some(true))
        },
{
    lemma_text_member(v, "Folder"@, ""@);
    lemma_text_member(v, "Path"@, ""@);
}

/// Every element of a capture report with a usable key is kept, in order, and
/// nothing else: the records read from a report followed by one more element
/// are those of the report, then that element's record when it has one.
pub proof fn law_task_records_keep_order(items: Seq<JsonValue>, v: JsonValue)
    ensures
        task_records(items.push(v)) == (match task_record_of(v) {
            Some(r) => task_records(items).push(r),
            None => task_records(items),
        }),
        task_records(seq![]) == Seq::<TaskRecord>::empty(),
{
    assert(items.push(v).drop_last() =~= items);
}

/// A file is a snapshot exactly when its name starts with `snapshot-` and ends
/// with `.json`; a capture report that is a list gives its elements, any other
/// document is one record, and a report that did not parse gives none.
pub proof fn law_snapshot_names_and_reports(name: Seq<char>, doc: Option<JsonValue>)
    ensures
        is_snapshot_name(name) <==> (starts_with_text(name, "snapshot-"@) && ends_with_text(name, ".json"@)),
        doc matches Some(JsonValue::Array(items)) ==> capture_records(doc) == items,
        doc is None ==> capture_records(doc) == Seq::<JsonValue>::empty(),
        (doc matches Some(v) && !(v is Array)) ==> capture_records(doc) == seq![doc->0],
{
}

/// Every registry record with a usable key is kept, in report order, and nothing
/// else: the records of a report followed by one more element are those of the
/// report, then that element's record when it has one.
pub proof fn law_registry_records_keep_order(items: Seq<JsonValue>, v: JsonValue)
    ensures
        registry_records(items.push(v)) == (match registry_record_of(v) {
            Some(r) => registry_records(items).push(r),
            None => registry_records(items),
        }),
        registry_records(seq![]) == Seq::<RegistryRecord>::empty(),
{
    assert(items.push(v).drop_last() =~= items);
}

/// Every service record with a usable key is kept, in report order, and nothing
/// else: the records of a report followed by one more element are those of the
/// report, then that element's record when it has one.
pub proof fn law_service_records_keep_order(items: Seq<JsonValue>, v: JsonValue)
    ensures
        service_records(items.push(v)) == (match service_record_of(v) {
            Some(r) => service_records(items).push(r),
            None => service_records(items),
        }),
        service_records(seq![]) == Seq::<ServiceRecord>::empty(),
{
    assert(items.push(v).drop_last() =~= items);
}

/// Every feature record with a usable key is kept, in report order, and nothing
/// else: the records of a report followed by one more element are those of the
/// report, then that element's record when it has one.
pub proof fn law_feature_records_keep_order(items: Seq<JsonValue>, v: JsonValue)
    ensures
        feature_records(items.push(v)) == (match feature_record_of(v) {
            Some(r) => feature_records(items).push(r),
            None => feature_records(items),
        }),
        feature_records(seq![]) == Seq::<FeatureRecord>::empty(),
{
    assert(items.push(v).drop_last() =~= items);
}

/// Every folder record with a usable key is kept, in report order, and nothing
/// else: the records of a report followed by one more element are those of the
/// report, then that element's record when it has one.
pub proof fn law_folder_records_keep_order(items: Seq<JsonValue>, v: JsonValue)
    ensures
        folder_records(items.push(v)) == (match folder_record_of(v) {
            Some(r) => folder_records(items).push(r),
            None => folder_records(items),
        }),
        folder_records(seq![]) == Seq::<FolderRecord>::empty(),
{
    assert(items.push(v).drop_last() =~= items);
}

} // verus!
