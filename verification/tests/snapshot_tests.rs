use obsidian::json::JsonNode;
use obsidian::rollback::restore_args;
use obsidian::snapshot::{
    is_snapshot_file_name, latest_snapshot, registry_items_from_output, service_items_from_output,
    snapshot_file_name, sorts_before, task_items_from_output,
};

#[test]
fn registry_capture_parsing() {
    let out = r#"[{"Path":"HKCU:\\Software\\Microsoft\\GameBar","Name":"AllowAutoGameMode","Data":{"Exists":true,"Value":1,"Type":"DWord"}},
                 {"Path":"HKCU:\\System\\GameConfigStore","Name":"GameDVR_Enabled","Data":{"Exists":false,"Value":null,"Type":null}},
                 {"Path":"","Name":"Skipped","Data":{}},
                 {"Path":"HKCU:\\X","Name":"Nested","Data":{"Exists":true,"Value":[1,"two",{"k":false}],"Type":"MultiString"}}]"#;
    let items = registry_items_from_output(out);
    assert_eq!(items.len(), 3);
    assert_eq!(items[0].path, "HKCU:\\Software\\Microsoft\\GameBar");
    assert_eq!(items[0].name, "AllowAutoGameMode");
    assert!(items[0].previous_exists);
    assert!(matches!(&items[0].previous_value, Some(JsonNode::Number(n)) if n == "1"));
    assert_eq!(items[0].previous_type.as_deref(), Some("DWord"));
    assert!(!items[1].previous_exists);
    assert!(items[1].previous_value.is_none());
    assert!(items[1].previous_type.is_none());
    match &items[2].previous_value {
        Some(JsonNode::Array(a)) => {
            assert_eq!(a.len(), 3);
            assert!(matches!(&a[1], JsonNode::Text(t) if t == "two"));
            assert!(matches!(&a[2], JsonNode::Object(m) if m.len() == 1 && m[0].0 == "k" && matches!(m[0].1, JsonNode::Bool(false))));
        }
        other => panic!("unexpected {:?}", other),
    }
}

#[test]
fn registry_capture_single_object_and_garbage() {
    let one = registry_items_from_output(r#"{"Path":"HKCU:\\A","Name":"B","Data":{"Exists":true}}"#);
    assert_eq!(one.len(), 1);
    assert!(matches!(one[0].previous_value, Some(JsonNode::Null)));
    assert!(registry_items_from_output("").is_empty());
    assert!(registry_items_from_output("[]").is_empty());
}

#[test]
fn service_capture_parsing() {
    let out = r#"[{"Name":"DiagTrack","StartupType":"Automatic","Status":"Running"},{"Name":"WerSvc"},{"Status":"Stopped"}]"#;
    let items = service_items_from_output(out);
    assert_eq!(items.len(), 2);
    assert_eq!(items[0].previous_startup, "Automatic");
    assert_eq!(items[0].previous_status, "Running");
    assert_eq!(items[1].name, "WerSvc");
    assert_eq!(items[1].previous_startup, "Unknown");
    assert_eq!(items[1].previous_status, "Unknown");
    let single = service_items_from_output(r#"{"Name":"MapsBroker","StartupType":"Manual","Status":"Stopped"}"#);
    assert_eq!(single.len(), 1);
    assert_eq!(single[0].name, "MapsBroker");
}

#[test]
fn task_capture_parsing() {
    let out = r#"[{"TaskPath":"\\Microsoft\\Windows\\Application Experience\\","TaskName":"ProgramDataUpdater","State":"Ready"},
                 {"TaskName":"UsbCeip"},{"TaskPath":"\\X\\","State":"Ready"}]"#;
    let items = task_items_from_output(out);
    assert_eq!(items.len(), 2);
    assert_eq!(items[0].path, "\\Microsoft\\Windows\\Application Experience\\");
    assert_eq!(items[0].previous_state, "Ready");
    assert_eq!(items[1].path, "");
    assert_eq!(items[1].previous_state, "Unknown");
}

#[test]
fn snapshot_names_round_trip() {
    let name = snapshot_file_name("20260829-101500");
    assert_eq!(name, "snapshot-20260829-101500.json");
    assert!(is_snapshot_file_name(&name));
    assert!(!is_snapshot_file_name("report.json"));
    assert!(!is_snapshot_file_name("snapshot-1.json.bak"));
    assert!(!is_snapshot_file_name("Snapshot-1.json"));
}

#[test]
fn latest_snapshot_is_the_newest_stamp() {
    let names: Vec<String> = vec![
        "snapshot-20260101-090000.json",
        "report.md",
        "snapshot-20261231-235959.json",
        "snapshot-20260615-120000.json",
        "zzz.json",
    ]
    .into_iter()
    .map(String::from)
    .collect();
    assert_eq!(latest_snapshot(&names), Some(2));
    assert_eq!(latest_snapshot(&vec!["a.txt".to_string()]), None);
    assert_eq!(latest_snapshot(&Vec::new()), None);
    assert!(sorts_before("snapshot-1", "snapshot-2"));
    assert!(sorts_before("ab", "abc"));
    assert!(!sorts_before("abc", "abc"));
    assert!(!sorts_before("b", "a"));
}

#[test]
fn restore_script_arguments() {
    assert_eq!(
        restore_args(Some("C:\\state\\snapshot-1.json")),
        vec!["-NoProfile", "-ExecutionPolicy", "Bypass", "-File", "Restore-Obsidian.ps1", "-SnapshotPath", "C:\\state\\snapshot-1.json"]
    );
    assert_eq!(restore_args(None), vec!["-NoProfile", "-ExecutionPolicy", "Bypass", "-File", "Restore-Obsidian.ps1"]);
}
