use obsidian::hardware::{any_nvidia, gpus_from_output, nvidia_name, CpuIdentity, GpuInfo};
use obsidian::validation::{all_passed, checks_from_output, validation_command, ValidationCheck};
use obsidian::windows::{admin_from_output, edition_from_caption, elevation_command, WindowsInfo};

#[test]
fn validation_matrix_from_list() {
    let out = r#"[{"Component":"Windows Update","Category":"Security","Status":"Running","Passed":true,"Details":"ok"},
                 {"Component":"Defender","Category":"Security","Passed":"yes","Details":7}]"#;
    let checks = checks_from_output(out);
    assert_eq!(checks.len(), 2);
    assert_eq!(checks[0].component, "Windows Update");
    assert_eq!(checks[0].status, "Running");
    assert!(checks[0].passed);
    assert_eq!(checks[1].status, "");
    assert!(!checks[1].passed);
    assert_eq!(checks[1].details, "");
    assert!(!all_passed(&checks));
    let first: Vec<ValidationCheck> = checks.into_iter().take(1).collect();
    assert!(all_passed(&first));
}

#[test]
fn validation_matrix_single_object_or_garbage_is_empty() {
    assert!(checks_from_output(r#"{"Component":"x","Passed":true}"#).is_empty());
    assert!(checks_from_output("not json").is_empty());
    assert!(checks_from_output("").is_empty());
    assert!(all_passed(&Vec::new()));
}

#[test]
fn gpu_list_and_single_adapter() {
    let list = gpus_from_output(r#"[{"Name":"NVIDIA GeForce RTX 4090","DriverVersion":"31.0.15.5222"},{"Name":"Intel(R) UHD Graphics"}]"#);
    assert_eq!(list.len(), 2);
    assert!(list[0].is_nvidia);
    assert_eq!(list[0].driver_version, "31.0.15.5222");
    assert!(!list[1].is_nvidia);
    assert_eq!(list[1].driver_version, "");
    assert!(any_nvidia(&list));

    let single = gpus_from_output(r#"{"Name":"AMD Radeon RX 7900","DriverVersion":"1.0"}"#);
    assert_eq!(single.len(), 1);
    assert!(!single[0].is_nvidia);
    assert!(!any_nvidia(&single));

    assert!(gpus_from_output("42").is_empty());
    assert!(gpus_from_output("{oops").is_empty());
}

#[test]
fn nvidia_names_ignore_case() {
    assert!(nvidia_name("nvidia quadro"));
    assert!(nvidia_name("GEFORCE GTX 1080"));
    assert!(!nvidia_name("Radeon"));
    let g = GpuInfo { name: "x".to_string(), driver_version: String::new(), is_nvidia: false };
    assert!(!any_nvidia(&vec![g]));
}

#[test]
fn cpu_identity() {
    let amd = CpuIdentity::from_brand(Some("AMD Ryzen 9 7950X".to_string()));
    assert!(amd.is_amd && !amd.is_intel);
    let intel = CpuIdentity::from_brand(Some("13th Gen Intel(R) Core(TM) i9".to_string()));
    assert!(intel.is_intel && !intel.is_amd);
    let none = CpuIdentity::from_brand(None);
    assert_eq!(none.brand, "Unknown Processor");
    assert!(!none.is_amd && !none.is_intel);
}

#[test]
fn windows_record_parsing() {
    let w = WindowsInfo::from_output(
        r#"{"Caption":"Microsoft Windows 11 Enterprise","Version":"10.0.22631","BuildNumber":"22631"}"#,
        true,
    );
    assert_eq!(w.caption, "Microsoft Windows 11 Enterprise");
    assert_eq!(w.version, "10.0.22631");
    assert_eq!(w.build_number, 22631);
    assert!(w.is_win11);
    assert!(w.is_admin);
    assert_eq!(w.edition, "Enterprise");

    let old = WindowsInfo::from_output(r#"{"Caption":"Microsoft Windows 10 Home","BuildNumber":"19045"}"#, false);
    assert_eq!(old.build_number, 19045);
    assert!(!old.is_win11);
    assert_eq!(old.version, "10.0");
    assert_eq!(old.edition, "Home");

    let bad = WindowsInfo::from_output(r#"{"BuildNumber":"abc"}"#, false);
    assert_eq!(bad.build_number, 22631);
    assert_eq!(bad.caption, "Windows 11");
    assert_eq!(bad.edition, "Pro");

    let none = WindowsInfo::from_output("", false);
    assert_eq!(none.build_number, 22631);
    assert!(none.is_win11);
}

#[test]
fn editions_and_admin_flag() {
    assert_eq!(edition_from_caption("Microsoft Windows 11 Pro"), "Pro");
    assert_eq!(edition_from_caption("Windows 11 Pro for Workstations Enterprise"), "Pro");
    assert_eq!(edition_from_caption("Windows 11 Education"), "Pro");
    assert!(admin_from_output(Some("True\r\n")));
    assert!(admin_from_output(Some("  TRUE ")));
    assert!(!admin_from_output(Some("False")));
    assert!(!admin_from_output(None));
    assert_eq!(elevation_command("C:\\o.exe"), "Start-Process -FilePath 'C:\\o.exe' -Verb RunAs");
}

#[test]
fn validation_command_loads_script() {
    assert_eq!(
        validation_command("C:\\obsidian\\powershell\\Validation.ps1"),
        ". 'C:\\obsidian\\powershell\\Validation.ps1'; Test-ObsidianHealth | ConvertTo-Json"
    );
}
