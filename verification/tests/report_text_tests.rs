use obsidian::hardware::GpuInfo;
use obsidian::reporting::{
    decimal, report_baseline, report_counts, report_gpu_lines, report_header, report_rollback,
    report_validation,
};
use obsidian::validation::ValidationCheck;

#[test]
fn decimal_numerals() {
    assert_eq!(decimal(0), "0");
    assert_eq!(decimal(7), "7");
    assert_eq!(decimal(10), "10");
    assert_eq!(decimal(22631), "22631");
    assert_eq!(decimal(u64::MAX), "18446744073709551615");
}

#[test]
fn header_names_time_and_profile() {
    let h = report_header("2024-01-01 10:00:00", "Gaming");
    assert_eq!(
        h,
        "# Project Obsidian — Execution & Optimization Report\n\n**Generated:** 2024-01-01 10:00:00\n**Applied Profile:** Gaming\n\n"
    );
}

#[test]
fn baseline_lists_os_and_processor() {
    let b = report_baseline("Microsoft Windows 11 Pro", 22631, "AMD Ryzen 9 7950X", 16);
    assert_eq!(
        b,
        "## 1. System Baseline\n- **OS:** Microsoft Windows 11 Pro (Build 22631)\n- **Processor:** AMD Ryzen 9 7950X (16 Cores)\n"
    );
}

#[test]
fn gpu_lines_one_per_adapter() {
    let gpus = vec![
        GpuInfo { name: "NVIDIA GeForce RTX 4090".to_string(), driver_version: "31.0.15.5222".to_string(), is_nvidia: true },
        GpuInfo { name: "Intel UHD 770".to_string(), driver_version: "31.0.101.4502".to_string(), is_nvidia: false },
    ];
    assert_eq!(
        report_gpu_lines(&gpus),
        "- **Graphics:** NVIDIA GeForce RTX 4090 (Driver 31.0.15.5222)\n- **Graphics:** Intel UHD 770 (Driver 31.0.101.4502)\n"
    );
    assert_eq!(report_gpu_lines(&Vec::new()), "");
}

#[test]
fn validation_table_marks_each_check() {
    let checks = vec![
        ValidationCheck {
            component: "Windows Update".to_string(),
            category: "Updates".to_string(),
            status: "Running".to_string(),
            passed: true,
            details: "ok".to_string(),
        },
        ValidationCheck {
            component: "Defender".to_string(),
            category: "Security".to_string(),
            status: "Stopped".to_string(),
            passed: false,
            details: "service stopped".to_string(),
        },
    ];
    assert_eq!(
        report_validation(&checks),
        "## 2. Validation & Subsystem Health\n\n| Component | Category | Status | Details |\n| :--- | :--- | :--- | :--- |\n| Windows Update | Updates | HEALTHY | ok |\n| Defender | Security | FAILED | service stopped |\n\n"
    );
}

#[test]
fn counts_lines() {
    assert_eq!(report_counts(312, 4096), "- **Active Processes:** 312\n- **Active Threads:** 4096\n");
}

#[test]
fn rollback_section_names_restore_command() {
    let r = report_rollback();
    assert!(r.starts_with("## 4. Rollback Readiness\n\n"));
    assert!(r.contains("obsidian restore"));
    assert!(r.ends_with("```\n"));
}
