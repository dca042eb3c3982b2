use obsidian::benchmark::benchmark_file_name;
use obsidian::cli::{console_relaunch_script, menu_choice, Cli, Commands, MenuChoice, ProfileType, Task};
use obsidian::i18n::{is_spanish, localized, set_language, toggle_language, LanguageSetting};

#[test]
fn menu_choices_by_number() {
    assert_eq!(menu_choice("0"), MenuChoice::Elevate);
    assert_eq!(menu_choice("1\n"), MenuChoice::Analyze);
    assert_eq!(menu_choice("  2 \r\n"), MenuChoice::Doctor);
    assert_eq!(menu_choice("3"), MenuChoice::Benchmark);
    assert_eq!(menu_choice("4"), MenuChoice::ApplyUltimate);
    assert_eq!(menu_choice("5"), MenuChoice::ApplyPrivacy);
    assert_eq!(menu_choice("6"), MenuChoice::ApplyGaming);
    assert_eq!(menu_choice("7"), MenuChoice::Validate);
    assert_eq!(menu_choice("8"), MenuChoice::Restore);
    assert_eq!(menu_choice("9"), MenuChoice::Exit);
    assert_eq!(menu_choice("q\n"), MenuChoice::Exit);
    assert_eq!(menu_choice("exit"), MenuChoice::Exit);
}

#[test]
fn menu_rejects_other_input() {
    assert_eq!(menu_choice(""), MenuChoice::Invalid);
    assert_eq!(menu_choice("10"), MenuChoice::Invalid);
    assert_eq!(menu_choice("Q"), MenuChoice::Invalid);
    assert_eq!(menu_choice("e x i t"), MenuChoice::Invalid);
}

#[test]
fn menu_commands() {
    assert!(matches!(MenuChoice::Analyze.command(), Some(Commands::Analyze)));
    match MenuChoice::Benchmark.command() {
        Some(Commands::Benchmark { label }) => assert_eq!(label, "manual"),
        other => panic!("unexpected {:?}", other),
    }
    assert!(matches!(
        MenuChoice::ApplyPrivacy.command(),
        Some(Commands::Apply { profile: ProfileType::Privacy, dry_run: false })
    ));
    assert!(matches!(MenuChoice::Restore.command(), Some(Commands::Restore { snapshot: None })));
    assert!(MenuChoice::Exit.command().is_none());
    assert!(MenuChoice::Elevate.command().is_none());
    assert!(MenuChoice::Invalid.command().is_none());
}

#[test]
fn relaunch_only_without_subcommand() {
    let bare = Cli { command: None, json: false, verbose: false, interactive_terminal: false };
    assert!(bare.wants_console_relaunch());
    let inside = Cli { command: None, json: false, verbose: false, interactive_terminal: true };
    assert!(!inside.wants_console_relaunch());
    let with_cmd = Cli { command: Some(Commands::Status), json: true, verbose: false, interactive_terminal: false };
    assert!(!with_cmd.wants_console_relaunch());
}

#[test]
fn relaunch_script_text() {
    assert_eq!(
        console_relaunch_script("C:\\obsidian.exe"),
        "Start-Process cmd.exe -ArgumentList '/c \"\"C:\\obsidian.exe\"\" --interactive-terminal' -Verb RunAs"
    );
}

#[test]
fn language_toggle_and_set() {
    let mut l = LanguageSetting::english();
    assert!(!is_spanish(&l));
    toggle_language(&mut l);
    assert!(is_spanish(&l));
    toggle_language(&mut l);
    assert!(!is_spanish(&l));
    set_language(&mut l, true);
    assert!(is_spanish(&l));
    set_language(&mut l, false);
    assert!(!is_spanish(&l));
    assert_eq!(localized(&l, "Hello", "Hola"), "Hello");
    set_language(&mut l, true);
    assert_eq!(localized(&l, "Hello", "Hola"), "Hola");
}

#[test]
fn commands_map_to_tasks() {
    assert_eq!(
        Commands::Analyze.tasks(),
        vec![Task::SystemOverview, Task::PrivacyAudit, Task::GamingAudit, Task::DeveloperAudit, Task::AiDoctor]
    );
    assert_eq!(
        Commands::Status.tasks(),
        vec![Task::SystemOverview, Task::PrivacyAudit, Task::GamingAudit, Task::DeveloperAudit]
    );
    assert_eq!(Commands::Doctor.tasks(), vec![Task::AiDoctor, Task::Validation]);
    assert_eq!(Commands::Validate.tasks(), vec![Task::Validation]);
    assert_eq!(Commands::Restore { snapshot: None }.tasks(), vec![Task::Restore]);
    assert_eq!(
        Commands::Apply { profile: ProfileType::Gaming, dry_run: true }.tasks(),
        vec![Task::ApplyProfile]
    );
    assert_eq!(Commands::Export { output: "r.md".to_string() }.tasks(), vec![Task::ExportReport]);
    assert_eq!(Commands::Benchmark { label: "x".to_string() }.tasks(), vec![Task::Benchmark]);
}

#[test]
fn analyze_applies_nothing() {
    for t in Commands::Analyze.tasks() {
        assert!(t != Task::ApplyProfile && t != Task::Restore);
    }
}

#[test]
fn benchmark_file_names() {
    assert_eq!(benchmark_file_name("manual"), "benchmark-manual.json");
    assert_eq!(benchmark_file_name(""), "benchmark-.json");
}

#[test]
fn json_mode_prints_status_document_only() {
    let status = Cli { command: Some(Commands::Status), json: true, verbose: false, interactive_terminal: false };
    assert!(status.status_as_json());
    assert!(!status.shows_banner());
    let plain = Cli { command: Some(Commands::Status), json: false, verbose: false, interactive_terminal: false };
    assert!(!plain.status_as_json());
    assert!(plain.shows_banner());
    let analyze = Cli { command: Some(Commands::Analyze), json: true, verbose: false, interactive_terminal: false };
    assert!(!analyze.status_as_json());
    let menu = Cli { command: None, json: true, verbose: false, interactive_terminal: false };
    assert!(!menu.status_as_json());
}
