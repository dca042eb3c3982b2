//! The command line: its commands, the interactive menu, and the decisions the
//! front end takes before it touches the system.

use vstd::prelude::*;
use crate::text::{trim, text_eq, trimmed};

verus! {

/// The optimisation profiles a user can apply.
#[derive(Clone, Copy, Debug, PartialEq, Eq, Structural, PartialOrd, Ord)]
pub enum ProfileType {
    /// Strict privacy hardening, telemetry reduction, and ad blocking
    Privacy,
    /// Low-latency gaming optimizations without breaking anticheats
    Gaming,
    /// AI developer acceleration (CUDA, WSL2, Docker, Tensor Cores)
    Ai,
    /// General developer workstation configuration
    Developer,
    /// Unified combination of all safe profiles
    Ultimate,
}

/// The sub-commands of the `obsidian` program.
#[derive(Debug)]
pub enum Commands {
    /// Perform a non-destructive dry-run analysis of the current system
    Analyze,
    /// Audit AI runtimes, CUDA, WSL2, Docker, and gaming prerequisites
    Doctor,
    /// Apply optimization profile to Windows 11
    Apply { profile: ProfileType, dry_run: bool },
    /// Measure system performance (RAM, CPU, Processes, Threads, Latency)
    Benchmark { label: String },
    /// Execute post-flight validation to ensure zero system breakage
    Validate,
    /// Revert system to exact state captured before Obsidian was applied
    Restore { snapshot: Option<String> },
    /// Display current privacy, gaming, and AI readiness status
    Status,
    /// Export comprehensive diagnostic and configuration report
    Export { output: String },
}

/// The parsed command line.
#[derive(Debug)]
pub struct Cli {
    pub command: Option<Commands>,
    /// Output in JSON format for automated pipelines
    pub json: bool,
    /// Verbose diagnostic output
    pub verbose: bool,
    /// Set when the program was started inside the elevated console it opened itself
    pub interactive_terminal: bool,
}

impl Cli {
    /// Whether a start without a sub-command, outside the console the program opens
    /// itself, asks to re-open the program in an elevated console (when the user is
    /// no administrator).
    pub fn wants_console_relaunch(&self) -> (r: bool)
        ensures
            r == (self.command is None && !self.interactive_terminal),
    {
        self.command.is_none() && !self.interactive_terminal
    }

    /// Whether the banner is printed: not in JSON mode, whose output is meant
    /// for other programs.
    pub fn shows_banner(&self) -> (r: bool)
        ensures
            r == !self.json,
    {
        !self.json
    }

    /// Whether the run prints the system status as one JSON document (with its
    /// `os` and `cpu` members) in place of the human-readable audits.
    pub fn status_as_json(&self) -> (r: bool)
        ensures
            r == (self.json && self.command matches Some(Commands::Status)),
    {
        self.json && match &self.command {
            Some(Commands::Status) => true,
            _ => false,
        }
    }
}

/// The PowerShell command that re-opens `exe` in an elevated console with the
/// interactive menu.
pub fn console_relaunch_script(exe: &str) -> (r: String)
    ensures
        r@ == "Start-Process cmd.exe -ArgumentList '/c \"\""@ + exe@
            + "\"\" --interactive-terminal' -Verb RunAs"@,
{
    let mut r = String::from_str("Start-Process cmd.exe -ArgumentList '/c \"\"");
    r.append(exe);
    r.append("\"\" --interactive-terminal' -Verb RunAs");
    r
}

/// The entries of the interactive menu.
#[derive(Clone, Copy, Debug, PartialEq, Eq, Structural)]
pub enum MenuChoice {
    Elevate,
    Analyze,
    Doctor,
    Benchmark,
    ApplyUltimate,
    ApplyPrivacy,
    ApplyGaming,
    Validate,
    Restore,
    Exit,
    Invalid,
}

/// The entry that a (trimmed) answer selects.
pub open spec fn choice_for(t: Seq<char>) -> MenuChoice {
    if t == "0"@ {
        MenuChoice::Elevate
    } else if t == "1"@ {
        MenuChoice::Analyze
    } else if t == "2"@ {
        MenuChoice::Doctor
    } else if t == "3"@ {
        MenuChoice::Benchmark
    } else if t == "4"@ {
        MenuChoice::ApplyUltimate
    } else if t == "5"@ {
        MenuChoice::ApplyPrivacy
    } else if t == "6"@ {
        MenuChoice::ApplyGaming
    } else if t == "7"@ {
        MenuChoice::Validate
    } else if t == "8"@ {
        MenuChoice::Restore
    } else if t == "9"@ || t == "q"@ || t == "exit"@ {
        MenuChoice::Exit
    } else {
        MenuChoice::Invalid
    }
}

/// The menu entry a line typed by the user selects (surrounding white space ignored).
pub fn menu_choice(input: &str) -> (r: MenuChoice)
    ensures
        r == choice_for(trimmed(input@)),
{
    let t = trim(input);
    if text_eq(t, "0") {
        MenuChoice::Elevate
    } else if text_eq(t, "1") {
        MenuChoice::Analyze
    } else if text_eq(t, "2") {
        MenuChoice::Doctor
    } else if text_eq(t, "3") {
        MenuChoice::Benchmark
    } else if text_eq(t, "4") {
        MenuChoice::ApplyUltimate
    } else if text_eq(t, "5") {
        MenuChoice::ApplyPrivacy
    } else if text_eq(t, "6") {
        MenuChoice::ApplyGaming
    } else if text_eq(t, "7") {
        MenuChoice::Validate
    } else if text_eq(t, "8") {
        MenuChoice::Restore
    } else if text_eq(t, "9") || text_eq(t, "q") || text_eq(t, "exit") {
        MenuChoice::Exit
    } else {
        MenuChoice::Invalid
    }
}

impl MenuChoice {
    /// The command a menu entry runs; the elevation, exit and invalid entries run none.
    pub fn command(self) -> (r: Option<Commands>)
        ensures
            match self {
                MenuChoice::Analyze => r matches Some(Commands::Analyze),
                MenuChoice::Doctor => r matches Some(Commands::Doctor),
                MenuChoice::Benchmark => r matches Some(Commands::Benchmark { label })
                    && label@ == "manual"@,
                MenuChoice::ApplyUltimate => r matches Some(
                    Commands::Apply { profile: ProfileType::Ultimate, dry_run: false },
                ),
                MenuChoice::ApplyPrivacy => r matches Some(
                    Commands::Apply { profile: ProfileType::Privacy, dry_run: false },
                ),
                MenuChoice::ApplyGaming => r matches Some(
                    Commands::Apply { profile: ProfileType::Gaming, dry_run: false },
                ),
                MenuChoice::Validate => r matches Some(Commands::Validate),
                MenuChoice::Restore => r matches Some(Commands::Restore { snapshot: None }),
                _ => r is None,
            },
    {
        match self {
            MenuChoice::Analyze => Some(Commands::Analyze),
            MenuChoice::Doctor => Some(Commands::Doctor),
            MenuChoice::Benchmark => Some(Commands::Benchmark { label: String::from_str("manual") }),
            MenuChoice::ApplyUltimate => Some(
                Commands::Apply { profile: ProfileType::Ultimate, dry_run: false },
            ),
            MenuChoice::ApplyPrivacy => Some(
                Commands::Apply { profile: ProfileType::Privacy, dry_run: false },
            ),
            MenuChoice::ApplyGaming => Some(
                Commands::Apply { profile: ProfileType::Gaming, dry_run: false },
            ),
            MenuChoice::Validate => Some(Commands::Validate),
            MenuChoice::Restore => Some(Commands::Restore { snapshot: None }),
            _ => None,
        }
    }
}

/// A piece of work that a command does.
#[derive(Clone, Copy, Debug, PartialEq, Eq, Structural)]
pub enum Task {
    SystemOverview,
    PrivacyAudit,
    GamingAudit,
    DeveloperAudit,
    AiDoctor,
    Validation,
    Benchmark,
    Restore,
    ApplyProfile,
    ExportReport,
}

/// Whether a task changes the system's configuration.
pub open spec fn changes_system(t: Task) -> bool {
    t == Task::Restore || t == Task::ApplyProfile
}

/// The work of each command, in order.
pub open spec fn tasks_spec(c: Commands) -> Seq<Task> {
    match c {
        Commands::Status => seq![
            Task::SystemOverview,
            Task::PrivacyAudit,
            Task::GamingAudit,
            Task::DeveloperAudit,
        ],
        Commands::Analyze => seq![
            Task::SystemOverview,
            Task::PrivacyAudit,
            Task::GamingAudit,
            Task::DeveloperAudit,
            Task::AiDoctor,
        ],
        Commands::Doctor => seq![Task::AiDoctor, Task::Validation],
        Commands::Benchmark { .. } => seq![Task::Benchmark],
        Commands::Validate => seq![Task::Validation],
        Commands::Restore { .. } => seq![Task::Restore],
        Commands::Apply { .. } => seq![Task::ApplyProfile],
        Commands::Export { .. } => seq![Task::ExportReport],
    }
}

impl Commands {
    /// The work this command does, in order.
    pub fn tasks(&self) -> (r: Vec<Task>)
        ensures
            r@ == tasks_spec(*self),
    {
        let r = match self {
            Commands::Status => vec![
                Task::SystemOverview,
                Task::PrivacyAudit,
                Task::GamingAudit,
                Task::DeveloperAudit,
            ],
            Commands::Analyze => vec![
                Task::SystemOverview,
                Task::PrivacyAudit,
                Task::GamingAudit,
                Task::DeveloperAudit,
                Task::AiDoctor,
            ],
            Commands::Doctor => vec![Task::AiDoctor, Task::Validation],
            Commands::Benchmark { .. } => vec![Task::Benchmark],
            Commands::Validate => vec![Task::Validation],
            Commands::Restore { .. } => vec![Task::Restore],
            Commands::Apply { .. } => vec![Task::ApplyProfile],
            Commands::Export { .. } => vec![Task::ExportReport],
        };
        assert(r@ =~= tasks_spec(*self));
        r
    }
}

/// `analyze` audits the system without making any change, and so do `status`,
/// `doctor` and `validate`: none of their tasks changes the configuration.
pub proof fn law_audits_change_nothing(c: Commands)
    requires
        c is Analyze || c is Status || c is Doctor || c is Validate,
    ensures
        forall|i: int| 0 <= i < tasks_spec(c).len() ==> !changes_system(#[trigger] tasks_spec(c)[i]),
{
}

/// The menu's numbers: 0 elevates, 1 analyses, 2 runs the doctor, 3 the
/// benchmark, 4, 5 and 6 apply the Ultimate, Privacy and Gaming profiles, 7
/// validates, 8 restores, and 9, `q` or `exit` leaves; anything else is no
/// choice.
#[verifier::rlimit(40)]
pub proof fn law_menu_numbers(t: Seq<char>)
    ensures
        choice_for("0"@) == MenuChoice::Elevate,
        choice_for("1"@) == MenuChoice::Analyze,
        choice_for("2"@) == MenuChoice::Doctor,
        choice_for("3"@) == MenuChoice::Benchmark,
        choice_for("4"@) == MenuChoice::ApplyUltimate,
        choice_for("5"@) == MenuChoice::ApplyPrivacy,
        choice_for("6"@) == MenuChoice::ApplyGaming,
        choice_for("7"@) == MenuChoice::Validate,
        choice_for("8"@) == MenuChoice::Restore,
        choice_for("9"@) == MenuChoice::Exit,
        choice_for("q"@) == MenuChoice::Exit,
        choice_for("exit"@) == MenuChoice::Exit,
        t != "0"@ && t != "1"@ && t != "2"@ && t != "3"@ && t != "4"@ && t != "5"@ && t != "6"@ && t != "7"@
            && t != "8"@ && t != "9"@ && t != "q"@ && t != "exit"@ ==> choice_for(t) == MenuChoice::Invalid,
{
    reveal_strlit("0");
    reveal_strlit("1");
    reveal_strlit("2");
    reveal_strlit("3");
    reveal_strlit("4");
    reveal_strlit("5");
    reveal_strlit("6");
    reveal_strlit("7");
    reveal_strlit("8");
    reveal_strlit("9");
    reveal_strlit("q");
    reveal_strlit("exit");
    assert("1"@[0] != "0"@[0]);
    assert("2"@[0] != "0"@[0]);
    assert("2"@[0] != "1"@[0]);
    assert("3"@[0] != "0"@[0]);
    assert("3"@[0] != "1"@[0]);
    assert("3"@[0] != "2"@[0]);
    assert("4"@[0] != "0"@[0]);
    assert("4"@[0] != "1"@[0]);
    assert("4"@[0] != "2"@[0]);
    assert("4"@[0] != "3"@[0]);
    assert("5"@[0] != "0"@[0]);
    assert("5"@[0] != "1"@[0]);
    assert("5"@[0] != "2"@[0]);
    assert("5"@[0] != "3"@[0]);
    assert("5"@[0] != "4"@[0]);
    assert("6"@[0] != "0"@[0]);
    assert("6"@[0] != "1"@[0]);
    assert("6"@[0] != "2"@[0]);
    assert("6"@[0] != "3"@[0]);
    assert("6"@[0] != "4"@[0]);
    assert("6"@[0] != "5"@[0]);
    assert("7"@[0] != "0"@[0]);
    assert("7"@[0] != "1"@[0]);
    assert("7"@[0] != "2"@[0]);
    assert("7"@[0] != "3"@[0]);
    assert("7"@[0] != "4"@[0]);
    assert("7"@[0] != "5"@[0]);
    assert("7"@[0] != "6"@[0]);
    assert("8"@[0] != "0"@[0]);
    assert("8"@[0] != "1"@[0]);
    assert("8"@[0] != "2"@[0]);
    assert("8"@[0] != "3"@[0]);
    assert("8"@[0] != "4"@[0]);
    assert("8"@[0] != "5"@[0]);
    assert("8"@[0] != "6"@[0]);
    assert("8"@[0] != "7"@[0]);
    assert("9"@[0] != "0"@[0]);
    assert("9"@[0] != "1"@[0]);
    assert("9"@[0] != "2"@[0]);
    assert("9"@[0] != "3"@[0]);
    assert("9"@[0] != "4"@[0]);
    assert("9"@[0] != "5"@[0]);
    assert("9"@[0] != "6"@[0]);
    assert("9"@[0] != "7"@[0]);
    assert("9"@[0] != "8"@[0]);
    assert("q"@[0] != "0"@[0]);
    assert("q"@[0] != "1"@[0]);
    assert("q"@[0] != "2"@[0]);
    assert("q"@[0] != "3"@[0]);
    assert("q"@[0] != "4"@[0]);
    assert("q"@[0] != "5"@[0]);
    assert("q"@[0] != "6"@[0]);
    assert("q"@[0] != "7"@[0]);
    assert("q"@[0] != "8"@[0]);
    assert("q"@[0] != "9"@[0]);
    assert("exit"@[0] != "0"@[0]);
    assert("exit"@[0] != "1"@[0]);
    assert("exit"@[0] != "2"@[0]);
    assert("exit"@[0] != "3"@[0]);
    assert("exit"@[0] != "4"@[0]);
    assert("exit"@[0] != "5"@[0]);
    assert("exit"@[0] != "6"@[0]);
    assert("exit"@[0] != "7"@[0]);
    assert("exit"@[0] != "8"@[0]);
    assert("exit"@[0] != "9"@[0]);
    assert("exit"@[0] != "q"@[0]);
}

/// `status` audits privacy, gaming and developer tooling after the system
/// overview; `analyze` does the same and adds the AI doctor; `doctor` runs the
/// AI doctor and then validation; every other command does its own one task.
pub proof fn law_command_tasks(label: String, profile: ProfileType, dry_run: bool, snapshot: Option<String>, output: String)
    ensures
        tasks_spec(Commands::Status) == seq![
            Task::SystemOverview,
            Task::PrivacyAudit,
            Task::GamingAudit,
            Task::DeveloperAudit,
        ],
        tasks_spec(Commands::Analyze) == tasks_spec(Commands::Status).push(Task::AiDoctor),
        tasks_spec(Commands::Doctor) == seq![Task::AiDoctor, Task::Validation],
        tasks_spec(Commands::Validate) == seq![Task::Validation],
        tasks_spec(Commands::Benchmark { label }) == seq![Task::Benchmark],
        tasks_spec(Commands::Restore { snapshot }) == seq![Task::Restore],
        tasks_spec(Commands::Apply { profile, dry_run }) == seq![Task::ApplyProfile],
        tasks_spec(Commands::Export { output }) == seq![Task::ExportReport],
{
    assert(tasks_spec(Commands::Analyze) =~= tasks_spec(Commands::Status).push(Task::AiDoctor));
}

} // verus!
