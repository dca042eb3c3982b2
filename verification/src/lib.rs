//! Verified core of the Obsidian Windows 11 workstation optimiser: profile
//! selection and the plan of an `apply`, language state, decisions of the
//! command line front end, the commands each module runs and how their results
//! are judged, parsing of the PowerShell reports the tool consumes, snapshot
//! naming and rollback planning, and the text of the execution report.

pub mod benchmark;
pub mod cli;
pub mod embedded;
pub mod hardware;
pub mod i18n;
pub mod json;
pub mod modules;
pub mod profiles;
pub mod reporting;
pub mod rollback;
pub mod snapshot;
pub mod text;
pub mod validation;
pub mod windows;
