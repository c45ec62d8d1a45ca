use mash::tui::screen::{build_step_sidebar, expected_actions};
use mash::tui::steps::{is_step_before, InstallStepType};

#[test]
fn sidebar_marks_current_and_earlier_steps() {
    let sidebar = build_step_sidebar(InstallStepType::DiskSelection);
    let lines: Vec<&str> = sidebar.lines().collect();
    assert_eq!(lines.len(), 16);
    assert_eq!(lines[0], "✓ Welcome");
    assert_eq!(lines[3], "✓ Image Source");
    assert_eq!(lines[4], "▶ Select Disk");
    assert_eq!(lines[5], "  Confirm Disk");
    assert_eq!(lines[15], "  Complete!");
}

#[test]
fn sidebar_for_a_step_outside_the_flow_marks_nothing_done() {
    let sidebar = build_step_sidebar(InstallStepType::BackupConfirmation);
    assert!(sidebar.lines().all(|l| l.starts_with("  ")));
}

#[test]
fn key_legend_per_step() {
    assert_eq!(expected_actions(InstallStepType::DiskConfirmation), "Type DESTROY, Enter, Esc, q");
    assert_eq!(expected_actions(InstallStepType::Complete), "Enter to exit");
    assert_eq!(expected_actions(InstallStepType::EfiImage), "Up/Down/Tab, Type, Backspace, Enter, Esc, q");
}

#[test]
fn step_order_is_strict() {
    assert!(is_step_before(InstallStepType::Welcome, InstallStepType::Complete));
    assert!(!is_step_before(InstallStepType::Complete, InstallStepType::Welcome));
    assert!(!is_step_before(InstallStepType::Options, InstallStepType::Options));
    assert!(!is_step_before(InstallStepType::FirstBootUser, InstallStepType::Complete));
}
