//! Text of the Dojo screen that depends on the step alone: the sidebar of
//! steps and the key legend.
use crate::text::push_str;
use crate::tui::steps::{is_step_before, step_before, InstallStepType};
use vstd::prelude::*;

verus! {

/// The keys each step reacts to, as the legend lists them.
pub open spec fn expected_actions_spec(step: InstallStepType) -> Seq<char> {
    match step {
        InstallStepType::BackupConfirmation => "Up/Down, Y/N, Enter, Esc, q"@,
        InstallStepType::Flashing => "Enter when complete, C to cancel, q"@,
        InstallStepType::Complete => "Enter to exit"@,
        InstallStepType::DiskConfirmation => "Type DESTROY, Enter, Esc, q"@,
        InstallStepType::DownloadingFedora | InstallStepType::DownloadingUefi => "Up/Down, Enter, Esc, q"@,
        InstallStepType::Options => "Up/Down, Space/Enter, Esc, q"@,
        InstallStepType::Welcome => "Up/Down, Enter, q"@,
        InstallStepType::PartitionLayout => "Up/Down/Tab, Enter/Y (accept), M (manual), Esc, q"@,
        InstallStepType::PartitionScheme => "Up/Down/Tab, Enter, Esc, q"@,
        InstallStepType::PartitionCustomize => "Up/Down/Tab, Type, Backspace, R, Enter, Esc, q"@,
        InstallStepType::PlanReview => "Enter, Esc, q"@,
        InstallStepType::Confirmation => "Enter, Esc, q"@,
        InstallStepType::ExecuteConfirmationGate => "Type EXACT phrase, Enter, Esc, q"@,
        InstallStepType::DisarmSafeMode => "Type DESTROY, Enter, Esc, q"@,
        InstallStepType::DiskSelection | InstallStepType::ImageSelection | InstallStepType::VariantSelection
        | InstallStepType::LocaleSelection | InstallStepType::FirstBootUser => "Up/Down/Tab, Enter, Esc, q"@,
        InstallStepType::DownloadSourceSelection | InstallStepType::EfiImage =>
            "Up/Down/Tab, Type, Backspace, Enter, Esc, q"@,
    }
}

pub fn expected_actions(step: InstallStepType) -> (r: &'static str)
    ensures
        r@ == expected_actions_spec(step),
{
    match step {
        InstallStepType::BackupConfirmation => "Up/Down, Y/N, Enter, Esc, q",
        InstallStepType::Flashing => "Enter when complete, C to cancel, q",
        InstallStepType::Complete => "Enter to exit",
        InstallStepType::DiskConfirmation => "Type DESTROY, Enter, Esc, q",
        InstallStepType::DownloadingFedora | InstallStepType::DownloadingUefi => "Up/Down, Enter, Esc, q",
        InstallStepType::Options => "Up/Down, Space/Enter, Esc, q",
        InstallStepType::Welcome => "Up/Down, Enter, q",
        InstallStepType::PartitionLayout => "Up/Down/Tab, Enter/Y (accept), M (manual), Esc, q",
        InstallStepType::PartitionScheme => "Up/Down/Tab, Enter, Esc, q",
        InstallStepType::PartitionCustomize => "Up/Down/Tab, Type, Backspace, R, Enter, Esc, q",
        InstallStepType::PlanReview => "Enter, Esc, q",
        InstallStepType::Confirmation => "Enter, Esc, q",
        InstallStepType::ExecuteConfirmationGate => "Type EXACT phrase, Enter, Esc, q",
        InstallStepType::DisarmSafeMode => "Type DESTROY, Enter, Esc, q",
        InstallStepType::DiskSelection | InstallStepType::ImageSelection | InstallStepType::VariantSelection
        | InstallStepType::LocaleSelection | InstallStepType::FirstBootUser => "Up/Down/Tab, Enter, Esc, q",
        InstallStepType::DownloadSourceSelection | InstallStepType::EfiImage =>
            "Up/Down/Tab, Type, Backspace, Enter, Esc, q",
    }
}

/// The steps the sidebar lists, with their labels.
pub open spec fn sidebar_steps() -> Seq<(InstallStepType, Seq<char>)> {
    seq![
        (InstallStepType::Welcome, "Welcome"@),
        (InstallStepType::ImageSelection, "Select OS"@),
        (InstallStepType::VariantSelection, "Select Flavour"@),
        (InstallStepType::DownloadSourceSelection, "Image Source"@),
        (InstallStepType::DiskSelection, "Select Disk"@),
        (InstallStepType::DiskConfirmation, "Confirm Disk"@),
        (InstallStepType::PartitionScheme, "Partition Scheme"@),
        (InstallStepType::PartitionLayout, "Partition Layout"@),
        (InstallStepType::EfiImage, "EFI Setup"@),
        (InstallStepType::LocaleSelection, "Locale/Keymap"@),
        (InstallStepType::Options, "Options"@),
        (InstallStepType::PlanReview, "Review Plan"@),
        (InstallStepType::Confirmation, "Confirm"@),
        (InstallStepType::ExecuteConfirmationGate, "Execute Gate"@),
        (InstallStepType::Flashing, "Installing..."@),
        (InstallStepType::Complete, "Complete!"@),
    ]
}

/// `▶` for the current step, `✓` for steps before it, a space otherwise.
pub open spec fn sidebar_marker(step: InstallStepType, current: InstallStepType) -> Seq<char> {
    if step == current {
        "▶"@
    } else if step_before(step, current) {
        "✓"@
    } else {
        " "@
    }
}

/// The lines joined with newlines.
pub open spec fn join_lines(ls: Seq<Seq<char>>) -> Seq<char>
    decreases ls.len(),
{
    if ls.len() == 0 {
        Seq::empty()
    } else if ls.len() == 1 {
        ls[0]
    } else {
        join_lines(ls.drop_last()) + "\n"@ + ls.last()
    }
}

/// The sidebar: one line per listed step, its marker and its label.
pub open spec fn sidebar_spec(current: InstallStepType) -> Seq<char> {
    join_lines(
        Seq::new(
            sidebar_steps().len(),
            |i: int| sidebar_marker(sidebar_steps()[i].0, current) + " "@ + sidebar_steps()[i].1,
        ),
    )
}

fn sidebar_entry(i: usize) -> (r: (InstallStepType, &'static str))
    requires
        i < 16,
    ensures
        r.0 == sidebar_steps()[i as int].0,
        r.1@ == sidebar_steps()[i as int].1,
{
    match i {
        0 => (InstallStepType::Welcome, "Welcome"),
        1 => (InstallStepType::ImageSelection, "Select OS"),
        2 => (InstallStepType::VariantSelection, "Select Flavour"),
        3 => (InstallStepType::DownloadSourceSelection, "Image Source"),
        4 => (InstallStepType::DiskSelection, "Select Disk"),
        5 => (InstallStepType::DiskConfirmation, "Confirm Disk"),
        6 => (InstallStepType::PartitionScheme, "Partition Scheme"),
        7 => (InstallStepType::PartitionLayout, "Partition Layout"),
        8 => (InstallStepType::EfiImage, "EFI Setup"),
        9 => (InstallStepType::LocaleSelection, "Locale/Keymap"),
        10 => (InstallStepType::Options, "Options"),
        11 => (InstallStepType::PlanReview, "Review Plan"),
        12 => (InstallStepType::Confirmation, "Confirm"),
        13 => (InstallStepType::ExecuteConfirmationGate, "Execute Gate"),
        14 => (InstallStepType::Flashing, "Installing..."),
        _ => (InstallStepType::Complete, "Complete!"),
    }
}

/// The left sidebar showing the step progression.
pub fn build_step_sidebar(current: InstallStepType) -> (r: String)
    ensures
        r@ == sidebar_spec(current),
{
    let ghost lines = Seq::new(
        sidebar_steps().len(),
        |i: int| sidebar_marker(sidebar_steps()[i].0, current) + " "@ + sidebar_steps()[i].1,
    );
    let mut out = String::new();
    let mut i: usize = 0;
    while i < 16
        invariant
            i <= 16,
            lines.len() == 16,
            lines == Seq::new(
                sidebar_steps().len(),
                |i: int| sidebar_marker(sidebar_steps()[i].0, current) + " "@ + sidebar_steps()[i].1,
            ),
            out@ == join_lines(lines.take(i as int)),
        decreases 16 - i,
    {
        let (step, label) = sidebar_entry(i);
        let marker = if step == current {
            "▶"
        } else if is_step_before(step, current) {
            "✓"
        } else {
            " "
        };
        if i > 0 {
            push_str(&mut out, "\n");
        }
        push_str(&mut out, marker);
        push_str(&mut out, " ");
        push_str(&mut out, label);
        proof {
            let t = lines.take(i + 1);
            assert(t.drop_last() =~= lines.take(i as int));
            assert(t.last() == lines[i as int]);
            if i == 0 {
                assert(lines.take(0) =~= Seq::<Seq<char>>::empty());
            }
        }
        i += 1;
    }
    assert(lines.take(16) =~= lines);
    out
}

} // verus!
