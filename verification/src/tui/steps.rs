//! The sequence of steps of the Dojo installer.
use vstd::prelude::*;

verus! {

/// The steps of the Dojo UI.
#[derive(Debug, Clone, Copy, PartialEq, Eq, Structural)]
pub enum InstallStepType {
    Welcome,
    DiskSelection,
    DiskConfirmation,
    BackupConfirmation,
    PartitionScheme,
    PartitionLayout,
    PartitionCustomize,
    DownloadSourceSelection,
    ImageSelection,
    VariantSelection,
    EfiImage,
    LocaleSelection,
    Options,
    FirstBootUser,
    PlanReview,
    Confirmation,
    ExecuteConfirmationGate,
    DisarmSafeMode,
    DownloadingFedora,
    DownloadingUefi,
    Flashing,
    Complete,
}

/// The steps in their documented flow order.
pub open spec fn all_steps() -> Seq<InstallStepType> {
    seq![
        InstallStepType::Welcome,
        InstallStepType::ImageSelection,
        InstallStepType::VariantSelection,
        InstallStepType::DownloadSourceSelection,
        InstallStepType::DiskSelection,
        InstallStepType::DiskConfirmation,
        InstallStepType::BackupConfirmation,
        InstallStepType::PartitionScheme,
        InstallStepType::PartitionLayout,
        InstallStepType::PartitionCustomize,
        InstallStepType::EfiImage,
        InstallStepType::LocaleSelection,
        InstallStepType::Options,
        InstallStepType::FirstBootUser,
        InstallStepType::PlanReview,
        InstallStepType::Confirmation,
        InstallStepType::ExecuteConfirmationGate,
        InstallStepType::DisarmSafeMode,
        InstallStepType::DownloadingFedora,
        InstallStepType::DownloadingUefi,
        InstallStepType::Flashing,
        InstallStepType::Complete,
    ]
}

pub open spec fn title_of(s: InstallStepType) -> Seq<char> {
    match s {
        InstallStepType::Welcome => "Enter the Dojo"@,
        InstallStepType::DiskSelection => "Select Target Disk"@,
        InstallStepType::DiskConfirmation => "Confirm Disk Destruction"@,
        InstallStepType::BackupConfirmation => "Backup Confirmation"@,
        InstallStepType::PartitionScheme => "Partition Scheme"@,
        InstallStepType::PartitionLayout => "Partition Layout"@,
        InstallStepType::PartitionCustomize => "Customize Partitions"@,
        InstallStepType::DownloadSourceSelection => "Select Image Source"@,
        InstallStepType::ImageSelection => "Select OS"@,
        InstallStepType::VariantSelection => "Select Variant"@,
        InstallStepType::EfiImage => "EFI Image"@,
        InstallStepType::LocaleSelection => "Locale & Keymap"@,
        InstallStepType::Options => "Installation Options"@,
        InstallStepType::FirstBootUser => "First-Boot User"@,
        InstallStepType::PlanReview => "Execution Plan"@,
        InstallStepType::Confirmation => "Final Confirmation"@,
        InstallStepType::ExecuteConfirmationGate => "Final Execute Gate"@,
        InstallStepType::DisarmSafeMode => "Disarm Safe Mode"@,
        InstallStepType::DownloadingFedora => "Downloading Fedora Image"@,
        InstallStepType::DownloadingUefi => "Downloading EFI Image"@,
        InstallStepType::Flashing => "Installing..."@,
        InstallStepType::Complete => "Installation Complete!"@,
    }
}

pub open spec fn next_of(s: InstallStepType) -> Option<InstallStepType> {
    match s {
        InstallStepType::Welcome => Some(InstallStepType::ImageSelection),
        InstallStepType::ImageSelection => Some(InstallStepType::VariantSelection),
        InstallStepType::VariantSelection => Some(InstallStepType::DownloadSourceSelection),
        InstallStepType::DownloadSourceSelection => Some(InstallStepType::DiskSelection),
        InstallStepType::DiskSelection => Some(InstallStepType::DiskConfirmation),
        InstallStepType::DiskConfirmation => Some(InstallStepType::PartitionScheme),
        InstallStepType::BackupConfirmation => Some(InstallStepType::PartitionScheme),
        InstallStepType::PartitionScheme => Some(InstallStepType::PartitionLayout),
        InstallStepType::PartitionLayout => Some(InstallStepType::PartitionCustomize),
        InstallStepType::PartitionCustomize => Some(InstallStepType::EfiImage),
        InstallStepType::EfiImage => Some(InstallStepType::LocaleSelection),
        InstallStepType::LocaleSelection => Some(InstallStepType::Options),
        InstallStepType::Options => Some(InstallStepType::PlanReview),
        InstallStepType::FirstBootUser => Some(InstallStepType::PlanReview),
        InstallStepType::PlanReview => Some(InstallStepType::Confirmation),
        InstallStepType::Flashing => Some(InstallStepType::Complete),
        _ => None,
    }
}

pub open spec fn prev_of(s: InstallStepType) -> Option<InstallStepType> {
    match s {
        InstallStepType::ImageSelection => Some(InstallStepType::Welcome),
        InstallStepType::VariantSelection => Some(InstallStepType::ImageSelection),
        InstallStepType::DownloadSourceSelection => Some(InstallStepType::VariantSelection),
        InstallStepType::DiskSelection => Some(InstallStepType::DownloadSourceSelection),
        InstallStepType::DiskConfirmation => Some(InstallStepType::DiskSelection),
        InstallStepType::BackupConfirmation => Some(InstallStepType::DiskConfirmation),
        InstallStepType::PartitionScheme => Some(InstallStepType::DiskConfirmation),
        InstallStepType::PartitionLayout => Some(InstallStepType::PartitionScheme),
        InstallStepType::PartitionCustomize => Some(InstallStepType::PartitionLayout),
        InstallStepType::EfiImage => Some(InstallStepType::PartitionCustomize),
        InstallStepType::LocaleSelection => Some(InstallStepType::EfiImage),
        InstallStepType::Options => Some(InstallStepType::LocaleSelection),
        InstallStepType::FirstBootUser => Some(InstallStepType::Options),
        InstallStepType::PlanReview => Some(InstallStepType::Options),
        InstallStepType::Confirmation => Some(InstallStepType::PlanReview),
        InstallStepType::ExecuteConfirmationGate => Some(InstallStepType::Confirmation),
        InstallStepType::DisarmSafeMode => Some(InstallStepType::Confirmation),
        _ => None,
    }
}

pub open spec fn is_config(s: InstallStepType) -> bool {
    match s {
        InstallStepType::DownloadingFedora
        | InstallStepType::DownloadingUefi
        | InstallStepType::Flashing
        | InstallStepType::Complete => false,
        _ => true,
    }
}

impl InstallStepType {
    /// All steps, in flow order.
    pub fn all() -> (r: Vec<InstallStepType>)
        ensures
            r@ == all_steps(),
    {
        let v = vec![
            InstallStepType::Welcome,
            InstallStepType::ImageSelection,
            InstallStepType::VariantSelection,
            InstallStepType::DownloadSourceSelection,
            InstallStepType::DiskSelection,
            InstallStepType::DiskConfirmation,
            InstallStepType::BackupConfirmation,
            InstallStepType::PartitionScheme,
            InstallStepType::PartitionLayout,
            InstallStepType::PartitionCustomize,
            InstallStepType::EfiImage,
            InstallStepType::LocaleSelection,
            InstallStepType::Options,
            InstallStepType::FirstBootUser,
            InstallStepType::PlanReview,
            InstallStepType::Confirmation,
            InstallStepType::ExecuteConfirmationGate,
            InstallStepType::DisarmSafeMode,
            InstallStepType::DownloadingFedora,
            InstallStepType::DownloadingUefi,
            InstallStepType::Flashing,
            InstallStepType::Complete,
        ];
        assert(v@ =~= all_steps());
        v
    }

    pub fn title(&self) -> (r: &'static str)
        ensures
            r@ == title_of(*self),
    {
        match self {
            InstallStepType::Welcome => "Enter the Dojo",
            InstallStepType::DiskSelection => "Select Target Disk",
            InstallStepType::DiskConfirmation => "Confirm Disk Destruction",
            InstallStepType::BackupConfirmation => "Backup Confirmation",
            InstallStepType::PartitionScheme => "Partition Scheme",
            InstallStepType::PartitionLayout => "Partition Layout",
            InstallStepType::PartitionCustomize => "Customize Partitions",
            InstallStepType::DownloadSourceSelection => "Select Image Source",
            InstallStepType::ImageSelection => "Select OS",
            InstallStepType::VariantSelection => "Select Variant",
            InstallStepType::EfiImage => "EFI Image",
            InstallStepType::LocaleSelection => "Locale & Keymap",
            InstallStepType::Options => "Installation Options",
            InstallStepType::FirstBootUser => "First-Boot User",
            InstallStepType::PlanReview => "Execution Plan",
            InstallStepType::Confirmation => "Final Confirmation",
            InstallStepType::ExecuteConfirmationGate => "Final Execute Gate",
            InstallStepType::DisarmSafeMode => "Disarm Safe Mode",
            InstallStepType::DownloadingFedora => "Downloading Fedora Image",
            InstallStepType::DownloadingUefi => "Downloading EFI Image",
            InstallStepType::Flashing => "Installing...",
            InstallStepType::Complete => "Installation Complete!",
        }
    }

    /// The step after this one in the static flow.
    pub fn next(&self) -> (r: Option<InstallStepType>)
        ensures
            r == next_of(*self),
    {
        match self {
            InstallStepType::Welcome => Some(InstallStepType::ImageSelection),
            InstallStepType::ImageSelection => Some(InstallStepType::VariantSelection),
            InstallStepType::VariantSelection => Some(InstallStepType::DownloadSourceSelection),
            InstallStepType::DownloadSourceSelection => Some(InstallStepType::DiskSelection),
            InstallStepType::DiskSelection => Some(InstallStepType::DiskConfirmation),
            InstallStepType::DiskConfirmation => Some(InstallStepType::PartitionScheme),
            InstallStepType::BackupConfirmation => Some(InstallStepType::PartitionScheme),
            InstallStepType::PartitionScheme => Some(InstallStepType::PartitionLayout),
            InstallStepType::PartitionLayout => Some(InstallStepType::PartitionCustomize),
            InstallStepType::PartitionCustomize => Some(InstallStepType::EfiImage),
            InstallStepType::EfiImage => Some(InstallStepType::LocaleSelection),
            InstallStepType::LocaleSelection => Some(InstallStepType::Options),
            InstallStepType::Options => Some(InstallStepType::PlanReview),
            InstallStepType::FirstBootUser => Some(InstallStepType::PlanReview),
            InstallStepType::PlanReview => Some(InstallStepType::Confirmation),
            InstallStepType::Confirmation => None,
            InstallStepType::ExecuteConfirmationGate => None,
            InstallStepType::DisarmSafeMode => None,
            InstallStepType::DownloadingFedora => None,
            InstallStepType::DownloadingUefi => None,
            InstallStepType::Flashing => Some(InstallStepType::Complete),
            InstallStepType::Complete => None,
        }
    }

    /// The step before this one in the static flow.
    pub fn prev(&self) -> (r: Option<InstallStepType>)
        ensures
            r == prev_of(*self),
    {
        match self {
            InstallStepType::Welcome => None,
            InstallStepType::ImageSelection => Some(InstallStepType::Welcome),
            InstallStepType::VariantSelection => Some(InstallStepType::ImageSelection),
            InstallStepType::DownloadSourceSelection => Some(InstallStepType::VariantSelection),
            InstallStepType::DiskSelection => Some(InstallStepType::DownloadSourceSelection),
            InstallStepType::DiskConfirmation => Some(InstallStepType::DiskSelection),
            InstallStepType::BackupConfirmation => Some(InstallStepType::DiskConfirmation),
            InstallStepType::PartitionScheme => Some(InstallStepType::DiskConfirmation),
            InstallStepType::PartitionLayout => Some(InstallStepType::PartitionScheme),
            InstallStepType::PartitionCustomize => Some(InstallStepType::PartitionLayout),
            InstallStepType::EfiImage => Some(InstallStepType::PartitionCustomize),
            InstallStepType::LocaleSelection => Some(InstallStepType::EfiImage),
            InstallStepType::Options => Some(InstallStepType::LocaleSelection),
            InstallStepType::FirstBootUser => Some(InstallStepType::Options),
            InstallStepType::PlanReview => Some(InstallStepType::Options),
            InstallStepType::Confirmation => Some(InstallStepType::PlanReview),
            InstallStepType::ExecuteConfirmationGate => Some(InstallStepType::Confirmation),
            InstallStepType::DisarmSafeMode => Some(InstallStepType::Confirmation),
            _ => None,
        }
    }

    /// Whether this step belongs to the configuration phase (before execution).
    pub fn is_config_step(&self) -> (r: bool)
        ensures
            r == is_config(*self),
    {
        match self {
            InstallStepType::Welcome
            | InstallStepType::DiskSelection
            | InstallStepType::DiskConfirmation
            | InstallStepType::BackupConfirmation
            | InstallStepType::PartitionScheme
            | InstallStepType::PartitionLayout
            | InstallStepType::PartitionCustomize
            | InstallStepType::DownloadSourceSelection
            | InstallStepType::ImageSelection
            | InstallStepType::VariantSelection
            | InstallStepType::EfiImage
            | InstallStepType::LocaleSelection
            | InstallStepType::Options
            | InstallStepType::FirstBootUser
            | InstallStepType::PlanReview
            | InstallStepType::Confirmation
            | InstallStepType::ExecuteConfirmationGate
            | InstallStepType::DisarmSafeMode => true,
            _ => false,
        }
    }
}

/// Each step occurs exactly once in `all`.
pub proof fn law_all_steps_lists_each_step_once(s: InstallStepType)
    ensures
        all_steps().contains(s),
        all_steps().no_duplicates(),
        all_steps().len() == 22,
{
    let a = all_steps();
    assert(a[0] == InstallStepType::Welcome);
    assert(a[1] == InstallStepType::ImageSelection);
    assert(a[2] == InstallStepType::VariantSelection);
    assert(a[3] == InstallStepType::DownloadSourceSelection);
    assert(a[4] == InstallStepType::DiskSelection);
    assert(a[5] == InstallStepType::DiskConfirmation);
    assert(a[6] == InstallStepType::BackupConfirmation);
    assert(a[7] == InstallStepType::PartitionScheme);
    assert(a[8] == InstallStepType::PartitionLayout);
    assert(a[9] == InstallStepType::PartitionCustomize);
    assert(a[10] == InstallStepType::EfiImage);
    assert(a[11] == InstallStepType::LocaleSelection);
    assert(a[12] == InstallStepType::Options);
    assert(a[13] == InstallStepType::FirstBootUser);
    assert(a[14] == InstallStepType::PlanReview);
    assert(a[15] == InstallStepType::Confirmation);
    assert(a[16] == InstallStepType::ExecuteConfirmationGate);
    assert(a[17] == InstallStepType::DisarmSafeMode);
    assert(a[18] == InstallStepType::DownloadingFedora);
    assert(a[19] == InstallStepType::DownloadingUefi);
    assert(a[20] == InstallStepType::Flashing);
    assert(a[21] == InstallStepType::Complete);
}

/// Going back from the step that "next" leads to returns to where one came
/// from, except from the side steps BackupConfirmation and FirstBootUser and
/// from Flashing, whose successors lead back elsewhere.
pub proof fn law_prev_undoes_next(s: InstallStepType)
    requires
        next_of(s) is Some,
        s != InstallStepType::BackupConfirmation,
        s != InstallStepType::FirstBootUser,
        s != InstallStepType::Flashing,
    ensures
        prev_of(next_of(s)->0) == Some(s),
{
}

/// A step has a predecessor or successor in the static flow only while
/// configuring, apart from Flashing, which leads to Complete.
pub proof fn law_execution_steps_have_no_prev(s: InstallStepType)
    requires
        !is_config(s),
    ensures
        prev_of(s) is None,
{
}

// ---------------------------------------------------------------------------
// Flow position (sidebar order)
// ---------------------------------------------------------------------------

/// Position of a step in the sidebar's flow order, if it has one.
pub open spec fn flow_pos(s: InstallStepType) -> Option<nat> {
    match s {
        InstallStepType::Welcome => Some(0),
        InstallStepType::ImageSelection => Some(1),
        InstallStepType::VariantSelection => Some(2),
        InstallStepType::DownloadSourceSelection => Some(3),
        InstallStepType::DiskSelection => Some(4),
        InstallStepType::DiskConfirmation => Some(5),
        InstallStepType::PartitionScheme => Some(6),
        InstallStepType::PartitionLayout => Some(7),
        InstallStepType::PartitionCustomize => Some(8),
        InstallStepType::EfiImage => Some(9),
        InstallStepType::LocaleSelection => Some(10),
        InstallStepType::Options => Some(11),
        InstallStepType::PlanReview => Some(12),
        InstallStepType::Confirmation => Some(13),
        InstallStepType::ExecuteConfirmationGate => Some(14),
        InstallStepType::DisarmSafeMode => Some(15),
        InstallStepType::Flashing => Some(16),
        InstallStepType::Complete => Some(17),
        _ => None,
    }
}

pub open spec fn step_before(a: InstallStepType, b: InstallStepType) -> bool {
    match (flow_pos(a), flow_pos(b)) {
        (Some(x), Some(y)) => x < y,
        _ => false,
    }
}

fn flow_position(s: InstallStepType) -> (r: Option<usize>)
    ensures
        r matches Some(x) ==> flow_pos(s) == Some(x as nat),
        r is None ==> flow_pos(s) is None,
{
    match s {
        InstallStepType::Welcome => Some(0),
        InstallStepType::ImageSelection => Some(1),
        InstallStepType::VariantSelection => Some(2),
        InstallStepType::DownloadSourceSelection => Some(3),
        InstallStepType::DiskSelection => Some(4),
        InstallStepType::DiskConfirmation => Some(5),
        InstallStepType::PartitionScheme => Some(6),
        InstallStepType::PartitionLayout => Some(7),
        InstallStepType::PartitionCustomize => Some(8),
        InstallStepType::EfiImage => Some(9),
        InstallStepType::LocaleSelection => Some(10),
        InstallStepType::Options => Some(11),
        InstallStepType::PlanReview => Some(12),
        InstallStepType::Confirmation => Some(13),
        InstallStepType::ExecuteConfirmationGate => Some(14),
        InstallStepType::DisarmSafeMode => Some(15),
        InstallStepType::Flashing => Some(16),
        InstallStepType::Complete => Some(17),
        _ => None,
    }
}

/// Whether `step_a` comes strictly before `step_b` in the flow; steps outside
/// the flow (BackupConfirmation, FirstBootUser, the download steps) are never
/// before or after anything.
pub fn is_step_before(step_a: InstallStepType, step_b: InstallStepType) -> (r: bool)
    ensures
        r == step_before(step_a, step_b),
{
    match (flow_position(step_a), flow_position(step_b)) {
        (Some(a), Some(b)) => a < b,
        _ => false,
    }
}

/// "Comes before" is a strict order: irreflexive and transitive.
pub proof fn law_step_before_is_strict_order(a: InstallStepType, b: InstallStepType, c: InstallStepType)
    ensures
        !step_before(a, a),
        step_before(a, b) && step_before(b, c) ==> step_before(a, c),
        step_before(a, b) ==> !step_before(b, a),
{
}

} // verus!
