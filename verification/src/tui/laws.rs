//! Safety properties of the Dojo transition function: what any sequence of
//! key presses can and cannot do.
use crate::tui::app::{
    step_change_keeps, app_plan_verdict, lemma_move_to, lemma_refresh_variants, refresh_customizations, AppView,
};
use crate::tui::flash_config::Outcome;
use crate::tui::input::{
    finish_wipe_check, gate_phrase, handle_input_spec, selected_protected, try_start_flash,
    wipe_phrase, image_path_input, apply_list, ListAction, backup_input, confirmation_input, customize_input, disarm_input, disk_confirmation_input, disk_selection_input, distro_input, download_source_input, downloading_fedora_input, downloading_uefi_input, first_boot_input, flashing_input, gate_input, layout_input, locale_input, options_input, plan_review_input, scheme_input, uefi_input, variant_input, welcome_input,
};
use crate::tui::steps::InstallStepType;
use crate::tui::types::{KeyCode, KeyEvent};
use vstd::prelude::*;

verus! {

broadcast use {lemma_move_to, lemma_refresh_variants};

/// What every transition keeps: the run modes stay as they are, Safe Mode
/// is disarmed only by Enter on the disarm screen with DESTROY typed, and a
/// flash starts only outside Safe Mode, on the Flashing step, with a valid
/// partition plan.
pub open spec fn transition_is_safe(v: AppView, k: KeyEvent, r: (AppView, Outcome)) -> bool {
    &&& r.0.dry_run == v.dry_run
    &&& r.0.developer_mode == v.developer_mode
    &&& r.0.destructive_armed != v.destructive_armed ==> {
        &&& r.0.destructive_armed
        &&& v.step == InstallStepType::DisarmSafeMode
        &&& k.code == KeyCode::Enter
        &&& v.safe_mode_disarm_input == "DESTROY"@
    }
    &&& r.1 is StartFlash ==> {
        &&& r.0.dry_run || r.0.destructive_armed
        &&& r.0.step == InstallStepType::Flashing
        &&& app_plan_verdict(r.0) is Ok
    }
}

proof fn lemma_apply_list_safe(v: AppView, a: ListAction)
    ensures
        step_change_keeps(v, apply_list(v, a).0),
        !(apply_list(v, a).1 is StartFlash),
{
}

proof fn lemma_try_start_flash_safe(v: AppView)
    ensures
        try_start_flash(v).0.dry_run == v.dry_run,
        try_start_flash(v).0.developer_mode == v.developer_mode,
        try_start_flash(v).0.destructive_armed == v.destructive_armed,
        try_start_flash(v).1 is StartFlash ==> {
            let w = try_start_flash(v).0;
            &&& w.dry_run || w.destructive_armed
            &&& w.step == InstallStepType::Flashing
            &&& app_plan_verdict(w) is Ok
        },
{
}

proof fn lemma_welcome_input_safe(v: AppView, k: KeyEvent)
    requires
        v.step == InstallStepType::Welcome,
    ensures
        transition_is_safe(v, k, welcome_input(v, k)),
{
}

proof fn lemma_backup_input_safe(v: AppView, k: KeyEvent)
    requires
        v.step == InstallStepType::BackupConfirmation,
    ensures
        transition_is_safe(v, k, backup_input(v, k)),
{
}

proof fn lemma_disk_selection_input_safe(v: AppView, k: KeyEvent)
    requires
        v.step == InstallStepType::DiskSelection,
    ensures
        transition_is_safe(v, k, disk_selection_input(v, k)),
{
}

proof fn lemma_disk_confirmation_input_safe(v: AppView, k: KeyEvent)
    requires
        v.step == InstallStepType::DiskConfirmation,
    ensures
        transition_is_safe(v, k, disk_confirmation_input(v, k)),
{
}

proof fn lemma_scheme_input_safe(v: AppView, k: KeyEvent)
    requires
        v.step == InstallStepType::PartitionScheme,
    ensures
        transition_is_safe(v, k, scheme_input(v, k)),
{
}

proof fn lemma_layout_input_safe(v: AppView, k: KeyEvent)
    requires
        v.step == InstallStepType::PartitionLayout,
    ensures
        transition_is_safe(v, k, layout_input(v, k)),
{
}

proof fn lemma_customize_input_safe(v: AppView, k: KeyEvent)
    requires
        v.step == InstallStepType::PartitionCustomize,
    ensures
        transition_is_safe(v, k, customize_input(v, k)),
{
    reveal(refresh_customizations);
}

proof fn lemma_image_path_input_safe(v: AppView, k: KeyEvent, len: nat)
    ensures
        transition_is_safe(v, k, image_path_input(v, k, len)),
{
}

proof fn lemma_download_source_input_safe(v: AppView, k: KeyEvent)
    requires
        v.step == InstallStepType::DownloadSourceSelection,
    ensures
        transition_is_safe(v, k, download_source_input(v, k)),
{
    lemma_image_path_input_safe(v, k, v.image_sources.len());
}

#[verifier::rlimit(40)]
proof fn lemma_distro_input_safe(v: AppView, k: KeyEvent)
    requires
        v.step == InstallStepType::ImageSelection,
    ensures
        transition_is_safe(v, k, distro_input(v, k)),
{
    lemma_apply_list_safe(v, ListAction::Back);
    lemma_apply_list_safe(v, ListAction::Quit);
    lemma_apply_list_safe(crate::tui::app::with_error(v, None), ListAction::Advance);
}

#[verifier::rlimit(40)]
proof fn lemma_variant_input_safe(v: AppView, k: KeyEvent)
    requires
        v.step == InstallStepType::VariantSelection,
    ensures
        transition_is_safe(v, k, variant_input(v, k)),
{
    lemma_apply_list_safe(v, ListAction::Back);
    lemma_apply_list_safe(v, ListAction::Quit);
    lemma_apply_list_safe(crate::tui::app::with_error(v, None), ListAction::Advance);
}

proof fn lemma_uefi_input_safe(v: AppView, k: KeyEvent)
    requires
        v.step == InstallStepType::EfiImage,
    ensures
        transition_is_safe(v, k, uefi_input(v, k)),
{
}

proof fn lemma_locale_input_safe(v: AppView, k: KeyEvent)
    requires
        v.step == InstallStepType::LocaleSelection,
    ensures
        transition_is_safe(v, k, locale_input(v, k)),
{
}

proof fn lemma_options_input_safe(v: AppView, k: KeyEvent)
    requires
        v.step == InstallStepType::Options,
    ensures
        transition_is_safe(v, k, options_input(v, k)),
{
}

proof fn lemma_first_boot_input_safe(v: AppView, k: KeyEvent)
    requires
        v.step == InstallStepType::FirstBootUser,
    ensures
        transition_is_safe(v, k, first_boot_input(v, k)),
{
}

proof fn lemma_plan_review_input_safe(v: AppView, k: KeyEvent)
    requires
        v.step == InstallStepType::PlanReview,
    ensures
        transition_is_safe(v, k, plan_review_input(v, k)),
{
}

proof fn lemma_confirmation_input_safe(v: AppView, k: KeyEvent)
    requires
        v.step == InstallStepType::Confirmation,
    ensures
        transition_is_safe(v, k, confirmation_input(v, k)),
{
    lemma_try_start_flash_safe(v);
}

proof fn lemma_gate_input_safe(v: AppView, k: KeyEvent)
    requires
        v.step == InstallStepType::ExecuteConfirmationGate,
    ensures
        transition_is_safe(v, k, gate_input(v, k)),
{
    lemma_try_start_flash_safe(
        AppView {
            execute_confirmation_input: Seq::empty(),
            ..crate::tui::app::with_error(AppView { execute_confirmation_confirmed: true, ..v }, None)
        },
    );
}

proof fn lemma_disarm_input_safe(v: AppView, k: KeyEvent)
    requires
        v.step == InstallStepType::DisarmSafeMode,
    ensures
        transition_is_safe(v, k, disarm_input(v, k)),
{
    lemma_try_start_flash_safe(
        AppView {
            pending_destructive_action: None,
            ..AppView {
                safe_mode_disarm_input: Seq::empty(),
                ..crate::tui::app::with_error(AppView { destructive_armed: true, ..v }, None)
            }
        },
    );
}

proof fn lemma_downloading_fedora_input_safe(v: AppView, k: KeyEvent)
    requires
        v.step == InstallStepType::DownloadingFedora,
    ensures
        transition_is_safe(v, k, downloading_fedora_input(v, k)),
{
}

proof fn lemma_downloading_uefi_input_safe(v: AppView, k: KeyEvent)
    requires
        v.step == InstallStepType::DownloadingUefi,
    ensures
        transition_is_safe(v, k, downloading_uefi_input(v, k)),
{
}

proof fn lemma_flashing_input_safe(v: AppView, k: KeyEvent)
    requires
        v.step == InstallStepType::Flashing,
    ensures
        transition_is_safe(v, k, flashing_input(v, k)),
{
}

/// Every key press keeps the properties of `transition_is_safe`.
pub proof fn law_transitions_are_safe(v: AppView, k: KeyEvent)
    ensures
        transition_is_safe(v, k, handle_input_spec(v, k)),
{
    match v.step {
        InstallStepType::Welcome => lemma_welcome_input_safe(v, k),
        InstallStepType::BackupConfirmation => lemma_backup_input_safe(v, k),
        InstallStepType::DiskSelection => lemma_disk_selection_input_safe(v, k),
        InstallStepType::DiskConfirmation => lemma_disk_confirmation_input_safe(v, k),
        InstallStepType::PartitionScheme => lemma_scheme_input_safe(v, k),
        InstallStepType::PartitionLayout => lemma_layout_input_safe(v, k),
        InstallStepType::PartitionCustomize => lemma_customize_input_safe(v, k),
        InstallStepType::DownloadSourceSelection => lemma_download_source_input_safe(v, k),
        InstallStepType::ImageSelection => lemma_distro_input_safe(v, k),
        InstallStepType::VariantSelection => lemma_variant_input_safe(v, k),
        InstallStepType::EfiImage => lemma_uefi_input_safe(v, k),
        InstallStepType::LocaleSelection => lemma_locale_input_safe(v, k),
        InstallStepType::Options => lemma_options_input_safe(v, k),
        InstallStepType::FirstBootUser => lemma_first_boot_input_safe(v, k),
        InstallStepType::PlanReview => lemma_plan_review_input_safe(v, k),
        InstallStepType::Confirmation => lemma_confirmation_input_safe(v, k),
        InstallStepType::ExecuteConfirmationGate => lemma_gate_input_safe(v, k),
        InstallStepType::DisarmSafeMode => lemma_disarm_input_safe(v, k),
        InstallStepType::DownloadingFedora => lemma_downloading_fedora_input_safe(v, k),
        InstallStepType::DownloadingUefi => lemma_downloading_uefi_input_safe(v, k),
        InstallStepType::Flashing => lemma_flashing_input_safe(v, k),
        InstallStepType::Complete => {},
    }
}

/// No key changes whether the app runs dry or in developer mode.
pub proof fn law_modes_are_fixed(v: AppView, k: KeyEvent)
    ensures
        handle_input_spec(v, k).0.dry_run == v.dry_run,
        handle_input_spec(v, k).0.developer_mode == v.developer_mode,
{
    law_transitions_are_safe(v, k);
}

/// Flashing is only ever started outside Safe Mode (a dry run, or after
/// Safe Mode was disarmed), with a valid partition plan, and it moves the
/// app to the Flashing step.
pub proof fn law_flash_only_when_armed(v: AppView, k: KeyEvent)
    ensures
        handle_input_spec(v, k).1 is StartFlash ==> {
            let w = handle_input_spec(v, k).0;
            &&& w.dry_run || w.destructive_armed
            &&& w.step == InstallStepType::Flashing
            &&& app_plan_verdict(w) is Ok
        },
{
    law_transitions_are_safe(v, k);
}

/// Safe Mode is disarmed by one thing alone: Enter on the disarm screen
/// with DESTROY typed.
pub proof fn law_disarm_needs_destroy(v: AppView, k: KeyEvent)
    ensures
        !v.destructive_armed && handle_input_spec(v, k).0.destructive_armed ==> {
            &&& v.step == InstallStepType::DisarmSafeMode
            &&& k.code == KeyCode::Enter
            &&& v.safe_mode_disarm_input == "DESTROY"@
        },
{
    law_transitions_are_safe(v, k);
}

/// The execute gate lets one through only after the full phrase was typed.
pub proof fn law_gate_needs_phrase(v: AppView, k: KeyEvent)
    ensures
        v.step == InstallStepType::ExecuteConfirmationGate && (handle_input_spec(v, k).1 is StartFlash
            || handle_input_spec(v, k).0.step == InstallStepType::DisarmSafeMode
            || (!v.execute_confirmation_confirmed
            && handle_input_spec(v, k).0.execute_confirmation_confirmed)) ==> {
            &&& k.code == KeyCode::Enter
            &&& v.execute_confirmation_input == gate_phrase()
        },
{
    reveal(refresh_customizations);
    match v.step {
        InstallStepType::Welcome => {},
        InstallStepType::BackupConfirmation => {},
        InstallStepType::DiskSelection => {},
        InstallStepType::DiskConfirmation => {},
        InstallStepType::PartitionScheme => {},
        InstallStepType::PartitionLayout => {},
        InstallStepType::PartitionCustomize => {},
        InstallStepType::DownloadSourceSelection => {},
        InstallStepType::ImageSelection => {},
        InstallStepType::VariantSelection => {},
        InstallStepType::EfiImage => {},
        InstallStepType::LocaleSelection => {},
        InstallStepType::Options => {},
        InstallStepType::FirstBootUser => {},
        InstallStepType::PlanReview => {},
        InstallStepType::Confirmation => {},
        InstallStepType::ExecuteConfirmationGate => {},
        InstallStepType::DisarmSafeMode => {},
        InstallStepType::DownloadingFedora => {},
        InstallStepType::DownloadingUefi => {},
        InstallStepType::Flashing => {},
        InstallStepType::Complete => {},
    }
}

/// Outside developer mode, the disk selection never moves on to the wipe
/// confirmation with a boot or source disk selected.
pub proof fn law_protected_disk_not_selected(v: AppView, k: KeyEvent)
    ensures
        v.step == InstallStepType::DiskSelection && handle_input_spec(v, k).0.step
            == InstallStepType::DiskConfirmation ==> !selected_protected(v) || v.developer_mode,
{
    reveal(refresh_customizations);
    match v.step {
        InstallStepType::Welcome => {},
        InstallStepType::BackupConfirmation => {},
        InstallStepType::DiskSelection => {},
        InstallStepType::DiskConfirmation => {},
        InstallStepType::PartitionScheme => {},
        InstallStepType::PartitionLayout => {},
        InstallStepType::PartitionCustomize => {},
        InstallStepType::DownloadSourceSelection => {},
        InstallStepType::ImageSelection => {},
        InstallStepType::VariantSelection => {},
        InstallStepType::EfiImage => {},
        InstallStepType::LocaleSelection => {},
        InstallStepType::Options => {},
        InstallStepType::FirstBootUser => {},
        InstallStepType::PlanReview => {},
        InstallStepType::Confirmation => {},
        InstallStepType::ExecuteConfirmationGate => {},
        InstallStepType::DisarmSafeMode => {},
        InstallStepType::DownloadingFedora => {},
        InstallStepType::DownloadingUefi => {},
        InstallStepType::Flashing => {},
        InstallStepType::Complete => {},
    }
}

/// The wipe confirmation moves on only when the typed text is exactly the
/// phrase the selected disk demands ("DESTROY", or "DESTROY BOOT DISK" for a
/// boot or source disk); after a rescan the phrase chosen before it counts.
pub proof fn law_wipe_needs_phrase(v: AppView, k: KeyEvent)
    ensures
        v.step == InstallStepType::DiskConfirmation && handle_input_spec(v, k).0.step
            == InstallStepType::ImageSelection ==> v.wipe_confirmation == wipe_phrase(
            selected_protected(v),
        ),
        v.step == InstallStepType::DiskConfirmation && finish_wipe_check(v).0.step
            == InstallStepType::ImageSelection ==> (v.pending_wipe_check matches Some(p)
            && v.wipe_confirmation == wipe_phrase(p)),
{
    reveal(refresh_customizations);
    match v.step {
        InstallStepType::Welcome => {},
        InstallStepType::BackupConfirmation => {},
        InstallStepType::DiskSelection => {},
        InstallStepType::DiskConfirmation => {},
        InstallStepType::PartitionScheme => {},
        InstallStepType::PartitionLayout => {},
        InstallStepType::PartitionCustomize => {},
        InstallStepType::DownloadSourceSelection => {},
        InstallStepType::ImageSelection => {},
        InstallStepType::VariantSelection => {},
        InstallStepType::EfiImage => {},
        InstallStepType::LocaleSelection => {},
        InstallStepType::Options => {},
        InstallStepType::FirstBootUser => {},
        InstallStepType::PlanReview => {},
        InstallStepType::Confirmation => {},
        InstallStepType::ExecuteConfirmationGate => {},
        InstallStepType::DisarmSafeMode => {},
        InstallStepType::DownloadingFedora => {},
        InstallStepType::DownloadingUefi => {},
        InstallStepType::Flashing => {},
        InstallStepType::Complete => {},
    }
}

/// In Safe Mode the Flashing step sends every key back to the summary.
pub proof fn law_flashing_blocked_in_safe_mode(v: AppView, k: KeyEvent)
    requires
        v.step == InstallStepType::Flashing,
        !v.dry_run,
        !v.destructive_armed,
    ensures
        handle_input_spec(v, k).0.step == InstallStepType::Confirmation,
        handle_input_spec(v, k).1 == Outcome::Continue,
{
    reveal(refresh_customizations);
    match v.step {
        InstallStepType::Welcome => {},
        InstallStepType::BackupConfirmation => {},
        InstallStepType::DiskSelection => {},
        InstallStepType::DiskConfirmation => {},
        InstallStepType::PartitionScheme => {},
        InstallStepType::PartitionLayout => {},
        InstallStepType::PartitionCustomize => {},
        InstallStepType::DownloadSourceSelection => {},
        InstallStepType::ImageSelection => {},
        InstallStepType::VariantSelection => {},
        InstallStepType::EfiImage => {},
        InstallStepType::LocaleSelection => {},
        InstallStepType::Options => {},
        InstallStepType::FirstBootUser => {},
        InstallStepType::PlanReview => {},
        InstallStepType::Confirmation => {},
        InstallStepType::ExecuteConfirmationGate => {},
        InstallStepType::DisarmSafeMode => {},
        InstallStepType::DownloadingFedora => {},
        InstallStepType::DownloadingUefi => {},
        InstallStepType::Flashing => {},
        InstallStepType::Complete => {},
    }
}

} // verus!
