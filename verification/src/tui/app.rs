//! State of the Dojo installer and the pieces of its transition function
//! that several keys share (list navigation, step order, plan checks).
use crate::sysfs::block::TransportType;
use crate::text::{
    char_to_upper, chars_of, concat2, lex_less, lex_lt, popped, push_str, str_eq, string_pop,
    string_push, upper_of, vec_eq,
};
use crate::tui::partition::{
    sizes_verdict, validate_partition_plan, CustomizeField, Partition, PartitionPlan,
    PartitionScheme, plan_verdict, named_size, ascii_upper_seq,
};
use crate::tui::flash_config::{join_path, path_join};
use crate::tui::input::{byte_len, edited, gate_phrase, gate_phrase_len, toggle_option, wipe_phrase};
use crate::tui::steps::InstallStepType;
use crate::tui::types::{
    BootConfidence, CatalogueImage, DiskIdentity, DiskOption, EfiSource, ImageOption, ImageSource,
    OptionToggle, OsDistro, OsVariantOption, SourceOption, disk_protected, is_protected,
};
use vstd::prelude::*;
use vstd::string::*;

verus! {

/// A destructive action waiting for Safe Mode to be disarmed.
#[derive(Debug, Clone, Copy, PartialEq, Eq, Structural)]
pub enum PendingDestructiveAction {
    StartFlash,
}

/// Application state of the Dojo installer.
pub struct App {
    pub current_step_type: InstallStepType,
    pub backup_confirmed: bool,
    pub backup_choice_index: usize,
    pub welcome_options: Vec<String>,
    pub welcome_index: usize,
    pub use_real_disks: bool,
    pub disks: Vec<DiskOption>,
    pub disk_index: usize,
    pub disk_confirm_index: usize,
    pub wipe_confirmation: String,
    pub partition_schemes: Vec<PartitionScheme>,
    pub scheme_index: usize,
    pub partition_layouts: Vec<String>,
    pub layout_index: usize,
    pub partition_customizations: Vec<String>,
    pub customize_index: usize,
    pub efi_size: String,
    pub boot_size: String,
    pub root_end: String,
    pub os_distros: Vec<OsDistro>,
    pub os_distro_index: usize,
    pub os_variants: Vec<OsVariantOption>,
    pub os_variant_index: usize,
    pub image_sources: Vec<SourceOption>,
    pub image_source_index: usize,
    pub images: Vec<ImageOption>,
    pub image_index: usize,
    pub uefi_sources: Vec<EfiSource>,
    pub uefi_source_index: usize,
    pub locales: Vec<String>,
    pub locale_index: usize,
    pub options: Vec<OptionToggle>,
    pub options_index: usize,
    pub first_boot_options: Vec<String>,
    pub first_boot_index: usize,
    pub downloading_fedora_index: usize,
    pub downloading_uefi_index: usize,
    pub downloaded_fedora: bool,
    pub downloaded_uefi: bool,
    pub destructive_armed: bool,
    /// Set when flashing starts; the caller records the start time.
    pub flash_started: bool,
    pub is_running: bool,
    pub status_message: String,
    pub error_message: Option<String>,
    pub image_source_path: String,
    pub uefi_source_path: String,
    pub downloaded_image_path: Option<String>,
    pub downloaded_uefi_dir: Option<String>,
    /// Execute-mode confirmation gate input.
    pub execute_confirmation_input: String,
    /// Execute-mode confirmation gate acknowledged.
    pub execute_confirmation_confirmed: bool,
    pub safe_mode_disarm_input: String,
    pub pending_destructive_action: Option<PendingDestructiveAction>,
    /// A disk-wipe confirmation waits for a fresh disk scan; holds whether
    /// the disk selected when Enter was pressed was protected.
    pub pending_wipe_check: Option<bool>,
    pub cancel_requested: bool,
    pub customize_error_field: Option<CustomizeField>,
    pub dry_run: bool,
    pub developer_mode: bool,
    pub mash_root: String,
    pub state_path: String,
    /// Completion messaging (post-install).
    pub completion_lines: Vec<String>,
    /// The download catalogue, or `None` when it could not be loaded.
    pub catalogue: Option<Vec<CatalogueImage>>,
    /// Whether the execution pipeline reported completion.
    pub progress_complete: bool,
}

/// The mathematical state of the installer: strings as character sequences.
pub struct AppView {
    pub step: InstallStepType,
    pub backup_confirmed: bool,
    pub backup_choice_index: usize,
    pub welcome_options: Seq<String>,
    pub welcome_index: usize,
    pub use_real_disks: bool,
    pub disks: Seq<DiskOption>,
    pub disk_index: usize,
    pub disk_confirm_index: usize,
    pub wipe_confirmation: Seq<char>,
    pub partition_schemes: Seq<PartitionScheme>,
    pub scheme_index: usize,
    pub partition_layouts: Seq<String>,
    pub layout_index: usize,
    pub partition_customizations: Seq<Seq<char>>,
    pub customize_index: usize,
    pub efi_size: Seq<char>,
    pub boot_size: Seq<char>,
    pub root_end: Seq<char>,
    pub os_distros: Seq<OsDistro>,
    pub os_distro_index: usize,
    pub os_variants: Seq<(Seq<char>, Seq<char>)>,
    pub os_variant_index: usize,
    pub image_sources: Seq<SourceOption>,
    pub image_source_index: usize,
    pub images: Seq<ImageOption>,
    pub image_index: usize,
    pub uefi_sources: Seq<EfiSource>,
    pub uefi_source_index: usize,
    pub locales: Seq<String>,
    pub locale_index: usize,
    pub options: Seq<OptionToggle>,
    pub options_index: usize,
    pub first_boot_options: Seq<String>,
    pub first_boot_index: usize,
    pub downloading_fedora_index: usize,
    pub downloading_uefi_index: usize,
    pub downloaded_fedora: bool,
    pub downloaded_uefi: bool,
    pub destructive_armed: bool,
    pub flash_started: bool,
    pub is_running: bool,
    pub status_message: Seq<char>,
    pub error_message: Option<Seq<char>>,
    pub image_source_path: Seq<char>,
    pub uefi_source_path: Seq<char>,
    pub downloaded_image_path: Option<Seq<char>>,
    pub downloaded_uefi_dir: Option<Seq<char>>,
    pub execute_confirmation_input: Seq<char>,
    pub execute_confirmation_confirmed: bool,
    pub safe_mode_disarm_input: Seq<char>,
    pub pending_destructive_action: Option<PendingDestructiveAction>,
    pub pending_wipe_check: Option<bool>,
    pub cancel_requested: bool,
    pub customize_error_field: Option<CustomizeField>,
    pub dry_run: bool,
    pub developer_mode: bool,
    pub mash_root: Seq<char>,
    pub state_path: Seq<char>,
    pub completion_lines: Seq<String>,
    pub catalogue: Option<Seq<CatalogueImage>>,
    pub progress_complete: bool,
}

pub open spec fn opt_str_view(o: Option<String>) -> Option<Seq<char>> {
    match o {
        Some(s) => Some(s@),
        None => None,
    }
}

pub open spec fn strings_view(v: Seq<String>) -> Seq<Seq<char>> {
    v.map_values(|s: String| s@)
}

pub open spec fn variants_view(v: Seq<OsVariantOption>) -> Seq<(Seq<char>, Seq<char>)> {
    v.map_values(|o: OsVariantOption| (o.id@, o.label@))
}

pub open spec fn catalogue_view(c: Option<Vec<CatalogueImage>>) -> Option<Seq<CatalogueImage>> {
    match c {
        Some(v) => Some(v@),
        None => None,
    }
}

impl View for App {
    type V = AppView;

    closed spec fn view(&self) -> AppView {
        AppView {
            step: self.current_step_type,
            backup_confirmed: self.backup_confirmed,
            backup_choice_index: self.backup_choice_index,
            welcome_options: self.welcome_options@,
            welcome_index: self.welcome_index,
            use_real_disks: self.use_real_disks,
            disks: self.disks@,
            disk_index: self.disk_index,
            disk_confirm_index: self.disk_confirm_index,
            wipe_confirmation: self.wipe_confirmation@,
            partition_schemes: self.partition_schemes@,
            scheme_index: self.scheme_index,
            partition_layouts: self.partition_layouts@,
            layout_index: self.layout_index,
            partition_customizations: strings_view(self.partition_customizations@),
            customize_index: self.customize_index,
            efi_size: self.efi_size@,
            boot_size: self.boot_size@,
            root_end: self.root_end@,
            os_distros: self.os_distros@,
            os_distro_index: self.os_distro_index,
            os_variants: variants_view(self.os_variants@),
            os_variant_index: self.os_variant_index,
            image_sources: self.image_sources@,
            image_source_index: self.image_source_index,
            images: self.images@,
            image_index: self.image_index,
            uefi_sources: self.uefi_sources@,
            uefi_source_index: self.uefi_source_index,
            locales: self.locales@,
            locale_index: self.locale_index,
            options: self.options@,
            options_index: self.options_index,
            first_boot_options: self.first_boot_options@,
            first_boot_index: self.first_boot_index,
            downloading_fedora_index: self.downloading_fedora_index,
            downloading_uefi_index: self.downloading_uefi_index,
            downloaded_fedora: self.downloaded_fedora,
            downloaded_uefi: self.downloaded_uefi,
            destructive_armed: self.destructive_armed,
            flash_started: self.flash_started,
            is_running: self.is_running,
            status_message: self.status_message@,
            error_message: opt_str_view(self.error_message),
            image_source_path: self.image_source_path@,
            uefi_source_path: self.uefi_source_path@,
            downloaded_image_path: opt_str_view(self.downloaded_image_path),
            downloaded_uefi_dir: opt_str_view(self.downloaded_uefi_dir),
            execute_confirmation_input: self.execute_confirmation_input@,
            execute_confirmation_confirmed: self.execute_confirmation_confirmed,
            safe_mode_disarm_input: self.safe_mode_disarm_input@,
            pending_destructive_action: self.pending_destructive_action,
            pending_wipe_check: self.pending_wipe_check,
            cancel_requested: self.cancel_requested,
            customize_error_field: self.customize_error_field,
            dry_run: self.dry_run,
            developer_mode: self.developer_mode,
            mash_root: self.mash_root@,
            state_path: self.state_path@,
            completion_lines: self.completion_lines@,
            catalogue: catalogue_view(self.catalogue),
            progress_complete: self.progress_complete,
        }
    }
}

/// What the view of an app is: its fields, read as the view says.  Other
/// modules relate an app's contracts to its fields through this.
pub proof fn lemma_app_view(a: App)
    ensures
        a@ == (AppView {
            step: a.current_step_type,
            backup_confirmed: a.backup_confirmed,
            backup_choice_index: a.backup_choice_index,
            welcome_options: a.welcome_options@,
            welcome_index: a.welcome_index,
            use_real_disks: a.use_real_disks,
            disks: a.disks@,
            disk_index: a.disk_index,
            disk_confirm_index: a.disk_confirm_index,
            wipe_confirmation: a.wipe_confirmation@,
            partition_schemes: a.partition_schemes@,
            scheme_index: a.scheme_index,
            partition_layouts: a.partition_layouts@,
            layout_index: a.layout_index,
            partition_customizations: strings_view(a.partition_customizations@),
            customize_index: a.customize_index,
            efi_size: a.efi_size@,
            boot_size: a.boot_size@,
            root_end: a.root_end@,
            os_distros: a.os_distros@,
            os_distro_index: a.os_distro_index,
            os_variants: variants_view(a.os_variants@),
            os_variant_index: a.os_variant_index,
            image_sources: a.image_sources@,
            image_source_index: a.image_source_index,
            images: a.images@,
            image_index: a.image_index,
            uefi_sources: a.uefi_sources@,
            uefi_source_index: a.uefi_source_index,
            locales: a.locales@,
            locale_index: a.locale_index,
            options: a.options@,
            options_index: a.options_index,
            first_boot_options: a.first_boot_options@,
            first_boot_index: a.first_boot_index,
            downloading_fedora_index: a.downloading_fedora_index,
            downloading_uefi_index: a.downloading_uefi_index,
            downloaded_fedora: a.downloaded_fedora,
            downloaded_uefi: a.downloaded_uefi,
            destructive_armed: a.destructive_armed,
            flash_started: a.flash_started,
            is_running: a.is_running,
            status_message: a.status_message@,
            error_message: opt_str_view(a.error_message),
            image_source_path: a.image_source_path@,
            uefi_source_path: a.uefi_source_path@,
            downloaded_image_path: opt_str_view(a.downloaded_image_path),
            downloaded_uefi_dir: opt_str_view(a.downloaded_uefi_dir),
            execute_confirmation_input: a.execute_confirmation_input@,
            execute_confirmation_confirmed: a.execute_confirmation_confirmed,
            safe_mode_disarm_input: a.safe_mode_disarm_input@,
            pending_destructive_action: a.pending_destructive_action,
            pending_wipe_check: a.pending_wipe_check,
            cancel_requested: a.cancel_requested,
            customize_error_field: a.customize_error_field,
            dry_run: a.dry_run,
            developer_mode: a.developer_mode,
            mash_root: a.mash_root@,
            state_path: a.state_path@,
            completion_lines: a.completion_lines@,
            catalogue: catalogue_view(a.catalogue),
            progress_complete: a.progress_complete,
        }),
{
}

/// Setting the step of an `App` sets the step of its view and nothing else.
pub proof fn lemma_view_set_step(a: App, b: App)
    requires
        b == (App { current_step_type: b.current_step_type, ..a }),
    ensures
        b@ == with_step(a@, b.current_step_type),
{
}

/// The view of an `App`, field by field.
pub proof fn lemma_view(a: App)
    ensures
        a@.step == a.current_step_type,
        a@.backup_confirmed == a.backup_confirmed,
        a@.backup_choice_index == a.backup_choice_index,
        a@.welcome_options == a.welcome_options@,
        a@.welcome_index == a.welcome_index,
        a@.use_real_disks == a.use_real_disks,
        a@.disks == a.disks@,
        a@.disk_index == a.disk_index,
        a@.disk_confirm_index == a.disk_confirm_index,
        a@.wipe_confirmation == a.wipe_confirmation@,
        a@.partition_schemes == a.partition_schemes@,
        a@.scheme_index == a.scheme_index,
        a@.partition_layouts == a.partition_layouts@,
        a@.layout_index == a.layout_index,
        a@.partition_customizations == strings_view(a.partition_customizations@),
        a@.customize_index == a.customize_index,
        a@.efi_size == a.efi_size@,
        a@.boot_size == a.boot_size@,
        a@.root_end == a.root_end@,
        a@.os_distros == a.os_distros@,
        a@.os_distro_index == a.os_distro_index,
        a@.os_variants == variants_view(a.os_variants@),
        a@.os_variant_index == a.os_variant_index,
        a@.image_sources == a.image_sources@,
        a@.image_source_index == a.image_source_index,
        a@.images == a.images@,
        a@.image_index == a.image_index,
        a@.uefi_sources == a.uefi_sources@,
        a@.uefi_source_index == a.uefi_source_index,
        a@.locales == a.locales@,
        a@.locale_index == a.locale_index,
        a@.options == a.options@,
        a@.options_index == a.options_index,
        a@.first_boot_options == a.first_boot_options@,
        a@.first_boot_index == a.first_boot_index,
        a@.downloading_fedora_index == a.downloading_fedora_index,
        a@.downloading_uefi_index == a.downloading_uefi_index,
        a@.downloaded_fedora == a.downloaded_fedora,
        a@.downloaded_uefi == a.downloaded_uefi,
        a@.destructive_armed == a.destructive_armed,
        a@.flash_started == a.flash_started,
        a@.is_running == a.is_running,
        a@.status_message == a.status_message@,
        a@.error_message == opt_str_view(a.error_message),
        a@.image_source_path == a.image_source_path@,
        a@.uefi_source_path == a.uefi_source_path@,
        a@.downloaded_image_path == opt_str_view(a.downloaded_image_path),
        a@.downloaded_uefi_dir == opt_str_view(a.downloaded_uefi_dir),
        a@.execute_confirmation_input == a.execute_confirmation_input@,
        a@.execute_confirmation_confirmed == a.execute_confirmation_confirmed,
        a@.safe_mode_disarm_input == a.safe_mode_disarm_input@,
        a@.pending_destructive_action == a.pending_destructive_action,
        a@.pending_wipe_check == a.pending_wipe_check,
        a@.cancel_requested == a.cancel_requested,
        a@.customize_error_field == a.customize_error_field,
        a@.dry_run == a.dry_run,
        a@.developer_mode == a.developer_mode,
        a@.mash_root == a.mash_root@,
        a@.state_path == a.state_path@,
        a@.completion_lines == a.completion_lines@,
        a@.catalogue == catalogue_view(a.catalogue),
        a@.progress_complete == a.progress_complete,
{
}


/// The state with `error_message` replaced.
pub open spec fn with_error(v: AppView, e: Option<Seq<char>>) -> AppView {
    AppView { error_message: e, ..v }
}

/// The state with the current step replaced.
pub open spec fn with_step(v: AppView, s: InstallStepType) -> AppView {
    AppView { step: s, ..v }
}

/// The state with `status_message` replaced.
pub open spec fn with_status(v: AppView, m: Seq<char>) -> AppView {
    AppView { status_message: m, ..v }
}

/// The state with the highlighted size field replaced.
pub open spec fn with_field_error(v: AppView, f: Option<CustomizeField>) -> AppView {
    AppView { customize_error_field: f, ..v }
}

// The key handlers read and change the state through the helpers below,
// each of which states its result on the view alone.
impl App {
    pub(crate) fn current_step(&self) -> (r: InstallStepType)
        ensures
            r == self@.step,
    {
        self.current_step_type
    }

    pub(crate) fn is_dry_run(&self) -> (r: bool)
        ensures
            r == self@.dry_run,
    {
        self.dry_run
    }

    pub(crate) fn is_armed(&self) -> (r: bool)
        ensures
            r == self@.destructive_armed,
    {
        self.destructive_armed
    }

    pub(crate) fn is_gate_confirmed(&self) -> (r: bool)
        ensures
            r == self@.execute_confirmation_confirmed,
    {
        self.execute_confirmation_confirmed
    }

    pub(crate) fn uses_real_disks(&self) -> (r: bool)
        ensures
            r == self@.use_real_disks,
    {
        self.use_real_disks
    }

    pub(crate) fn in_developer_mode(&self) -> (r: bool)
        ensures
            r == self@.developer_mode,
    {
        self.developer_mode
    }

    pub(crate) fn is_progress_complete(&self) -> (r: bool)
        ensures
            r == self@.progress_complete,
    {
        self.progress_complete
    }

    pub(crate) fn pending_action(&self) -> (r: Option<PendingDestructiveAction>)
        ensures
            r == self@.pending_destructive_action,
    {
        self.pending_destructive_action
    }

    pub(crate) fn backup_choice(&self) -> (r: usize)
        ensures
            r == self@.backup_choice_index,
    {
        self.backup_choice_index
    }

    pub(crate) fn customize_cursor(&self) -> (r: usize)
        ensures
            r == self@.customize_index,
    {
        self.customize_index
    }

    pub(crate) fn fedora_choice(&self) -> (r: usize)
        ensures
            r == self@.downloading_fedora_index,
    {
        self.downloading_fedora_index
    }

    pub(crate) fn uefi_choice(&self) -> (r: usize)
        ensures
            r == self@.downloading_uefi_index,
    {
        self.downloading_uefi_index
    }

    pub(crate) fn source_count(&self) -> (r: usize)
        ensures
            r == self@.image_sources.len(),
    {
        self.image_sources.len()
    }

    pub(crate) fn has_no_variants(&self) -> (r: bool)
        ensures
            r == (self@.os_variants.len() == 0),
    {
        self.os_variants.len() == 0
    }

    pub(crate) fn wipe_has_room(&self) -> (r: bool)
        ensures
            r == (byte_len(self@.wipe_confirmation) < 32),
    {
        self.wipe_confirmation.as_str().len() < 32
    }

    pub(crate) fn gate_input_has_room(&self) -> (r: bool)
        ensures
            r == (byte_len(self@.execute_confirmation_input) < gate_phrase_len()),
    {
        self.execute_confirmation_input.as_str().len() < 46
    }

    pub(crate) fn disarm_input_has_room(&self) -> (r: bool)
        ensures
            r == (byte_len(self@.safe_mode_disarm_input) < 16),
    {
        self.safe_mode_disarm_input.as_str().len() < 16
    }

    pub(crate) fn gate_phrase_typed(&self) -> (r: bool)
        ensures
            r == (self@.execute_confirmation_input == gate_phrase()),
    {
        str_eq(self.execute_confirmation_input.as_str(), "I UNDERSTAND THIS WILL ERASE THE SELECTED DISK")
    }

    pub(crate) fn disarm_phrase_typed(&self) -> (r: bool)
        ensures
            r == (self@.safe_mode_disarm_input == "DESTROY"@),
    {
        str_eq(self.safe_mode_disarm_input.as_str(), "DESTROY")
    }

    pub(crate) fn set_step(&mut self, v: InstallStepType)
        ensures
            final(self)@ == with_step(old(self)@, v),
    {
        self.current_step_type = v;
    }

    pub(crate) fn clear_error(&mut self)
        ensures
            final(self)@ == with_error(old(self)@, None),
    {
        self.error_message = None;
    }

    pub(crate) fn set_error_str(&mut self, m: &str)
        ensures
            final(self)@ == with_error(old(self)@, Some(m@)),
    {
        self.error_message = Some(String::from_str(m));
    }

    pub(crate) fn set_error_string(&mut self, m: String)
        ensures
            final(self)@ == with_error(old(self)@, Some(m@)),
    {
        self.error_message = Some(m);
    }

    /// Shows `m` as the status line.
    pub fn set_status(&mut self, m: String)
        ensures
            final(self)@ == with_status(old(self)@, m@),
    {
        self.status_message = m;
    }

    pub(crate) fn set_status_str(&mut self, m: &str)
        ensures
            final(self)@ == with_status(old(self)@, m@),
    {
        self.status_message = String::from_str(m);
    }

    pub(crate) fn set_field_error(&mut self, v: Option<CustomizeField>)
        ensures
            final(self)@ == with_field_error(old(self)@, v),
    {
        self.customize_error_field = v;
    }

    pub(crate) fn set_backup_choice_index(&mut self, v: usize)
        ensures
            final(self)@ == (AppView { backup_choice_index: v, ..old(self)@ }),
    {
        self.backup_choice_index = v;
    }

    pub(crate) fn set_backup_confirmed(&mut self, v: bool)
        ensures
            final(self)@ == (AppView { backup_confirmed: v, ..old(self)@ }),
    {
        self.backup_confirmed = v;
    }

    pub(crate) fn set_disk_index(&mut self, v: usize)
        ensures
            final(self)@ == (AppView { disk_index: v, ..old(self)@ }),
    {
        self.disk_index = v;
    }

    pub(crate) fn set_pending_wipe_check(&mut self, v: Option<bool>)
        ensures
            final(self)@ == (AppView { pending_wipe_check: v, ..old(self)@ }),
    {
        self.pending_wipe_check = v;
    }

    pub(crate) fn set_execute_confirmation_confirmed(&mut self, v: bool)
        ensures
            final(self)@ == (AppView { execute_confirmation_confirmed: v, ..old(self)@ }),
    {
        self.execute_confirmation_confirmed = v;
    }

    pub(crate) fn set_destructive_armed(&mut self, v: bool)
        ensures
            final(self)@ == (AppView { destructive_armed: v, ..old(self)@ }),
    {
        self.destructive_armed = v;
    }

    pub(crate) fn set_pending_destructive_action(&mut self, v: Option<PendingDestructiveAction>)
        ensures
            final(self)@ == (AppView { pending_destructive_action: v, ..old(self)@ }),
    {
        self.pending_destructive_action = v;
    }

    pub(crate) fn set_downloaded_fedora(&mut self, v: bool)
        ensures
            final(self)@ == (AppView { downloaded_fedora: v, ..old(self)@ }),
    {
        self.downloaded_fedora = v;
    }

    pub(crate) fn set_downloaded_uefi(&mut self, v: bool)
        ensures
            final(self)@ == (AppView { downloaded_uefi: v, ..old(self)@ }),
    {
        self.downloaded_uefi = v;
    }

    pub(crate) fn set_os_variant_index(&mut self, v: usize)
        ensures
            final(self)@ == (AppView { os_variant_index: v, ..old(self)@ }),
    {
        self.os_variant_index = v;
    }

    pub(crate) fn set_cancel_requested(&mut self, v: bool)
        ensures
            final(self)@ == (AppView { cancel_requested: v, ..old(self)@ }),
    {
        self.cancel_requested = v;
    }

    pub(crate) fn set_layout_index(&mut self, v: usize)
        ensures
            final(self)@ == (AppView { layout_index: v, ..old(self)@ }),
    {
        self.layout_index = v;
    }

    pub(crate) fn set_image_source_index(&mut self, v: usize)
        ensures
            final(self)@ == (AppView { image_source_index: v, ..old(self)@ }),
    {
        self.image_source_index = v;
    }

    pub(crate) fn set_scheme_index(&mut self, v: usize)
        ensures
            final(self)@ == (AppView { scheme_index: v, ..old(self)@ }),
    {
        self.scheme_index = v;
    }

    pub(crate) fn set_locale_index(&mut self, v: usize)
        ensures
            final(self)@ == (AppView { locale_index: v, ..old(self)@ }),
    {
        self.locale_index = v;
    }

    pub(crate) fn set_first_boot_index(&mut self, v: usize)
        ensures
            final(self)@ == (AppView { first_boot_index: v, ..old(self)@ }),
    {
        self.first_boot_index = v;
    }

    pub(crate) fn set_flash_started(&mut self, v: bool)
        ensures
            final(self)@ == (AppView { flash_started: v, ..old(self)@ }),
    {
        self.flash_started = v;
    }

    pub(crate) fn set_is_running(&mut self, v: bool)
        ensures
            final(self)@ == (AppView { is_running: v, ..old(self)@ }),
    {
        self.is_running = v;
    }

    pub(crate) fn set_downloaded_paths(&mut self, image: Option<String>, uefi_dir: Option<String>)
        ensures
            final(self)@ == (AppView {
                downloaded_image_path: opt_str_view(image),
                downloaded_uefi_dir: opt_str_view(uefi_dir),
                ..old(self)@
            }),
    {
        self.downloaded_image_path = image;
        self.downloaded_uefi_dir = uefi_dir;
    }

    pub(crate) fn set_completion_lines(&mut self, v: Vec<String>)
        ensures
            final(self)@ == (AppView { completion_lines: v@, ..old(self)@ }),
    {
        self.completion_lines = v;
    }

    pub(crate) fn running(&self) -> (r: bool)
        ensures
            r == self@.is_running,
    {
        self.is_running
    }

    pub(crate) fn clear_wipe_confirmation(&mut self)
        ensures
            final(self)@ == (AppView { wipe_confirmation: Seq::empty(), ..old(self)@ }),
    {
        self.wipe_confirmation = String::new();
    }

    pub(crate) fn pop_wipe_confirmation(&mut self)
        ensures
            final(self)@ == (AppView { wipe_confirmation: popped(old(self)@.wipe_confirmation), ..old(self)@ }),
    {
        string_pop(&mut self.wipe_confirmation);
    }

    pub(crate) fn clear_execute_confirmation_input(&mut self)
        ensures
            final(self)@ == (AppView { execute_confirmation_input: Seq::empty(), ..old(self)@ }),
    {
        self.execute_confirmation_input = String::new();
    }

    pub(crate) fn push_execute_confirmation_input(&mut self, c: char)
        ensures
            final(self)@ == (AppView { execute_confirmation_input: old(self)@.execute_confirmation_input.push(c), ..old(self)@ }),
    {
        string_push(&mut self.execute_confirmation_input, c);
    }

    pub(crate) fn pop_execute_confirmation_input(&mut self)
        ensures
            final(self)@ == (AppView { execute_confirmation_input: popped(old(self)@.execute_confirmation_input), ..old(self)@ }),
    {
        string_pop(&mut self.execute_confirmation_input);
    }

    pub(crate) fn clear_safe_mode_disarm_input(&mut self)
        ensures
            final(self)@ == (AppView { safe_mode_disarm_input: Seq::empty(), ..old(self)@ }),
    {
        self.safe_mode_disarm_input = String::new();
    }

    pub(crate) fn push_safe_mode_disarm_input(&mut self, c: char)
        ensures
            final(self)@ == (AppView { safe_mode_disarm_input: old(self)@.safe_mode_disarm_input.push(c), ..old(self)@ }),
    {
        string_push(&mut self.safe_mode_disarm_input, c);
    }

    pub(crate) fn pop_safe_mode_disarm_input(&mut self)
        ensures
            final(self)@ == (AppView { safe_mode_disarm_input: popped(old(self)@.safe_mode_disarm_input), ..old(self)@ }),
    {
        string_pop(&mut self.safe_mode_disarm_input);
    }

    pub(crate) fn push_uefi_source_path(&mut self, c: char)
        ensures
            final(self)@ == (AppView { uefi_source_path: old(self)@.uefi_source_path.push(c), ..old(self)@ }),
    {
        string_push(&mut self.uefi_source_path, c);
    }

    pub(crate) fn pop_uefi_source_path(&mut self)
        ensures
            final(self)@ == (AppView { uefi_source_path: popped(old(self)@.uefi_source_path), ..old(self)@ }),
    {
        string_pop(&mut self.uefi_source_path);
    }

    pub(crate) fn push_image_source_path(&mut self, c: char)
        ensures
            final(self)@ == (AppView { image_source_path: old(self)@.image_source_path.push(c), ..old(self)@ }),
    {
        string_push(&mut self.image_source_path, c);
    }

    pub(crate) fn pop_image_source_path(&mut self)
        ensures
            final(self)@ == (AppView { image_source_path: popped(old(self)@.image_source_path), ..old(self)@ }),
    {
        string_pop(&mut self.image_source_path);
    }

    pub(crate) fn move_welcome_index(&mut self, delta: isize)
        ensures
            final(self)@ == (AppView {
                welcome_index: adjust(old(self)@.welcome_options.len(), old(self)@.welcome_index as nat, delta as int),
                ..old(self)@
            }),
    {
        let len: usize = self.welcome_options.len();
        adjust_index(len, &mut self.welcome_index, delta);
    }

    pub(crate) fn move_options_index(&mut self, delta: isize)
        ensures
            final(self)@ == (AppView {
                options_index: adjust(old(self)@.options.len(), old(self)@.options_index as nat, delta as int),
                ..old(self)@
            }),
    {
        let len: usize = self.options.len();
        adjust_index(len, &mut self.options_index, delta);
    }

    pub(crate) fn move_downloading_fedora_index(&mut self, delta: isize)
        ensures
            final(self)@ == (AppView {
                downloading_fedora_index: adjust(2, old(self)@.downloading_fedora_index as nat, delta as int),
                ..old(self)@
            }),
    {
        let len: usize = 2;
        adjust_index(len, &mut self.downloading_fedora_index, delta);
    }

    pub(crate) fn move_downloading_uefi_index(&mut self, delta: isize)
        ensures
            final(self)@ == (AppView {
                downloading_uefi_index: adjust(2, old(self)@.downloading_uefi_index as nat, delta as int),
                ..old(self)@
            }),
    {
        let len: usize = 2;
        adjust_index(len, &mut self.downloading_uefi_index, delta);
    }

    pub(crate) fn move_os_distro_index(&mut self, delta: isize)
        ensures
            final(self)@ == (AppView {
                os_distro_index: adjust(old(self)@.os_distros.len(), old(self)@.os_distro_index as nat, delta as int),
                ..old(self)@
            }),
    {
        let len: usize = self.os_distros.len();
        adjust_index(len, &mut self.os_distro_index, delta);
    }

    pub(crate) fn move_os_variant_index(&mut self, delta: isize)
        ensures
            final(self)@ == (AppView {
                os_variant_index: adjust(old(self)@.os_variants.len(), old(self)@.os_variant_index as nat, delta as int),
                ..old(self)@
            }),
    {
        let len: usize = self.os_variants.len();
        adjust_index(len, &mut self.os_variant_index, delta);
    }

    pub(crate) fn move_uefi_source_index(&mut self, delta: isize)
        ensures
            final(self)@ == (AppView {
                uefi_source_index: adjust(old(self)@.uefi_sources.len(), old(self)@.uefi_source_index as nat, delta as int),
                ..old(self)@
            }),
    {
        let len: usize = self.uefi_sources.len();
        adjust_index(len, &mut self.uefi_source_index, delta);
    }

    pub(crate) fn move_customize_index(&mut self, delta: isize)
        ensures
            final(self)@ == (AppView {
                customize_index: adjust(old(self)@.partition_customizations.len(), old(self)@.customize_index as nat, delta as int),
                ..old(self)@
            }),
    {
        let len: usize = self.partition_customizations.len();
        adjust_index(len, &mut self.customize_index, delta);
    }

    pub(crate) fn wipe_phrase_typed(&self, protected: bool) -> (r: bool)
        ensures
            r == (self@.wipe_confirmation == wipe_phrase(protected)),
    {
        if protected {
            str_eq(self.wipe_confirmation.as_str(), "DESTROY BOOT DISK")
        } else {
            str_eq(self.wipe_confirmation.as_str(), "DESTROY")
        }
    }

    pub(crate) fn push_wipe_upper(&mut self, c: char)
        ensures
            final(self)@ == (AppView {
                wipe_confirmation: old(self)@.wipe_confirmation.push(upper_of(c)),
                ..old(self)@
            }),
    {
        string_push(&mut self.wipe_confirmation, char_to_upper(c));
    }

    pub(crate) fn flip_backup_choice(&mut self)
        ensures
            final(self)@ == (AppView {
                backup_choice_index: if old(self)@.backup_choice_index == 0 { 1 } else { 0 },
                ..old(self)@
            }),
    {
        self.backup_choice_index = if self.backup_choice_index == 0 {
            1
        } else {
            0
        };
    }

    pub(crate) fn set_os_variants(&mut self, v: Vec<OsVariantOption>)
        ensures
            final(self)@ == (AppView { os_variants: variants_view(v@), ..old(self)@ }),
    {
        self.os_variants = v;
    }

    pub(crate) fn set_partition_customizations(&mut self, v: Vec<String>)
        ensures
            final(self)@ == (AppView { partition_customizations: strings_view(v@), ..old(self)@ }),
    {
        self.partition_customizations = v;
    }

    pub(crate) fn move_image_source_index(&mut self, len: usize, delta: isize)
        ensures
            final(self)@ == (AppView {
                image_source_index: adjust(len as nat, old(self)@.image_source_index as nat, delta as int),
                ..old(self)@
            }),
    {
        adjust_index(len, &mut self.image_source_index, delta);
    }

    pub(crate) fn edit_efi_size(&mut self, input: Option<char>)
        ensures
            final(self)@ == (AppView { efi_size: edited(old(self)@.efi_size, input), ..old(self)@ }),
    {
        match input {
            Some(ch) => string_push(&mut self.efi_size, ch),
            None => {
                string_pop(&mut self.efi_size);
            },
        }
    }

    pub(crate) fn edit_boot_size(&mut self, input: Option<char>)
        ensures
            final(self)@ == (AppView { boot_size: edited(old(self)@.boot_size, input), ..old(self)@ }),
    {
        match input {
            Some(ch) => string_push(&mut self.boot_size, ch),
            None => {
                string_pop(&mut self.boot_size);
            },
        }
    }

    pub(crate) fn edit_root_end(&mut self, input: Option<char>)
        ensures
            final(self)@ == (AppView { root_end: edited(old(self)@.root_end, input), ..old(self)@ }),
    {
        match input {
            Some(ch) => string_push(&mut self.root_end, ch),
            None => {
                string_pop(&mut self.root_end);
            },
        }
    }

    pub(crate) fn move_to(&mut self, target: Option<InstallStepType>)
        ensures
            final(self)@ == move_to(old(self)@, target),
    {
        proof {
            reveal(move_to);
        }
        if let Some(t) = target {
            if !self.is_running {
                self.execute_confirmation_confirmed = false;
                self.execute_confirmation_input = String::new();
            }
            self.current_step_type = t;
        }
    }

    /// Flips the option under the cursor.
    pub(crate) fn toggle_selected_option(&mut self)
        ensures
            final(self)@ == toggle_option(old(self)@),
    {
        if self.options_index < self.options.len() {
            let i = self.options_index;
            let mut o = self.options.remove(i);
            o.enabled = !o.enabled;
            self.options.insert(i, o);
            proof {
                assert(self.options@ =~= old(self).options@.update(
                    i as int,
                    OptionToggle { label: old(self).options@[i as int].label, enabled: !old(self).options@[i as int].enabled },
                ));
            }
        }
    }
}

// ---------------------------------------------------------------------------
// List navigation
// ---------------------------------------------------------------------------

/// Moves an index by `delta` inside a list of `len` items, wrapping at both
/// ends; an empty list resets the index to 0.
pub open spec fn adjust(len: nat, idx: nat, delta: int) -> usize {
    if len == 0 {
        0
    } else {
        let n = idx + delta;
        if n < 0 {
            (len - 1) as usize
        } else if n >= len {
            0
        } else {
            n as usize
        }
    }
}

pub fn adjust_index(len: usize, index: &mut usize, delta: isize)
    ensures
        *final(index) == adjust(len as nat, *old(index) as nat, delta as int),
{
    if len == 0 {
        *index = 0;
        return;
    }
    let next: i128 = *index as i128 + delta as i128;
    if next < 0 {
        *index = len - 1;
    } else if next >= len as i128 {
        *index = 0;
    } else {
        *index = next as usize;
    }
}

/// A wrapped index always lies inside a non-empty list.
pub proof fn law_adjust_stays_in_range(len: nat, idx: nat, delta: int)
    requires
        len > 0,
        len <= usize::MAX,
    ensures
        adjust(len, idx, delta) < len,
{
}

/// One step forward then one step back returns to an index inside the list.
pub proof fn law_adjust_forward_back(len: nat, idx: nat)
    requires
        0 < len <= usize::MAX,
        idx < len,
    ensures
        adjust(len, adjust(len, idx, 1) as nat, -1) == idx,
        adjust(len, adjust(len, idx, -1) as nat, 1) == idx,
{
}

/// The next index when walking the disk list by `delta`, skipping protected
/// disks outside developer mode; gives up after one full cycle.
pub open spec fn disk_walk(
    disks: Seq<DiskOption>,
    developer_mode: bool,
    delta: int,
    start: nat,
    idx: nat,
    attempts: nat,
) -> usize
    decreases disks.len() - attempts,
{
    let n = adjust(disks.len(), idx, delta);
    if n < disks.len() && (!disk_protected(disks[n as int]) || developer_mode) {
        n
    } else if attempts + 1 >= disks.len() || n == start {
        n
    } else {
        disk_walk(disks, developer_mode, delta, start, n as nat, attempts + 1)
    }
}

pub open spec fn adjust_disk(v: AppView, delta: int) -> usize {
    if v.disks.len() == 0 {
        0
    } else {
        disk_walk(v.disks, v.developer_mode, delta, v.disk_index as nat, v.disk_index as nat, 0)
    }
}

// ---------------------------------------------------------------------------
// Step order of the running app (depends on the selected distribution)
// ---------------------------------------------------------------------------

pub open spec fn selected_distro(v: AppView) -> OsDistro {
    if v.os_distro_index < v.os_distros.len() {
        v.os_distros[v.os_distro_index as int]
    } else {
        OsDistro::Fedora
    }
}

pub open spec fn next_step_for(v: AppView, from: InstallStepType) -> Option<InstallStepType> {
    match from {
        InstallStepType::Welcome => Some(InstallStepType::DiskSelection),
        InstallStepType::DiskSelection => Some(InstallStepType::DiskConfirmation),
        InstallStepType::DiskConfirmation => Some(InstallStepType::ImageSelection),
        InstallStepType::BackupConfirmation => Some(InstallStepType::ImageSelection),
        InstallStepType::ImageSelection => Some(InstallStepType::VariantSelection),
        InstallStepType::VariantSelection => Some(InstallStepType::DownloadSourceSelection),
        InstallStepType::DownloadSourceSelection => if selected_distro(v) == OsDistro::Fedora {
            Some(InstallStepType::PartitionScheme)
        } else {
            Some(InstallStepType::LocaleSelection)
        },
        InstallStepType::PartitionScheme => Some(InstallStepType::PartitionLayout),
        InstallStepType::PartitionLayout => Some(InstallStepType::PartitionCustomize),
        InstallStepType::PartitionCustomize => Some(InstallStepType::EfiImage),
        InstallStepType::EfiImage => Some(InstallStepType::LocaleSelection),
        InstallStepType::LocaleSelection => Some(InstallStepType::Options),
        InstallStepType::Options => Some(InstallStepType::PlanReview),
        InstallStepType::FirstBootUser => Some(InstallStepType::PlanReview),
        InstallStepType::PlanReview => Some(InstallStepType::Confirmation),
        InstallStepType::Flashing => Some(InstallStepType::Complete),
        _ => None,
    }
}

pub open spec fn prev_step_for(v: AppView, from: InstallStepType) -> Option<InstallStepType> {
    match from {
        InstallStepType::DiskSelection => Some(InstallStepType::Welcome),
        InstallStepType::DiskConfirmation => Some(InstallStepType::DiskSelection),
        InstallStepType::BackupConfirmation => Some(InstallStepType::DiskConfirmation),
        InstallStepType::ImageSelection => Some(InstallStepType::DiskConfirmation),
        InstallStepType::VariantSelection => Some(InstallStepType::ImageSelection),
        InstallStepType::DownloadSourceSelection => Some(InstallStepType::VariantSelection),
        InstallStepType::PartitionScheme => Some(InstallStepType::DownloadSourceSelection),
        InstallStepType::PartitionLayout => Some(InstallStepType::PartitionScheme),
        InstallStepType::PartitionCustomize => Some(InstallStepType::PartitionLayout),
        InstallStepType::EfiImage => Some(InstallStepType::PartitionCustomize),
        InstallStepType::LocaleSelection => if selected_distro(v) == OsDistro::Fedora {
            Some(InstallStepType::EfiImage)
        } else {
            Some(InstallStepType::DownloadSourceSelection)
        },
        InstallStepType::Options => Some(InstallStepType::LocaleSelection),
        InstallStepType::FirstBootUser => Some(InstallStepType::Options),
        InstallStepType::PlanReview => Some(InstallStepType::Options),
        InstallStepType::Confirmation => Some(InstallStepType::PlanReview),
        InstallStepType::DisarmSafeMode => Some(InstallStepType::Confirmation),
        _ => None,
    }
}

/// Moving to another step resets the execute confirmation gate unless the
/// pipeline is running.
#[verifier::opaque]
pub open spec fn move_to(v: AppView, target: Option<InstallStepType>) -> AppView {
    match target {
        None => v,
        Some(t) => if !v.is_running {
            AppView {
                step: t,
                execute_confirmation_confirmed: false,
                execute_confirmation_input: Seq::empty(),
                ..v
            }
        } else {
            AppView { step: t, ..v }
        },
    }
}

/// What a change of step leaves alone.
pub open spec fn step_change_keeps(v: AppView, w: AppView) -> bool {
    &&& w.dry_run == v.dry_run
    &&& w.developer_mode == v.developer_mode
    &&& w.destructive_armed == v.destructive_armed
    &&& w.efi_size == v.efi_size && w.boot_size == v.boot_size && w.root_end == v.root_end
    &&& w.safe_mode_disarm_input == v.safe_mode_disarm_input
    &&& w.wipe_confirmation == v.wipe_confirmation
    &&& w.disks == v.disks && w.disk_index == v.disk_index
    &&& w.pending_destructive_action == v.pending_destructive_action
    &&& w.pending_wipe_check == v.pending_wipe_check
}

pub broadcast proof fn lemma_move_to(v: AppView, target: Option<InstallStepType>)
    ensures
        step_change_keeps(v, #[trigger] move_to(v, target)),
        move_to(v, target).step == match target {
            Some(t) => t,
            None => v.step,
        },
        !v.is_running && target is Some ==> !move_to(v, target).execute_confirmation_confirmed,
        v.is_running || target is None ==> move_to(v, target).execute_confirmation_confirmed
            == v.execute_confirmation_confirmed,
{
    reveal(move_to);
}

pub open spec fn go_next(v: AppView) -> AppView {
    move_to(v, next_step_for(v, v.step))
}

pub open spec fn go_prev(v: AppView) -> AppView {
    move_to(v, prev_step_for(v, v.step))
}

/// Going back from where "continue" leads returns to the step one came
/// from, along the whole wizard path of either kind of distribution; the
/// side steps BackupConfirmation and FirstBootUser and the execution step
/// Flashing are the exceptions.
pub proof fn law_back_undoes_continue(v: AppView)
    requires
        next_step_for(v, v.step) is Some,
        v.step != InstallStepType::BackupConfirmation,
        v.step != InstallStepType::FirstBootUser,
        v.step != InstallStepType::Flashing,
        v.step == InstallStepType::EfiImage ==> selected_distro(v) == OsDistro::Fedora,
    ensures
        go_prev(go_next(v)).step == v.step,
{
    reveal(move_to);
}

// ---------------------------------------------------------------------------
// Customisation
// ---------------------------------------------------------------------------

pub open spec fn customizations_of(efi: Seq<char>, boot: Seq<char>, root: Seq<char>) -> Seq<Seq<char>> {
    seq!["EFI "@ + efi, "BOOT "@ + boot, "ROOT "@ + root, "DATA remainder"@]
}

#[verifier::opaque]
pub open spec fn refresh_customizations(v: AppView) -> AppView {
    AppView {
        partition_customizations: customizations_of(v.efi_size, v.boot_size, v.root_end),
        ..v
    }
}

/// The verdict on the plan built from the current sizes.
pub open spec fn app_plan_verdict(v: AppView) -> Result<(), (Seq<char>, CustomizeField)> {
    sizes_verdict(v.efi_size, v.boot_size, v.root_end)
}

// ---------------------------------------------------------------------------
// Variant list
// ---------------------------------------------------------------------------

pub open spec fn variant_label(os: OsDistro, variant: Seq<char>) -> Seq<char> {
    if os == OsDistro::Fedora && variant == "kde_mobile_disk"@ {
        "Fedora KDE Mobile Disk (F43, aarch64)"@
    } else if os == OsDistro::Ubuntu && variant == "server_24_04_3"@ {
        "Ubuntu 24.04.3 Server (arm64+raspi)"@
    } else if os == OsDistro::Ubuntu && variant == "desktop_24_04_3"@ {
        "Ubuntu 24.04.3 Desktop (arm64+raspi)"@
    } else if os == OsDistro::RaspberryPiOS && variant == "arm64_latest"@ {
        "Raspberry Pi OS (arm64) Latest"@
    } else if os == OsDistro::Manjaro && variant == "minimal_rpi4_23_02"@ {
        "Manjaro ARM Minimal (RPI4) 23.02"@
    } else {
        variant
    }
}

/// Display label of a catalogue variant.
pub fn format_variant_label(os: OsDistro, variant: &str) -> (r: String)
    ensures
        r@ == variant_label(os, variant@),
{
    let is = |lit: &str| -> (b: bool)
        ensures
            b == (variant@ == lit@),
        { str_eq(variant, lit) };
    if os == OsDistro::Fedora && is("kde_mobile_disk") {
        String::from_str("Fedora KDE Mobile Disk (F43, aarch64)")
    } else if os == OsDistro::Ubuntu && is("server_24_04_3") {
        String::from_str("Ubuntu 24.04.3 Server (arm64+raspi)")
    } else if os == OsDistro::Ubuntu && is("desktop_24_04_3") {
        String::from_str("Ubuntu 24.04.3 Desktop (arm64+raspi)")
    } else if os == OsDistro::RaspberryPiOS && is("arm64_latest") {
        String::from_str("Raspberry Pi OS (arm64) Latest")
    } else if os == OsDistro::Manjaro && is("minimal_rpi4_23_02") {
        String::from_str("Manjaro ARM Minimal (RPI4) 23.02")
    } else {
        String::from_str(variant)
    }
}

/// Catalogue entries for `os` on aarch64, as (id, label) pairs.
pub open spec fn variants_for(cat: Seq<CatalogueImage>, os: OsDistro) -> Seq<(Seq<char>, Seq<char>)>
    decreases cat.len(),
{
    if cat.len() == 0 {
        Seq::empty()
    } else {
        let rest = variants_for(cat.drop_last(), os);
        let img = cat.last();
        if img.os == os && img.arch@ == "aarch64"@ {
            rest.push((img.variant@, variant_label(os, img.variant@)))
        } else {
            rest
        }
    }
}

/// Position at which a stable sort by label inserts `x` into `s`: after
/// every entry whose label is not greater.
pub open spec fn label_insert_pos(s: Seq<(Seq<char>, Seq<char>)>, x: (Seq<char>, Seq<char>)) -> int
    decreases s.len(),
{
    if s.len() == 0 {
        0
    } else if lex_lt(x.1, s.last().1) {
        label_insert_pos(s.drop_last(), x)
    } else {
        s.len() as int
    }
}

/// Stable sort by label (what `sort_by` on labels gives).
pub open spec fn sort_by_label(s: Seq<(Seq<char>, Seq<char>)>) -> Seq<(Seq<char>, Seq<char>)>
    decreases s.len(),
{
    if s.len() == 0 {
        s
    } else {
        let sorted = sort_by_label(s.drop_last());
        sorted.insert(label_insert_pos(sorted, s.last()), s.last())
    }
}

#[verifier::opaque]
pub open spec fn refresh_variants(v: AppView) -> AppView {
    match v.catalogue {
        None => AppView {
            os_variants: Seq::empty(),
            os_variant_index: 0,
            status_message: "❌ Download catalogue unavailable (failed to parse index)."@,
            ..v
        },
        Some(cat) => AppView {
            os_variants: sort_by_label(variants_for(cat, selected_distro(v))),
            os_variant_index: 0,
            ..v
        },
    }
}

pub broadcast proof fn lemma_refresh_variants(v: AppView)
    ensures
        step_change_keeps(v, #[trigger] refresh_variants(v)),
        refresh_variants(v).step == v.step,
{
    reveal(refresh_variants);
}

/// Labels of a list sorted by `sort_by_label` never decrease.
pub open spec fn labels_sorted(s: Seq<(Seq<char>, Seq<char>)>) -> bool {
    forall|i: int, j: int| 0 <= i < j < s.len() ==> !lex_lt(s[j].1, s[i].1)
}

pub proof fn lemma_label_insert_pos(s: Seq<(Seq<char>, Seq<char>)>, x: (Seq<char>, Seq<char>))
    requires
        labels_sorted(s),
    ensures
        0 <= label_insert_pos(s, x) <= s.len(),
        forall|i: int| 0 <= i < label_insert_pos(s, x) ==> !lex_lt(x.1, #[trigger] s[i].1),
        forall|i: int| label_insert_pos(s, x) <= i < s.len() ==> lex_lt(x.1, #[trigger] s[i].1),
    decreases s.len(),
{
    if s.len() > 0 {
        let t = s.drop_last();
        let last = s.last();
        if lex_lt(x.1, last.1) {
            assert(labels_sorted(t)) by {
                assert forall|i: int, j: int| 0 <= i < j < t.len() implies !lex_lt(
                    t[j].1,
                    t[i].1,
                ) by {
                    assert(t[i] == s[i] && t[j] == s[j]);
                }
            }
            lemma_label_insert_pos(t, x);
            let p = label_insert_pos(t, x);
            assert(label_insert_pos(s, x) == p);
            assert forall|i: int| 0 <= i < p implies !lex_lt(x.1, #[trigger] s[i].1) by {
                assert(t[i] == s[i]);
            }
            assert forall|i: int| p <= i < s.len() implies lex_lt(x.1, #[trigger] s[i].1) by {
                if i < s.len() - 1 {
                    assert(t[i] == s[i]);
                }
            }
        } else {
            assert forall|i: int| 0 <= i < s.len() implies !lex_lt(x.1, #[trigger] s[i].1) by {
                if i < s.len() - 1 && lex_lt(x.1, s[i].1) {
                    assert(!lex_lt(s[s.len() - 1].1, s[i].1));
                    crate::text::lemma_lex_total(last.1, s[i].1);
                    if lex_lt(s[i].1, last.1) {
                        crate::text::lemma_lex_trans(x.1, s[i].1, last.1);
                    }
                }
            }
        }
    }
}

/// The variant list is always ordered by label.
pub proof fn law_sort_by_label_sorted(s: Seq<(Seq<char>, Seq<char>)>)
    ensures
        labels_sorted(sort_by_label(s)),
        sort_by_label(s).len() == s.len(),
    decreases s.len(),
{
    if s.len() > 0 {
        law_sort_by_label_sorted(s.drop_last());
        let sorted = sort_by_label(s.drop_last());
        let x = s.last();
        lemma_label_insert_pos(sorted, x);
        let p = label_insert_pos(sorted, x);
        let r = sorted.insert(p, x);
        assert forall|i: int, j: int| 0 <= i < j < r.len() implies !lex_lt(r[j].1, r[i].1) by {
            if j < p {
            } else if j == p {
                assert(r[j] == x);
                assert(r[i] == sorted[i]);
            } else if i < p {
                assert(r[j] == sorted[j - 1]);
                assert(r[i] == sorted[i]);
            } else if i == p {
                assert(r[i] == x);
                assert(r[j] == sorted[j - 1]);
                crate::text::lemma_lex_total(r[j].1, x.1);
                if lex_lt(r[j].1, x.1) {
                    crate::text::lemma_lex_trans(x.1, r[j].1, x.1);
                    crate::text::lemma_lex_irreflexive(x.1);
                }
            } else {
                assert(r[j] == sorted[j - 1]);
                assert(r[i] == sorted[i - 1]);
            }
        }
    }
}


// ---------------------------------------------------------------------------
// Disk choice: default selection and rescans
// ---------------------------------------------------------------------------

/// The kinds of disk that selection looks for.
#[derive(Debug, Clone, Copy, PartialEq, Eq, Structural)]
pub enum DiskFilter {
    /// Not the source disk, reported as not booting, and removable.
    RemovableSafe,
    /// Not the source disk and reported as not booting.
    Safe,
    /// Neither boot nor source medium, and removable.
    RemovableUnprotected,
    /// Neither boot nor source medium.
    Unprotected,
}

pub open spec fn disk_matches(d: DiskOption, f: DiskFilter) -> bool {
    match f {
        DiskFilter::RemovableSafe => !d.is_source_disk && d.boot_confidence == BootConfidence::NotBoot
            && d.removable,
        DiskFilter::Safe => !d.is_source_disk && d.boot_confidence == BootConfidence::NotBoot,
        DiskFilter::RemovableUnprotected => !disk_protected(d) && d.removable,
        DiskFilter::Unprotected => !disk_protected(d),
    }
}

/// Index of the first disk at or after `i` that matches `f`, or the length
/// of the list when there is none.
pub open spec fn first_match(s: Seq<DiskOption>, f: DiskFilter, i: nat) -> nat
    decreases s.len() - i,
{
    if i >= s.len() {
        s.len()
    } else if disk_matches(s[i as int], f) {
        i
    } else {
        first_match(s, f, i + 1)
    }
}

pub proof fn lemma_first_match(s: Seq<DiskOption>, f: DiskFilter, i: nat)
    requires
        i <= s.len(),
    ensures
        i <= first_match(s, f, i) <= s.len(),
        first_match(s, f, i) < s.len() ==> disk_matches(s[first_match(s, f, i) as int], f),
        forall|j: int| i <= j < first_match(s, f, i) ==> !disk_matches(#[trigger] s[j], f),
    decreases s.len() - i,
{
    if i < s.len() && !disk_matches(s[i as int], f) {
        lemma_first_match(s, f, i + 1);
    }
}

pub fn find_disk(disks: &Vec<DiskOption>, f: DiskFilter) -> (r: usize)
    ensures
        r == first_match(disks@, f, 0),
{
    let mut i: usize = 0;
    while i < disks.len()
        invariant
            i <= disks.len(),
            first_match(disks@, f, 0) == first_match(disks@, f, i as nat),
        decreases disks.len() - i,
    {
        let d = &disks[i];
        let m = match f {
            DiskFilter::RemovableSafe => !d.is_source_disk && d.boot_confidence == BootConfidence::NotBoot
                && d.removable,
            DiskFilter::Safe => !d.is_source_disk && d.boot_confidence == BootConfidence::NotBoot,
            DiskFilter::RemovableUnprotected => !is_protected(d) && d.removable,
            DiskFilter::Unprotected => !is_protected(d),
        };
        if m {
            return i;
        }
        i += 1;
    }
    i
}

/// The disk selected when the app starts: the first safe removable disk,
/// else the first safe disk, else the first disk.
pub open spec fn default_disk_spec(s: Seq<DiskOption>) -> usize {
    let a = first_match(s, DiskFilter::RemovableSafe, 0);
    let b = first_match(s, DiskFilter::Safe, 0);
    if a < s.len() {
        a as usize
    } else if b < s.len() {
        b as usize
    } else {
        0
    }
}

/// Auto-selects the first non-boot, removable disk for safety (USB sticks
/// and SD cards), then the first non-boot disk, then the first disk.
pub fn default_disk_index(disks: &Vec<DiskOption>) -> (r: usize)
    ensures
        r == default_disk_spec(disks@),
{
    let a = find_disk(disks, DiskFilter::RemovableSafe);
    if a < disks.len() {
        return a;
    }
    let b = find_disk(disks, DiskFilter::Safe);
    if b < disks.len() {
        b
    } else {
        0
    }
}

/// The default selection is a safe removable disk whenever the list holds
/// one (the first of them), and a safe disk whenever it holds one.
pub proof fn law_default_disk_prefers_safe_removable(s: Seq<DiskOption>)
    requires
        s.len() <= usize::MAX,
    ensures
        (exists|i: int| 0 <= i < s.len() && disk_matches(#[trigger] s[i], DiskFilter::RemovableSafe))
            ==> {
            &&& default_disk_spec(s) < s.len()
            &&& disk_matches(s[default_disk_spec(s) as int], DiskFilter::RemovableSafe)
            &&& forall|j: int| 0 <= j < default_disk_spec(s) ==> !disk_matches(#[trigger] s[j], DiskFilter::RemovableSafe)
        },
        (exists|i: int| 0 <= i < s.len() && disk_matches(#[trigger] s[i], DiskFilter::Safe))
            ==> default_disk_spec(s) < s.len() && disk_matches(s[default_disk_spec(s) as int], DiskFilter::Safe)
            && !disk_protected(s[default_disk_spec(s) as int]),
        s.len() > 0 ==> default_disk_spec(s) < s.len(),
{
    lemma_first_match(s, DiskFilter::RemovableSafe, 0);
    lemma_first_match(s, DiskFilter::Safe, 0);
}

/// Position at which a stable sort by path inserts `x` into `s`.
pub open spec fn path_insert_pos(s: Seq<DiskOption>, x: DiskOption) -> int
    decreases s.len(),
{
    if s.len() == 0 {
        0
    } else if lex_lt(x.path@, s.last().path@) {
        path_insert_pos(s.drop_last(), x)
    } else {
        s.len() as int
    }
}

/// The disks in a stable order by path (what `sort_by` on paths gives).
pub open spec fn sort_by_path(s: Seq<DiskOption>) -> Seq<DiskOption>
    decreases s.len(),
{
    if s.len() == 0 {
        s
    } else {
        let sorted = sort_by_path(s.drop_last());
        sorted.insert(path_insert_pos(sorted, s.last()), s.last())
    }
}

pub proof fn lemma_sort_by_path_len(s: Seq<DiskOption>)
    ensures
        sort_by_path(s).len() == s.len(),
    decreases s.len(),
{
    if s.len() > 0 {
        lemma_sort_by_path_len(s.drop_last());
        lemma_path_insert_pos_bounds(sort_by_path(s.drop_last()), s.last());
    }
}

pub proof fn lemma_path_insert_pos_bounds(s: Seq<DiskOption>, x: DiskOption)
    ensures
        0 <= path_insert_pos(s, x) <= s.len(),
    decreases s.len(),
{
    if s.len() > 0 {
        lemma_path_insert_pos_bounds(s.drop_last(), x);
    }
}

fn path_less(a: &DiskOption, b: &DiskOption) -> (r: bool)
    ensures
        r == lex_lt(a.path@, b.path@),
{
    let av = chars_of(a.path.as_str());
    let bv = chars_of(b.path.as_str());
    lex_less(&av, &bv)
}

/// Stable insertion sort of disks by path.
pub fn sort_disks_by_path(v: Vec<DiskOption>) -> (r: Vec<DiskOption>)
    ensures
        r@ == sort_by_path(v@),
{
    let ghost orig = v@;
    let n = v.len();
    assert(orig.len() == n);
    let mut rest = v;
    let mut sorted: Vec<DiskOption> = Vec::new();
    let mut k: usize = 0;
    assert(orig.subrange(0, 0) =~= Seq::<DiskOption>::empty());
    while rest.len() > 0
        invariant
            k + rest.len() == orig.len(),
            orig.len() <= usize::MAX,
            rest@ == orig.subrange(k as int, orig.len() as int),
            sorted@ == sort_by_path(orig.subrange(0, k as int)),
        decreases rest.len(),
    {
        let x = rest.remove(0);
        let ghost sv = sorted@;
        let mut pos = sorted.len();
        assert(sv.subrange(0, pos as int) =~= sv);
        loop
            invariant
                pos <= sorted.len(),
                sv == sorted@,
                path_insert_pos(sv, x) == path_insert_pos(sv.subrange(0, pos as int), x),
            ensures
                pos <= sorted.len(),
                path_insert_pos(sv, x) == pos,
            decreases pos,
        {
            if pos == 0 {
                break;
            }
            let less = path_less(&x, &sorted[pos - 1]);
            proof {
                let s = sv.subrange(0, pos as int);
                assert(s.last() == sv[pos - 1]);
                assert(s.drop_last() =~= sv.subrange(0, pos - 1));
            }
            if !less {
                break;
            }
            pos -= 1;
        }
        sorted.insert(pos, x);
        proof {
            let next = orig.subrange(0, k + 1);
            assert(next.drop_last() =~= orig.subrange(0, k as int));
            assert(next.last() == x);
        }
        k += 1;
        assert(rest@ =~= orig.subrange(k as int, orig.len() as int));
    }
    assert(orig.subrange(0, orig.len() as int) =~= orig);
    sorted
}

/// Index of the disk with the given stable id, or the length of the list.
pub open spec fn position_of_id(s: Seq<DiskOption>, id: Seq<char>, i: nat) -> nat
    decreases s.len() - i,
{
    if i >= s.len() {
        s.len()
    } else if s[i as int].stable_id@ == id {
        i
    } else {
        position_of_id(s, id, i + 1)
    }
}

fn find_stable_id(disks: &Vec<DiskOption>, id: &str) -> (r: usize)
    ensures
        r == position_of_id(disks@, id@, 0),
{
    let mut i: usize = 0;
    while i < disks.len()
        invariant
            i <= disks.len(),
            position_of_id(disks@, id@, 0) == position_of_id(disks@, id@, i as nat),
        decreases disks.len() - i,
    {
        if str_eq(disks[i].stable_id.as_str(), id) {
            return i;
        }
        i += 1;
    }
    i
}

/// The selection after a rescan returned the (sorted, non-empty) list `d`:
/// the disk selected before, found again by its stable id, else the first;
/// outside developer mode a protected choice gives way to the first
/// unprotected removable disk, else the first unprotected disk.
pub open spec fn rescan_index(v: AppView, d: Seq<DiskOption>) -> usize {
    let found = if v.disk_index < v.disks.len() {
        position_of_id(d, v.disks[v.disk_index as int].stable_id@, 0)
    } else {
        d.len()
    };
    let kept: nat = if found < d.len() { found } else { 0 };
    if !v.developer_mode && disk_protected(d[kept as int]) {
        let a = first_match(d, DiskFilter::RemovableUnprotected, 0);
        let b = first_match(d, DiskFilter::Unprotected, 0);
        if a < d.len() {
            a as usize
        } else if b < d.len() {
            b as usize
        } else {
            kept as usize
        }
    } else {
        kept as usize
    }
}

#[verifier::inline]
pub open spec fn msg_no_disks() -> Seq<char> {
    "No disks detected. Insert a target disk and press r."@
}

/// The state after a disk scan returned `scanned`.
pub open spec fn rescan_spec(v: AppView, scanned: Seq<DiskOption>) -> AppView {
    if !v.use_real_disks {
        v
    } else {
        let d = sort_by_path(scanned);
        if d.len() == 0 {
            with_error(AppView { disk_index: 0, ..AppView { disks: Seq::empty(), ..v } }, Some(msg_no_disks()))
        } else {
            with_error(AppView { disk_index: rescan_index(v, d), ..AppView { disks: d, ..v } }, None)
        }
    }
}

/// Whether the selection after a rescan lies in the new list.
pub proof fn lemma_rescan_index_in_range(v: AppView, d: Seq<DiskOption>)
    requires
        0 < d.len() <= usize::MAX,
    ensures
        rescan_index(v, d) < d.len(),
{
    if v.disk_index < v.disks.len() {
        lemma_position_of_id(d, v.disks[v.disk_index as int].stable_id@, 0);
    }
    lemma_first_match(d, DiskFilter::RemovableUnprotected, 0);
    lemma_first_match(d, DiskFilter::Unprotected, 0);
}

pub proof fn lemma_position_of_id(s: Seq<DiskOption>, id: Seq<char>, i: nat)
    requires
        i <= s.len(),
    ensures
        i <= position_of_id(s, id, i) <= s.len(),
        position_of_id(s, id, i) < s.len() ==> s[position_of_id(s, id, i) as int].stable_id@ == id,
    decreases s.len() - i,
{
    if i < s.len() && s[i as int].stable_id@ != id {
        lemma_position_of_id(s, id, i + 1);
    }
}

/// After a rescan outside developer mode, the selection is an unprotected
/// disk whenever the new list holds one.
pub proof fn law_rescan_avoids_protected_disks(v: AppView, scanned: Seq<DiskOption>)
    requires
        scanned.len() <= usize::MAX,
        v.use_real_disks,
        !v.developer_mode,
        exists|i: int| 0 <= i < scanned.len() && !disk_protected(#[trigger] scanned[i]),
    ensures
        rescan_spec(v, scanned).disk_index < rescan_spec(v, scanned).disks.len(),
        !disk_protected(rescan_spec(v, scanned).disks[rescan_spec(v, scanned).disk_index as int]),
{
    let d = sort_by_path(scanned);
    lemma_sort_by_path_len(scanned);
    lemma_sort_by_path_contains(scanned);
    let i = choose|i: int| 0 <= i < scanned.len() && !disk_protected(#[trigger] scanned[i]);
    assert(d.contains(scanned[i]));
    let j = choose|j: int| 0 <= j < d.len() && d[j] == scanned[i];
    assert(disk_matches(d[j], DiskFilter::Unprotected));
    lemma_rescan_index_in_range(v, d);
    lemma_first_match(d, DiskFilter::RemovableUnprotected, 0);
    lemma_first_match(d, DiskFilter::Unprotected, 0);
    if v.disk_index < v.disks.len() {
        lemma_position_of_id(d, v.disks[v.disk_index as int].stable_id@, 0);
    }
}

/// Every disk of a list is still in it after sorting by path.
pub proof fn lemma_sort_by_path_contains(s: Seq<DiskOption>)
    ensures
        forall|i: int| 0 <= i < s.len() ==> sort_by_path(s).contains(#[trigger] s[i]),
    decreases s.len(),
{
    if s.len() > 0 {
        let t = s.drop_last();
        lemma_sort_by_path_contains(t);
        let sorted = sort_by_path(t);
        lemma_path_insert_pos_bounds(sorted, s.last());
        let p = path_insert_pos(sorted, s.last());
        let r = sorted.insert(p, s.last());
        assert forall|i: int| 0 <= i < s.len() implies r.contains(#[trigger] s[i]) by {
            if i == s.len() - 1 {
                assert(r[p] == s.last());
            } else {
                assert(t[i] == s[i]);
                assert(sorted.contains(t[i]));
                let k = choose|k: int| 0 <= k < sorted.len() && sorted[k] == t[i];
                if k < p {
                    assert(r[k] == sorted[k]);
                } else {
                    assert(r[k + 1] == sorted[k]);
                }
            }
        }
    }
}

impl App {
    pub(crate) fn clear_disks(&mut self)
        ensures
            final(self)@ == (AppView { disks: Seq::empty(), ..old(self)@ }),
    {
        self.disks = Vec::new();
    }

    pub(crate) fn wipe_check_pending(&self) -> (r: Option<bool>)
        ensures
            r == self@.pending_wipe_check,
    {
        self.pending_wipe_check
    }

    pub(crate) fn has_no_disks(&self) -> (r: bool)
        ensures
            r == (self@.disks.len() == 0),
    {
        self.disks.len() == 0
    }

    pub(crate) fn set_disks(&mut self, v: Vec<DiskOption>)
        ensures
            final(self)@ == (AppView { disks: v@, ..old(self)@ }),
    {
        self.disks = v;
    }

    pub(crate) fn rescan_choice(&self, d: &Vec<DiskOption>) -> (r: usize)
        requires
            d.len() > 0,
        ensures
            r == rescan_index(self@, d@),
    {
        let found = if self.disk_index < self.disks.len() {
            find_stable_id(d, self.disks[self.disk_index].stable_id.as_str())
        } else {
            d.len()
        };
        let kept = if found < d.len() {
            found
        } else {
            0
        };
        if !self.developer_mode && is_protected(&d[kept]) {
            let a = find_disk(d, DiskFilter::RemovableUnprotected);
            if a < d.len() {
                return a;
            }
            let b = find_disk(d, DiskFilter::Unprotected);
            if b < d.len() {
                return b;
            }
        }
        kept
    }


}

// ---------------------------------------------------------------------------
// Construction
// ---------------------------------------------------------------------------

/// The two sample disks shown when no real disks are used: a removable
/// SanDisk USB stick and the Samsung NVMe disk the system boots from.
pub open spec fn sample_disks(d: Seq<DiskOption>) -> bool {
    &&& d.len() == 2
    &&& d[0].path@ == "/dev/sda"@ && d[0].stable_id@ == "mock:sandisk-ultra-usb"@
    &&& d[0].removable && d[0].boot_confidence == BootConfidence::NotBoot && !d[0].is_source_disk
    &&& d[0].identity.size_bytes == 32 * 1024 * 1024 * 1024
    &&& d[0].identity.transport == TransportType::Usb
    &&& d[1].path@ == "/dev/nvme0n1"@ && d[1].stable_id@ == "mock:samsung-980-nvme"@
    &&& !d[1].removable && d[1].boot_confidence == BootConfidence::Confident && d[1].is_source_disk
    &&& d[1].identity.size_bytes == 512 * 1024 * 1024 * 1024
    &&& d[1].identity.transport == TransportType::Nvme
}

/// The two sample images offered when no images were found.
pub open spec fn sample_images(d: Seq<ImageOption>) -> bool {
    &&& d.len() == 2
    &&& d[0].label@ == "Fedora 43 KDE"@ && d[0].version@ == "43"@ && d[0].edition@ == "KDE"@
    &&& d[0].path@ == "/tmp/fedora-43-kde.raw"@
    &&& d[1].label@ == "Fedora 42 Server"@ && d[1].version@ == "42"@ && d[1].edition@ == "Server"@
    &&& d[1].path@ == "/tmp/fedora-42-server.raw"@
}

/// The state of a freshly built app, before the size list and the variant
/// list are filled in.
pub open spec fn fresh_state(
    v: AppView,
    real_disks: Option<Seq<DiskOption>>,
    images: Seq<ImageOption>,
    locales: Seq<String>,
    catalogue: Option<Seq<CatalogueImage>>,
) -> bool {
    &&& v.step == InstallStepType::Welcome
    &&& !v.backup_confirmed && v.backup_choice_index == 1
    &&& strings_view(v.welcome_options) == seq!["Begin installation"@, "Review Dojo steps"@]
    &&& v.welcome_index == 0
    &&& v.use_real_disks == real_disks is Some
    &&& (match real_disks {
        Some(d) if d.len() > 0 => v.disks == d,
        _ => sample_disks(v.disks),
    })
    &&& v.disk_index == default_disk_spec(v.disks)
    &&& v.disk_confirm_index == 0
    &&& v.wipe_confirmation == Seq::<char>::empty()
    &&& v.partition_schemes == seq![PartitionScheme::Mbr, PartitionScheme::Gpt]
    &&& v.scheme_index == 0
    &&& strings_view(v.partition_layouts) == seq![
        "EFI 1024MiB | BOOT 2048MiB | ROOT 1800GiB | DATA rest"@,
        "EFI 512MiB | BOOT 1024MiB | ROOT 64GiB | DATA rest"@,
    ]
    &&& v.layout_index == 0
    &&& v.partition_customizations == Seq::<Seq<char>>::empty()
    &&& v.customize_index == 0
    &&& v.efi_size == "1024MiB"@ && v.boot_size == "2048MiB"@ && v.root_end == "1800GiB"@
    &&& v.os_distros == seq![OsDistro::Fedora, OsDistro::Ubuntu, OsDistro::RaspberryPiOS, OsDistro::Manjaro]
    &&& v.os_distro_index == 0
    &&& v.os_variants == Seq::<(Seq<char>, Seq<char>)>::empty()
    &&& v.os_variant_index == 0
    &&& v.image_sources.len() == 2
    &&& v.image_sources[0].label@ == "Local Image File (.raw)"@
    &&& v.image_sources[0].value == ImageSource::LocalFile
    &&& v.image_sources[1].label@ == "Download OS Image"@
    &&& v.image_sources[1].value == ImageSource::DownloadCatalogue
    &&& v.image_source_index == 0
    &&& (if images.len() > 0 { v.images == images } else { sample_images(v.images) })
    &&& v.image_index == 0
    &&& v.uefi_sources == seq![EfiSource::DownloadEfiImage, EfiSource::LocalEfiImage]
    &&& v.uefi_source_index == 1
    &&& v.locales == locales
    &&& v.locale_index == 0
    &&& v.options.len() == 3
    &&& v.options[0].label@ == "Auto-unmount target disk"@ && v.options[0].enabled
    &&& v.options[1].label@ == "Download Fedora image"@ && !v.options[1].enabled
    &&& v.options[2].label@ == "Enable early SSH"@ && !v.options[2].enabled
    &&& v.options_index == 0
    &&& strings_view(v.first_boot_options) == seq![
        "Prompt to create user on first boot (recommended)"@,
        "Skip first-boot prompt"@,
    ]
    &&& v.first_boot_index == 0
    &&& v.downloading_fedora_index == 0 && v.downloading_uefi_index == 0
    &&& !v.downloaded_fedora && !v.downloaded_uefi
    &&& !v.destructive_armed && !v.flash_started && !v.is_running
    &&& v.status_message == "👋 Welcome to MASH!"@
    &&& v.error_message is None
    &&& v.image_source_path == "/tmp/fedora.raw"@ && v.uefi_source_path == "/tmp/uefi"@
    &&& v.downloaded_image_path is None && v.downloaded_uefi_dir is None
    &&& v.execute_confirmation_input == Seq::<char>::empty()
    &&& !v.execute_confirmation_confirmed
    &&& v.safe_mode_disarm_input == Seq::<char>::empty()
    &&& v.pending_destructive_action is None && v.pending_wipe_check is None
    &&& !v.cancel_requested
    &&& v.customize_error_field is None
    &&& !v.dry_run && !v.developer_mode
    &&& v.mash_root == "."@ && v.state_path == "state.json"@
    &&& v.completion_lines.len() == 0
    &&& v.catalogue == catalogue
    &&& !v.progress_complete
}

fn sample_disk_list() -> (r: Vec<DiskOption>)
    ensures
        sample_disks(r@),
{
    let mut v: Vec<DiskOption> = Vec::new();
    v.push(
        DiskOption {
            identity: DiskIdentity {
                vendor: Some(String::from_str("SanDisk")),
                model: Some(String::from_str("Ultra")),
                serial: None,
                wwn: None,
                size_bytes: 32 * 1024 * 1024 * 1024,
                transport: TransportType::Usb,
            },
            stable_id: String::from_str("mock:sandisk-ultra-usb"),
            path: String::from_str("/dev/sda"),
            removable: true,
            boot_confidence: BootConfidence::NotBoot,
            is_source_disk: false,
        },
    );
    v.push(
        DiskOption {
            identity: DiskIdentity {
                vendor: Some(String::from_str("Samsung")),
                model: Some(String::from_str("980")),
                serial: None,
                wwn: None,
                size_bytes: 512 * 1024 * 1024 * 1024,
                transport: TransportType::Nvme,
            },
            stable_id: String::from_str("mock:samsung-980-nvme"),
            path: String::from_str("/dev/nvme0n1"),
            removable: false,
            boot_confidence: BootConfidence::Confident,
            is_source_disk: true,
        },
    );
    v
}

fn sample_image_list() -> (r: Vec<ImageOption>)
    ensures
        sample_images(r@),
{
    let mut v: Vec<ImageOption> = Vec::new();
    v.push(
        ImageOption {
            label: String::from_str("Fedora 43 KDE"),
            version: String::from_str("43"),
            edition: String::from_str("KDE"),
            path: String::from_str("/tmp/fedora-43-kde.raw"),
        },
    );
    v.push(
        ImageOption {
            label: String::from_str("Fedora 42 Server"),
            version: String::from_str("42"),
            edition: String::from_str("Server"),
            path: String::from_str("/tmp/fedora-42-server.raw"),
        },
    );
    v
}

fn string_list2(a: &str, b: &str) -> (r: Vec<String>)
    ensures
        strings_view(r@) == seq![a@, b@],
{
    let mut v: Vec<String> = Vec::new();
    v.push(String::from_str(a));
    v.push(String::from_str(b));
    assert(strings_view(v@) =~= seq![a@, b@]);
    v
}

impl App {
    fn fresh(
        real_disks: Option<Vec<DiskOption>>,
        images: Vec<ImageOption>,
        locales: Vec<String>,
        catalogue: Option<Vec<CatalogueImage>>,
    ) -> (r: App)
        ensures
            fresh_state(
                r@,
                match real_disks { Some(d) => Some(d@), None => None },
                images@,
                locales@,
                catalogue_view(catalogue),
            ),
    {
        let use_real_disks = real_disks.is_some();
        let disks = match real_disks {
            Some(d) => if d.len() > 0 {
                d
            } else {
                sample_disk_list()
            },
            None => sample_disk_list(),
        };
        let disk_index = default_disk_index(&disks);
        let images = if images.len() > 0 {
            images
        } else {
            sample_image_list()
        };
        let mut image_sources: Vec<SourceOption> = Vec::new();
        image_sources.push(
            SourceOption { label: String::from_str("Local Image File (.raw)"), value: ImageSource::LocalFile },
        );
        image_sources.push(
            SourceOption { label: String::from_str("Download OS Image"), value: ImageSource::DownloadCatalogue },
        );
        let mut options: Vec<OptionToggle> = Vec::new();
        options.push(OptionToggle { label: String::from_str("Auto-unmount target disk"), enabled: true });
        options.push(OptionToggle { label: String::from_str("Download Fedora image"), enabled: false });
        options.push(OptionToggle { label: String::from_str("Enable early SSH"), enabled: false });
        let app = App {
            current_step_type: InstallStepType::Welcome,
            backup_confirmed: false,
            backup_choice_index: 1,
            welcome_options: string_list2("Begin installation", "Review Dojo steps"),
            welcome_index: 0,
            use_real_disks,
            disks,
            disk_index,
            disk_confirm_index: 0,
            wipe_confirmation: String::new(),
            partition_schemes: PartitionScheme::value_variants(),
            scheme_index: 0,
            partition_layouts: string_list2(
                "EFI 1024MiB | BOOT 2048MiB | ROOT 1800GiB | DATA rest",
                "EFI 512MiB | BOOT 1024MiB | ROOT 64GiB | DATA rest",
            ),
            layout_index: 0,
            partition_customizations: Vec::new(),
            customize_index: 0,
            efi_size: String::from_str("1024MiB"),
            boot_size: String::from_str("2048MiB"),
            root_end: String::from_str("1800GiB"),
            os_distros: OsDistro::all(),
            os_distro_index: 0,
            os_variants: Vec::new(),
            os_variant_index: 0,
            image_sources,
            image_source_index: 0,
            images,
            image_index: 0,
            uefi_sources: EfiSource::all(),
            uefi_source_index: 1,
            locales,
            locale_index: 0,
            options,
            options_index: 0,
            first_boot_options: string_list2(
                "Prompt to create user on first boot (recommended)",
                "Skip first-boot prompt",
            ),
            first_boot_index: 0,
            downloading_fedora_index: 0,
            downloading_uefi_index: 0,
            downloaded_fedora: false,
            downloaded_uefi: false,
            destructive_armed: false,
            flash_started: false,
            is_running: false,
            status_message: String::from_str("👋 Welcome to MASH!"),
            error_message: None,
            image_source_path: String::from_str("/tmp/fedora.raw"),
            uefi_source_path: String::from_str("/tmp/uefi"),
            downloaded_image_path: None,
            downloaded_uefi_dir: None,
            execute_confirmation_input: String::new(),
            execute_confirmation_confirmed: false,
            safe_mode_disarm_input: String::new(),
            pending_destructive_action: None,
            pending_wipe_check: None,
            cancel_requested: false,
            customize_error_field: None,
            dry_run: false,
            developer_mode: false,
            mash_root: String::from_str("."),
            state_path: String::from_str("state.json"),
            completion_lines: Vec::new(),
            catalogue,
            progress_complete: false,
        };
        proof {
            assert(app@.partition_customizations =~= Seq::<Seq<char>>::empty());
            assert(app@.os_variants =~= Seq::<(Seq<char>, Seq<char>)>::empty());
        }
        app
    }

    /// Builds the app from what the host reported: the scanned disks
    /// (`None` when real disks are not used; the sample disks stand in when
    /// the scan found none), the images and locales found (samples and an
    /// empty list stand in), and the download catalogue when it could be
    /// read. The size list and the variant list are filled in.
    pub fn new_from_sources(
        real_disks: Option<Vec<DiskOption>>,
        images: Vec<ImageOption>,
        locales: Vec<String>,
        catalogue: Option<Vec<CatalogueImage>>,
    ) -> (r: App)
        ensures
            exists|v: AppView|
                fresh_state(
                    v,
                    match real_disks { Some(d) => Some(d@), None => None },
                    images@,
                    locales@,
                    catalogue_view(catalogue),
                ) && r@ == refresh_variants(refresh_customizations(v)),
    {
        let mut app = App::fresh(real_disks, images, locales, catalogue);
        let ghost v = app@;
        app.refresh_partition_customizations();
        app.refresh_os_variants();
        app
    }

    /// The app with the sample disks and images, no locales and no
    /// download catalogue.
    pub fn new() -> (r: App)
        ensures
            exists|v: AppView|
                fresh_state(v, None, Seq::empty(), Seq::empty(), None)
                    && r@ == refresh_variants(refresh_customizations(v)),
    {
        App::new_from_sources(None, Vec::new(), Vec::new(), None)
    }

    pub fn new_with_flags(dry_run: bool) -> (r: App)
        ensures
            exists|v: AppView|
                fresh_state(v, None, Seq::empty(), Seq::empty(), None)
                    && r@ == (AppView { dry_run, ..refresh_variants(refresh_customizations(v)) }),
    {
        let mut app = App::new();
        app.dry_run = dry_run;
        app
    }

    pub fn new_with_mash_root(mash_root: &str, dry_run: bool, developer_mode: bool) -> (r: App)
        ensures
            exists|v: AppView|
                fresh_state(v, None, Seq::empty(), Seq::empty(), None) && r@ == (AppView {
                    dry_run,
                    mash_root: mash_root@,
                    state_path: path_join(mash_root@, "var/lib/mash/state.json"@),
                    developer_mode,
                    ..refresh_variants(refresh_customizations(v))
                }),
    {
        let mut app = App::new_with_flags(dry_run);
        app.mash_root = String::from_str(mash_root);
        app.state_path = join_path(mash_root, "var/lib/mash/state.json");
        app.developer_mode = developer_mode;
        app
    }
}

impl Default for App {
    /// The same as `App::new`.
    fn default() -> (r: App)
        ensures
            exists|v: AppView|
                fresh_state(v, None, Seq::empty(), Seq::empty(), None)
                    && r@ == refresh_variants(refresh_customizations(v)),
    {
        App::new()
    }
}

} // verus!
