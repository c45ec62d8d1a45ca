//! `App::handle_input` and the per-step key handlers, each proved to follow
//! the transition function of `input.rs`.
//!
//! The handlers change the state only through the small setters at the top
//! of the `impl`, each of which states its one change to the view; a handler
//! is then proved by matching its calls against the transition function.
use crate::text::{
    char_is_ascii_alnum, char_is_ascii_upper, char_is_control, char_to_upper, chars_of, concat2,
    lex_less, lex_lt, str_eq, string_pop, string_push,
};
use crate::tui::app::{
    adjust, adjust_disk, adjust_index, app_plan_verdict, customizations_of, disk_walk, go_next,
    go_prev, label_insert_pos, lemma_view, next_step_for, prev_step_for, refresh_customizations,
    refresh_variants, selected_distro, sort_by_label, strings_view, variant_label, variants_for,
    variants_view, with_error, with_field_error, format_variant_label, rescan_spec,
    sort_disks_by_path, App, AppView, PendingDestructiveAction,
};
use crate::tui::flash_config::{flash_config_spec, flash_view, outcome, Outcome};
use crate::tui::input::{
    apply_list, backup_input, confirmation_input, customize_edit, customize_input,
    disarm_input, disk_confirmation_input, disk_selection_input, distro_input,
    download_source_input, downloading_fedora_input, finish_wipe_check, downloading_uefi_input, edited,
    first_boot_input, flashing_input, gate_input, handle_input_spec, image_path_input,
    layout_input, list_action, locale_input, options_input, plan_review_input, scheme_input,
    selected_protected, source_local, start_flashing, try_start_flash, uefi_input, uefi_local,
    variant_input, welcome_input, wipe_check, ListAction,
};
use crate::tui::partition::{
    lemma_standard_plan_verdict, validate_partition_plan, CustomizeField, Partition,
    PartitionPlan, PartitionScheme, ValidationError,
};
use crate::tui::steps::InstallStepType;
use crate::tui::types::{
    is_protected, CatalogueImage, DiskOption, EfiSource, FlashConfig, ImageSource, InputResult, KeyCode,
    KeyEvent, OptionToggle, OsDistro, OsVariantOption,
};
use vstd::prelude::*;
use vstd::string::*;

verus! {

/// `index` moved by `delta` in a wrapped list of `len` items.
fn adjusted(len: usize, index: usize, delta: isize) -> (r: usize)
    ensures
        r == adjust(len as nat, index as nat, delta as int),
{
    let mut i = index;
    adjust_index(len, &mut i, delta);
    i
}

/// What a key means for a plain list, and the moved index.
fn list_key(key: KeyEvent, len: usize, index: usize) -> (r: (ListAction, usize))
    ensures
        r == list_action(key.code, len as nat, index),
{
    match key.code {
        KeyCode::Up | KeyCode::Left | KeyCode::BackTab => (ListAction::Stay, adjusted(len, index, -1)),
        KeyCode::Down | KeyCode::Right | KeyCode::Tab => (ListAction::Stay, adjusted(len, index, 1)),
        KeyCode::Enter => (ListAction::Advance, index),
        KeyCode::Esc => (ListAction::Back, index),
        KeyCode::Char('q') => (ListAction::Quit, index),
        _ => (ListAction::Stay, index),
    }
}

impl App {
    fn next_step_for(&self, from: InstallStepType) -> (r: Option<InstallStepType>)
        ensures
            r == next_step_for(self@, from),
    {
        let fedora = self.selected_distro() == OsDistro::Fedora;
        match from {
            InstallStepType::Welcome => Some(InstallStepType::DiskSelection),
            InstallStepType::DiskSelection => Some(InstallStepType::DiskConfirmation),
            InstallStepType::DiskConfirmation => Some(InstallStepType::ImageSelection),
            InstallStepType::BackupConfirmation => Some(InstallStepType::ImageSelection),
            InstallStepType::ImageSelection => Some(InstallStepType::VariantSelection),
            InstallStepType::VariantSelection => Some(InstallStepType::DownloadSourceSelection),
            InstallStepType::DownloadSourceSelection => if fedora {
                Some(InstallStepType::PartitionScheme)
            } else {
                Some(InstallStepType::LocaleSelection)
            },
            InstallStepType::PartitionScheme => Some(InstallStepType::PartitionLayout),
            InstallStepType::PartitionLayout => Some(InstallStepType::PartitionCustomize),
            InstallStepType::PartitionCustomize => Some(InstallStepType::EfiImage),
            InstallStepType::EfiImage => Some(InstallStepType::LocaleSelection),
            InstallStepType::LocaleSelection => Some(InstallStepType::Options),
            InstallStepType::Options => Some(InstallStepType::PlanReview),
            InstallStepType::FirstBootUser => Some(InstallStepType::PlanReview),
            InstallStepType::PlanReview => Some(InstallStepType::Confirmation),
            InstallStepType::Flashing => Some(InstallStepType::Complete),
            _ => None,
        }
    }

    fn prev_step_for(&self, from: InstallStepType) -> (r: Option<InstallStepType>)
        ensures
            r == prev_step_for(self@, from),
    {
        let fedora = self.selected_distro() == OsDistro::Fedora;
        match from {
            InstallStepType::DiskSelection => Some(InstallStepType::Welcome),
            InstallStepType::DiskConfirmation => Some(InstallStepType::DiskSelection),
            InstallStepType::BackupConfirmation => Some(InstallStepType::DiskConfirmation),
            InstallStepType::ImageSelection => Some(InstallStepType::DiskConfirmation),
            InstallStepType::VariantSelection => Some(InstallStepType::ImageSelection),
            InstallStepType::DownloadSourceSelection => Some(InstallStepType::VariantSelection),
            InstallStepType::PartitionScheme => Some(InstallStepType::DownloadSourceSelection),
            InstallStepType::PartitionLayout => Some(InstallStepType::PartitionScheme),
            InstallStepType::PartitionCustomize => Some(InstallStepType::PartitionLayout),
            InstallStepType::EfiImage => Some(InstallStepType::PartitionCustomize),
            InstallStepType::LocaleSelection => if fedora {
                Some(InstallStepType::EfiImage)
            } else {
                Some(InstallStepType::DownloadSourceSelection)
            },
            InstallStepType::Options => Some(InstallStepType::LocaleSelection),
            InstallStepType::FirstBootUser => Some(InstallStepType::Options),
            InstallStepType::PlanReview => Some(InstallStepType::Options),
            InstallStepType::Confirmation => Some(InstallStepType::PlanReview),
            InstallStepType::DisarmSafeMode => Some(InstallStepType::Confirmation),
            _ => None,
        }
    }

    fn go_next(&mut self)
        ensures
            final(self)@ == go_next(old(self)@),
    {
        let t = self.next_step_for(self.current_step());
        self.move_to(t);
    }

    fn go_prev(&mut self)
        ensures
            final(self)@ == go_prev(old(self)@),
    {
        let t = self.prev_step_for(self.current_step());
        self.move_to(t);
    }

    fn apply_list_action(&mut self, action: ListAction) -> (r: InputResult)
        ensures
            (final(self)@, outcome(r)) == apply_list(old(self)@, action),
    {
        match action {
            ListAction::Advance => {
                self.clear_error();
                self.go_next();
                InputResult::Continue
            },
            ListAction::Back => {
                self.go_prev();
                InputResult::Continue
            },
            ListAction::Quit => InputResult::Quit,
            ListAction::Stay => InputResult::Continue,
        }
    }

    /// The plan that the flash will use: EFI, BOOT, ROOT and DATA.
    pub fn build_partition_plan(&self) -> (r: PartitionPlan)
        ensures
            r.partitions@.len() == 4,
            r.partitions@[0].name@ == "EFI"@ && r.partitions@[0].size@ == self.efi_size@,
            r.partitions@[1].name@ == "BOOT"@ && r.partitions@[1].size@ == self.boot_size@,
            r.partitions@[2].name@ == "ROOT"@ && r.partitions@[2].size@ == self.root_end@,
            r.partitions@[3].name@ == "DATA"@,
            r.scheme == (if self.scheme_index < self.partition_schemes.len() {
                self.partition_schemes@[self.scheme_index as int]
            } else {
                PartitionScheme::Mbr
            }),
    {
        let scheme = if self.scheme_index < self.partition_schemes.len() {
            self.partition_schemes[self.scheme_index]
        } else {
            PartitionScheme::Mbr
        };
        let mut esp_flags: Vec<String> = Vec::new();
        esp_flags.push(String::from_str("esp"));
        let mut partitions: Vec<Partition> = Vec::new();
        partitions.push(
            Partition {
                name: String::from_str("EFI"),
                size: self.efi_size.clone(),
                format: String::from_str("vfat"),
                flags: esp_flags,
            },
        );
        partitions.push(
            Partition {
                name: String::from_str("BOOT"),
                size: self.boot_size.clone(),
                format: String::from_str("ext4"),
                flags: Vec::new(),
            },
        );
        partitions.push(
            Partition {
                name: String::from_str("ROOT"),
                size: self.root_end.clone(),
                format: String::from_str("btrfs"),
                flags: Vec::new(),
            },
        );
        partitions.push(
            Partition {
                name: String::from_str("DATA"),
                size: String::from_str("remainder"),
                format: String::from_str("ext4"),
                flags: Vec::new(),
            },
        );
        PartitionPlan { scheme, partitions }
    }

    fn check_plan(&self) -> (r: Result<(), ValidationError>)
        ensures
            match app_plan_verdict(self@) {
                Ok(()) => r is Ok,
                Err((m, f)) => r matches Err(e) && e.message@ == m && e.field == Some(f),
            },
    {
        proof {
            lemma_view(*self);
        }
        let plan = self.build_partition_plan();
        proof {
            lemma_standard_plan_verdict(plan.partitions@, self.efi_size@, self.boot_size@, self.root_end@);
        }
        validate_partition_plan(&plan)
    }

    /// Records a rejected plan: its message and the size field to fix.
    fn reject_plan(&mut self, err: ValidationError)
        ensures
            final(self)@ == with_field_error(with_error(old(self)@, Some(err.message@)), err.field),
    {
        self.set_error_string(err.message);
        self.set_field_error(err.field);
    }

    fn try_start_flash(&mut self) -> (r: InputResult)
        ensures
            (final(self)@, outcome(r)) == try_start_flash(old(self)@),
    {
        let safe_mode = !self.is_dry_run() && !self.is_armed();
        match self.check_plan() {
            Ok(()) => {
                self.clear_error();
                self.set_field_error(None);
            },
            Err(err) => {
                self.reject_plan(err);
                return InputResult::Continue;
            },
        }
        if safe_mode {
            self.set_pending_destructive_action(Some(PendingDestructiveAction::StartFlash));
            self.clear_safe_mode_disarm_input();
            self.clear_error();
            self.set_step(InstallStepType::DisarmSafeMode);
            return InputResult::Continue;
        }
        self.set_step(InstallStepType::Flashing);
        self.set_status_str("🛠️ Starting installation...");
        self.set_cancel_requested(false);
        match self.build_flash_config() {
            Some(config) => InputResult::StartFlash(Box::new(config)),
            None => InputResult::Continue,
        }
    }

    fn start_flashing(&mut self)
        ensures
            final(self)@ == start_flashing(old(self)@),
    {
        self.set_step(InstallStepType::Flashing);
        self.set_status_str("🛠️ Starting installation...");
        self.set_flash_started(true);
    }

    /// Rebuilds the list entries shown for the customisable sizes.
    pub fn refresh_partition_customizations(&mut self)
        ensures
            final(self)@ == refresh_customizations(old(self)@),
    {
        proof {
            lemma_view(*self);
        }
        let mut v: Vec<String> = Vec::new();
        v.push(concat2("EFI ", self.efi_size.as_str()));
        v.push(concat2("BOOT ", self.boot_size.as_str()));
        v.push(concat2("ROOT ", self.root_end.as_str()));
        v.push(String::from_str("DATA remainder"));
        proof {
            assert(strings_view(v@) =~= customizations_of(self.efi_size@, self.boot_size@, self.root_end@));
            reveal(refresh_customizations);
        }
        self.set_partition_customizations(v);
    }

    /// The variants of the selected distribution, ordered by label, or
    /// `None` without a catalogue.
    fn sorted_variants(&self) -> (r: Option<Vec<OsVariantOption>>)
        ensures
            match self@.catalogue {
                None => r is None,
                Some(cat) => r matches Some(v) && variants_view(v@) == sort_by_label(
                    variants_for(cat, selected_distro(self@)),
                ),
            },
    {
        proof {
            lemma_view(*self);
        }
        let distro = self.selected_distro();
        match &self.catalogue {
            None => None,
            Some(cat) => Some(sort_variants_by_label(collect_variants(cat, distro))),
        }
    }

    /// Reloads the variants of the selected distribution from the catalogue,
    /// ordered by label.
    pub fn refresh_os_variants(&mut self)
        ensures
            final(self)@ == refresh_variants(old(self)@),
    {
        proof {
            reveal(refresh_variants);
        }
        match self.sorted_variants() {
            None => {
                let empty: Vec<OsVariantOption> = Vec::new();
                proof {
                    assert(variants_view(empty@) =~= Seq::<(Seq<char>, Seq<char>)>::empty());
                }
                self.set_os_variants(empty);
                self.set_os_variant_index(0);
                self.set_status_str("❌ Download catalogue unavailable (failed to parse index).");
            },
            Some(v) => {
                self.set_os_variants(v);
                self.set_os_variant_index(0);
            },
        }
    }

    /// Where a walk over the disk list by `delta` stops.
    fn walk_disks(&self, delta: isize) -> (r: usize)
        ensures
            r == adjust_disk(self@, delta as int),
    {
        proof {
            lemma_view(*self);
        }
        let len = self.disks.len();
        if len == 0 {
            return 0;
        }
        let start_index = self.disk_index;
        let mut idx = start_index;
        let mut attempts: usize = 0;
        loop
            invariant
                len == self.disks@.len(),
                len > 0,
                attempts < len,
                start_index == self@.disk_index,
                self@.disks == self.disks@,
                self@.developer_mode == self.developer_mode,
                adjust_disk(self@, delta as int) == disk_walk(
                    self.disks@,
                    self.developer_mode,
                    delta as int,
                    start_index as nat,
                    idx as nat,
                    attempts as nat,
                ),
            decreases len - attempts,
        {
            let n = adjusted(len, idx, delta);
            if n < len {
                if !is_protected(&self.disks[n]) || self.developer_mode {
                    return n;
                }
            }
            attempts += 1;
            if attempts >= len || n == start_index {
                return n;
            }
            idx = n;
        }
    }

    /// Moves the disk selection, skipping protected disks unless in
    /// developer mode.
    pub fn adjust_disk_index(&mut self, delta: isize)
        ensures
            final(self)@ == (AppView { disk_index: adjust_disk(old(self)@, delta as int), ..old(self)@ }),
    {
        let i = self.walk_disks(delta);
        self.set_disk_index(i);
    }

    fn handle_welcome_input(&mut self, key: KeyEvent) -> (r: InputResult)
        ensures
            (final(self)@, outcome(r)) == welcome_input(old(self)@, key),
    {
        match key.code {
            KeyCode::Up | KeyCode::Left => {
                self.move_welcome_index(-1);
                InputResult::Continue
            },
            KeyCode::Down | KeyCode::Right => {
                self.move_welcome_index(1);
                InputResult::Continue
            },
            KeyCode::Enter => {
                self.clear_error();
                self.set_step(InstallStepType::DiskSelection);
                InputResult::Continue
            },
            KeyCode::Esc | KeyCode::Char('q') => InputResult::Quit,
            _ => InputResult::Continue,
        }
    }

    fn handle_backup_confirmation_input(&mut self, key: KeyEvent) -> (r: InputResult)
        ensures
            (final(self)@, outcome(r)) == backup_input(old(self)@, key),
    {
        match key.code {
            KeyCode::Up | KeyCode::Down | KeyCode::Left | KeyCode::Right => {
                self.flip_backup_choice();
                InputResult::Continue
            },
            KeyCode::Char('y') | KeyCode::Char('Y') => {
                self.set_backup_confirmed(true);
                self.set_backup_choice_index(1);
                self.clear_error();
                self.go_next();
                InputResult::Continue
            },
            KeyCode::Char('n') | KeyCode::Char('N') => {
                self.set_backup_confirmed(false);
                self.set_backup_choice_index(0);
                self.set_error_str("Backup confirmation required to proceed.");
                self.go_prev();
                InputResult::Continue
            },
            KeyCode::Enter => {
                if self.backup_choice() == 1 {
                    self.set_backup_confirmed(true);
                    self.clear_error();
                    self.go_next();
                } else {
                    self.set_backup_confirmed(false);
                    self.set_error_str("Backup confirmation required to proceed.");
                }
                InputResult::Continue
            },
            KeyCode::Esc => {
                self.go_prev();
                InputResult::Continue
            },
            KeyCode::Char('q') => InputResult::Quit,
            _ => InputResult::Continue,
        }
    }

    fn selected_protected(&self) -> (r: bool)
        ensures
            r == selected_protected(self@),
    {
        proof {
            lemma_view(*self);
        }
        if self.disk_index < self.disks.len() {
            is_protected(&self.disks[self.disk_index])
        } else {
            false
        }
    }

    fn handle_disk_selection_input(&mut self, key: KeyEvent) -> (r: InputResult)
        ensures
            (final(self)@, outcome(r)) == disk_selection_input(old(self)@, key),
    {
        match key.code {
            KeyCode::Char('r') => {
                if self.uses_real_disks() {
                    InputResult::RescanDisks
                } else {
                    InputResult::Continue
                }
            },
            KeyCode::Up | KeyCode::Left | KeyCode::BackTab => {
                self.adjust_disk_index(-1);
                InputResult::Continue
            },
            KeyCode::Down | KeyCode::Right | KeyCode::Tab => {
                self.adjust_disk_index(1);
                InputResult::Continue
            },
            KeyCode::Enter => {
                if self.selected_protected() && !self.in_developer_mode() {
                    self.set_error_str(
                        "🛑 This disk is the source/boot media and cannot be selected. Re-run with --developer-mode to override (dangerous).",
                    );
                    return InputResult::Continue;
                }
                self.clear_error();
                self.apply_list_action(ListAction::Advance)
            },
            KeyCode::Esc => self.apply_list_action(ListAction::Back),
            KeyCode::Char('q') => self.apply_list_action(ListAction::Quit),
            _ => InputResult::Continue,
        }
    }

    fn handle_options_input(&mut self, key: KeyEvent) -> (r: InputResult)
        ensures
            (final(self)@, outcome(r)) == options_input(old(self)@, key),
    {
        match key.code {
            KeyCode::Up => {
                self.move_options_index(-1);
                InputResult::Continue
            },
            KeyCode::Down => {
                self.move_options_index(1);
                InputResult::Continue
            },
            KeyCode::Char(' ') | KeyCode::Enter => {
                self.toggle_selected_option();
                InputResult::Continue
            },
            KeyCode::Esc => {
                self.go_prev();
                InputResult::Continue
            },
            KeyCode::Char('q') => InputResult::Quit,
            _ => InputResult::Continue,
        }
    }

    fn handle_plan_review_input(&mut self, key: KeyEvent) -> (r: InputResult)
        ensures
            (final(self)@, outcome(r)) == plan_review_input(old(self)@, key),
    {
        match key.code {
            KeyCode::Enter => {
                self.go_next();
                InputResult::Continue
            },
            KeyCode::Esc => {
                self.go_prev();
                InputResult::Continue
            },
            KeyCode::Char('q') => InputResult::Quit,
            _ => InputResult::Continue,
        }
    }

    fn wipe_check(&mut self, protected: bool) -> (r: InputResult)
        ensures
            (final(self)@, outcome(r)) == wipe_check(old(self)@, protected),
    {
        if self.wipe_phrase_typed(protected) {
            self.clear_error();
            self.clear_wipe_confirmation();
            self.go_next();
        } else if protected {
            self.set_error_str("⚠️ Type 'DESTROY BOOT DISK' to confirm destruction of BOOT DEVICE.");
        } else {
            self.set_error_str("Type DESTROY to confirm disk destruction.");
        }
        InputResult::Continue
    }

    fn handle_disk_confirmation_input(&mut self, key: KeyEvent) -> (r: InputResult)
        ensures
            (final(self)@, outcome(r)) == disk_confirmation_input(old(self)@, key),
    {
        match key.code {
            KeyCode::Char(c) => {
                if char_is_ascii_alnum(c) || c == ' ' {
                    if self.wipe_has_room() {
                        self.push_wipe_upper(c);
                    }
                    InputResult::Continue
                } else if c == 'q' {
                    InputResult::Quit
                } else {
                    InputResult::Continue
                }
            },
            KeyCode::Backspace => {
                self.pop_wipe_confirmation();
                InputResult::Continue
            },
            KeyCode::Enter => {
                let protected = self.selected_protected();
                if self.uses_real_disks() {
                    self.set_pending_wipe_check(Some(protected));
                    return InputResult::RescanDisks;
                }
                self.wipe_check(protected)
            },
            KeyCode::Esc => {
                self.clear_wipe_confirmation();
                self.go_prev();
                InputResult::Continue
            },
            _ => InputResult::Continue,
        }
    }

    fn handle_confirmation_input(&mut self, key: KeyEvent) -> (r: InputResult)
        ensures
            (final(self)@, outcome(r)) == confirmation_input(old(self)@, key),
    {
        match key.code {
            KeyCode::Enter => {
                if !self.is_dry_run() && !self.is_gate_confirmed() {
                    self.clear_execute_confirmation_input();
                    self.clear_error();
                    self.set_step(InstallStepType::ExecuteConfirmationGate);
                    return InputResult::Continue;
                }
                self.try_start_flash()
            },
            KeyCode::Esc => {
                self.go_prev();
                InputResult::Continue
            },
            KeyCode::Char('q') => InputResult::Quit,
            _ => InputResult::Continue,
        }
    }

    fn handle_execute_confirmation_gate_input(&mut self, key: KeyEvent) -> (r: InputResult)
        ensures
            (final(self)@, outcome(r)) == gate_input(old(self)@, key),
    {
        match key.code {
            KeyCode::Char(c) => {
                if char_is_ascii_upper(c) || c == ' ' {
                    if self.gate_input_has_room() {
                        self.push_execute_confirmation_input(c);
                    }
                    InputResult::Continue
                } else if c == 'q' {
                    InputResult::Quit
                } else {
                    InputResult::Continue
                }
            },
            KeyCode::Backspace => {
                self.pop_execute_confirmation_input();
                InputResult::Continue
            },
            KeyCode::Enter => {
                if self.gate_phrase_typed() {
                    self.set_execute_confirmation_confirmed(true);
                    self.clear_error();
                    self.clear_execute_confirmation_input();
                    self.try_start_flash()
                } else {
                    self.set_error_str(
                        "Type the full phrase exactly: I UNDERSTAND THIS WILL ERASE THE SELECTED DISK",
                    );
                    InputResult::Continue
                }
            },
            KeyCode::Esc => {
                self.clear_execute_confirmation_input();
                self.set_execute_confirmation_confirmed(false);
                self.set_step(InstallStepType::Confirmation);
                InputResult::Continue
            },
            _ => InputResult::Continue,
        }
    }

    fn handle_disarm_safe_mode_input(&mut self, key: KeyEvent) -> (r: InputResult)
        ensures
            (final(self)@, outcome(r)) == disarm_input(old(self)@, key),
    {
        match key.code {
            KeyCode::Char(c) => {
                if char_is_ascii_alnum(c) && self.disarm_input_has_room() {
                    self.push_safe_mode_disarm_input(c);
                }
                InputResult::Continue
            },
            KeyCode::Backspace => {
                self.pop_safe_mode_disarm_input();
                InputResult::Continue
            },
            KeyCode::Enter => {
                if self.disarm_phrase_typed() {
                    let pending = self.pending_action();
                    self.set_destructive_armed(true);
                    self.clear_error();
                    self.clear_safe_mode_disarm_input();
                    self.set_pending_destructive_action(None);
                    match pending {
                        Some(PendingDestructiveAction::StartFlash) => self.try_start_flash(),
                        None => {
                            self.set_step(InstallStepType::Confirmation);
                            InputResult::Continue
                        },
                    }
                } else {
                    self.set_error_str("Type DESTROY (exactly) to disarm Safe Mode.");
                    InputResult::Continue
                }
            },
            KeyCode::Esc => {
                self.clear_safe_mode_disarm_input();
                self.set_pending_destructive_action(None);
                self.set_step(InstallStepType::Confirmation);
                InputResult::Continue
            },
            _ => InputResult::Continue,
        }
    }

    fn handle_downloading_fedora_input(&mut self, key: KeyEvent) -> (r: InputResult)
        ensures
            (final(self)@, outcome(r)) == downloading_fedora_input(old(self)@, key),
    {
        match key.code {
            KeyCode::Up | KeyCode::Left => {
                self.move_downloading_fedora_index(-1);
                InputResult::Continue
            },
            KeyCode::Down | KeyCode::Right => {
                self.move_downloading_fedora_index(1);
                InputResult::Continue
            },
            KeyCode::Enter => {
                if self.fedora_choice() == 0 {
                    self.set_downloaded_fedora(true);
                    if self.requires_uefi_download() {
                        self.set_step(InstallStepType::DownloadingUefi);
                        self.set_status_str("⬇️ Preparing EFI download...");
                    } else {
                        self.start_flashing();
                    }
                } else {
                    self.go_prev();
                }
                InputResult::Continue
            },
            KeyCode::Esc => {
                self.go_prev();
                InputResult::Continue
            },
            KeyCode::Char('q') => InputResult::Quit,
            _ => InputResult::Continue,
        }
    }

    fn handle_downloading_uefi_input(&mut self, key: KeyEvent) -> (r: InputResult)
        ensures
            (final(self)@, outcome(r)) == downloading_uefi_input(old(self)@, key),
    {
        match key.code {
            KeyCode::Up | KeyCode::Left => {
                self.move_downloading_uefi_index(-1);
                InputResult::Continue
            },
            KeyCode::Down | KeyCode::Right => {
                self.move_downloading_uefi_index(1);
                InputResult::Continue
            },
            KeyCode::Enter => {
                if self.uefi_choice() == 0 {
                    self.set_downloaded_uefi(true);
                    self.start_flashing();
                } else {
                    self.go_prev();
                }
                InputResult::Continue
            },
            KeyCode::Esc => {
                self.go_prev();
                InputResult::Continue
            },
            KeyCode::Char('q') => InputResult::Quit,
            _ => InputResult::Continue,
        }
    }

    fn handle_os_distro_selection_input(&mut self, key: KeyEvent) -> (r: InputResult)
        ensures
            (final(self)@, outcome(r)) == distro_input(old(self)@, key),
    {
        match key.code {
            KeyCode::Up | KeyCode::Left | KeyCode::BackTab => {
                self.move_os_distro_index(-1);
                self.refresh_os_variants();
                InputResult::Continue
            },
            KeyCode::Down | KeyCode::Right | KeyCode::Tab => {
                self.move_os_distro_index(1);
                self.refresh_os_variants();
                InputResult::Continue
            },
            KeyCode::Enter => {
                let no_variants = self.has_no_variants();
                self.clear_error();
                if no_variants {
                    self.set_error_str("Missing metadata: no variants found for this OS. Cannot continue.");
                    return InputResult::Continue;
                }
                self.apply_list_action(ListAction::Advance)
            },
            KeyCode::Esc => self.apply_list_action(ListAction::Back),
            KeyCode::Char('q') => self.apply_list_action(ListAction::Quit),
            _ => InputResult::Continue,
        }
    }

    fn handle_variant_selection_input(&mut self, key: KeyEvent) -> (r: InputResult)
        ensures
            (final(self)@, outcome(r)) == variant_input(old(self)@, key),
    {
        match key.code {
            KeyCode::Up | KeyCode::Left | KeyCode::BackTab => {
                self.move_os_variant_index(-1);
                InputResult::Continue
            },
            KeyCode::Down | KeyCode::Right | KeyCode::Tab => {
                self.move_os_variant_index(1);
                InputResult::Continue
            },
            KeyCode::Enter => {
                if self.has_no_variants() {
                    self.set_error_str("Missing metadata: no variants found for this OS. Cannot continue.");
                    return InputResult::Continue;
                }
                self.clear_error();
                self.apply_list_action(ListAction::Advance)
            },
            KeyCode::Esc => self.apply_list_action(ListAction::Back),
            KeyCode::Char('q') => self.apply_list_action(ListAction::Quit),
            _ => InputResult::Continue,
        }
    }

    fn uefi_local(&self) -> (r: bool)
        ensures
            r == uefi_local(self@),
    {
        proof {
            lemma_view(*self);
        }
        self.uefi_source_index < self.uefi_sources.len() && self.uefi_sources[self.uefi_source_index]
            == EfiSource::LocalEfiImage
    }

    fn handle_uefi_source_selection_input(&mut self, key: KeyEvent) -> (r: InputResult)
        ensures
            (final(self)@, outcome(r)) == uefi_input(old(self)@, key),
    {
        match key.code {
            KeyCode::Up | KeyCode::Left | KeyCode::BackTab => {
                self.move_uefi_source_index(-1);
                InputResult::Continue
            },
            KeyCode::Down | KeyCode::Right | KeyCode::Tab => {
                self.move_uefi_source_index(1);
                InputResult::Continue
            },
            KeyCode::Enter => self.apply_list_action(ListAction::Advance),
            KeyCode::Esc => self.apply_list_action(ListAction::Back),
            KeyCode::Char(c) => {
                if self.uefi_local() {
                    self.push_uefi_source_path(c);
                    InputResult::Continue
                } else if c == 'q' {
                    self.apply_list_action(ListAction::Quit)
                } else {
                    InputResult::Continue
                }
            },
            KeyCode::Backspace => {
                if self.uefi_local() {
                    self.pop_uefi_source_path();
                }
                InputResult::Continue
            },
            _ => InputResult::Continue,
        }
    }

    fn handle_flashing_input(&mut self, key: KeyEvent) -> (r: InputResult)
        ensures
            (final(self)@, outcome(r)) == flashing_input(old(self)@, key),
    {
        if !self.is_dry_run() && !self.is_armed() {
            self.set_error_str("SAFE MODE is active. Return to the summary and disarm Safe Mode.");
            self.set_step(InstallStepType::Confirmation);
            return InputResult::Continue;
        }
        match key.code {
            KeyCode::Char('c') | KeyCode::Char('C') => {
                self.set_cancel_requested(true);
                self.set_status_str("🛑 Cancel requested...");
                InputResult::Continue
            },
            KeyCode::Enter => {
                if self.is_progress_complete() {
                    self.set_step(InstallStepType::Complete);
                    InputResult::Complete
                } else {
                    InputResult::Continue
                }
            },
            KeyCode::Char('q') => InputResult::Quit,
            _ => InputResult::Continue,
        }
    }

    fn handle_partition_layout_list(&mut self, key: KeyEvent) -> (r: InputResult)
        ensures
            (final(self)@, outcome(r)) == ({
                let (a, i) = list_action(key.code, old(self)@.partition_layouts.len(), old(self)@.layout_index);
                apply_list(AppView { layout_index: i, ..old(self)@ }, a)
            }),
    {
        proof {
            lemma_view(*self);
        }
        let (action, i) = list_key(key, self.partition_layouts.len(), self.layout_index);
        self.set_layout_index(i);
        self.apply_list_action(action)
    }

    fn handle_partition_layout_input(&mut self, key: KeyEvent) -> (r: InputResult)
        ensures
            (final(self)@, outcome(r)) == layout_input(old(self)@, key),
    {
        match key.code {
            KeyCode::Char('y') | KeyCode::Char('Y') | KeyCode::Enter => {
                self.clear_error();
                self.set_step(InstallStepType::EfiImage);
                InputResult::Continue
            },
            KeyCode::Char('m') | KeyCode::Char('M') | KeyCode::Char('n') | KeyCode::Char('N') => {
                self.set_step(InstallStepType::PartitionCustomize);
                InputResult::Continue
            },
            _ => self.handle_partition_layout_list(key),
        }
    }

    /// Types into (or backspaces) the size field under the cursor and
    /// rebuilds the list entries.
    fn edit_customization(&mut self, input: Option<char>)
        ensures
            final(self)@ == customize_edit(old(self)@, input),
    {
        let cursor = self.customize_cursor();
        if cursor == 0 {
            self.edit_efi_size(input);
            self.refresh_partition_customizations();
        } else if cursor == 1 {
            self.edit_boot_size(input);
            self.refresh_partition_customizations();
        } else if cursor == 2 {
            self.edit_root_end(input);
            self.refresh_partition_customizations();
        }
    }

    fn handle_partition_customize_input(&mut self, key: KeyEvent) -> (r: InputResult)
        ensures
            (final(self)@, outcome(r)) == customize_input(old(self)@, key),
    {
        match key.code {
            KeyCode::Up | KeyCode::Left | KeyCode::BackTab => {
                self.move_customize_index(-1);
                InputResult::Continue
            },
            KeyCode::Down | KeyCode::Right | KeyCode::Tab => {
                self.move_customize_index(1);
                InputResult::Continue
            },
            KeyCode::Char(c) => {
                if char_is_ascii_alnum(c) || c == '.' {
                    self.clear_error();
                    self.set_field_error(None);
                    self.edit_customization(Some(c));
                }
                InputResult::Continue
            },
            KeyCode::Backspace => {
                self.clear_error();
                self.set_field_error(None);
                self.edit_customization(None);
                InputResult::Continue
            },
            KeyCode::Enter => {
                match self.check_plan() {
                    Ok(()) => {
                        self.clear_error();
                        self.set_field_error(None);
                        self.go_next();
                    },
                    Err(err) => {
                        self.reject_plan(err);
                    },
                }
                InputResult::Continue
            },
            KeyCode::Esc => {
                self.go_prev();
                InputResult::Continue
            },
            _ => InputResult::Continue,
        }
    }

    fn handle_image_source_path_input(&mut self, key: KeyEvent, len: usize) -> (r: InputResult)
        ensures
            (final(self)@, outcome(r)) == image_path_input(old(self)@, key, len as nat),
    {
        match key.code {
            KeyCode::Char(c) => {
                if !char_is_control(c) {
                    self.push_image_source_path(c);
                }
                InputResult::Continue
            },
            KeyCode::Backspace => {
                self.pop_image_source_path();
                InputResult::Continue
            },
            KeyCode::Up | KeyCode::Left | KeyCode::BackTab => {
                self.move_image_source_index(len, -1);
                InputResult::Continue
            },
            KeyCode::Down | KeyCode::Right | KeyCode::Tab => {
                self.move_image_source_index(len, 1);
                InputResult::Continue
            },
            KeyCode::Enter => {
                self.clear_error();
                self.go_next();
                InputResult::Continue
            },
            KeyCode::Esc => {
                self.go_prev();
                InputResult::Continue
            },
            _ => InputResult::Continue,
        }
    }

    fn handle_source_list(&mut self, key: KeyEvent) -> (r: InputResult)
        ensures
            (final(self)@, outcome(r)) == ({
                let (a, i) = list_action(key.code, old(self)@.image_sources.len(), old(self)@.image_source_index);
                apply_list(AppView { image_source_index: i, ..old(self)@ }, a)
            }),
    {
        proof {
            lemma_view(*self);
        }
        let (action, i) = list_key(key, self.image_sources.len(), self.image_source_index);
        self.set_image_source_index(i);
        self.apply_list_action(action)
    }

    fn source_local(&self) -> (r: bool)
        ensures
            r == source_local(self@),
    {
        proof {
            lemma_view(*self);
        }
        self.image_source_index < self.image_sources.len()
            && self.image_sources[self.image_source_index].value == ImageSource::LocalFile
    }

    fn handle_download_source_input(&mut self, key: KeyEvent) -> (r: InputResult)
        ensures
            (final(self)@, outcome(r)) == download_source_input(old(self)@, key),
    {
        let len = self.source_count();
        if self.source_local() {
            self.handle_image_source_path_input(key, len)
        } else {
            self.handle_source_list(key)
        }
    }

    fn handle_scheme_input(&mut self, key: KeyEvent) -> (r: InputResult)
        ensures
            (final(self)@, outcome(r)) == scheme_input(old(self)@, key),
    {
        proof {
            lemma_view(*self);
        }
        let (action, i) = list_key(key, self.partition_schemes.len(), self.scheme_index);
        self.set_scheme_index(i);
        self.apply_list_action(action)
    }

    fn handle_locale_input(&mut self, key: KeyEvent) -> (r: InputResult)
        ensures
            (final(self)@, outcome(r)) == locale_input(old(self)@, key),
    {
        proof {
            lemma_view(*self);
        }
        let (action, i) = list_key(key, self.locales.len(), self.locale_index);
        self.set_locale_index(i);
        self.apply_list_action(action)
    }

    fn handle_first_boot_input(&mut self, key: KeyEvent) -> (r: InputResult)
        ensures
            (final(self)@, outcome(r)) == first_boot_input(old(self)@, key),
    {
        proof {
            lemma_view(*self);
        }
        let (action, i) = list_key(key, self.first_boot_options.len(), self.first_boot_index);
        self.set_first_boot_index(i);
        self.apply_list_action(action)
    }

    /// Takes the result of a fresh disk scan: the disks, ordered by path,
    /// replace the list, and the selection follows the disk selected
    /// before (see `rescan_index`). Nothing changes while the app shows
    /// the built-in sample disks.
    pub fn rescan_disks(&mut self, scanned: Vec<DiskOption>)
        ensures
            final(self)@ == rescan_spec(old(self)@, scanned@),
    {
        if !self.uses_real_disks() {
            return;
        }
        let d = sort_disks_by_path(scanned);
        if d.len() == 0 {
            self.clear_disks();
            self.set_disk_index(0);
            self.set_error_str("No disks detected. Insert a target disk and press r.");
            return;
        }
        let i = self.rescan_choice(&d);
        self.set_disks(d);
        self.set_disk_index(i);
        self.clear_error();
    }

    /// Runs the wipe confirmation that waited for a disk rescan (see
    /// `InputResult::RescanDisks`).
    pub fn complete_wipe_check(&mut self) -> (r: InputResult)
        ensures
            (final(self)@, outcome(r)) == finish_wipe_check(old(self)@),
    {
        match self.wipe_check_pending() {
            None => InputResult::Continue,
            Some(p) => {
                self.set_pending_wipe_check(None);
                if self.has_no_disks() {
                    return InputResult::Continue;
                }
                self.wipe_check(p)
            },
        }
    }

    /// Handles one key press: updates the state and says what the caller
    /// has to do next.
    pub fn handle_input(&mut self, key: KeyEvent) -> (r: InputResult)
        ensures
            (final(self)@, outcome(r)) == handle_input_spec(old(self)@, key),
    {
        match self.current_step() {
            InstallStepType::Welcome => self.handle_welcome_input(key),
            InstallStepType::BackupConfirmation => self.handle_backup_confirmation_input(key),
            InstallStepType::DiskSelection => self.handle_disk_selection_input(key),
            InstallStepType::DiskConfirmation => self.handle_disk_confirmation_input(key),
            InstallStepType::PartitionScheme => self.handle_scheme_input(key),
            InstallStepType::PartitionLayout => self.handle_partition_layout_input(key),
            InstallStepType::PartitionCustomize => self.handle_partition_customize_input(key),
            InstallStepType::DownloadSourceSelection => self.handle_download_source_input(key),
            InstallStepType::ImageSelection => self.handle_os_distro_selection_input(key),
            InstallStepType::VariantSelection => self.handle_variant_selection_input(key),
            InstallStepType::EfiImage => self.handle_uefi_source_selection_input(key),
            InstallStepType::LocaleSelection => self.handle_locale_input(key),
            InstallStepType::Options => self.handle_options_input(key),
            InstallStepType::FirstBootUser => self.handle_first_boot_input(key),
            InstallStepType::PlanReview => self.handle_plan_review_input(key),
            InstallStepType::Confirmation => self.handle_confirmation_input(key),
            InstallStepType::ExecuteConfirmationGate => self.handle_execute_confirmation_gate_input(key),
            InstallStepType::DisarmSafeMode => self.handle_disarm_safe_mode_input(key),
            InstallStepType::DownloadingFedora => self.handle_downloading_fedora_input(key),
            InstallStepType::DownloadingUefi => self.handle_downloading_uefi_input(key),
            InstallStepType::Flashing => self.handle_flashing_input(key),
            InstallStepType::Complete => InputResult::Continue,
        }
    }
}

/// Catalogue variants of `os` on aarch64, in catalogue order.
fn collect_variants(cat: &Vec<CatalogueImage>, os: OsDistro) -> (r: Vec<OsVariantOption>)
    ensures
        variants_view(r@) == variants_for(cat@, os),
{
    let mut out: Vec<OsVariantOption> = Vec::new();
    let mut i: usize = 0;
    while i < cat.len()
        invariant
            i <= cat.len(),
            variants_view(out@) == variants_for(cat@.subrange(0, i as int), os),
        decreases cat.len() - i,
    {
        let img = &cat[i];
        assert(cat@.subrange(0, i + 1).drop_last() =~= cat@.subrange(0, i as int));
        if img.os == os && str_eq(img.arch.as_str(), "aarch64") {
            let label = format_variant_label(os, img.variant.as_str());
            let ghost before = variants_view(out@);
            out.push(OsVariantOption { id: img.variant.clone(), label });
            assert(variants_view(out@) =~= before.push((img.variant@, variant_label(os, img.variant@))));
        }
        i += 1;
    }
    assert(cat@.subrange(0, cat.len() as int) =~= cat@);
    out
}

fn copy_variant(o: &OsVariantOption) -> (r: OsVariantOption)
    ensures
        r.id@ == o.id@,
        r.label@ == o.label@,
{
    OsVariantOption { id: o.id.clone(), label: o.label.clone() }
}

/// Stable insertion sort of variants by label.
fn sort_variants_by_label(v: Vec<OsVariantOption>) -> (r: Vec<OsVariantOption>)
    ensures
        variants_view(r@) == sort_by_label(variants_view(v@)),
{
    let ghost orig = variants_view(v@);
    let mut sorted: Vec<OsVariantOption> = Vec::new();
    let mut k: usize = 0;
    assert(variants_view(sorted@) =~= sort_by_label(orig.subrange(0, 0)));
    while k < v.len()
        invariant
            k <= v.len(),
            orig == variants_view(v@),
            variants_view(sorted@) == sort_by_label(orig.subrange(0, k as int)),
        decreases v.len() - k,
    {
        let x = copy_variant(&v[k]);
        let ghost xv = (x.id@, x.label@);
        assert(xv == orig[k as int]);
        let ghost sv = variants_view(sorted@);
        let mut pos = sorted.len();
        assert(sv.subrange(0, pos as int) =~= sv);
        loop
            invariant
                pos <= sorted.len(),
                sv == variants_view(sorted@),
                xv == (x.id@, x.label@),
                label_insert_pos(sv, xv) == label_insert_pos(sv.subrange(0, pos as int), xv),
            ensures
                pos <= sorted.len(),
                label_insert_pos(sv, xv) == pos,
            decreases pos,
        {
            if pos == 0 {
                break;
            }
            let less = lex_less_labels(&x, &sorted[pos - 1]);
            proof {
                let s = sv.subrange(0, pos as int);
                assert(s.last() == sv[pos - 1]);
                assert(sv[pos - 1] == (sorted@[pos - 1].id@, sorted@[pos - 1].label@));
                assert(s.drop_last() =~= sv.subrange(0, pos - 1));
            }
            if !less {
                break;
            }
            pos -= 1;
        }
        sorted.insert(pos, x);
        proof {
            let next = orig.subrange(0, k + 1);
            assert(next.drop_last() =~= orig.subrange(0, k as int));
            assert(next.last() == xv);
            assert(variants_view(sorted@) =~= sv.insert(pos as int, xv));
        }
        k += 1;
    }
    assert(orig.subrange(0, v.len() as int) =~= orig);
    sorted
}

fn lex_less_labels(a: &OsVariantOption, b: &OsVariantOption) -> (r: bool)
    ensures
        r == lex_lt(a.label@, b.label@),
{
    let av = chars_of(a.label.as_str());
    let bv = chars_of(b.label.as_str());
    lex_less(&av, &bv)
}

} // verus!
