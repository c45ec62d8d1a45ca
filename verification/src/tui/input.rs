//! The Dojo transition function: how each key changes the installer state,
//! stated as spec functions and implemented by `App::handle_input`.
use crate::text::{
    char_is_ascii_alnum, char_is_ascii_upper, char_is_control, char_to_upper, is_ascii_alnum,
    is_ascii_upper, is_control, popped, str_eq, string_pop, string_push, upper_of,
};
use crate::tui::app::{
    adjust, adjust_disk, app_plan_verdict, go_next, go_prev, refresh_customizations,
    refresh_variants, with_error, with_field_error, with_status, with_step, AppView,
    PendingDestructiveAction,
};
use crate::tui::flash_config::{flash_config_spec, outcome, requires_uefi_download, Outcome};
use crate::tui::partition::CustomizeField;
use crate::tui::steps::InstallStepType;
use crate::tui::types::{
    disk_protected, is_protected, EfiSource, ImageSource, InputResult, KeyCode, KeyEvent,
    OptionToggle,
};
use vstd::prelude::*;
use vstd::string::*;
use vstd::utf8::encode_utf8;

verus! {

/// Phrase that the execute gate requires, typed exactly.
#[verifier::inline]
pub open spec fn gate_phrase() -> Seq<char> {
    "I UNDERSTAND THIS WILL ERASE THE SELECTED DISK"@
}

/// How many bytes the execute-confirmation phrase takes.
#[verifier::inline]
pub open spec fn gate_phrase_len() -> nat {
    46
}

#[verifier::inline]
pub open spec fn msg_backup() -> Seq<char> {
    "Backup confirmation required to proceed."@
}

#[verifier::inline]
pub open spec fn msg_protected() -> Seq<char> {
    "🛑 This disk is the source/boot media and cannot be selected. Re-run with --developer-mode to override (dangerous)."@
}

#[verifier::inline]
pub open spec fn msg_boot_wipe() -> Seq<char> {
    "⚠️ Type 'DESTROY BOOT DISK' to confirm destruction of BOOT DEVICE."@
}

#[verifier::inline]
pub open spec fn msg_wipe() -> Seq<char> {
    "Type DESTROY to confirm disk destruction."@
}

#[verifier::inline]
pub open spec fn msg_gate() -> Seq<char> {
    "Type the full phrase exactly: I UNDERSTAND THIS WILL ERASE THE SELECTED DISK"@
}

#[verifier::inline]
pub open spec fn msg_disarm() -> Seq<char> {
    "Type DESTROY (exactly) to disarm Safe Mode."@
}

#[verifier::inline]
pub open spec fn msg_no_variants() -> Seq<char> {
    "Missing metadata: no variants found for this OS. Cannot continue."@
}

#[verifier::inline]
pub open spec fn msg_safe_mode() -> Seq<char> {
    "SAFE MODE is active. Return to the summary and disarm Safe Mode."@
}

#[verifier::inline]
pub open spec fn status_starting() -> Seq<char> {
    "🛠️ Starting installation..."@
}

/// What a key means for a plain list.
pub enum ListAction {
    Advance,
    Back,
    Quit,
    Stay,
}

pub open spec fn is_up(c: KeyCode) -> bool {
    c == KeyCode::Up || c == KeyCode::Left || c == KeyCode::BackTab
}

pub open spec fn is_down(c: KeyCode) -> bool {
    c == KeyCode::Down || c == KeyCode::Right || c == KeyCode::Tab
}

pub open spec fn list_action(c: KeyCode, len: nat, idx: usize) -> (ListAction, usize) {
    if is_up(c) {
        (ListAction::Stay, adjust(len, idx as nat, -1))
    } else if is_down(c) {
        (ListAction::Stay, adjust(len, idx as nat, 1))
    } else if c == KeyCode::Enter {
        (ListAction::Advance, idx)
    } else if c == KeyCode::Esc {
        (ListAction::Back, idx)
    } else if c == KeyCode::Char('q') {
        (ListAction::Quit, idx)
    } else {
        (ListAction::Stay, idx)
    }
}

/// Byte length of the UTF-8 encoding of `s`, as `str::len` reports it.
#[verifier::inline]
pub open spec fn byte_len(s: Seq<char>) -> usize {
    encode_utf8(s).len() as usize
}

/// A text field after a typed character (`Some`) or a backspace (`None`).
pub open spec fn edited(s: Seq<char>, input: Option<char>) -> Seq<char> {
    match input {
        Some(ch) => s.push(ch),
        None => popped(s),
    }
}

pub open spec fn apply_list(v: AppView, a: ListAction) -> (AppView, Outcome) {
    match a {
        ListAction::Advance => (go_next(with_error(v, None)), Outcome::Continue),
        ListAction::Back => (go_prev(v), Outcome::Continue),
        ListAction::Quit => (v, Outcome::Quit),
        ListAction::Stay => (v, Outcome::Continue),
    }
}

pub open spec fn cont(v: AppView) -> (AppView, Outcome) {
    (v, Outcome::Continue)
}

pub open spec fn start_flashing(v: AppView) -> AppView {
    AppView { flash_started: true, ..with_status(with_step(v, InstallStepType::Flashing), status_starting()) }
}

/// Validate the plan, then either stop for Safe Mode, or start flashing.
pub open spec fn try_start_flash(v: AppView) -> (AppView, Outcome) {
    match app_plan_verdict(v) {
        Err((m, f)) => cont(with_field_error(with_error(v, Some(m)), Some(f))),
        Ok(()) => {
            let v1 = with_field_error(with_error(v, None), None);
            if !v1.dry_run && !v1.destructive_armed {
                let v2 = AppView {
                    safe_mode_disarm_input: Seq::empty(),
                    ..AppView { pending_destructive_action: Some(PendingDestructiveAction::StartFlash), ..v1 }
                };
                cont(with_step(with_error(v2, None), InstallStepType::DisarmSafeMode))
            } else {
                let v2 = AppView {
                    cancel_requested: false,
                    ..with_status(with_step(v1, InstallStepType::Flashing), status_starting())
                };
                (v2, Outcome::StartFlash(flash_config_spec(v2)))
            }
        },
    }
}

pub open spec fn selected_protected(v: AppView) -> bool {
    v.disk_index < v.disks.len() && disk_protected(v.disks[v.disk_index as int])
}

pub open spec fn welcome_input(v: AppView, k: KeyEvent) -> (AppView, Outcome) {
    match k.code {
        KeyCode::Up | KeyCode::Left => cont(
            AppView { welcome_index: adjust(v.welcome_options.len(), v.welcome_index as nat, -1), ..v },
        ),
        KeyCode::Down | KeyCode::Right => cont(
            AppView { welcome_index: adjust(v.welcome_options.len(), v.welcome_index as nat, 1), ..v },
        ),
        KeyCode::Enter => cont(with_step(with_error(v, None), InstallStepType::DiskSelection)),
        KeyCode::Esc | KeyCode::Char('q') => (v, Outcome::Quit),
        _ => cont(v),
    }
}

pub open spec fn backup_input(v: AppView, k: KeyEvent) -> (AppView, Outcome) {
    match k.code {
        KeyCode::Up | KeyCode::Down | KeyCode::Left | KeyCode::Right => cont(
            AppView { backup_choice_index: if v.backup_choice_index == 0 { 1 } else { 0 }, ..v },
        ),
        KeyCode::Char('y') | KeyCode::Char('Y') => cont(
            go_next(
                with_error(
                    AppView { backup_choice_index: 1, ..AppView { backup_confirmed: true, ..v } },
                    None,
                ),
            ),
        ),
        KeyCode::Char('n') | KeyCode::Char('N') => cont(
            go_prev(
                with_error(
                    AppView { backup_choice_index: 0, ..AppView { backup_confirmed: false, ..v } },
                    Some(msg_backup()),
                ),
            ),
        ),
        KeyCode::Enter => if v.backup_choice_index == 1 {
            cont(go_next(with_error(AppView { backup_confirmed: true, ..v }, None)))
        } else {
            cont(with_error(AppView { backup_confirmed: false, ..v }, Some(msg_backup())))
        },
        KeyCode::Esc => cont(go_prev(v)),
        KeyCode::Char('q') => (v, Outcome::Quit),
        _ => cont(v),
    }
}

pub open spec fn disk_selection_input(v: AppView, k: KeyEvent) -> (AppView, Outcome) {
    match k.code {
        KeyCode::Char('r') => if v.use_real_disks {
            (v, Outcome::RescanDisks)
        } else {
            cont(v)
        },
        KeyCode::Up | KeyCode::Left | KeyCode::BackTab => cont(
            AppView { disk_index: adjust_disk(v, -1), ..v },
        ),
        KeyCode::Down | KeyCode::Right | KeyCode::Tab => cont(
            AppView { disk_index: adjust_disk(v, 1), ..v },
        ),
        KeyCode::Enter => if selected_protected(v) && !v.developer_mode {
            cont(with_error(v, Some(msg_protected())))
        } else {
            apply_list(with_error(v, None), ListAction::Advance)
        },
        KeyCode::Esc => apply_list(v, ListAction::Back),
        KeyCode::Char('q') => apply_list(v, ListAction::Quit),
        _ => cont(v),
    }
}

pub open spec fn toggle_option(v: AppView) -> AppView {
    if v.options_index < v.options.len() {
        let o = v.options[v.options_index as int];
        AppView {
            options: v.options.update(
                v.options_index as int,
                OptionToggle { label: o.label, enabled: !o.enabled },
            ),
            ..v
        }
    } else {
        v
    }
}

pub open spec fn options_input(v: AppView, k: KeyEvent) -> (AppView, Outcome) {
    match k.code {
        KeyCode::Up => cont(
            AppView { options_index: adjust(v.options.len(), v.options_index as nat, -1), ..v },
        ),
        KeyCode::Down => cont(
            AppView { options_index: adjust(v.options.len(), v.options_index as nat, 1), ..v },
        ),
        KeyCode::Char(' ') | KeyCode::Enter => cont(toggle_option(v)),
        KeyCode::Esc => cont(go_prev(v)),
        KeyCode::Char('q') => (v, Outcome::Quit),
        _ => cont(v),
    }
}

pub open spec fn plan_review_input(v: AppView, k: KeyEvent) -> (AppView, Outcome) {
    match k.code {
        KeyCode::Enter => cont(go_next(v)),
        KeyCode::Esc => cont(go_prev(v)),
        KeyCode::Char('q') => (v, Outcome::Quit),
        _ => cont(v),
    }
}

/// The phrase that confirms wiping the selected disk.
#[verifier::inline]
pub open spec fn wipe_phrase(protected: bool) -> Seq<char> {
    if protected {
        "DESTROY BOOT DISK"@
    } else {
        "DESTROY"@
    }
}

/// Compare the typed wipe confirmation with the phrase the disk demands.
pub open spec fn wipe_check(v: AppView, protected: bool) -> (AppView, Outcome) {
    if v.wipe_confirmation == wipe_phrase(protected) {
        cont(go_next(AppView { wipe_confirmation: Seq::empty(), ..with_error(v, None) }))
    } else {
        cont(with_error(v, Some(if protected { msg_boot_wipe() } else { msg_wipe() })))
    }
}

pub open spec fn disk_confirmation_input(v: AppView, k: KeyEvent) -> (AppView, Outcome) {
    match k.code {
        KeyCode::Char(ch) => if is_ascii_alnum(ch) || ch == ' ' {
            if byte_len(v.wipe_confirmation) < 32 {
                cont(AppView { wipe_confirmation: v.wipe_confirmation.push(upper_of(ch)), ..v })
            } else {
                cont(v)
            }
        } else if ch == 'q' {
            (v, Outcome::Quit)
        } else {
            cont(v)
        },
        KeyCode::Backspace => cont(AppView { wipe_confirmation: popped(v.wipe_confirmation), ..v }),
        KeyCode::Enter => if v.use_real_disks {
            (AppView { pending_wipe_check: Some(selected_protected(v)), ..v }, Outcome::RescanDisks)
        } else {
            wipe_check(v, selected_protected(v))
        },
        KeyCode::Esc => cont(go_prev(AppView { wipe_confirmation: Seq::empty(), ..v })),
        _ => cont(v),
    }
}

/// After the rescan that Enter asked for on the wipe confirmation: the
/// check runs against the phrase chosen when Enter was pressed, unless the
/// rescan found no disks.
pub open spec fn finish_wipe_check(v: AppView) -> (AppView, Outcome) {
    match v.pending_wipe_check {
        None => cont(v),
        Some(p) => {
            let v1 = AppView { pending_wipe_check: None, ..v };
            if v1.disks.len() == 0 {
                cont(v1)
            } else {
                wipe_check(v1, p)
            }
        },
    }
}

pub open spec fn confirmation_input(v: AppView, k: KeyEvent) -> (AppView, Outcome) {
    match k.code {
        KeyCode::Enter => if !v.dry_run && !v.execute_confirmation_confirmed {
            cont(
                with_step(
                    with_error(AppView { execute_confirmation_input: Seq::empty(), ..v }, None),
                    InstallStepType::ExecuteConfirmationGate,
                ),
            )
        } else {
            try_start_flash(v)
        },
        KeyCode::Esc => cont(go_prev(v)),
        KeyCode::Char('q') => (v, Outcome::Quit),
        _ => cont(v),
    }
}

pub open spec fn gate_input(v: AppView, k: KeyEvent) -> (AppView, Outcome) {
    match k.code {
        KeyCode::Char(ch) => if is_ascii_upper(ch) || ch == ' ' {
            if byte_len(v.execute_confirmation_input) < gate_phrase_len() {
                cont(
                    AppView {
                        execute_confirmation_input: v.execute_confirmation_input.push(ch),
                        ..v
                    },
                )
            } else {
                cont(v)
            }
        } else if ch == 'q' {
            (v, Outcome::Quit)
        } else {
            cont(v)
        },
        KeyCode::Backspace => cont(
            AppView { execute_confirmation_input: popped(v.execute_confirmation_input), ..v },
        ),
        KeyCode::Enter => if v.execute_confirmation_input == gate_phrase() {
            try_start_flash(
                AppView {
                    execute_confirmation_input: Seq::empty(),
                    ..with_error(AppView { execute_confirmation_confirmed: true, ..v }, None)
                },
            )
        } else {
            cont(with_error(v, Some(msg_gate())))
        },
        KeyCode::Esc => cont(
            with_step(
                AppView {
                    execute_confirmation_confirmed: false,
                    ..AppView { execute_confirmation_input: Seq::empty(), ..v }
                },
                InstallStepType::Confirmation,
            ),
        ),
        _ => cont(v),
    }
}

pub open spec fn disarm_input(v: AppView, k: KeyEvent) -> (AppView, Outcome) {
    match k.code {
        KeyCode::Char(ch) => if is_ascii_alnum(ch) && byte_len(v.safe_mode_disarm_input) < 16 {
            cont(AppView { safe_mode_disarm_input: v.safe_mode_disarm_input.push(ch), ..v })
        } else {
            cont(v)
        },
        KeyCode::Backspace => cont(
            AppView { safe_mode_disarm_input: popped(v.safe_mode_disarm_input), ..v },
        ),
        KeyCode::Enter => if v.safe_mode_disarm_input == "DESTROY"@ {
            let v1 = AppView {
                pending_destructive_action: None,
                ..AppView {
                    safe_mode_disarm_input: Seq::empty(),
                    ..with_error(AppView { destructive_armed: true, ..v }, None)
                }
            };
            match v.pending_destructive_action {
                Some(PendingDestructiveAction::StartFlash) => try_start_flash(v1),
                None => cont(with_step(v1, InstallStepType::Confirmation)),
            }
        } else {
            cont(with_error(v, Some(msg_disarm())))
        },
        KeyCode::Esc => cont(
            with_step(
                AppView {
                    pending_destructive_action: None,
                    ..AppView { safe_mode_disarm_input: Seq::empty(), ..v }
                },
                InstallStepType::Confirmation,
            ),
        ),
        _ => cont(v),
    }
}

pub open spec fn downloading_fedora_input(v: AppView, k: KeyEvent) -> (AppView, Outcome) {
    match k.code {
        KeyCode::Up | KeyCode::Left => cont(
            AppView { downloading_fedora_index: adjust(2, v.downloading_fedora_index as nat, -1), ..v },
        ),
        KeyCode::Down | KeyCode::Right => cont(
            AppView { downloading_fedora_index: adjust(2, v.downloading_fedora_index as nat, 1), ..v },
        ),
        KeyCode::Enter => if v.downloading_fedora_index == 0 {
            let v1 = AppView { downloaded_fedora: true, ..v };
            if requires_uefi_download(v1) {
                cont(
                    with_status(
                        with_step(v1, InstallStepType::DownloadingUefi),
                        "⬇️ Preparing EFI download..."@,
                    ),
                )
            } else {
                cont(start_flashing(v1))
            }
        } else {
            cont(go_prev(v))
        },
        KeyCode::Esc => cont(go_prev(v)),
        KeyCode::Char('q') => (v, Outcome::Quit),
        _ => cont(v),
    }
}

pub open spec fn downloading_uefi_input(v: AppView, k: KeyEvent) -> (AppView, Outcome) {
    match k.code {
        KeyCode::Up | KeyCode::Left => cont(
            AppView { downloading_uefi_index: adjust(2, v.downloading_uefi_index as nat, -1), ..v },
        ),
        KeyCode::Down | KeyCode::Right => cont(
            AppView { downloading_uefi_index: adjust(2, v.downloading_uefi_index as nat, 1), ..v },
        ),
        KeyCode::Enter => if v.downloading_uefi_index == 0 {
            cont(start_flashing(AppView { downloaded_uefi: true, ..v }))
        } else {
            cont(go_prev(v))
        },
        KeyCode::Esc => cont(go_prev(v)),
        KeyCode::Char('q') => (v, Outcome::Quit),
        _ => cont(v),
    }
}

pub open spec fn distro_input(v: AppView, k: KeyEvent) -> (AppView, Outcome) {
    match k.code {
        KeyCode::Up | KeyCode::Left | KeyCode::BackTab => cont(
            refresh_variants(
                AppView { os_distro_index: adjust(v.os_distros.len(), v.os_distro_index as nat, -1), ..v },
            ),
        ),
        KeyCode::Down | KeyCode::Right | KeyCode::Tab => cont(
            refresh_variants(
                AppView { os_distro_index: adjust(v.os_distros.len(), v.os_distro_index as nat, 1), ..v },
            ),
        ),
        KeyCode::Enter => if v.os_variants.len() == 0 {
            cont(with_error(with_error(v, None), Some(msg_no_variants())))
        } else {
            apply_list(with_error(v, None), ListAction::Advance)
        },
        KeyCode::Esc => apply_list(v, ListAction::Back),
        KeyCode::Char('q') => apply_list(v, ListAction::Quit),
        _ => cont(v),
    }
}

pub open spec fn variant_input(v: AppView, k: KeyEvent) -> (AppView, Outcome) {
    match k.code {
        KeyCode::Up | KeyCode::Left | KeyCode::BackTab => cont(
            AppView { os_variant_index: adjust(v.os_variants.len(), v.os_variant_index as nat, -1), ..v },
        ),
        KeyCode::Down | KeyCode::Right | KeyCode::Tab => cont(
            AppView { os_variant_index: adjust(v.os_variants.len(), v.os_variant_index as nat, 1), ..v },
        ),
        KeyCode::Enter => if v.os_variants.len() == 0 {
            cont(with_error(v, Some(msg_no_variants())))
        } else {
            apply_list(with_error(v, None), ListAction::Advance)
        },
        KeyCode::Esc => apply_list(v, ListAction::Back),
        KeyCode::Char('q') => apply_list(v, ListAction::Quit),
        _ => cont(v),
    }
}

/// Whether the EFI step has the local image selected (its path is typed in).
pub open spec fn uefi_local(v: AppView) -> bool {
    v.uefi_source_index < v.uefi_sources.len() && v.uefi_sources[v.uefi_source_index as int]
        == EfiSource::LocalEfiImage
}

pub open spec fn uefi_input(v: AppView, k: KeyEvent) -> (AppView, Outcome) {
    match k.code {
        KeyCode::Up | KeyCode::Left | KeyCode::BackTab => cont(
            AppView { uefi_source_index: adjust(v.uefi_sources.len(), v.uefi_source_index as nat, -1), ..v },
        ),
        KeyCode::Down | KeyCode::Right | KeyCode::Tab => cont(
            AppView { uefi_source_index: adjust(v.uefi_sources.len(), v.uefi_source_index as nat, 1), ..v },
        ),
        KeyCode::Enter => apply_list(v, ListAction::Advance),
        KeyCode::Esc => apply_list(v, ListAction::Back),
        KeyCode::Char(ch) => if uefi_local(v) {
            cont(AppView { uefi_source_path: v.uefi_source_path.push(ch), ..v })
        } else if ch == 'q' {
            apply_list(v, ListAction::Quit)
        } else {
            cont(v)
        },
        KeyCode::Backspace => if uefi_local(v) {
            cont(AppView { uefi_source_path: popped(v.uefi_source_path), ..v })
        } else {
            cont(v)
        },
        _ => cont(v),
    }
}

pub open spec fn flashing_input(v: AppView, k: KeyEvent) -> (AppView, Outcome) {
    if !v.dry_run && !v.destructive_armed {
        cont(with_step(with_error(v, Some(msg_safe_mode())), InstallStepType::Confirmation))
    } else {
        match k.code {
            KeyCode::Char('c') | KeyCode::Char('C') => cont(
                with_status(AppView { cancel_requested: true, ..v }, "🛑 Cancel requested..."@),
            ),
            KeyCode::Enter => if v.progress_complete {
                (with_step(v, InstallStepType::Complete), Outcome::Complete)
            } else {
                cont(v)
            },
            KeyCode::Char('q') => (v, Outcome::Quit),
            _ => cont(v),
        }
    }
}

pub open spec fn layout_input(v: AppView, k: KeyEvent) -> (AppView, Outcome) {
    match k.code {
        KeyCode::Char('y') | KeyCode::Char('Y') | KeyCode::Enter => cont(
            with_step(with_error(v, None), InstallStepType::EfiImage),
        ),
        KeyCode::Char('m') | KeyCode::Char('M') | KeyCode::Char('n') | KeyCode::Char('N') => cont(
            with_step(v, InstallStepType::PartitionCustomize),
        ),
        _ => {
            let (a, i) = list_action(k.code, v.partition_layouts.len(), v.layout_index);
            apply_list(AppView { layout_index: i, ..v }, a)
        },
    }
}

/// Applies a typed character (or, with `None`, a backspace) to the size
/// field under the cursor; the list entries are rebuilt after an edit.
pub open spec fn customize_edit(v: AppView, input: Option<char>) -> AppView {
    if v.customize_index == 0 {
        refresh_customizations(AppView { efi_size: edited(v.efi_size, input), ..v })
    } else if v.customize_index == 1 {
        refresh_customizations(AppView { boot_size: edited(v.boot_size, input), ..v })
    } else if v.customize_index == 2 {
        refresh_customizations(AppView { root_end: edited(v.root_end, input), ..v })
    } else {
        v
    }
}

pub open spec fn customize_input(v: AppView, k: KeyEvent) -> (AppView, Outcome) {
    let n = v.partition_customizations.len();
    match k.code {
        KeyCode::Up | KeyCode::Left | KeyCode::BackTab => cont(
            AppView { customize_index: adjust(n, v.customize_index as nat, -1), ..v },
        ),
        KeyCode::Down | KeyCode::Right | KeyCode::Tab => cont(
            AppView { customize_index: adjust(n, v.customize_index as nat, 1), ..v },
        ),
        KeyCode::Char(ch) => if is_ascii_alnum(ch) || ch == '.' {
            cont(customize_edit(with_field_error(with_error(v, None), None), Some(ch)))
        } else {
            cont(v)
        },
        KeyCode::Backspace => cont(customize_edit(with_field_error(with_error(v, None), None), None)),
        KeyCode::Enter => match app_plan_verdict(v) {
            Ok(()) => cont(go_next(with_field_error(with_error(v, None), None))),
            Err((m, f)) => cont(with_field_error(with_error(v, Some(m)), Some(f))),
        },
        KeyCode::Esc => cont(go_prev(v)),
        _ => cont(v),
    }
}

pub open spec fn image_path_input(v: AppView, k: KeyEvent, len: nat) -> (AppView, Outcome) {
    match k.code {
        KeyCode::Char(ch) => if !is_control(ch) {
            cont(AppView { image_source_path: v.image_source_path.push(ch), ..v })
        } else {
            cont(v)
        },
        KeyCode::Backspace => cont(AppView { image_source_path: popped(v.image_source_path), ..v }),
        KeyCode::Up | KeyCode::Left | KeyCode::BackTab => cont(
            AppView { image_source_index: adjust(len, v.image_source_index as nat, -1), ..v },
        ),
        KeyCode::Down | KeyCode::Right | KeyCode::Tab => cont(
            AppView { image_source_index: adjust(len, v.image_source_index as nat, 1), ..v },
        ),
        KeyCode::Enter => cont(go_next(with_error(v, None))),
        KeyCode::Esc => cont(go_prev(v)),
        _ => cont(v),
    }
}

/// Whether the download-source step has the local file selected.
pub open spec fn source_local(v: AppView) -> bool {
    v.image_source_index < v.image_sources.len()
        && v.image_sources[v.image_source_index as int].value == ImageSource::LocalFile
}

pub open spec fn download_source_input(v: AppView, k: KeyEvent) -> (AppView, Outcome) {
    let len = v.image_sources.len();
    if source_local(v) {
        image_path_input(v, k, len)
    } else {
        let (a, i) = list_action(k.code, len, v.image_source_index);
        apply_list(AppView { image_source_index: i, ..v }, a)
    }
}

pub open spec fn scheme_input(v: AppView, k: KeyEvent) -> (AppView, Outcome) {
    let (a, i) = list_action(k.code, v.partition_schemes.len(), v.scheme_index);
    apply_list(AppView { scheme_index: i, ..v }, a)
}

pub open spec fn locale_input(v: AppView, k: KeyEvent) -> (AppView, Outcome) {
    let (a, i) = list_action(k.code, v.locales.len(), v.locale_index);
    apply_list(AppView { locale_index: i, ..v }, a)
}

pub open spec fn first_boot_input(v: AppView, k: KeyEvent) -> (AppView, Outcome) {
    let (a, i) = list_action(k.code, v.first_boot_options.len(), v.first_boot_index);
    apply_list(AppView { first_boot_index: i, ..v }, a)
}

/// The Dojo transition function: the next state and what the caller must do.
pub open spec fn handle_input_spec(v: AppView, k: KeyEvent) -> (AppView, Outcome) {
    match v.step {
        InstallStepType::Welcome => welcome_input(v, k),
        InstallStepType::BackupConfirmation => backup_input(v, k),
        InstallStepType::DiskSelection => disk_selection_input(v, k),
        InstallStepType::DiskConfirmation => disk_confirmation_input(v, k),
        InstallStepType::PartitionScheme => scheme_input(v, k),
        InstallStepType::PartitionLayout => layout_input(v, k),
        InstallStepType::PartitionCustomize => customize_input(v, k),
        InstallStepType::DownloadSourceSelection => download_source_input(v, k),
        InstallStepType::ImageSelection => distro_input(v, k),
        InstallStepType::VariantSelection => variant_input(v, k),
        InstallStepType::EfiImage => uefi_input(v, k),
        InstallStepType::LocaleSelection => locale_input(v, k),
        InstallStepType::Options => options_input(v, k),
        InstallStepType::FirstBootUser => first_boot_input(v, k),
        InstallStepType::PlanReview => plan_review_input(v, k),
        InstallStepType::Confirmation => confirmation_input(v, k),
        InstallStepType::ExecuteConfirmationGate => gate_input(v, k),
        InstallStepType::DisarmSafeMode => disarm_input(v, k),
        InstallStepType::DownloadingFedora => downloading_fedora_input(v, k),
        InstallStepType::DownloadingUefi => downloading_uefi_input(v, k),
        InstallStepType::Flashing => flashing_input(v, k),
        InstallStepType::Complete => cont(v),
    }
}

} // verus!
