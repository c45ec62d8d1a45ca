use mash::sysfs::block::TransportType;
use mash::tui::app::App;
use mash::tui::content::{
    build_dojo_lines, build_info_panel, build_plan_lines, dump_all_steps, dump_step, elapsed_string, format_disk_entry,
    format_layout_preview, format_partition_scheme, join_with_newlines, phase_hint, phase_line,
    progress_detail, progress_phase_lines, push_options, spinner_frame, status_message, PhaseRow,
    ProgressView, ScreenContext,
};
use mash::tui::partition::{CustomizeField, PartitionScheme};
use mash::tui::steps::InstallStepType;
use mash::tui::types::{BootConfidence, DiskIdentity, DiskOption, OsDistro};

fn progress() -> ProgressView {
    ProgressView {
        status: String::new(),
        overall_percent: 0,
        phase_percent: 0,
        eta: "--:--".to_string(),
        phases: Vec::new(),
        current_phase: None,
        is_complete: false,
        rsync_speed: None,
        disk_io_speed: None,
    }
}

fn context(app: &App) -> ScreenContext {
    ScreenContext {
        disk_identities: app.disks.iter().map(|d| Some(format!("{} disk", d.path))).collect(),
        mbr_name: "MBR".to_string(),
        gpt_name: "GPT".to_string(),
        efi_download_name: "Download EFI image".to_string(),
        efi_local_name: "Use local EFI image".to_string(),
        progress: progress(),
        elapsed_ms: None,
    }
}

fn disk(path: &str, boot: BootConfidence, removable: bool, source: bool) -> DiskOption {
    DiskOption {
        identity: DiskIdentity {
            vendor: None,
            model: None,
            serial: None,
            wwn: None,
            size_bytes: 0,
            transport: TransportType::Unknown,
        },
        stable_id: path.to_string(),
        path: path.to_string(),
        removable,
        boot_confidence: boot,
        is_source_disk: source,
    }
}

#[test]
fn dojo_ui_plan_review_renders_summary() {
    let mut app = App::new_with_flags(true);
    app.current_step_type = InstallStepType::PlanReview;
    let ctx = context(&app);
    let dump = dump_step(&app, &ctx);
    assert!(dump.contains("Execution plan"));
    assert!(dump.contains("Reboots"));
}

#[test]
fn content_plan_review_renders_summary() {
    let mut app = App::new_with_flags(true);
    app.current_step_type = InstallStepType::PlanReview;
    let ctx = context(&app);
    let dump = dump_step(&app, &ctx);
    assert!(dump.contains("Execution plan"));
    assert!(dump.contains("Reboots"));
}

#[test]
fn options_mark_the_selected_entry() {
    let mut items = vec!["head".to_string()];
    push_options(&mut items, &vec!["a".to_string(), "b".to_string()], 1);
    assert_eq!(items, vec!["head", "  a", "▶ b"]);
    let mut empty = Vec::new();
    push_options(&mut empty, &Vec::new(), 0);
    assert_eq!(empty, vec!["ℹ️ No options available."]);
}

#[test]
fn layout_preview_spaces_units_and_drops_empty_parts() {
    assert_eq!(
        format_layout_preview("EFI 1024MiB | BOOT 2048MiB || ROOT 64GiB | "),
        vec!["  EFI 1024 MiB", "  BOOT 2048 MiB", "  ROOT 64 GiB"]
    );
    assert!(format_layout_preview("").is_empty());
}

#[test]
fn disk_entries_carry_tags() {
    let boot = disk("/dev/sda", BootConfidence::Confident, false, false);
    let id = "Samsung 500 GiB".to_string();
    assert_eq!(format_disk_entry(&boot, Some(&id)), "/dev/sda - Samsung 500 GiB - ⚠ BOOT MEDIA");
    let src = disk("/dev/sdb", BootConfidence::Unverified, true, true);
    assert_eq!(format_disk_entry(&src, Some(&id)), "/dev/sdb - Samsung 500 GiB - ⚠ SOURCE MEDIA, ⚠ BOOT?");
    let usb = disk("/dev/sdc", BootConfidence::NotBoot, true, false);
    assert_eq!(format_disk_entry(&usb, Some(&id)), "/dev/sdc - Samsung 500 GiB - REMOVABLE");
    let internal = disk("/dev/nvme0n1", BootConfidence::Unknown, false, false);
    assert_eq!(format_disk_entry(&internal, Some(&id)), "/dev/nvme0n1 - Samsung 500 GiB - INTERNAL");
    assert_eq!(format_disk_entry(&usb, None), "/dev/sdc - ❌ IDENTITY FAILED - Cannot proceed");
}

#[test]
fn scheme_choices_are_described() {
    assert_eq!(format_partition_scheme(PartitionScheme::Mbr), "MBR — compatibility & simplicity");
    assert_eq!(format_partition_scheme(PartitionScheme::Gpt), "GPT — modern, UEFI-oriented");
}

#[test]
fn spinner_and_elapsed_follow_the_clock() {
    assert_eq!(spinner_frame(None), "⠋");
    assert_eq!(spinner_frame(Some(250)), "⠹");
    assert_eq!(spinner_frame(Some(1_050)), "⠋");
    assert_eq!(elapsed_string(None), "00:00");
    assert_eq!(elapsed_string(Some(65_999)), "01:05");
    assert_eq!(elapsed_string(Some(6_000_000)), "100:00");
}

#[test]
fn status_gets_an_info_prefix_when_it_starts_with_a_letter() {
    let mut app = App::new();
    let mut ctx = context(&app);
    app.status_message = "👋 Welcome to MASH!".to_string();
    assert_eq!(status_message(&app, &ctx), "👋 Welcome to MASH!");
    app.status_message = "Scanning disks".to_string();
    assert_eq!(status_message(&app, &ctx), "ℹ️ Scanning disks");
    ctx.progress.status = "Writing image".to_string();
    assert_eq!(status_message(&app, &ctx), "ℹ️ Writing image");
}

#[test]
fn phases_and_hint_follow_the_telemetry() {
    let mut app = App::new();
    app.current_step_type = InstallStepType::Flashing;
    let mut ctx = context(&app);
    assert_eq!(phase_hint(&ctx), "Writing image");
    ctx.elapsed_ms = Some(5_000);
    assert_eq!(phase_hint(&ctx), "Syncing data");
    ctx.elapsed_ms = Some(10_000);
    assert_eq!(phase_hint(&ctx), "Finalizing");
    assert_eq!(phase_line(&ctx.progress), "⏳ Phase: waiting for telemetry...");
    ctx.progress.phases = vec![
        PhaseRow { symbol: "✅".to_string(), name: "Partition".to_string() },
        PhaseRow { symbol: "⏳".to_string(), name: "Copy".to_string() },
    ];
    ctx.progress.current_phase = Some(1);
    assert_eq!(phase_hint(&ctx), "Copy");
    assert_eq!(phase_line(&ctx.progress), "⏳ Phase 2/2: Copy");
    assert_eq!(progress_phase_lines(&ctx.progress), vec!["Execution steps:", "  ✅ Partition", "▶ ⏳ Copy"]);
    assert_eq!(progress_detail(&ctx.progress, "P", "O", "E"), "P\nO | E | 💤 Speed: waiting...");
    ctx.progress.disk_io_speed = Some("3.5".to_string());
    assert_eq!(progress_detail(&ctx.progress, "P", "O", "E"), "P\nO | E | 💽 Disk: 3.5 MB/s");
    ctx.progress.rsync_speed = Some("12.0".to_string());
    assert_eq!(progress_detail(&ctx.progress, "P", "O", "E"), "P\nO | E | 🚀 Speed: 12.0 MB/s");
}

#[test]
fn welcome_step_lines() {
    let app = App::new();
    let ctx = context(&app);
    let lines = build_dojo_lines(&app, &ctx);
    assert_eq!(lines[0], "🧭 Step: Enter the Dojo");
    assert_eq!(lines[4], "Current state: 🟢 SAFE (disarmed — read-only)");
    assert_eq!(lines[lines.len() - 2], "▶ Begin installation");
    assert_eq!(lines[lines.len() - 1], "  Review Dojo steps");
}

#[test]
fn error_is_appended_unless_the_step_shows_it() {
    let mut app = App::new();
    app.error_message = Some("boom".to_string());
    let ctx = context(&app);
    assert_eq!(build_dojo_lines(&app, &ctx).last().unwrap(), "❌ boom");
    app.current_step_type = InstallStepType::DisarmSafeMode;
    let lines = build_dojo_lines(&app, &ctx);
    assert_eq!(lines.last().unwrap(), "Esc cancels and returns to the summary.");
    assert_eq!(lines.iter().filter(|l| l.as_str() == "❌ boom").count(), 1);
}

#[test]
fn disk_confirmation_stops_when_identity_is_unresolved() {
    let mut app = App::new();
    app.current_step_type = InstallStepType::DiskConfirmation;
    app.disks = vec![disk("/dev/sdz", BootConfidence::NotBoot, true, false)];
    app.disk_index = 0;
    app.error_message = Some("ignored".to_string());
    let mut ctx = context(&app);
    ctx.disk_identities = vec![None];
    let lines = build_dojo_lines(&app, &ctx);
    assert_eq!(
        lines,
        vec![
            "🧭 Step: Confirm Disk Destruction",
            "❌ IDENTITY FAILED - Cannot proceed",
            "Disk identity could not be resolved.",
            "Press Esc to go back and select a different disk.",
        ]
    );
    ctx.disk_identities = vec![Some("USB stick".to_string())];
    let lines = build_dojo_lines(&app, &ctx);
    assert!(lines.contains(&"TARGET TO BE WIPED: /dev/sdz (USB stick)".to_string()));
    assert_eq!(lines.last().unwrap(), "❌ ignored");
}

#[test]
fn customize_marks_the_field_in_error() {
    let mut app = App::new();
    app.current_step_type = InstallStepType::PartitionCustomize;
    app.partition_customizations = vec!["EFI: 1".to_string(), "BOOT: 2".to_string(), "ROOT: 3".to_string()];
    app.customize_error_field = Some(CustomizeField::Boot);
    let ctx = context(&app);
    let lines = build_dojo_lines(&app, &ctx);
    assert_eq!(lines[3], "▶ EFI: 1");
    assert_eq!(lines[4], "  ❌ BOOT: 2");
}

#[test]
fn plan_lines_for_fedora_and_manjaro() {
    let mut app = App::new();
    let ctx = context(&app);
    app.os_distros = vec![OsDistro::Fedora, OsDistro::Manjaro];
    app.os_distro_index = 0;
    let lines = build_plan_lines(&app, &ctx);
    assert_eq!(lines[0], "OS: Fedora");
    assert_eq!(lines[1], "Variant: <not selected>");
    assert_eq!(lines[3], "EFI: Local (/tmp/uefi)");
    assert_eq!(lines[lines.len() - 1], "Reboots: 1");
    app.os_distro_index = 1;
    let lines = build_plan_lines(&app, &ctx);
    assert_eq!(lines[3], "Action: flash upstream full-disk image (no repartition)");
    assert_eq!(lines[4], "Note: post-boot partition expansion required");
    assert_eq!(lines[5], "Reboots: 0");
}

#[test]
fn info_panel_shows_mode_and_selections() {
    let mut app = App::new();
    app.dry_run = true;
    let mut ctx = context(&app);
    let panel = build_info_panel(&app, &ctx);
    let lines: Vec<&str> = panel.lines().collect();
    assert_eq!(lines[0], "🟡 DRY-RUN (no disk writes)");
    assert_eq!(lines[2], "🟢 SAFE (disarmed)");
    assert_eq!(lines[4], "Selections:");
    assert!(lines.contains(&"OS: Fedora"));
    assert!(lines.contains(&"Scheme: MBR"));
    assert!(!panel.contains("Progress:"));
    app.is_running = true;
    ctx.progress.overall_percent = 42;
    ctx.progress.phase_percent = 7;
    let panel = build_info_panel(&app, &ctx);
    assert!(panel.ends_with("Progress:\nOverall: 42%\nPhase: 7%\nETA: --:--"));
}

#[test]
fn flashing_step_shows_telemetry() {
    let mut app = App::new();
    app.current_step_type = InstallStepType::Flashing;
    app.cancel_requested = true;
    let mut ctx = context(&app);
    ctx.elapsed_ms = Some(61_000);
    ctx.progress.overall_percent = 50;
    ctx.progress.phase_percent = 25;
    let lines = build_dojo_lines(&app, &ctx);
    assert_eq!(lines[1], "⠋ Flashing in progress...");
    assert_eq!(lines[3], "Elapsed: 01:01");
    assert_eq!(lines[5], "🛑 Cancel requested • Cleaning up...");
    assert_eq!(lines[6], "Overall: 50% • Step: 25% • ETA: --:--");
    assert_eq!(lines[7], "Execution steps:");
    assert_eq!(lines[8], "▶ Viewing live telemetry");
}

#[test]
fn dump_lists_every_block() {
    let mut app = App::new();
    app.current_step_type = InstallStepType::Complete;
    let ctx = context(&app);
    let dump = dump_step(&app, &ctx);
    assert!(dump.starts_with("STEP: Installation Complete!\n\n- Header: MASH Installer\n- Dojo hint line: 🧭 Step: Installation Complete!\n"));
    assert!(dump.contains("- Body contents:\n🎉 Installation complete.\n\nPress Enter to exit.\n▶ Exit installer\n"));
    assert!(dump.contains("Progress: 0%\nTelemetry: ⏳ Phase: waiting for telemetry...\n📈 Overall: 0% | Phase: 0% | ⏱️ ETA: --:-- | 💤 Speed: waiting...\n"));
    assert!(dump.ends_with("- Expected user actions (keys): Enter to exit\n"));
}

#[test]
fn joined_lines() {
    assert_eq!(join_with_newlines(&vec!["a".to_string(), "b".to_string()]), "a\nb");
    assert_eq!(join_with_newlines(&Vec::new()), "");
}

#[test]
fn protected_selection_is_flagged() {
    let mut app = App::new();
    app.current_step_type = InstallStepType::DiskSelection;
    app.disks = vec![
        disk("/dev/sda", BootConfidence::Confident, false, false),
        disk("/dev/sdb", BootConfidence::Unknown, true, false),
    ];
    app.disk_index = 0;
    let ctx = context(&app);
    let lines = build_dojo_lines(&app, &ctx);
    assert!(lines.contains(&"🛑 PROTECTED MEDIA selected.".to_string()));
    assert!(lines.contains(&"⚠️ WARNING: Boot device detection failed!".to_string()));
    assert!(lines.contains(&"▶ /dev/sda - /dev/sda disk - ⚠ BOOT MEDIA".to_string()));
    assert_eq!(
        lines.last().unwrap(),
        "This disk cannot be selected. Re-run with --developer-mode to override (dangerous)."
    );
    app.disk_index = 1;
    let lines = build_dojo_lines(&app, &ctx);
    assert!(!lines.contains(&"🛑 PROTECTED MEDIA selected.".to_string()));
}

#[test]
fn every_step_can_be_dumped() {
    let app = App::new();
    let ctx = context(&app);
    let dumps = dump_all_steps(&ctx);
    assert_eq!(dumps.len(), InstallStepType::all().len());
    assert!(dumps[0].starts_with("STEP: Enter the Dojo\n"));
    assert!(dumps.iter().all(|d| d.contains("- Expected user actions (keys): ")));
    assert!(dumps.last().unwrap().starts_with("STEP: Installation Complete!\n"));
}
