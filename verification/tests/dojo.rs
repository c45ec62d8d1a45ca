use mash::sysfs::block::TransportType;
use mash::tui::app::{default_disk_index, App};
use mash::tui::partition::{validate_partition_plan, Partition, PartitionPlan, PartitionScheme};
use mash::tui::steps::InstallStepType;
use mash::tui::types::{
    BootConfidence, DiskIdentity, DiskOption, EfiSource, ImageSource, InputResult, KeyCode,
    KeyEvent, OsDistro,
};

fn key(code: KeyCode) -> KeyEvent {
    KeyEvent::new(code)
}

#[allow(clippy::too_many_arguments)]
fn disk_option(
    path: &str,
    vendor: &str,
    model: &str,
    size_bytes: u64,
    transport: TransportType,
    removable: bool,
    boot_confidence: BootConfidence,
    is_source_disk: bool,
) -> DiskOption {
    let identity = DiskIdentity {
        vendor: Some(vendor.to_string()),
        model: Some(model.to_string()),
        serial: None,
        wwn: None,
        size_bytes,
        transport,
    };
    DiskOption {
        identity,
        stable_id: path.to_string(),
        path: path.to_string(),
        removable,
        boot_confidence,
        is_source_disk,
    }
}

#[test]
fn tab_cycles_partition_scheme() {
    let mut app = App::new();
    app.current_step_type = InstallStepType::PartitionScheme;
    let initial = app.scheme_index;
    app.handle_input(key(KeyCode::Tab));
    assert_ne!(app.scheme_index, initial);
}

#[test]
fn partition_layout_accepts_yes_no() {
    let mut app = App::new();
    app.current_step_type = InstallStepType::PartitionLayout;
    app.handle_input(key(KeyCode::Char('y')));
    assert_eq!(app.current_step_type, InstallStepType::EfiImage);

    app.current_step_type = InstallStepType::PartitionLayout;
    app.handle_input(key(KeyCode::Char('n')));
    assert_eq!(app.current_step_type, InstallStepType::PartitionCustomize);
}

#[test]
fn partition_customize_edits_selected_field() {
    let mut app = App::new();
    app.current_step_type = InstallStepType::PartitionCustomize;
    app.customize_index = 0;
    let before = app.efi_size.clone();
    app.handle_input(key(KeyCode::Char('9')));
    assert!(app.efi_size.ends_with('9'));
    assert_ne!(app.efi_size, before);
    assert!(app.partition_customizations[0].contains(&app.efi_size));
}

#[test]
fn options_toggle_with_enter() {
    let mut app = App::new();
    app.current_step_type = InstallStepType::Options;
    let before = app.options[0].enabled;
    app.handle_input(key(KeyCode::Enter));
    assert_ne!(app.options[0].enabled, before);
}

#[test]
fn download_source_local_path_edits() {
    let mut app = App::new();
    app.current_step_type = InstallStepType::DownloadSourceSelection;
    app.image_source_index = 0;
    let before = app.image_source_path.clone();
    app.handle_input(key(KeyCode::Char('x')));
    assert_ne!(app.image_source_path, before);
}

#[test]
fn locale_selection_advances_on_enter() {
    let mut app = App::new();
    app.current_step_type = InstallStepType::LocaleSelection;
    app.handle_input(key(KeyCode::Enter));
    assert_eq!(app.current_step_type, InstallStepType::Options);
}

#[test]
fn disk_confirmation_requires_destroy() {
    let mut app = App::new();
    app.current_step_type = InstallStepType::DiskConfirmation;
    // Set up non-boot disk
    app.disks = vec![disk_option(
        "/dev/sdb",
        "Generic",
        "Data Drive",
        512 * 1024 * 1024 * 1024,
        TransportType::Sata,
        false,
        BootConfidence::NotBoot,
        false,
    )];
    app.disk_index = 0;

    for ch in "DESTROY".chars() {
        app.handle_input(key(KeyCode::Char(ch)));
    }
    assert_eq!(app.wipe_confirmation, "DESTROY");
    app.handle_input(key(KeyCode::Enter));
    assert_eq!(app.current_step_type, InstallStepType::ImageSelection);
}

#[test]
fn boot_disk_confirmation_requires_stronger_text() {
    let mut app = App::new();
    app.current_step_type = InstallStepType::DiskConfirmation;
    // Set up boot disk
    app.disks = vec![disk_option(
        "/dev/sda",
        "Generic",
        "Boot Drive",
        256 * 1024 * 1024 * 1024,
        TransportType::Sata,
        false,
        BootConfidence::Confident,
        false,
    )];
    app.disk_index = 0;

    // Regular DESTROY should not work for boot disk
    for ch in "DESTROY".chars() {
        app.handle_input(key(KeyCode::Char(ch)));
    }
    app.handle_input(key(KeyCode::Enter));
    assert_eq!(app.current_step_type, InstallStepType::DiskConfirmation);
    assert!(app.error_message.is_some());

    // Clear and type correct phrase
    app.wipe_confirmation.clear();
    for ch in "DESTROY BOOT DISK".chars() {
        app.handle_input(key(KeyCode::Char(ch)));
    }
    assert_eq!(app.wipe_confirmation, "DESTROY BOOT DISK");
    app.handle_input(key(KeyCode::Enter));
    assert_eq!(app.current_step_type, InstallStepType::ImageSelection);
    assert!(app.error_message.is_none());
}

#[test]
fn safe_mode_requires_explicit_disarm_flow() {
    let mut app = App::new();
    app.dry_run = false;
    app.destructive_armed = false;
    app.current_step_type = InstallStepType::Confirmation;

    // Attempt destructive action => execute confirmation gate first.
    app.handle_input(key(KeyCode::Enter));
    assert_eq!(app.current_step_type, InstallStepType::ExecuteConfirmationGate);
    assert!(!app.destructive_armed);

    // Wrong confirmation string should not proceed.
    for ch in "I UNDERSTAND".chars() {
        app.handle_input(key(KeyCode::Char(ch)));
    }
    app.handle_input(key(KeyCode::Enter));
    assert_eq!(app.current_step_type, InstallStepType::ExecuteConfirmationGate);
    assert!(!app.destructive_armed);

    // Correct execute-gate string should proceed into Safe Mode disarm screen.
    app.execute_confirmation_input.clear();
    for ch in "I UNDERSTAND THIS WILL ERASE THE SELECTED DISK".chars() {
        app.handle_input(key(KeyCode::Char(ch)));
    }
    app.handle_input(key(KeyCode::Enter));
    assert_eq!(app.current_step_type, InstallStepType::DisarmSafeMode);

    // Safe Mode disarm string is still required before disk writes.
    app.safe_mode_disarm_input.clear();
    for ch in "DESTROY".chars() {
        app.handle_input(key(KeyCode::Char(ch)));
    }
    let result = app.handle_input(key(KeyCode::Enter));
    assert!(matches!(result, InputResult::StartFlash(_)));
    assert!(app.destructive_armed);
    assert_eq!(app.current_step_type, InstallStepType::Flashing);
}

fn plan(efi: &str, boot: &str, root: &str) -> PartitionPlan {
    PartitionPlan {
        scheme: PartitionScheme::Mbr,
        partitions: vec![
            Partition {
                name: "EFI".to_string(),
                size: efi.to_string(),
                format: "vfat".to_string(),
                flags: vec!["esp".to_string()],
            },
            Partition {
                name: "BOOT".to_string(),
                size: boot.to_string(),
                format: "ext4".to_string(),
                flags: Vec::new(),
            },
            Partition {
                name: "ROOT".to_string(),
                size: root.to_string(),
                format: "btrfs".to_string(),
                flags: Vec::new(),
            },
            Partition {
                name: "DATA".to_string(),
                size: "remainder".to_string(),
                format: "ext4".to_string(),
                flags: Vec::new(),
            },
        ],
    }
}

#[test]
fn validate_partition_plan_rejects_small_efi() {
    let result = validate_partition_plan(&plan("256M", "1024M", "1800G"));
    assert!(result.is_err());
}

#[test]
fn validate_partition_plan_rejects_small_boot() {
    let result = validate_partition_plan(&plan("1024M", "256M", "1800G"));
    assert!(result.is_err());
}

#[test]
fn validate_partition_plan_rejects_root_before_boot() {
    let result = validate_partition_plan(&plan("1024M", "2048M", "2500M"));
    assert!(result.is_err());
}

#[test]
fn validate_partition_plan_rejects_root_percent() {
    let result = validate_partition_plan(&plan("1024M", "2048M", "100%"));
    assert!(result.is_err());
}

#[test]
fn validate_partition_plan_accepts_defaults() {
    let result = validate_partition_plan(&plan("1024MiB", "2048MiB", "1800GiB"));
    assert!(result.is_ok());
}

#[test]
fn download_flags_follow_source_selection() {
    let mut app = App::new();
    app.image_source_index = 0;
    let config = app.build_flash_config().expect("config");
    assert_eq!(config.image_source_selection, ImageSource::LocalFile);

    app.image_source_index = 1;
    let config = app.build_flash_config().expect("config");
    assert_eq!(config.image_source_selection, ImageSource::DownloadCatalogue);
}

#[test]
fn download_uefi_flag_follows_efi_source_selection() {
    let mut app = App::new();
    // Set EFI source to Download (index 0)
    app.uefi_source_index = 0;
    let config = app.build_flash_config().expect("config");
    assert!(config.download_uefi_firmware);
}

#[test]
fn os_distro_defaults_to_fedora() {
    let app = App::new();
    assert_eq!(app.os_distro_index, 0);
    if let Some(distro) = app.os_distros.get(app.os_distro_index) {
        assert!(matches!(distro, OsDistro::Fedora));
        assert!(distro.is_available());
    }
}

#[test]
fn non_fedora_distros_are_marked_unavailable() {
    let app = App::new();
    // Ubuntu is index 1
    if let Some(distro) = app.os_distros.get(1) {
        assert!(matches!(distro, OsDistro::Ubuntu));
        assert!(distro.is_available());
    }
}

#[test]
fn uefi_source_defaults_to_local() {
    let app = App::new();
    assert_eq!(app.uefi_source_index, 1);
    if let Some(source) = app.uefi_sources.get(app.uefi_source_index) {
        assert!(matches!(source, EfiSource::LocalEfiImage));
    }
}

#[test]
fn build_flash_config_uses_partition_sizes() {
    let mut app = App::new();
    app.efi_size = "512MiB".to_string();
    app.boot_size = "1024MiB".to_string();
    app.root_end = "4096MiB".to_string();
    let config = app.build_flash_config().expect("config");
    assert_eq!(config.efi_size, "512MiB");
    assert_eq!(config.boot_size, "1024MiB");
    assert_eq!(config.root_end, "4096MiB");
}

#[test]
fn build_flash_config_respects_dry_run_flag() {
    let mut app = App::new();
    app.dry_run = true;
    let config = app.build_flash_config().expect("config");
    assert!(config.dry_run);
}

#[test]
fn app_initializes_with_first_non_boot_disk() {
    let app = App::new();
    // Stub data has USB as index 0 (non-boot) and NVMe as index 1 (boot)
    // Should default to index 0 which is non-boot
    if !app.disks.is_empty() {
        if let Some(disk) = app.disks.get(app.disk_index) {
            assert!(!disk.boot_confidence.is_boot(), "Default disk should not be boot disk");
        }
    }
}

#[test]
fn app_prefers_removable_media_when_safe() {
    // Create app-like disk list
    let disks = vec![
        disk_option(
            "/dev/nvme0n1",
            "Samsung",
            "980",
            512 * 1024 * 1024 * 1024,
            TransportType::Nvme,
            false,
            BootConfidence::Confident,
            false,
        ),
        disk_option(
            "/dev/sda",
            "Seagate",
            "BarraCuda",
            2 * 1024 * 1024 * 1024 * 1024,
            TransportType::Sata,
            false,
            BootConfidence::NotBoot,
            false,
        ),
        disk_option(
            "/dev/sdb",
            "SanDisk",
            "Ultra",
            32 * 1024 * 1024 * 1024,
            TransportType::Usb,
            true,
            BootConfidence::NotBoot,
            false,
        ),
    ];

    // The auto-selection logic
    let default_disk_index = default_disk_index(&disks);

    // Should select USB (index 2) over internal HDD (index 1)
    assert_eq!(default_disk_index, 2);
    assert!(disks[default_disk_index].removable);
    assert!(!disks[default_disk_index].boot_confidence.is_boot());
}

#[test]
fn disk_selection_prevents_selecting_boot_disk() {
    let mut app = App::new();
    app.current_step_type = InstallStepType::DiskSelection;

    // Set up test disks: boot disk at index 0, safe disk at index 1
    app.disks = vec![
        disk_option(
            "/dev/sda",
            "Generic",
            "Boot Drive",
            256 * 1024 * 1024 * 1024,
            TransportType::Sata,
            false,
            BootConfidence::Confident,
            false,
        ),
        disk_option(
            "/dev/sdb",
            "Generic",
            "Data Drive",
            512 * 1024 * 1024 * 1024,
            TransportType::Sata,
            false,
            BootConfidence::NotBoot,
            false,
        ),
    ];

    // Should initialize to index 1 (first non-boot)
    app.disk_index = app
        .disks
        .iter()
        .position(|disk| !disk.boot_confidence.is_boot())
        .unwrap_or(0);

    assert_eq!(app.disk_index, 1);

    // Try to navigate to boot disk
    app.handle_input(key(KeyCode::Up));

    // Navigation should skip boot disk
    assert_eq!(app.disk_index, 1, "Should stay on safe disk");
}

#[test]
fn disk_selection_blocks_protected_disk_without_developer_mode() {
    let mut app = App::new();
    app.current_step_type = InstallStepType::DiskSelection;

    // Set up protected (boot/source) disk
    app.disks = vec![disk_option(
        "/dev/sda",
        "Generic",
        "Boot Drive",
        256 * 1024 * 1024 * 1024,
        TransportType::Sata,
        false,
        BootConfidence::Confident,
        true,
    )];

    app.disk_index = 0;

    // Try to advance with protected disk selected without developer mode
    app.handle_input(key(KeyCode::Enter));

    // Should stay on DiskSelection and show error
    assert_eq!(app.current_step_type, InstallStepType::DiskSelection);
    assert!(app.error_message.is_some());
}

#[test]
fn disk_selection_allows_protected_disk_in_developer_mode() {
    let mut app = App::new();
    app.current_step_type = InstallStepType::DiskSelection;
    app.developer_mode = true;

    app.disks = vec![disk_option(
        "/dev/sda",
        "Generic",
        "Boot Drive",
        256 * 1024 * 1024 * 1024,
        TransportType::Sata,
        false,
        BootConfidence::Confident,
        true,
    )];
    app.disk_index = 0;

    app.handle_input(key(KeyCode::Enter));
    assert_eq!(app.current_step_type, InstallStepType::DiskConfirmation);
}

#[test]
fn disk_selection_allows_non_boot_disk() {
    let mut app = App::new();
    app.current_step_type = InstallStepType::DiskSelection;

    // Set up non-boot disk
    app.disks = vec![disk_option(
        "/dev/sdb",
        "Generic",
        "Data Drive",
        512 * 1024 * 1024 * 1024,
        TransportType::Sata,
        false,
        BootConfidence::NotBoot,
        false,
    )];

    app.disk_index = 0;

    // Advance with non-boot disk selected
    app.handle_input(key(KeyCode::Enter));

    // Should advance to next step
    assert_eq!(app.current_step_type, InstallStepType::DiskConfirmation);
    assert!(app.error_message.is_none());
}

#[test]
fn adjust_disk_index_skips_boot_disks() {
    let mut app = App::new();

    // Set up mixed disks: boot, safe, boot, safe
    app.disks = vec![
        disk_option("/dev/sda", "Generic", "Disk 1", 256 * 1024 * 1024 * 1024, TransportType::Sata, false, BootConfidence::Confident, false),
        disk_option("/dev/sdb", "Generic", "Safe Disk 1", 512 * 1024 * 1024 * 1024, TransportType::Sata, false, BootConfidence::NotBoot, false),
        disk_option("/dev/sdc", "Generic", "Disk 2", 128 * 1024 * 1024 * 1024, TransportType::Sata, false, BootConfidence::Confident, false),
        disk_option("/dev/sdd", "Generic", "Safe Disk 2", 1024 * 1024 * 1024 * 1024, TransportType::Sata, false, BootConfidence::NotBoot, false),
    ];

    app.disk_index = 1; // Start on first safe disk

    // Navigate forward - should skip index 2 (boot) and land on index 3 (safe)
    app.adjust_disk_index(1);
    assert_eq!(app.disk_index, 3);
    assert!(!app.disks[app.disk_index].boot_confidence.is_boot());

    // Navigate forward again - should wrap to index 1 (safe), skipping index 0 (boot)
    app.adjust_disk_index(1);
    assert_eq!(app.disk_index, 1);
    assert!(!app.disks[app.disk_index].boot_confidence.is_boot());

    // Navigate backward - should go to index 3 (safe), skipping index 2 and 0 (boot)
    app.adjust_disk_index(-1);
    assert_eq!(app.disk_index, 3);
    assert!(!app.disks[app.disk_index].boot_confidence.is_boot());
}
