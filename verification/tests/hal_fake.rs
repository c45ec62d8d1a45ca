use mash::hal::error::HalError;
use mash::hal::fake::{FakeHal, Operation};
use mash::hal::ops::{copy_continues, FlashOps, FormatOps, LoopOps, MountOps, PartitionOps, ProcessOps, SystemOps};
use mash::hal::options::{
    CopyProgress, FlashOptions, FormatOptions, MountOptions, PartedOp, PartedOptions, WipeFsOptions,
};

#[test]
fn fake_hal_records_mount() {
    let mut hal = FakeHal::new();
    let device = "/dev/sda1";
    let target = "/mnt/test";

    hal.mount_device(device, target, Some("ext4"), MountOptions::new(), false)
        .unwrap();

    assert_eq!(hal.operation_count(), 1);
    assert!(hal.has_operation(|op| matches!(op, Operation::Mount { .. })));
    assert!(hal.is_mounted(target).unwrap());
}

#[test]
fn fake_hal_records_unmount() {
    let mut hal = FakeHal::new();
    let target = "/mnt/test";

    // Mount first
    hal.mount_device("/dev/sda1", target, Some("ext4"), MountOptions::new(), false)
        .unwrap();

    // Then unmount
    hal.unmount(target, false).unwrap();

    assert_eq!(hal.operation_count(), 2);
    assert!(hal.has_operation(|op| matches!(op, Operation::Unmount { .. })));
    assert!(!hal.is_mounted(target).unwrap());
}

#[test]
fn fake_hal_records_format_ext4() {
    let mut hal = FakeHal::new();
    let opts = FormatOptions::new(false, true);

    hal.format_ext4("/dev/sda1", &opts).unwrap();

    assert_eq!(hal.operation_count(), 1);
    assert!(hal.has_operation(|op| matches!(op, Operation::FormatExt4 { .. })));
}

#[test]
fn fake_hal_records_format_btrfs() {
    let mut hal = FakeHal::new();
    let opts = FormatOptions::new(false, true);

    hal.format_btrfs("/dev/sda2", &opts).unwrap();

    assert_eq!(hal.operation_count(), 1);
    assert!(hal.has_operation(|op| matches!(op, Operation::FormatBtrfs { .. })));
}

#[test]
fn fake_hal_records_flash() {
    let mut hal = FakeHal::new();
    let opts = FlashOptions::new(false, true);
    hal.flash_raw_image("/tmp/image.img", "/dev/sda", &opts).unwrap();

    assert_eq!(hal.operation_count(), 1);
    assert!(hal.has_operation(|op| matches!(op, Operation::FlashImage { .. })));
}

#[test]
fn fake_hal_requires_confirmation() {
    let mut hal = FakeHal::new();
    let opts = FormatOptions::new(false, false);

    let err = hal.format_ext4("/dev/sda1", &opts).unwrap_err();
    assert!(matches!(err, HalError::SafetyLock));

    let err = hal.format_btrfs("/dev/sda2", &opts).unwrap_err();
    assert!(matches!(err, HalError::SafetyLock));

    let flash_opts = FlashOptions::new(false, false);
    let err = hal
        .flash_raw_image("/tmp/image.img", "/dev/sda", &flash_opts)
        .unwrap_err();
    assert!(matches!(err, HalError::SafetyLock));
}

#[test]
fn fake_hal_can_clear() {
    let mut hal = FakeHal::new();
    hal.format_ext4("/dev/sda1", &FormatOptions::new(false, true))
        .unwrap();

    assert_eq!(hal.operation_count(), 1);

    hal.clear();

    assert_eq!(hal.operation_count(), 0);
}

// ---------------------------------------------------------------------------
// Further behaviour of the fake HAL
// ---------------------------------------------------------------------------

#[test]
fn fake_hal_dry_run_formats_succeed_without_confirmation() {
    let mut hal = FakeHal::new();
    let opts = FormatOptions::new(true, false);
    assert!(hal.format_ext4("/dev/sda1", &opts).is_ok());
    assert!(hal.format_btrfs("/dev/sda2", &opts).is_ok());
    assert!(hal
        .flash_raw_image("/tmp/a.img", "/dev/sda", &FlashOptions::new(true, false))
        .is_ok());
}

#[test]
fn fake_hal_refused_operation_is_not_recorded() {
    let mut hal = FakeHal::new();
    let _ = hal.format_ext4("/dev/sda1", &FormatOptions::new(false, false));
    assert_eq!(hal.operation_count(), 0);
}

#[test]
fn fake_hal_unmount_recursive_unmounts_the_target_itself() {
    let mut hal = FakeHal::new();
    hal.mount_device("/dev/sda2", "/mnt/root", None, MountOptions::new(), false)
        .unwrap();
    hal.mount_device("/dev/sda1", "/mnt/root/boot", None, MountOptions::new(), false)
        .unwrap();
    hal.mount_device("/dev/sdb1", "/mnt/other", None, MountOptions::new(), false)
        .unwrap();
    hal.unmount_recursive("/mnt/root", false).unwrap();
    assert!(!hal.is_mounted("/mnt/root").unwrap());
    assert!(hal.is_mounted("/mnt/root/boot").unwrap());
    assert!(hal.is_mounted("/mnt/other").unwrap());
}

#[test]
fn fake_hal_operations_keep_order_and_arguments() {
    let mut hal = FakeHal::new();
    hal.sync().unwrap();
    hal.wipefs_all("/dev/sdb", &WipeFsOptions::new(false, true)).unwrap();
    let ops = hal.operations();
    assert_eq!(ops.len(), 2);
    assert!(matches!(ops[0], Operation::Sync));
    match &ops[1] {
        Operation::WipeFsAll { disk } => assert_eq!(disk, "/dev/sdb"),
        _ => panic!("unexpected operation"),
    }
}

#[test]
fn fake_hal_parted_dry_run_prints_nothing() {
    let mut hal = FakeHal::new();
    let out = hal
        .parted("/dev/sdb", PartedOp::MkLabel { label: "gpt".to_string() }, &PartedOptions::new(true, false))
        .unwrap();
    assert_eq!(out, "");
}

#[test]
fn fake_hal_attaches_loop0() {
    let mut hal = FakeHal::new();
    let a = hal.losetup_attach("/tmp/a.img", false).unwrap();
    assert_eq!(a, "/dev/loop0");
}

#[test]
fn fake_hal_records_commands_and_succeeds() {
    let mut hal = FakeHal::new();
    let out = hal.command_output("uname", &vec!["-r".to_string()], 2).unwrap();
    assert!(out.success);
    assert!(out.stdout.is_empty());
    hal.command_status_with_cwd("make", &Vec::new(), Some("/tmp"), 60).unwrap();
    let ops = hal.operations();
    assert!(matches!(&ops[0], Operation::Command { program, args, timeout_secs: 2 } if program == "uname" && args == &vec!["-r".to_string()]));
    assert!(matches!(&ops[1], Operation::Command { program, .. } if program == "make"));
}

#[test]
fn fake_hal_records_parted_operation_in_debug_form() {
    let mut hal = FakeHal::new();
    hal.parted("/dev/sdb", PartedOp::MkLabel { label: "gpt".to_string() }, &PartedOptions::new(false, true))
        .unwrap();
    match &hal.operations()[0] {
        Operation::Parted { disk, op } => {
            assert_eq!(disk, "/dev/sdb");
            assert_eq!(op, "MkLabel { label: \"gpt\" }");
        }
        _ => panic!("parted operation expected"),
    }
}

#[test]
fn copy_progress_bookkeeping() {
    let p = CopyProgress::empty().count_file(10).count_link().count_file(u64::MAX);
    assert_eq!(p.bytes_total, u64::MAX);
    assert_eq!(p.files_total, 3);
    let q = p.file_copied(7).link_copied();
    assert_eq!(q.bytes_copied, 7);
    assert_eq!(q.files_copied, 2);
    assert!(copy_continues(true).is_ok());
    assert!(matches!(copy_continues(false), Err(HalError::Other(ref m)) if m == "copy cancelled"));
}
