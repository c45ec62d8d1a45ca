use mash::hal::error::{errno_error, HalError, HalResult};
use mash::hal::linux::{
    losetup_attach_args, mkfs_args, mountpoints_of, os_release_info, parted_args, vfat_args,
    CommandOutput, Host, LinuxHal, RunError,
};
use mash::hal::ops::{CopySink, FlashOps, FormatOps, LineSink, ProbeOps, ProcessOps};
use mash::hal::options::{CopyOptions, FlashOptions, FormatOptions, PartedOp, RsyncOptions};
use std::cell::RefCell;

/// A host that runs nothing and records what it was asked to do.
#[derive(Default)]
struct RecordingHost {
    commands: RefCell<Vec<(String, Vec<String>)>>,
    images: RefCell<Vec<(String, String, bool)>>,
    stdout: String,
    exit_code: i32,
}

impl Host for RecordingHost {
    fn run(&self, program: &str, args: &Vec<String>, _cwd: Option<&str>, _timeout_secs: u64) -> Result<CommandOutput, RunError> {
        self.commands.borrow_mut().push((program.to_string(), args.clone()));
        Ok(CommandOutput {
            success: self.exit_code == 0,
            code: Some(self.exit_code),
            stdout: self.stdout.clone(),
            stderr: if self.exit_code == 0 { String::new() } else { "  boom \n".to_string() },
        })
    }

    fn mount(&self, _device: &str, _target: &str, _fstype: Option<&str>, _data: Option<&str>) -> Result<(), i32> {
        Ok(())
    }

    fn umount(&self, _target: &str) -> Result<(), i32> {
        Ok(())
    }

    fn read_file(&self, _path: &str) -> Result<String, String> {
        Err("no file".to_string())
    }

    fn write_image(&self, image: &str, target: &str, xz: bool) -> Result<(), String> {
        self.images.borrow_mut().push((image.to_string(), target.to_string(), xz));
        Ok(())
    }

    fn copy_tree<P: CopySink>(&self, _src: &str, _dst: &str, _opts: &CopyOptions, _on_progress: &mut P) -> HalResult<()> {
        Ok(())
    }

    fn rsync<P: LineSink>(&self, _src: &str, _dst: &str, _opts: &RsyncOptions, _on_line: &mut P) -> HalResult<()> {
        Ok(())
    }
}

#[test]
fn format_ext4_requires_confirmation() {
    let mut hal = LinuxHal::new(RecordingHost::default());
    let opts = FormatOptions::new(false, false);
    let err = hal.format_ext4("/dev/null", &opts).unwrap_err();
    assert!(matches!(err, HalError::SafetyLock));
}

#[test]
fn format_btrfs_requires_confirmation() {
    let mut hal = LinuxHal::new(RecordingHost::default());
    let opts = FormatOptions::new(false, false);
    let err = hal.format_btrfs("/dev/null", &opts).unwrap_err();
    assert!(matches!(err, HalError::SafetyLock));
}

#[test]
fn locked_format_runs_no_command() {
    let mut hal = LinuxHal::new(RecordingHost::default());
    let _ = hal.format_ext4("/dev/null", &FormatOptions::new(false, false));
    assert!(hal.host.host().commands.borrow().is_empty());
}

#[test]
fn confirmed_format_runs_mkfs_on_device() {
    let mut hal = LinuxHal::new(RecordingHost::default());
    hal.format_ext4("/dev/sdb1", &FormatOptions::new(false, true)).unwrap();
    let commands = hal.host.host().commands.borrow();
    assert_eq!(commands.len(), 1);
    assert_eq!(commands[0].0, "mkfs.ext4");
    assert_eq!(commands[0].1, vec!["/dev/sdb1".to_string()]);
}

#[test]
fn flash_passes_xz_flag_to_host() {
    let mut hal = LinuxHal::new(RecordingHost::default());
    hal.flash_raw_image("/tmp/os.img.xz", "/dev/sdb", &FlashOptions::new(false, true)).unwrap();
    hal.flash_raw_image("/tmp/os.img", "/dev/sdb", &FlashOptions::new(false, true)).unwrap();
    let images = hal.host.host().images.borrow();
    assert_eq!(images[0], ("/tmp/os.img.xz".to_string(), "/dev/sdb".to_string(), true));
    assert_eq!(images[1], ("/tmp/os.img".to_string(), "/dev/sdb".to_string(), false));
}

#[test]
fn flash_dry_run_writes_nothing() {
    let mut hal = LinuxHal::new(RecordingHost::default());
    hal.flash_raw_image("/tmp/os.img", "/dev/sdb", &FlashOptions::new(true, false)).unwrap();
    assert!(hal.host.host().images.borrow().is_empty());
}

#[test]
fn lsblk_mountpoints_skips_blank_lines() {
    let host = RecordingHost { stdout: "\n/boot\n  \n/\n".to_string(), ..Default::default() };
    let mut hal = LinuxHal::new(host);
    let points = hal.lsblk_mountpoints("/dev/sda").unwrap();
    assert_eq!(points, vec!["/boot".to_string(), "/".to_string()]);
}

#[test]
fn mkfs_args_put_extra_args_first() {
    let args = mkfs_args(&vec!["-L".to_string(), "root".to_string()], "/dev/sda2");
    assert_eq!(args, vec!["-L", "root", "/dev/sda2"]);
}

#[test]
fn vfat_args_label_the_filesystem() {
    let args = vfat_args("EFI", &Vec::new(), "/dev/sda1");
    assert_eq!(args, vec!["-F", "32", "-n", "EFI", "/dev/sda1"]);
}

#[test]
fn parted_args_for_each_operation() {
    assert_eq!(
        parted_args("/dev/sdb", PartedOp::MkLabel { label: "gpt".to_string() }),
        vec!["-s", "/dev/sdb", "mklabel", "gpt"]
    );
    assert_eq!(parted_args("/dev/sdb", PartedOp::Print), vec!["-s", "/dev/sdb", "print"]);
}

#[test]
fn losetup_args_scan_partitions_when_asked() {
    assert_eq!(losetup_attach_args("/tmp/a.img", true), vec!["--show", "-f", "-P", "/tmp/a.img"]);
    assert_eq!(losetup_attach_args("/tmp/a.img", false), vec!["--show", "-f", "/tmp/a.img"]);
}

#[test]
fn mountpoints_of_trims_lines() {
    assert_eq!(mountpoints_of(" /a \n\n/b\n"), vec!["/a".to_string(), "/b".to_string()]);
}

#[test]
fn errno_maps_busy_and_permission() {
    assert!(matches!(errno_error(16), HalError::DiskBusy));
    assert!(matches!(errno_error(13), HalError::PermissionDenied));
    assert!(matches!(errno_error(1), HalError::PermissionDenied));
    assert!(matches!(errno_error(2), HalError::Nix(2)));
}

#[test]
fn hal_error_messages() {
    assert_eq!(
        HalError::SafetyLock.message(),
        "Safety lock engaged (SAFE MODE). Disarm Safe Mode to proceed."
    );
    assert_eq!(HalError::Io("disk gone".to_string()).message(), "I/O error: disk gone");
    assert_eq!(
        HalError::CommandFailed { program: "mkfs.ext4".to_string(), code: Some(1), stderr: "bad".to_string() }.message(),
        "Command failed: mkfs.ext4: bad"
    );
}

#[test]
fn os_release_info_reads_fields() {
    let info = os_release_info("NAME=\"Fedora Linux\"\nID=fedora\nVERSION_ID=\"43\"\n");
    assert_eq!(info.id.as_deref(), Some("fedora"));
    assert_eq!(info.version_id.as_deref(), Some("43"));
}

#[test]
fn command_status_reports_failed_exit_with_trimmed_stderr() {
    let host = RecordingHost { exit_code: 3, ..Default::default() };
    let mut hal = LinuxHal::new(host);
    let out = hal.command_output("dnf", &vec!["update".to_string()], 5).unwrap();
    assert!(!out.success);
    match hal.command_status("dnf", &vec!["update".to_string()], 5) {
        Err(HalError::CommandFailed { program, code, stderr }) => {
            assert_eq!(program, "dnf");
            assert_eq!(code, Some(3));
            assert_eq!(stderr, "boom");
        }
        _ => panic!("command failure expected"),
    }
}
