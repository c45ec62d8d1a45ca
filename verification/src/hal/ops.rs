//! The operations a HAL offers, one trait per kind of work.
use crate::hal::error::{HalError, HalResult};
use crate::hal::linux::CommandOutput;
use crate::hal::options::{
    CopyOptions, CopyProgress, FlashOptions, FormatOptions, MountOptions, OsReleaseInfo,
    PartedOp, PartedOptions, RsyncOptions, WipeFsOptions,
};
use vstd::prelude::*;

verus! {

/// The rule of destructive operations: outside a dry run, without
/// confirmation, nothing happens and the safety lock answers; a dry run
/// succeeds.
pub open spec fn gated<T>(dry_run: bool, confirmed: bool, r: HalResult<T>) -> bool {
    &&& !dry_run && !confirmed ==> (r matches Err(HalError::SafetyLock))
    &&& dry_run ==> r is Ok
}

/// Mounting and unmounting filesystems.
pub trait MountOps {
    /// Mount `device` on `target`; a dry run only reports.
    fn mount_device(
        &mut self,
        device: &str,
        target: &str,
        fstype: Option<&str>,
        options: MountOptions,
        dry_run: bool,
    ) -> (r: HalResult<()>)
        ensures
            dry_run ==> r is Ok,
    ;

    /// Unmount `target`; a dry run only reports.
    fn unmount(&mut self, target: &str, dry_run: bool) -> (r: HalResult<()>)
        ensures
            dry_run ==> r is Ok,
    ;

    /// Unmount `target` and everything mounted below it, deepest first.
    fn unmount_recursive(&mut self, target: &str, dry_run: bool) -> (r: HalResult<()>)
        ensures
            dry_run ==> r is Ok,
    ;

    /// Whether a path is currently mounted.
    fn is_mounted(&self, path: &str) -> HalResult<bool>;
}

/// Formatting block devices.
pub trait FormatOps {
    fn format_ext4(&mut self, device: &str, opts: &FormatOptions) -> (r: HalResult<()>)
        ensures
            gated(opts.dry_run, opts.confirmed, r),
    ;

    fn format_btrfs(&mut self, device: &str, opts: &FormatOptions) -> (r: HalResult<()>)
        ensures
            gated(opts.dry_run, opts.confirmed, r),
    ;

    /// Format a device with VFAT (FAT32), typically an EFI system partition.
    fn format_vfat(&mut self, device: &str, label: &str, opts: &FormatOptions) -> (r: HalResult<()>)
        ensures
            gated(opts.dry_run, opts.confirmed, r),
    ;
}

/// Flashing disk images to block devices (raw or `.xz`-compressed).
pub trait FlashOps {
    /// Whether this HAL keeps the record given by `flashes`; one that does
    /// not promises nothing about that record.
    open spec fn keeps_flash_record(&self) -> bool {
        false
    }

    /// The image writes asked of this HAL so far: image, target disk,
    /// options, answer.
    open spec fn flashes(&self) -> Seq<(Seq<char>, Seq<char>, FlashOptions, HalResult<()>)> {
        Seq::empty()
    }

    fn flash_raw_image(&mut self, image_path: &str, target_disk: &str, opts: &FlashOptions) -> (r: HalResult<()>)
        ensures
            gated(opts.dry_run, opts.confirmed, r),
            old(self).keeps_flash_record() ==> final(self).keeps_flash_record() && final(self).flashes()
                == old(self).flashes().push((image_path@, target_disk@, *opts, r)),
    ;
}

/// Running external programs.
pub trait ProcessOps {
    /// Runs `program` with `args` in `cwd` (else the current directory),
    /// killing it after `timeout_secs`; gives its output whatever its exit.
    fn command_output_with_cwd(
        &mut self,
        program: &str,
        args: &Vec<String>,
        cwd: Option<&str>,
        timeout_secs: u64,
    ) -> HalResult<CommandOutput>;

    /// Runs `program` like `command_output_with_cwd`; an unsuccessful exit is an error.
    fn command_status_with_cwd(
        &mut self,
        program: &str,
        args: &Vec<String>,
        cwd: Option<&str>,
        timeout_secs: u64,
    ) -> HalResult<()>;

    fn command_output(&mut self, program: &str, args: &Vec<String>, timeout_secs: u64) -> HalResult<CommandOutput> {
        self.command_output_with_cwd(program, args, None, timeout_secs)
    }

    fn command_status(&mut self, program: &str, args: &Vec<String>, timeout_secs: u64) -> HalResult<()> {
        self.command_status_with_cwd(program, args, None, timeout_secs)
    }
}

/// System-level operations.
pub trait SystemOps {
    /// Best-effort filesystem sync.
    fn sync(&mut self) -> HalResult<()>;

    /// Best-effort udev settle (wait for block device events to quiesce).
    fn udev_settle(&mut self) -> HalResult<()>;
}

/// Device probing (lsblk/blkid).
pub trait ProbeOps {
    /// Mountpoints of the partitions on the given disk.
    fn lsblk_mountpoints(&mut self, disk: &str) -> HalResult<Vec<String>>;

    /// A human-readable lsblk table for diagnostics.
    fn lsblk_table(&mut self, disk: &str) -> HalResult<String>;

    /// UUID of a block device.
    fn blkid_uuid(&mut self, device: &str) -> HalResult<String>;
}

/// Partitioning (wipefs/parted).
pub trait PartitionOps {
    fn wipefs_all(&mut self, disk: &str, opts: &WipeFsOptions) -> (r: HalResult<()>)
        ensures
            gated(opts.dry_run, opts.confirmed, r),
    ;

    /// Execute a single `parted` operation on the given disk; a dry run
    /// prints nothing.
    fn parted(&mut self, disk: &str, op: PartedOp, opts: &PartedOptions) -> (r: HalResult<String>)
        ensures
            gated(opts.dry_run, opts.confirmed, r),
            opts.dry_run ==> (r matches Ok(s) && s@.len() == 0),
    ;
}

/// Loop devices (losetup).
pub trait LoopOps {
    /// Set up a loop device for `image` and return its path; with
    /// `scan_partitions` the kernel scans the image's partitions.
    fn losetup_attach(&mut self, image: &str, scan_partitions: bool) -> HalResult<String>;

    fn losetup_detach(&mut self, loop_device: &str) -> HalResult<()>;
}

/// btrfs subvolumes.
pub trait BtrfsOps {
    fn btrfs_subvolume_list(&mut self, mount_point: &str) -> HalResult<String>;

    fn btrfs_subvolume_create(&mut self, path: &str) -> HalResult<()>;
}

/// Read-only facts about the host.
pub trait HostInfoOps {
    fn hostname(&self) -> HalResult<Option<String>>;

    fn kernel_release(&self) -> HalResult<Option<String>>;

    fn os_release(&self) -> HalResult<OsReleaseInfo>;

    fn proc_cmdline(&self) -> HalResult<String>;

    fn proc_cpuinfo(&self) -> HalResult<String>;

    fn proc_meminfo(&self) -> HalResult<String>;

    fn proc_mounts(&self) -> HalResult<String>;

    fn proc_mountinfo(&self) -> HalResult<String>;
}

/// Receives copy progress; answering `false` aborts the copy.
pub trait CopySink {
    fn on_progress(&mut self, progress: CopyProgress) -> bool;
}

/// How a copy goes on after the sink answered `keep_going`: a `false`
/// cancels it.
pub fn copy_continues(keep_going: bool) -> (r: HalResult<()>)
    ensures
        keep_going ==> r is Ok,
        !keep_going ==> (r matches Err(HalError::Other(m)) && m@ == "copy cancelled"@),
{
    if keep_going {
        Ok(())
    } else {
        Err(HalError::Other(String::from_str("copy cancelled")))
    }
}

/// Receives rsync output lines; answering `false` aborts rsync.
pub trait LineSink {
    fn on_line(&mut self, line: &str) -> bool;
}

/// Native recursive copies.
pub trait CopyOps {
    /// Recursively copy the tree at `src` into `dst`, reporting progress.
    fn copy_tree_native<P: CopySink>(
        &mut self,
        src: &str,
        dst: &str,
        opts: &CopyOptions,
        on_progress: &mut P,
    ) -> HalResult<()>;
}

/// rsync with its output streamed line by line.
pub trait RsyncOps {
    fn rsync_stream_stdout<P: LineSink>(
        &mut self,
        src: &str,
        dst: &str,
        opts: &RsyncOptions,
        on_stdout_line: &mut P,
    ) -> HalResult<()>;
}

/// The HAL the flashing workflow needs.
pub trait SystemHal: MountOps + FormatOps + FlashOps {}

impl<T: MountOps + FormatOps + FlashOps> SystemHal for T {}

/// The HAL of full-loop installs: partitioning, probing, loop devices,
/// filesystem tooling and copies.
pub trait InstallerHal:
    SystemHal + SystemOps + HostInfoOps + ProcessOps + ProbeOps + PartitionOps + LoopOps + BtrfsOps + RsyncOps {}

impl<T: SystemHal + SystemOps + HostInfoOps + ProcessOps + ProbeOps + PartitionOps + LoopOps + BtrfsOps + RsyncOps> InstallerHal for T {}

} // verus!
