//! The Linux HAL: the safety gate, the command lines and the handling of
//! their results, with the system calls and processes left to a `Host`.
use crate::hal::error::{errno_error, errno_error_spec, HalError, HalResult};
use crate::hal::ops::{
    gated, BtrfsOps, CopyOps, CopySink, FlashOps, FormatOps, HostInfoOps, LineSink, LoopOps,
    MountOps, PartitionOps, ProbeOps, ProcessOps, RsyncOps, SystemOps,
};
use crate::hal::options::{
    gate, CopyOptions, FlashOptions, FormatOptions, Gate, MountOptions, OsReleaseInfo, PartedOp,
    PartedOptions, RsyncOptions, WipeFsOptions,
};
use crate::hal::host_log::{is_run, one_more, HostCall, HostLog};
use crate::procfs::{is_mounted_from_info, parse_mountinfo, MountInfo};
use crate::text::{
    chars_of, dec_digits, ends_with_str, lines, lines_vec, string_of, strip_prefix, strip_prefix_str,
    trim_char_vec, trim_ws, trim_ws_vec, u64_to_string, views,
};
use vstd::prelude::*;

verus! {

/// What running a program gave back.
pub struct CommandOutput {
    pub success: bool,
    pub code: Option<i32>,
    pub stdout: String,
    pub stderr: String,
}

/// Why a program could not be run to its end.
pub enum RunError {
    /// The program does not exist.
    NotFound,
    /// Spawning or waiting failed.
    Io(String),
    /// The program ran longer than the timeout and was killed.
    TimedOut,
}

/// The machine the Linux HAL works on: processes, mounts and files.
pub trait Host {
    /// Run `program` with `args` in `cwd` (else the current directory),
    /// killing it after `timeout_secs`.
    fn run(&self, program: &str, args: &Vec<String>, cwd: Option<&str>, timeout_secs: u64) -> Result<CommandOutput, RunError>;

    /// `mount(2)`; an error is the errno.
    fn mount(&self, device: &str, target: &str, fstype: Option<&str>, data: Option<&str>) -> Result<(), i32>;

    /// `umount2(2)` without flags; an error is the errno.
    fn umount(&self, target: &str) -> Result<(), i32>;

    /// The text of a file.
    fn read_file(&self, path: &str) -> Result<String, String>;

    /// Copy an image onto a device or file, decompressing `.xz` on the way.
    fn write_image(&self, image: &str, target: &str, xz: bool) -> Result<(), String>;

    /// Copy a directory tree with the given metadata rules, reporting progress.
    fn copy_tree<P: CopySink>(&self, src: &str, dst: &str, opts: &CopyOptions, on_progress: &mut P) -> HalResult<()>;

    /// Run rsync, streaming its output lines.
    fn rsync<P: LineSink>(&self, src: &str, dst: &str, opts: &RsyncOptions, on_line: &mut P) -> HalResult<()>;
}

/// Real HAL implementation for Linux systems.
pub struct LinuxHal<H: Host> {
    pub host: HostLog<H>,
}

pub const PROBE_TIMEOUT_SECS: u64 = 10;
pub const SYNC_TIMEOUT_SECS: u64 = 60;
pub const FORMAT_TIMEOUT_SECS: u64 = 600;
pub const WIPEFS_TIMEOUT_SECS: u64 = 60;
pub const PARTED_TIMEOUT_SECS: u64 = 300;
pub const LOSETUP_TIMEOUT_SECS: u64 = 30;
pub const BTRFS_TIMEOUT_SECS: u64 = 60;

pub open spec fn texts(v: Seq<String>) -> Seq<Seq<char>> {
    v.map_values(|s: String| s@)
}

/// An error of running `program` with a timeout: it was not found, spawning
/// or waiting failed, it timed out, or it exited unsuccessfully.
pub open spec fn run_error(e: HalError, program: Seq<char>, timeout_secs: u64) -> bool {
    match e {
        HalError::CommandFailed { program: p, .. } => p@ == program,
        _ => spawn_error(e, program, timeout_secs),
    }
}

/// An error of getting `program` to run to its end: it was not found,
/// spawning or waiting failed, or it timed out.
pub open spec fn spawn_error(e: HalError, program: Seq<char>, timeout_secs: u64) -> bool {
    match e {
        HalError::CommandNotFound(p) => p@ == program,
        HalError::Io(_) => true,
        HalError::CommandTimeout { program: p, timeout_secs: t } => p@ == program && t == timeout_secs,
        _ => false,
    }
}

/// An error of a system call: the mapping of some errno.
pub open spec fn is_errno_error(e: HalError) -> bool {
    exists|n: i32| #[trigger] errno_error_spec(n) == e
}

/// Text that is the trimmed form of some text.
pub open spec fn is_trimmed_text(s: Seq<char>) -> bool {
    exists|t: Seq<char>| #[trigger] trim_ws(t) == s
}

/// Text that is the trimmed form of some text and not empty.
pub open spec fn is_nonblank_text(s: Seq<char>) -> bool {
    s.len() > 0 && is_trimmed_text(s)
}

fn run_failure(program: &str, e: RunError, timeout_secs: u64) -> (r: HalError)
    ensures
        match e {
            RunError::NotFound => r matches HalError::CommandNotFound(p) && p@ == program@,
            RunError::Io(m) => r matches HalError::Io(x) && x@ == m@,
            RunError::TimedOut => r matches HalError::CommandTimeout { program: p, timeout_secs: t }
                && p@ == program@ && t == timeout_secs,
        },
{
    match e {
        RunError::NotFound => HalError::CommandNotFound(String::from_str(program)),
        RunError::Io(m) => HalError::Io(m),
        RunError::TimedOut => HalError::CommandTimeout { program: String::from_str(program), timeout_secs },
    }
}

/// A program that exited unsuccessfully: its name, exit code and trimmed
/// standard error.
fn output_failed(program: &str, out: &CommandOutput) -> (r: HalError)
    ensures
        r matches HalError::CommandFailed { program: p, code: c, stderr: s } && p@ == program@ && c
            == out.code && s@ == trim_ws(out.stderr@),
{
    let err = chars_of(out.stderr.as_str());
    let t = trim_ws_vec(&err);
    HalError::CommandFailed { program: String::from_str(program), code: out.code, stderr: string_of(&t) }
}

/// Runs a program; anything but a successful exit is an error.
fn checked<H: Host>(host: &mut HostLog<H>, program: &str, args: &Vec<String>, timeout_secs: u64) -> (r: HalResult<CommandOutput>)
    ensures
        r matches Ok(o) ==> o.success,
        r matches Err(e) ==> run_error(e, program@, timeout_secs),
        one_more(old(host).calls(), final(host).calls()),
        is_run(final(host).calls().last(), program@, texts(args@), timeout_secs),
{
    match host.run(program, args, None, timeout_secs) {
        Ok(out) => if out.success {
            Ok(out)
        } else {
            Err(output_failed(program, &out))
        },
        Err(e) => Err(run_failure(program, e, timeout_secs)),
    }
}

/// Runs a program that only reads the machine; anything but a successful
/// exit is an error.
fn probed<H: Host>(host: &HostLog<H>, program: &str, args: &Vec<String>, timeout_secs: u64) -> (r: HalResult<CommandOutput>)
    ensures
        r matches Ok(o) ==> o.success,
        r matches Err(e) ==> run_error(e, program@, timeout_secs),
{
    match host.probe(program, args, None, timeout_secs) {
        Ok(out) => if out.success {
            Ok(out)
        } else {
            Err(output_failed(program, &out))
        },
        Err(e) => Err(run_failure(program, e, timeout_secs)),
    }
}

fn strings2(a: &str, b: &str) -> (r: Vec<String>)
    ensures
        texts(r@) == seq![a@, b@],
{
    let mut v: Vec<String> = Vec::new();
    v.push(String::from_str(a));
    v.push(String::from_str(b));
    assert(texts(v@) =~= seq![a@, b@]);
    v
}

fn strings3(a: &str, b: &str, c: &str) -> (r: Vec<String>)
    ensures
        texts(r@) == seq![a@, b@, c@],
{
    let mut v: Vec<String> = Vec::new();
    v.push(String::from_str(a));
    v.push(String::from_str(b));
    v.push(String::from_str(c));
    assert(texts(v@) =~= seq![a@, b@, c@]);
    v
}

fn strings5(a: &str, b: &str, c: &str, d: &str, e: &str) -> (r: Vec<String>)
    ensures
        texts(r@) == seq![a@, b@, c@, d@, e@],
{
    let mut v: Vec<String> = Vec::new();
    v.push(String::from_str(a));
    v.push(String::from_str(b));
    v.push(String::from_str(c));
    v.push(String::from_str(d));
    v.push(String::from_str(e));
    assert(texts(v@) =~= seq![a@, b@, c@, d@, e@]);
    v
}

fn strings1(a: &str) -> (r: Vec<String>)
    ensures
        texts(r@) == seq![a@],
{
    let mut v: Vec<String> = Vec::new();
    v.push(String::from_str(a));
    assert(texts(v@) =~= seq![a@]);
    v
}

/// `mkfs.ext4`/`mkfs.btrfs` arguments: the extra arguments, then the device.
pub fn mkfs_args(extra: &Vec<String>, device: &str) -> (r: Vec<String>)
    ensures
        texts(r@) == texts(extra@).push(device@),
{
    let mut v: Vec<String> = Vec::new();
    let mut i: usize = 0;
    while i < extra.len()
        invariant
            i <= extra.len(),
            texts(v@) =~= texts(extra@.subrange(0, i as int)),
        decreases extra.len() - i,
    {
        let ghost before = texts(v@);
        v.push(extra[i].clone());
        assert(texts(extra@.subrange(0, i + 1)) =~= texts(extra@.subrange(0, i as int)).push(extra@[i as int]@));
        assert(texts(v@) =~= before.push(extra@[i as int]@));
        i += 1;
    }
    assert(extra@.subrange(0, extra.len() as int) =~= extra@);
    let ghost before = texts(v@);
    v.push(String::from_str(device));
    assert(texts(v@) =~= before.push(device@));
    v
}

/// `mkfs.vfat` arguments: FAT32, the label, the extra arguments, the device.
pub fn vfat_args(label: &str, extra: &Vec<String>, device: &str) -> (r: Vec<String>)
    ensures
        texts(r@) == seq!["-F"@, "32"@, "-n"@, label@] + texts(extra@).push(device@),
{
    let mut v: Vec<String> = Vec::new();
    v.push(String::from_str("-F"));
    v.push(String::from_str("32"));
    v.push(String::from_str("-n"));
    v.push(String::from_str(label));
    let rest = mkfs_args(extra, device);
    let ghost head = texts(v@);
    assert(head =~= seq!["-F"@, "32"@, "-n"@, label@]);
    let mut i: usize = 0;
    while i < rest.len()
        invariant
            i <= rest.len(),
            texts(v@) =~= head + texts(rest@.subrange(0, i as int)),
        decreases rest.len() - i,
    {
        let ghost before = texts(v@);
        v.push(rest[i].clone());
        assert(texts(rest@.subrange(0, i + 1)) =~= texts(rest@.subrange(0, i as int)).push(rest@[i as int]@));
        assert(texts(v@) =~= before.push(rest@[i as int]@));
        i += 1;
    }
    assert(rest@.subrange(0, rest.len() as int) =~= rest@);
    v
}

/// `parted -s <disk> ...` arguments for one operation.
pub open spec fn parted_args_spec(disk: Seq<char>, op: PartedOp) -> Seq<Seq<char>> {
    let head = seq!["-s"@, disk];
    match op {
        PartedOp::MkLabel { label } => head + seq!["mklabel"@, label@],
        PartedOp::MkPart { part_type, fs_type, start, end } => head + seq![
            "-a"@,
            "optimal"@,
            "mkpart"@,
            part_type@,
            fs_type@,
            start@,
            end@,
        ],
        PartedOp::SetFlag { part_num, flag, state } => head + seq![
            "set"@,
            dec_digits(part_num as nat),
            flag@,
            state@,
        ],
        PartedOp::Print => head + seq!["print"@],
    }
}

/// Every parted call runs in script mode (`-s`) on the given disk; making a
/// partition asks for optimal alignment and hands over the partition type,
/// the filesystem type, then the start and the end, as given.
pub proof fn law_parted_mkpart_args(disk: Seq<char>, part_type: String, fs_type: String, start: String, end: String)
    ensures
        ({
            let a = parted_args_spec(disk, PartedOp::MkPart { part_type, fs_type, start, end });
            &&& a.len() == 9
            &&& a[0] == "-s"@ && a[1] == disk
            &&& a[2] == "-a"@ && a[3] == "optimal"@ && a[4] == "mkpart"@
            &&& a[5] == part_type@ && a[6] == fs_type@
            &&& a[7] == start@ && a[8] == end@
        }),
{
}

pub fn parted_args(disk: &str, op: PartedOp) -> (r: Vec<String>)
    ensures
        texts(r@) == parted_args_spec(disk@, op),
{
    let mut v: Vec<String> = Vec::new();
    v.push(String::from_str("-s"));
    v.push(String::from_str(disk));
    match op {
        PartedOp::MkLabel { label } => {
            v.push(String::from_str("mklabel"));
            v.push(label);
        },
        PartedOp::MkPart { part_type, fs_type, start, end } => {
            v.push(String::from_str("-a"));
            v.push(String::from_str("optimal"));
            v.push(String::from_str("mkpart"));
            v.push(part_type);
            v.push(fs_type);
            v.push(start);
            v.push(end);
        },
        PartedOp::SetFlag { part_num, flag, state } => {
            v.push(String::from_str("set"));
            v.push(u64_to_string(part_num as u64));
            v.push(flag);
            v.push(state);
        },
        PartedOp::Print => {
            v.push(String::from_str("print"));
        },
    }
    assert(texts(v@) =~= parted_args_spec(disk@, op));
    v
}

/// `losetup` arguments to attach an image: print the device, pick a free
/// one, scan partitions when asked.
pub fn losetup_attach_args(image: &str, scan_partitions: bool) -> (r: Vec<String>)
    ensures
        texts(r@) == (if scan_partitions {
            seq!["--show"@, "-f"@, "-P"@, image@]
        } else {
            seq!["--show"@, "-f"@, image@]
        }),
{
    let mut v: Vec<String> = Vec::new();
    v.push(String::from_str("--show"));
    v.push(String::from_str("-f"));
    if scan_partitions {
        v.push(String::from_str("-P"));
    }
    v.push(String::from_str(image));
    assert(texts(v@) =~= (if scan_partitions {
        seq!["--show"@, "-f"@, "-P"@, image@]
    } else {
        seq!["--show"@, "-f"@, image@]
    }));
    v
}

/// The non-blank lines of `lsblk` output, trimmed.
pub open spec fn nonblank_lines(ls: Seq<Seq<char>>) -> Seq<Seq<char>>
    decreases ls.len(),
{
    if ls.len() == 0 {
        Seq::empty()
    } else {
        let rest = nonblank_lines(ls.drop_last());
        if trim_ws(ls.last()).len() > 0 {
            rest.push(trim_ws(ls.last()))
        } else {
            rest
        }
    }
}

pub fn mountpoints_of(stdout: &str) -> (r: Vec<String>)
    ensures
        texts(r@) == nonblank_lines(lines(stdout@)),
{
    let text = chars_of(stdout);
    let ls = lines_vec(&text);
    let ghost all = lines(stdout@);
    assert(views(ls@).len() == ls@.len());
    let mut out: Vec<String> = Vec::new();
    let mut i: usize = 0;
    while i < ls.len()
        invariant
            i <= ls.len(),
            all == views(ls@),
            texts(out@) == nonblank_lines(all.subrange(0, i as int)),
        decreases ls.len() - i,
    {
        let ghost pre = all.subrange(0, i + 1);
        assert(pre.drop_last() =~= all.subrange(0, i as int));
        assert(pre.last() == ls@[i as int]@);
        let t = trim_ws_vec(&ls[i]);
        if t.len() > 0 {
            let ghost before = texts(out@);
            out.push(string_of(&t));
            assert(texts(out@) =~= before.push(t@));
        }
        i += 1;
    }
    assert(all.subrange(0, ls.len() as int) =~= all);
    out
}

/// Whether mount point `p` is `target` or lies below it, comparing whole
/// path components (`Path::starts_with`).
pub open spec fn under_path(p: Seq<char>, target: Seq<char>) -> bool {
    p == target || (strip_prefix(p, target) matches Some(rest) && (target.len() > 0 && target.last() == '/'
        || rest.len() > 0 && rest[0] == '/'))
}

/// Number of components of a mount point (for deepest-first order).
pub open spec fn depth(p: Seq<char>) -> nat
    decreases p.len(),
{
    if p.len() == 0 {
        0
    } else {
        depth(p.drop_last()) + if p.last() == '/' { 1nat } else { 0nat }
    }
}

impl<H: Host> LinuxHal<H> {
    pub fn new(host: H) -> (r: Self)
        ensures
            r.host.inner() == host,
            r.host.calls() == Seq::<HostCall>::empty(),
    {
        LinuxHal { host: HostLog::new(host) }
    }

    fn format_with(&mut self, program: &str, args: &Vec<String>, opts: &FormatOptions) -> (r: HalResult<()>)
        ensures
            gated(opts.dry_run, opts.confirmed, r),
            opts.dry_run || !opts.confirmed ==> final(self).host.calls() == old(self).host.calls(),
            !opts.dry_run && opts.confirmed ==> one_more(old(self).host.calls(), final(self).host.calls())
                && is_run(final(self).host.calls().last(), program@, texts(args@), FORMAT_TIMEOUT_SECS),
    {
        match gate(opts.dry_run, opts.confirmed) {
            Gate::DryRun => Ok(()),
            Gate::Locked => Err(HalError::SafetyLock),
            Gate::Proceed => match checked(&mut self.host, program, args, FORMAT_TIMEOUT_SECS) {
                Ok(_) => Ok(()),
                Err(e) => Err(e),
            },
        }
    }

    fn read_or_empty(&self, path: &str) -> String {
        match self.host.read_file(path) {
            Ok(s) => s,
            Err(_) => String::new(),
        }
    }
}

impl<H: Host> MountOps for LinuxHal<H> {
    fn mount_device(
        &mut self,
        device: &str,
        target: &str,
        fstype: Option<&str>,
        options: MountOptions,
        dry_run: bool,
    ) -> (r: HalResult<()>)
        ensures
            r matches Err(e) ==> is_errno_error(e),
            dry_run ==> final(self).host.calls() == old(self).host.calls(),
            !dry_run ==> one_more(old(self).host.calls(), final(self).host.calls()) && (final(self).host.calls().last() matches HostCall::Mount { device: d, target: t } && d@ == device@ && t@ == target@),
    {
        if dry_run {
            return Ok(());
        }
        let data = match &options.options {
            Some(o) => Some(o.as_str()),
            None => None,
        };
        match self.host.mount(device, target, fstype, data) {
            Ok(()) => Ok(()),
            Err(errno) => {
                let e = errno_error(errno);
                assert(errno_error_spec(errno) == e);
                Err(e)
            },
        }
    }

    fn unmount(&mut self, target: &str, dry_run: bool) -> (r: HalResult<()>)
        ensures
            r matches Err(e) ==> is_errno_error(e),
            dry_run ==> final(self).host.calls() == old(self).host.calls(),
            !dry_run ==> one_more(old(self).host.calls(), final(self).host.calls()) && (final(self).host.calls().last() matches HostCall::Umount { target: t } && t@ == target@),
    {
        if dry_run {
            return Ok(());
        }
        match self.host.umount(target) {
            Ok(()) => Ok(()),
            Err(errno) => {
                let e = errno_error(errno);
                assert(errno_error_spec(errno) == e);
                Err(e)
            },
        }
    }

    /// Unmounts everything at or below `target`, deepest first; failures of
    /// single unmounts are ignored.
    fn unmount_recursive(&mut self, target: &str, dry_run: bool) -> (r: HalResult<()>)
        ensures
            r matches Err(e) ==> e is Io,
            dry_run || r is Err ==> final(self).host.calls() == old(self).host.calls(),
            final(self).host.calls().len() >= old(self).host.calls().len(),
            final(self).host.calls().take(old(self).host.calls().len() as int) == old(self).host.calls(),
            forall|i: int| old(self).host.calls().len() <= i < final(self).host.calls().len() ==> (#[trigger] final(self).host.calls()[i] matches HostCall::Umount { target: t } && under_path(t@, target@)),
    {
        if dry_run {
            return Ok(());
        }
        let content = match self.host.read_file("/proc/self/mountinfo") {
            Ok(c) => c,
            Err(m) => return Err(HalError::Io(m)),
        };
        let under = mounts_under(&parse_mountinfo(content.as_str()), target);
        let ghost c0 = self.host.calls();
        let mut i: usize = 0;
        while i < under.len()
            invariant
                i <= under.len(),
                forall|k: int| 0 <= k < under@.len() ==> under_path(#[trigger] under@[k]@, target@),
                self.host.calls().len() == c0.len() + i,
                self.host.calls().take(c0.len() as int) == c0,
                forall|j: int| c0.len() <= j < self.host.calls().len() ==> (#[trigger] self.host.calls()[j] matches HostCall::Umount { target: t } && under_path(t@, target@)),
            decreases under.len() - i,
        {
            let ghost before = self.host.calls();
            let _ = self.host.umount(under[i].as_str());
            proof {
                let after = self.host.calls();
                assert(after.drop_last() == before);
                assert(after.take(c0.len() as int) =~= before.take(c0.len() as int));
                assert forall|j: int| c0.len() <= j < after.len() implies (#[trigger] after[j] matches HostCall::Umount { target: t } && under_path(t@, target@)) by {
                    if j < after.len() - 1 {
                        assert(after[j] == before[j]);
                    }
                }
            }
            i += 1;
        }
        Ok(())
    }

    fn is_mounted(&self, path: &str) -> (r: HalResult<bool>)
        ensures
            r matches Err(e) ==> e is Io,
    {
        match self.host.read_file("/proc/self/mountinfo") {
            Ok(content) => Ok(is_mounted_from_info(path, &parse_mountinfo(content.as_str()))),
            Err(m) => Err(HalError::Io(m)),
        }
    }
}

/// The mount points at or below `target`, deepest first (stable among equal
/// depths).
pub fn mounts_under(entries: &Vec<MountInfo>, target: &str) -> (r: Vec<String>)
    ensures
        forall|i: int| 0 <= i < r@.len() ==> under_path(#[trigger] r@[i]@, target@),
        forall|i: int, j: int| 0 <= i < j < r@.len() ==> depth(#[trigger] r@[i]@) >= depth(#[trigger] r@[j]@),
        forall|k: int| 0 <= k < entries@.len() && under_path(#[trigger] entries@[k].mount_point@, target@)
            ==> exists|i: int| 0 <= i < r@.len() && r@[i]@ == entries@[k].mount_point@,
{
    let t = chars_of(target);
    let mut out: Vec<String> = Vec::new();
    let mut depths: Vec<u64> = Vec::new();
    let mut k: usize = 0;
    while k < entries.len()
        invariant
            k <= entries.len(),
            t@ == target@,
            depths@.len() == out@.len(),
            forall|i: int| 0 <= i < out@.len() ==> depths@[i] == depth(#[trigger] out@[i]@),
            forall|i: int| 0 <= i < out@.len() ==> under_path(#[trigger] out@[i]@, target@),
            forall|i: int, j: int| 0 <= i < j < out@.len() ==> depth(#[trigger] out@[i]@) >= depth(#[trigger] out@[j]@),
            forall|q: int| 0 <= q < k && under_path(#[trigger] entries@[q].mount_point@, target@)
                ==> exists|i: int| 0 <= i < out@.len() && out@[i]@ == entries@[q].mount_point@,
        decreases entries.len() - k,
    {
        let mp = chars_of(entries[k].mount_point.as_str());
        if is_under(&mp, &t) {
            let d = path_depth(&mp);
            let mut pos: usize = 0;
            while pos < out.len() && depths[pos] >= d
                invariant
                    pos <= out.len(),
                    depths@.len() == out@.len(),
                    forall|i: int| 0 <= i < pos ==> depths@[i] >= d,
                decreases out.len() - pos,
            {
                pos += 1;
            }
            let ghost old_out = out@;
            let ghost old_depths = depths@;
            out.insert(pos, entries[k].mount_point.clone());
            depths.insert(pos, d);
            proof {
                assert forall|i: int| 0 <= i < out@.len() implies depths@[i] == depth(#[trigger] out@[i]@) by {
                    if i < pos {
                        assert(out@[i] == old_out[i]);
                    } else if i > pos {
                        assert(out@[i] == old_out[i - 1]);
                    }
                }
                assert forall|i: int| 0 <= i < out@.len() implies under_path(#[trigger] out@[i]@, target@) by {
                    if i < pos {
                        assert(out@[i] == old_out[i]);
                    } else if i > pos {
                        assert(out@[i] == old_out[i - 1]);
                    }
                }
                assert forall|i: int, j: int| 0 <= i < j < out@.len() implies depth(#[trigger] out@[i]@) >= depth(
                    #[trigger] out@[j]@,
                ) by {
                    assert(depths@[i] == depth(out@[i]@));
                    assert(depths@[j] == depth(out@[j]@));
                    if j < pos {
                        assert(depths@[i] == old_depths[i] && depths@[j] == old_depths[j]);
                        assert(old_depths[i] == depth(old_out[i]@));
                    } else if j == pos {
                        assert(depths@[i] == old_depths[i]);
                    } else if i < pos {
                        assert(depths@[i] == old_depths[i] && depths@[j] == old_depths[j - 1]);
                        assert(old_depths[i] >= d);
                    } else if i == pos {
                        assert(depths@[j] == old_depths[j - 1]);
                        if pos < old_out.len() {
                            assert(old_depths[pos as int] < d);
                            assert(depth(old_out[pos as int]@) >= depth(old_out[j - 1]@) || j - 1 == pos);
                        }
                    } else {
                        assert(depths@[i] == old_depths[i - 1] && depths@[j] == old_depths[j - 1]);
                        assert(depth(old_out[i - 1]@) >= depth(old_out[j - 1]@));
                    }
                }
                assert forall|q: int| 0 <= q < k + 1 && under_path(#[trigger] entries@[q].mount_point@, target@)
                    implies exists|i: int| 0 <= i < out@.len() && out@[i]@ == entries@[q].mount_point@ by {
                    if q == k {
                        assert(out@[pos as int]@ == entries@[q].mount_point@);
                    } else {
                        let i0 = choose|i: int| 0 <= i < old_out.len() && old_out[i]@ == entries@[q].mount_point@;
                        if i0 < pos {
                            assert(out@[i0] == old_out[i0]);
                        } else {
                            assert(out@[i0 + 1] == old_out[i0]);
                        }
                    }
                }
            }
        }
        k += 1;
    }
    out
}

fn is_under(p: &Vec<char>, target: &Vec<char>) -> (r: bool)
    ensures
        r == under_path(p@, target@),
{
    if crate::text::vec_eq(p, target) {
        return true;
    }
    if !crate::text::starts_with(p, target) {
        return false;
    }
    let n = target.len();
    if n > 0 && target[n - 1] == '/' {
        return true;
    }
    p.len() > n && p[n] == '/'
}

fn path_depth(p: &Vec<char>) -> (r: u64)
    ensures
        r == depth(p@),
{
    let mut d: u64 = 0;
    let mut i: usize = 0;
    while i < p.len()
        invariant
            i <= p.len(),
            d == depth(p@.subrange(0, i as int)),
            d <= i,
        decreases p.len() - i,
    {
        assert(p@.subrange(0, i + 1).drop_last() =~= p@.subrange(0, i as int));
        if p[i] == '/' {
            d += 1;
        }
        i += 1;
    }
    assert(p@.subrange(0, p.len() as int) =~= p@);
    d
}

impl<H: Host> FormatOps for LinuxHal<H> {
    fn format_ext4(&mut self, device: &str, opts: &FormatOptions) -> (r: HalResult<()>)
        ensures
            opts.dry_run || !opts.confirmed ==> final(self).host.calls() == old(self).host.calls(),
            !opts.dry_run && opts.confirmed ==> one_more(old(self).host.calls(), final(self).host.calls())
                && is_run(final(self).host.calls().last(), "mkfs.ext4"@, texts(opts.extra_args@).push(device@), FORMAT_TIMEOUT_SECS),
    {
        let args = mkfs_args(&opts.extra_args, device);
        self.format_with("mkfs.ext4", &args, opts)
    }

    fn format_btrfs(&mut self, device: &str, opts: &FormatOptions) -> (r: HalResult<()>)
        ensures
            opts.dry_run || !opts.confirmed ==> final(self).host.calls() == old(self).host.calls(),
            !opts.dry_run && opts.confirmed ==> one_more(old(self).host.calls(), final(self).host.calls())
                && is_run(final(self).host.calls().last(), "mkfs.btrfs"@, texts(opts.extra_args@).push(device@), FORMAT_TIMEOUT_SECS),
    {
        let args = mkfs_args(&opts.extra_args, device);
        self.format_with("mkfs.btrfs", &args, opts)
    }

    fn format_vfat(&mut self, device: &str, label: &str, opts: &FormatOptions) -> (r: HalResult<()>)
        ensures
            opts.dry_run || !opts.confirmed ==> final(self).host.calls() == old(self).host.calls(),
            !opts.dry_run && opts.confirmed ==> one_more(old(self).host.calls(), final(self).host.calls())
                && is_run(
                final(self).host.calls().last(),
                "mkfs.vfat"@,
                seq!["-F"@, "32"@, "-n"@, label@] + texts(opts.extra_args@).push(device@),
                FORMAT_TIMEOUT_SECS,
            ),
    {
        let args = vfat_args(label, &opts.extra_args, device);
        self.format_with("mkfs.vfat", &args, opts)
    }
}

impl<H: Host> FlashOps for LinuxHal<H> {
    fn flash_raw_image(&mut self, image_path: &str, target_disk: &str, opts: &FlashOptions) -> (r: HalResult<()>)
        ensures
            opts.dry_run || !opts.confirmed ==> final(self).host.calls() == old(self).host.calls(),
            !opts.dry_run && opts.confirmed ==> one_more(old(self).host.calls(), final(self).host.calls())
                && (final(self).host.calls().last() matches HostCall::WriteImage { image: i, target: t } && i@
                == image_path@ && t@ == target_disk@),
    {
        match gate(opts.dry_run, opts.confirmed) {
            Gate::DryRun => Ok(()),
            Gate::Locked => Err(HalError::SafetyLock),
            Gate::Proceed => {
                let img = chars_of(image_path);
                let xz = ends_with_str(&img, ".xz");
                match self.host.write_image(image_path, target_disk, xz) {
                    Ok(()) => Ok(()),
                    Err(m) => Err(HalError::Io(m)),
                }
            },
        }
    }
}

impl<H: Host> SystemOps for LinuxHal<H> {
    fn sync(&mut self) -> (r: HalResult<()>)
        ensures
            r matches Err(e) ==> run_error(e, "sync"@, SYNC_TIMEOUT_SECS),
            one_more(old(self).host.calls(), final(self).host.calls()),
            is_run(final(self).host.calls().last(), "sync"@, Seq::<Seq<char>>::empty(), SYNC_TIMEOUT_SECS),
    {
        let args: Vec<String> = Vec::new();
        assert(texts(args@) =~= Seq::<Seq<char>>::empty());
        match checked(&mut self.host, "sync", &args, SYNC_TIMEOUT_SECS) {
            Ok(_) => Ok(()),
            Err(e) => Err(e),
        }
    }

    fn udev_settle(&mut self) -> (r: HalResult<()>)
        ensures
            r matches Err(e) ==> run_error(e, "udevadm"@, SYNC_TIMEOUT_SECS),
            one_more(old(self).host.calls(), final(self).host.calls()),
            is_run(final(self).host.calls().last(), "udevadm"@, seq!["settle"@], SYNC_TIMEOUT_SECS),
    {
        let args = strings1("settle");
        match checked(&mut self.host, "udevadm", &args, SYNC_TIMEOUT_SECS) {
            Ok(_) => Ok(()),
            Err(e) => Err(e),
        }
    }
}

impl<H: Host> ProbeOps for LinuxHal<H> {
    /// The mount points of the disk and its partitions: the non-blank lines
    /// of `lsblk -lnpo MOUNTPOINT`, trimmed.
    fn lsblk_mountpoints(&mut self, disk: &str) -> (r: HalResult<Vec<String>>)
        ensures
            r matches Ok(v) ==> exists|out: Seq<char>| #[trigger] nonblank_lines(lines(out)) == texts(v@),
            r matches Err(e) ==> run_error(e, "lsblk"@, PROBE_TIMEOUT_SECS),
            one_more(old(self).host.calls(), final(self).host.calls()),
            is_run(final(self).host.calls().last(), "lsblk"@, seq!["-lnpo"@, "MOUNTPOINT"@, disk@], PROBE_TIMEOUT_SECS),
    {
        let args = strings3("-lnpo", "MOUNTPOINT", disk);
        match checked(&mut self.host, "lsblk", &args, PROBE_TIMEOUT_SECS) {
            Ok(out) => {
                let v = mountpoints_of(out.stdout.as_str());
                assert(nonblank_lines(lines(out.stdout@)) == texts(v@));
                Ok(v)
            },
            Err(e) => Err(e),
        }
    }

    fn lsblk_table(&mut self, disk: &str) -> (r: HalResult<String>)
        ensures
            r matches Err(e) ==> run_error(e, "lsblk"@, PROBE_TIMEOUT_SECS),
            one_more(old(self).host.calls(), final(self).host.calls()),
            is_run(final(self).host.calls().last(), "lsblk"@, seq!["-o"@, "NAME,SIZE,TYPE,FSTYPE,MOUNTPOINTS,MODEL"@, disk@], PROBE_TIMEOUT_SECS),
    {
        let args = strings3("-o", "NAME,SIZE,TYPE,FSTYPE,MOUNTPOINTS,MODEL", disk);
        match checked(&mut self.host, "lsblk", &args, PROBE_TIMEOUT_SECS) {
            Ok(out) => Ok(out.stdout),
            Err(e) => Err(e),
        }
    }

    /// The trimmed output of `blkid -s UUID -o value <device>`.
    fn blkid_uuid(&mut self, device: &str) -> (r: HalResult<String>)
        ensures
            r matches Ok(s) ==> is_trimmed_text(s@),
            r matches Err(e) ==> run_error(e, "blkid"@, PROBE_TIMEOUT_SECS),
            one_more(old(self).host.calls(), final(self).host.calls()),
            is_run(final(self).host.calls().last(), "blkid"@, seq!["-s"@, "UUID"@, "-o"@, "value"@, device@], PROBE_TIMEOUT_SECS),
    {
        let args = strings5("-s", "UUID", "-o", "value", device);
        match checked(&mut self.host, "blkid", &args, PROBE_TIMEOUT_SECS) {
            Ok(out) => {
                let v = chars_of(out.stdout.as_str());
                let t = string_of(&trim_ws_vec(&v));
                assert(trim_ws(v@) == t@);
                Ok(t)
            },
            Err(e) => Err(e),
        }
    }
}

impl<H: Host> PartitionOps for LinuxHal<H> {
    fn wipefs_all(&mut self, disk: &str, opts: &WipeFsOptions) -> (r: HalResult<()>)
        ensures
            opts.dry_run || !opts.confirmed ==> final(self).host.calls() == old(self).host.calls(),
            !opts.dry_run && opts.confirmed ==> one_more(old(self).host.calls(), final(self).host.calls())
                && is_run(final(self).host.calls().last(), "wipefs"@, seq!["-a"@, disk@], WIPEFS_TIMEOUT_SECS),
    {
        match gate(opts.dry_run, opts.confirmed) {
            Gate::DryRun => Ok(()),
            Gate::Locked => Err(HalError::SafetyLock),
            Gate::Proceed => {
                let args = strings2("-a", disk);
                match checked(&mut self.host, "wipefs", &args, WIPEFS_TIMEOUT_SECS) {
                    Ok(_) => Ok(()),
                    Err(e) => Err(e),
                }
            },
        }
    }

    fn parted(&mut self, disk: &str, op: PartedOp, opts: &PartedOptions) -> (r: HalResult<String>)
        ensures
            opts.dry_run || !opts.confirmed ==> final(self).host.calls() == old(self).host.calls(),
            !opts.dry_run && opts.confirmed ==> one_more(old(self).host.calls(), final(self).host.calls())
                && is_run(final(self).host.calls().last(), "parted"@, parted_args_spec(disk@, op), PARTED_TIMEOUT_SECS),
    {
        match gate(opts.dry_run, opts.confirmed) {
            Gate::DryRun => Ok(String::new()),
            Gate::Locked => Err(HalError::SafetyLock),
            Gate::Proceed => {
                let args = parted_args(disk, op);
                match checked(&mut self.host, "parted", &args, PARTED_TIMEOUT_SECS) {
                    Ok(out) => Ok(out.stdout),
                    Err(e) => Err(e),
                }
            },
        }
    }
}

impl<H: Host> LoopOps for LinuxHal<H> {
    /// The loop device `losetup` printed, trimmed.
    fn losetup_attach(&mut self, image: &str, scan_partitions: bool) -> (r: HalResult<String>)
        ensures
            r matches Ok(s) ==> is_trimmed_text(s@),
            r matches Err(e) ==> run_error(e, "losetup"@, LOSETUP_TIMEOUT_SECS),
            one_more(old(self).host.calls(), final(self).host.calls()),
            is_run(final(self).host.calls().last(), "losetup"@, (if scan_partitions { seq!["--show"@, "-f"@, "-P"@, image@] } else { seq!["--show"@, "-f"@, image@] }), LOSETUP_TIMEOUT_SECS),
    {
        let args = losetup_attach_args(image, scan_partitions);
        match checked(&mut self.host, "losetup", &args, LOSETUP_TIMEOUT_SECS) {
            Ok(out) => {
                let v = chars_of(out.stdout.as_str());
                let t = string_of(&trim_ws_vec(&v));
                assert(trim_ws(v@) == t@);
                Ok(t)
            },
            Err(e) => Err(e),
        }
    }

    fn losetup_detach(&mut self, loop_device: &str) -> (r: HalResult<()>)
        ensures
            r matches Err(e) ==> run_error(e, "losetup"@, LOSETUP_TIMEOUT_SECS),
            one_more(old(self).host.calls(), final(self).host.calls()),
            is_run(final(self).host.calls().last(), "losetup"@, seq!["-d"@, loop_device@], LOSETUP_TIMEOUT_SECS),
    {
        let args = strings2("-d", loop_device);
        match checked(&mut self.host, "losetup", &args, LOSETUP_TIMEOUT_SECS) {
            Ok(_) => Ok(()),
            Err(e) => Err(e),
        }
    }
}

impl<H: Host> BtrfsOps for LinuxHal<H> {
    fn btrfs_subvolume_list(&mut self, mount_point: &str) -> (r: HalResult<String>)
        ensures
            r matches Err(e) ==> run_error(e, "btrfs"@, BTRFS_TIMEOUT_SECS),
            one_more(old(self).host.calls(), final(self).host.calls()),
            is_run(final(self).host.calls().last(), "btrfs"@, seq!["subvolume"@, "list"@, mount_point@], BTRFS_TIMEOUT_SECS),
    {
        let args = strings3("subvolume", "list", mount_point);
        match checked(&mut self.host, "btrfs", &args, BTRFS_TIMEOUT_SECS) {
            Ok(out) => Ok(out.stdout),
            Err(e) => Err(e),
        }
    }

    fn btrfs_subvolume_create(&mut self, path: &str) -> (r: HalResult<()>)
        ensures
            r matches Err(e) ==> run_error(e, "btrfs"@, BTRFS_TIMEOUT_SECS),
            one_more(old(self).host.calls(), final(self).host.calls()),
            is_run(final(self).host.calls().last(), "btrfs"@, seq!["subvolume"@, "create"@, path@], BTRFS_TIMEOUT_SECS),
    {
        let args = strings3("subvolume", "create", path);
        match checked(&mut self.host, "btrfs", &args, BTRFS_TIMEOUT_SECS) {
            Ok(_) => Ok(()),
            Err(e) => Err(e),
        }
    }
}

/// The trimmed text, or `None` when it is blank.
fn nonblank(s: &str) -> (r: Option<String>)
    ensures
        match r {
            Some(t) => trim_ws(s@).len() > 0 && t@ == trim_ws(s@) && is_nonblank_text(t@),
            None => trim_ws(s@).len() == 0,
        },
{
    let v = chars_of(s);
    let t = trim_ws_vec(&v);
    if t.len() > 0 {
        Some(string_of(&t))
    } else {
        None
    }
}

/// The last `ID=` and `VERSION_ID=` values of the lines, trimmed and
/// stripped of double quotes (not lowercased).
pub open spec fn os_info_fields(ls: Seq<Seq<char>>) -> (Option<Seq<char>>, Option<Seq<char>>)
    decreases ls.len(),
{
    if ls.len() == 0 {
        (None, None)
    } else {
        let (id, ver) = os_info_fields(ls.drop_last());
        let l = ls.last();
        let id2 = match strip_prefix(l, "ID="@) {
            Some(v) => Some(crate::text::trim_char(trim_ws(v), '"')),
            None => id,
        };
        let ver2 = match strip_prefix(l, "VERSION_ID="@) {
            Some(v) => Some(crate::text::trim_char(trim_ws(v), '"')),
            None => ver,
        };
        (id2, ver2)
    }
}

pub open spec fn opt_text(o: Option<String>) -> Option<Seq<char>> {
    match o {
        Some(s) => Some(s@),
        None => None,
    }
}

/// The `ID=` and `VERSION_ID=` values of os-release text (the last of each),
/// trimmed and stripped of double quotes (not lowercased).
pub fn os_release_info(content: &str) -> (r: OsReleaseInfo)
    ensures
        (opt_text(r.id), opt_text(r.version_id)) == os_info_fields(lines(content@)),
{
    let text = chars_of(content);
    let ls = lines_vec(&text);
    let ghost all = lines(content@);
    assert(views(ls@).len() == ls@.len());
    let mut id: Option<String> = None;
    let mut version_id: Option<String> = None;
    let mut i: usize = 0;
    while i < ls.len()
        invariant
            i <= ls.len(),
            all == views(ls@),
            (opt_text(id), opt_text(version_id)) == os_info_fields(all.subrange(0, i as int)),
        decreases ls.len() - i,
    {
        let ghost pre = all.subrange(0, i + 1);
        assert(pre.drop_last() =~= all.subrange(0, i as int));
        assert(pre.last() == ls@[i as int]@);
        if let Some(v) = strip_prefix_str(&ls[i], "ID=") {
            id = Some(string_of(&trim_char_vec(&trim_ws_vec(&v), '"')));
        }
        if let Some(v) = strip_prefix_str(&ls[i], "VERSION_ID=") {
            version_id = Some(string_of(&trim_char_vec(&trim_ws_vec(&v), '"')));
        }
        i += 1;
    }
    assert(all.subrange(0, ls.len() as int) =~= all);
    OsReleaseInfo { id, version_id }
}

impl<H: Host> HostInfoOps for LinuxHal<H> {
    /// The contents of `/etc/hostname`, trimmed; `None` when blank.
    fn hostname(&self) -> (r: HalResult<Option<String>>)
        ensures
            r matches Ok(Some(s)) ==> is_nonblank_text(s@),
            r matches Err(e) ==> e is Io,
    {
        match self.host.read_file("/etc/hostname") {
            Ok(s) => Ok(nonblank(s.as_str())),
            Err(m) => Err(HalError::Io(m)),
        }
    }

    /// The output of `uname -r`.
    fn kernel_release(&self) -> (r: HalResult<Option<String>>)
        ensures
            r matches Ok(Some(s)) ==> is_nonblank_text(s@),
            r matches Err(e) ==> run_error(e, "uname"@, 2),
    {
        let args = strings1("-r");
        match probed(&self.host, "uname", &args, 2) {
            Ok(out) => Ok(nonblank(out.stdout.as_str())),
            Err(e) => Err(e),
        }
    }

    /// The fields of `/etc/os-release`; a file that cannot be read counts
    /// as empty, so this never fails.
    fn os_release(&self) -> (r: HalResult<OsReleaseInfo>)
        ensures
            r matches Ok(info) && exists|content: Seq<char>| #[trigger] os_info_fields(lines(content)) == (
                opt_text(info.id),
                opt_text(info.version_id),
            ),
    {
        let content = self.read_or_empty("/etc/os-release");
        let info = os_release_info(content.as_str());
        assert(os_info_fields(lines(content@)) == (opt_text(info.id), opt_text(info.version_id)));
        Ok(info)
    }

    fn proc_cmdline(&self) -> HalResult<String> {
        Ok(self.read_or_empty("/proc/cmdline"))
    }

    fn proc_cpuinfo(&self) -> HalResult<String> {
        Ok(self.read_or_empty("/proc/cpuinfo"))
    }

    fn proc_meminfo(&self) -> HalResult<String> {
        Ok(self.read_or_empty("/proc/meminfo"))
    }

    fn proc_mounts(&self) -> HalResult<String> {
        Ok(self.read_or_empty("/proc/self/mounts"))
    }

    fn proc_mountinfo(&self) -> HalResult<String> {
        Ok(self.read_or_empty("/proc/self/mountinfo"))
    }
}

impl<H: Host> CopyOps for LinuxHal<H> {
    fn copy_tree_native<P: CopySink>(
        &mut self,
        src: &str,
        dst: &str,
        opts: &CopyOptions,
        on_progress: &mut P,
    ) -> (r: HalResult<()>)
        ensures
            one_more(old(self).host.calls(), final(self).host.calls()),
            final(self).host.calls().last() matches HostCall::CopyTree { src: s, dst: d } && s@ == src@ && d@ == dst@,
    {
        self.host.copy_tree(src, dst, opts, on_progress)
    }
}

impl<H: Host> RsyncOps for LinuxHal<H> {
    fn rsync_stream_stdout<P: LineSink>(
        &mut self,
        src: &str,
        dst: &str,
        opts: &RsyncOptions,
        on_stdout_line: &mut P,
    ) -> (r: HalResult<()>)
        ensures
            one_more(old(self).host.calls(), final(self).host.calls()),
            final(self).host.calls().last() matches HostCall::Rsync { src: s, dst: d } && s@ == src@ && d@ == dst@,
    {
        self.host.rsync(src, dst, opts, on_stdout_line)
    }
}

impl<H: Host> ProcessOps for LinuxHal<H> {
    fn command_output_with_cwd(
        &mut self,
        program: &str,
        args: &Vec<String>,
        cwd: Option<&str>,
        timeout_secs: u64,
    ) -> (r: HalResult<CommandOutput>)
        ensures
            r matches Err(e) ==> spawn_error(e, program@, timeout_secs),
            one_more(old(self).host.calls(), final(self).host.calls()),
            is_run(final(self).host.calls().last(), program@, texts(args@), timeout_secs),
    {
        match self.host.run(program, args, cwd, timeout_secs) {
            Ok(out) => Ok(out),
            Err(e) => Err(run_failure(program, e, timeout_secs)),
        }
    }

    fn command_status_with_cwd(
        &mut self,
        program: &str,
        args: &Vec<String>,
        cwd: Option<&str>,
        timeout_secs: u64,
    ) -> (r: HalResult<()>)
        ensures
            r matches Err(e) ==> run_error(e, program@, timeout_secs),
            one_more(old(self).host.calls(), final(self).host.calls()),
            is_run(final(self).host.calls().last(), program@, texts(args@), timeout_secs),
    {
        match self.command_output_with_cwd(program, args, cwd, timeout_secs) {
            Ok(out) => if out.success {
                Ok(())
            } else {
                Err(output_failed(program, &out))
            },
            Err(e) => Err(e),
        }
    }
}

} // verus!
