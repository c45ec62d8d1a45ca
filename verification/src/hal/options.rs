//! Options of the HAL operations.
use vstd::prelude::*;

verus! {

/// The safety rule every destructive operation follows: a dry run does
/// nothing and succeeds; otherwise the operation needs confirmation.
#[derive(Debug, Clone, Copy, PartialEq, Eq, Structural)]
pub enum Gate {
    DryRun,
    Locked,
    Proceed,
}

pub open spec fn gate_spec(dry_run: bool, confirmed: bool) -> Gate {
    if dry_run {
        Gate::DryRun
    } else if !confirmed {
        Gate::Locked
    } else {
        Gate::Proceed
    }
}

pub fn gate(dry_run: bool, confirmed: bool) -> (r: Gate)
    ensures
        r == gate_spec(dry_run, confirmed),
{
    if dry_run {
        Gate::DryRun
    } else if !confirmed {
        Gate::Locked
    } else {
        Gate::Proceed
    }
}

/// Options for destructive flash operations.
#[derive(Debug, Clone)]
pub struct FlashOptions {
    pub dry_run: bool,
    pub confirmed: bool,
}

impl FlashOptions {
    pub fn new(dry_run: bool, confirmed: bool) -> (r: Self)
        ensures
            r.dry_run == dry_run && r.confirmed == confirmed,
    {
        FlashOptions { dry_run, confirmed }
    }
}

/// Options for formatting operations.
#[derive(Debug, Clone)]
pub struct FormatOptions {
    /// If true, log the operation but don't execute it.
    pub dry_run: bool,
    /// If true, the user has confirmed the destructive operation.
    pub confirmed: bool,
    /// Additional arguments to pass to the format command.
    pub extra_args: Vec<String>,
}

impl FormatOptions {
    pub fn new(dry_run: bool, confirmed: bool) -> (r: Self)
        ensures
            r.dry_run == dry_run && r.confirmed == confirmed && r.extra_args@.len() == 0,
    {
        FormatOptions { dry_run, confirmed, extra_args: Vec::new() }
    }

    pub fn with_args(self, args: Vec<String>) -> (r: Self)
        ensures
            r.dry_run == self.dry_run && r.confirmed == self.confirmed && r.extra_args == args,
    {
        FormatOptions { extra_args: args, ..self }
    }
}

/// Mount options and flags.
#[derive(Debug, Clone)]
pub struct MountOptions {
    /// Additional mount options as a comma-separated string (e.g. "ro,noexec").
    pub options: Option<String>,
}

impl MountOptions {
    pub fn new() -> (r: Self)
        ensures
            r.options is None,
    {
        MountOptions { options: None }
    }

    pub fn with_options(options: &str) -> (r: Self)
        ensures
            r.options matches Some(o) && o@ == options@,
    {
        MountOptions { options: Some(String::from_str(options)) }
    }
}

#[derive(Debug, Clone)]
pub struct WipeFsOptions {
    pub dry_run: bool,
    pub confirmed: bool,
}

impl WipeFsOptions {
    pub fn new(dry_run: bool, confirmed: bool) -> (r: Self)
        ensures
            r.dry_run == dry_run && r.confirmed == confirmed,
    {
        WipeFsOptions { dry_run, confirmed }
    }
}

#[derive(Debug, Clone)]
pub struct PartedOptions {
    pub dry_run: bool,
    pub confirmed: bool,
}

impl PartedOptions {
    pub fn new(dry_run: bool, confirmed: bool) -> (r: Self)
        ensures
            r.dry_run == dry_run && r.confirmed == confirmed,
    {
        PartedOptions { dry_run, confirmed }
    }
}

/// A high-level partition operation executed via `parted -s`.
#[derive(Debug, Clone)]
pub enum PartedOp {
    MkLabel { label: String },
    MkPart { part_type: String, fs_type: String, start: String, end: String },
    SetFlag { part_num: u32, flag: String, state: String },
    Print,
}

/// Options controlling how trees are copied.
#[derive(Debug, Clone, Copy)]
pub struct CopyOptions {
    /// Preserve ownership (uid/gid) when supported.
    pub preserve_owner: bool,
    /// Preserve permissions (mode bits).
    pub preserve_perms: bool,
    /// Preserve access and modification times.
    pub preserve_times: bool,
}

impl CopyOptions {
    /// Archive-style copy (similar to `rsync -a`).
    pub fn archive() -> (r: Self)
        ensures
            r.preserve_owner && r.preserve_perms && r.preserve_times,
    {
        CopyOptions { preserve_owner: true, preserve_perms: true, preserve_times: true }
    }

    /// VFAT-safe copy (no owner/perms/times).
    pub fn vfat_safe() -> (r: Self)
        ensures
            !r.preserve_owner && !r.preserve_perms && !r.preserve_times,
    {
        CopyOptions { preserve_owner: false, preserve_perms: false, preserve_times: false }
    }
}

/// Progress information for a copy operation.
#[derive(Debug, Clone, Copy)]
pub struct CopyProgress {
    pub bytes_copied: u64,
    pub bytes_total: u64,
    pub files_copied: u64,
    pub files_total: u64,
}

/// `a + b`, or `u64::MAX` when the sum does not fit.
pub open spec fn add_capped(a: u64, b: u64) -> u64 {
    if a + b > u64::MAX { u64::MAX } else { (a + b) as u64 }
}

fn add_saturating(a: u64, b: u64) -> (r: u64)
    ensures
        r == add_capped(a, b),
{
    if a > u64::MAX - b { u64::MAX } else { a + b }
}

impl CopyProgress {
    /// Nothing counted and nothing copied.
    pub fn empty() -> (r: Self)
        ensures
            r == (CopyProgress { bytes_copied: 0, bytes_total: 0, files_copied: 0, files_total: 0 }),
    {
        CopyProgress { bytes_copied: 0, bytes_total: 0, files_copied: 0, files_total: 0 }
    }

    /// Counts a regular file of `len` bytes of the source tree into the
    /// totals (the byte total saturates).
    pub fn count_file(self, len: u64) -> (r: Self)
        requires
            self.files_total < u64::MAX,
        ensures
            r == (CopyProgress { bytes_total: add_capped(self.bytes_total, len), files_total: (self.files_total + 1) as u64, ..self }),
    {
        CopyProgress { bytes_total: add_saturating(self.bytes_total, len), files_total: self.files_total + 1, ..self }
    }

    /// Counts a symbolic link of the source tree as one more file.
    pub fn count_link(self) -> (r: Self)
        requires
            self.files_total < u64::MAX,
        ensures
            r == (CopyProgress { files_total: (self.files_total + 1) as u64, ..self }),
    {
        CopyProgress { files_total: self.files_total + 1, ..self }
    }

    /// Records a copied regular file of `bytes` bytes (the byte count
    /// saturates).
    pub fn file_copied(self, bytes: u64) -> (r: Self)
        requires
            self.files_copied < u64::MAX,
        ensures
            r == (CopyProgress { bytes_copied: add_capped(self.bytes_copied, bytes), files_copied: (self.files_copied + 1) as u64, ..self }),
    {
        CopyProgress { bytes_copied: add_saturating(self.bytes_copied, bytes), files_copied: self.files_copied + 1, ..self }
    }

    /// Records a copied symbolic link.
    pub fn link_copied(self) -> (r: Self)
        requires
            self.files_copied < u64::MAX,
        ensures
            r == (CopyProgress { files_copied: (self.files_copied + 1) as u64, ..self }),
    {
        CopyProgress { files_copied: self.files_copied + 1, ..self }
    }
}

#[derive(Debug, Clone)]
pub struct RsyncOptions {
    pub archive: bool,
    pub preserve_xattrs: bool,
    pub preserve_acls: bool,
    pub numeric_ids: bool,
    pub prefer_native: bool,
    pub allow_rsync_fallback: bool,
    /// rsync `--info` value (e.g. `progress2`).
    pub info: Option<String>,
    /// Extra rsync args (verbatim).
    pub extra_args: Vec<String>,
}

pub open spec fn strings_of(v: Seq<String>) -> Seq<Seq<char>> {
    v.map_values(|s: String| s@)
}

impl RsyncOptions {
    pub fn progress2_archive() -> (r: Self)
        ensures
            r.archive && r.preserve_xattrs && r.preserve_acls && r.numeric_ids,
            r.prefer_native && r.allow_rsync_fallback,
            r.info matches Some(i) && i@ == "progress2"@,
            r.extra_args@.len() == 0,
    {
        RsyncOptions {
            archive: true,
            preserve_xattrs: true,
            preserve_acls: true,
            numeric_ids: true,
            prefer_native: true,
            allow_rsync_fallback: true,
            info: Some(String::from_str("progress2")),
            extra_args: Vec::new(),
        }
    }

    pub fn vfat_safe() -> (r: Self)
        ensures
            !r.archive && !r.preserve_xattrs && !r.preserve_acls && !r.numeric_ids,
            r.prefer_native && r.allow_rsync_fallback,
            r.info is None,
            strings_of(r.extra_args@) == seq!["-rltD"@, "--no-owner"@, "--no-group"@, "--no-perms"@],
    {
        let mut extra: Vec<String> = Vec::new();
        extra.push(String::from_str("-rltD"));
        extra.push(String::from_str("--no-owner"));
        extra.push(String::from_str("--no-group"));
        extra.push(String::from_str("--no-perms"));
        assert(strings_of(extra@) =~= seq!["-rltD"@, "--no-owner"@, "--no-group"@, "--no-perms"@]);
        RsyncOptions {
            archive: false,
            preserve_xattrs: false,
            preserve_acls: false,
            numeric_ids: false,
            prefer_native: true,
            allow_rsync_fallback: true,
            info: None,
            extra_args: extra,
        }
    }
}

/// What `/etc/os-release` says about the host.
#[derive(Debug, Clone, PartialEq, Eq)]
pub struct OsReleaseInfo {
    pub id: Option<String>,
    pub version_id: Option<String>,
}

} // verus!
