//! Preflight: the read-only checks that gate an installation.  The checks
//! read `/proc`, sysfs, the filesystem and the network at the edge; what is
//! decided from what they read is here.
use crate::path::{join_path, join_path_spec};
use crate::procfs::{
    mem_available_spec, mounted_under_device, mounts_from, parse_mem_available_kb,
    root_mount_source, root_source_from, strictly_sorted, views_of,
};
use crate::text::{
    all_digits, char_is_digit, chars_of, has_prefix, is_digit, last_index_of, last_index_of_vec,
    lines, starts_with, starts_with_str, str_eq, strip_trailing_digits, strip_trailing_digits_vec,
    sub_vec,
};
use vstd::prelude::*;

verus! {

/// Minimum available RAM, in MiB.
pub const MIN_RAM_MB: u64 = 4096;

/// Minimum free space on the host, and minimum target disk size, in GiB.
pub const MIN_DISK_GB: u64 = 16;

/// Seconds to wait for the network endpoint.
pub const NETWORK_TIMEOUT_SECS: u64 = 3;

/// Bytes in one GiB.
pub const GIB: u64 = 1073741824;

/// Settings of the preflight checks.
#[derive(Debug, Clone)]
pub struct PreflightConfig {
    pub min_ram_mb: u64,
    pub min_disk_gb: u64,
    pub min_target_disk_gb: u64,
    pub disk_space_path: String,
    pub target_disk: Option<String>,
    pub network_endpoint: Option<(String, u16)>,
    pub required_binaries: Vec<String>,
}

/// Binaries a full install needs by default.
pub open spec fn default_binaries() -> Seq<Seq<char>> {
    seq!["dnf"@, "mkfs.ext4"@, "mkfs.btrfs"@, "mount"@, "rsync"@, "systemctl"@]
}

impl PreflightConfig {
    /// The default thresholds, the root filesystem for the space check and
    /// the Fedora mirror as network endpoint.
    pub open spec fn has_default_checks(self) -> bool {
        &&& self.min_ram_mb == MIN_RAM_MB
        &&& self.min_disk_gb == MIN_DISK_GB
        &&& self.min_target_disk_gb == MIN_DISK_GB
        &&& self.disk_space_path@ == "/"@
    }

    pub open spec fn has_default_endpoint(self) -> bool {
        self.network_endpoint matches Some((host, port)) && host@ == "kde.fedoraproject.org"@ && port
            == 443
    }

    /// The configuration `for_install` gives for these arguments.
    pub open spec fn is_for_install(
        self,
        disk: Option<String>,
        requires_network: bool,
        bins: Seq<Seq<char>>,
    ) -> bool {
        &&& self.has_default_checks()
        &&& self.target_disk == disk
        &&& requires_network ==> self.has_default_endpoint()
        &&& !requires_network ==> self.network_endpoint is None
        &&& views_of(self.required_binaries@) == bins
    }

    /// Defaults for an install: the target disk, whether the network is
    /// checked, and exactly the binaries the selected stages need (an empty
    /// list means no binary requirements).
    pub fn for_install(disk: Option<String>, requires_network: bool, required_binaries: Vec<String>) -> (r: Self)
        ensures
            r.is_for_install(disk, requires_network, views_of(required_binaries@)),
    {
        let mut cfg = Self::default();
        if let Some(target) = disk {
            cfg.target_disk = Some(target);
        }
        if !requires_network {
            cfg.network_endpoint = None;
        }
        cfg.required_binaries = required_binaries;
        cfg
    }
}

impl Default for PreflightConfig {
    fn default() -> (r: Self)
        ensures
            r.is_for_install(None, true, default_binaries()),
    {
        let mut bins: Vec<String> = Vec::new();
        bins.push(String::from_str("dnf"));
        bins.push(String::from_str("mkfs.ext4"));
        bins.push(String::from_str("mkfs.btrfs"));
        bins.push(String::from_str("mount"));
        bins.push(String::from_str("rsync"));
        bins.push(String::from_str("systemctl"));
        assert(views_of(bins@) =~= default_binaries());
        Self {
            min_ram_mb: MIN_RAM_MB,
            min_disk_gb: MIN_DISK_GB,
            min_target_disk_gb: MIN_DISK_GB,
            disk_space_path: String::from_str("/"),
            target_disk: None,
            network_endpoint: Some((String::from_str("kde.fedoraproject.org"), 443)),
            required_binaries: bins,
        }
    }
}

/// Why a preflight check refused the installation.
#[derive(Debug, Clone)]
pub enum PreflightError {
    /// `/proc/meminfo` gave no available-memory figure.
    RamUnknown,
    InsufficientRam { available_mb: u64, required_mb: u64 },
    InsufficientDiskSpace { path: String, available_bytes: u64, required_gb: u64 },
    NotBlockDevice(String),
    /// The device has no entry under `/sys/class/block`.
    UnknownBlockDevice(String),
    IsPartition(String),
    /// Filesystems of the target disk are mounted: the disk and the mount points.
    MountedFilesystems { disk: String, mounts: Vec<String> },
    /// The target is the disk the running system booted from.
    IsRootDisk { disk: String, root_disk: String },
    TargetTooSmall { disk: String, size_bytes: u64, required_gb: u64 },
    NotFedora(String),
    UnknownFedoraVersion,
    BinaryNotFound(String),
    NotRegularFile(String),
    NotExecutable(String),
}

// ---------------------------------------------------------------------------
// RAM and disk space
// ---------------------------------------------------------------------------

pub open spec fn ram_verdict(meminfo: Seq<char>, min_mb: u64) -> Result<(), PreflightError> {
    match mem_available_spec(meminfo) {
        None => Err(PreflightError::RamUnknown),
        Some(kb) => if kb / 1024 < min_mb {
            Err(PreflightError::InsufficientRam { available_mb: kb / 1024, required_mb: min_mb })
        } else {
            Ok(())
        },
    }
}

/// The RAM check on the content of `/proc/meminfo`.
pub fn check_ram(meminfo: &str, min_mb: u64) -> (r: Result<(), PreflightError>)
    ensures
        r == ram_verdict(meminfo@, min_mb),
{
    match parse_mem_available_kb(meminfo) {
        None => Err(PreflightError::RamUnknown),
        Some(kb) => {
            let available_mb = kb / 1024;
            if available_mb < min_mb {
                Err(PreflightError::InsufficientRam { available_mb, required_mb: min_mb })
            } else {
                Ok(())
            }
        },
    }
}

/// The free-space check: at least `min_gb` GiB available at `path`.
pub fn check_disk_space(path: &str, available_bytes: u64, min_gb: u64) -> (r: Result<(), PreflightError>)
    ensures
        r is Ok <==> available_bytes >= min_gb * GIB,
        r matches Err(e) ==> e matches PreflightError::InsufficientDiskSpace { path: p, available_bytes: a, required_gb: g }
            && p@ == path@ && a == available_bytes && g == min_gb,
{
    assert((min_gb as u128) * (GIB as u128) <= 0xffff_ffff_ffff_ffffu128 * 0x4000_0000u128) by (nonlinear_arith)
        requires
            min_gb <= 0xffff_ffff_ffff_ffffu64,
    ;
    if (available_bytes as u128) < (min_gb as u128) * (GIB as u128) {
        Err(PreflightError::InsufficientDiskSpace {
            path: String::from_str(path),
            available_bytes,
            required_gb: min_gb,
        })
    } else {
        Ok(())
    }
}

// ---------------------------------------------------------------------------
// Target disk
// ---------------------------------------------------------------------------

/// `s` with every leading repetition of `p` removed (`trim_start_matches`).
pub open spec fn trim_start_all(s: Seq<char>, p: Seq<char>) -> Seq<char>
    decreases s.len(),
{
    if p.len() > 0 && has_prefix(s, p) {
        trim_start_all(s.skip(p.len() as int), p)
    } else {
        s
    }
}

/// The whole-disk device of a `/dev` path: NVMe, MMC and loop names lose a
/// `p<digits>` suffix, other names their trailing digits (unless nothing
/// would be left).  `None` for paths outside `/dev/`.
pub open spec fn base_block_device_spec(device: Seq<char>) -> Option<Seq<char>> {
    if !has_prefix(device, "/dev/"@) {
        None
    } else {
        let name = trim_start_all(device, "/dev/"@);
        let base = if has_prefix(name, "nvme"@) || has_prefix(name, "mmcblk"@) || has_prefix(
            name,
            "loop"@,
        ) {
            match last_index_of(name, 'p') {
                Some(idx) => if idx + 1 < name.len() && all_digits(name.skip(idx + 1)) {
                    name.take(idx)
                } else {
                    name
                },
                None => name,
            }
        } else {
            let trimmed = strip_trailing_digits(name);
            if trimmed.len() == 0 {
                name
            } else {
                trimmed
            }
        };
        Some("/dev/"@ + base)
    }
}

fn trim_start_all_vec(v: &Vec<char>, p: &Vec<char>) -> (r: Vec<char>)
    requires
        p.len() > 0,
    ensures
        r@ == trim_start_all(v@, p@),
{
    let mut r = v.clone();
    assert(r@ =~= v@);
    while starts_with(&r, p)
        invariant
            p.len() > 0,
            trim_start_all(r@, p@) == trim_start_all(v@, p@),
        decreases r.len(),
    {
        let ghost before = r@;
        r = sub_vec(&r, p.len(), r.len());
        assert(r@ =~= before.skip(p.len() as int));
    }
    r
}

/// Whether `v[from..]` is non-empty and all ASCII digits.
fn digits_after(v: &Vec<char>, from: usize) -> (r: bool)
    requires
        from <= v.len(),
    ensures
        r == (from < v.len() && all_digits(v@.skip(from as int))),
{
    let mut i = from;
    let mut all = true;
    while i < v.len()
        invariant
            from <= i <= v.len(),
            all == (forall|k: int| from <= k < i ==> is_digit(#[trigger] v@[k])),
        decreases v.len() - i,
    {
        if !char_is_digit(v[i]) {
            all = false;
        }
        i += 1;
    }
    proof {
        assert(all == (forall|k: int| 0 <= k < v@.skip(from as int).len() ==> is_digit(#[trigger] v@.skip(from as int)[k])) ) by {
            if all {
                assert forall|k: int| 0 <= k < v@.skip(from as int).len() implies is_digit(#[trigger] v@.skip(from as int)[k]) by {
                    assert(v@.skip(from as int)[k] == v@[from + k]);
                }
            } else {
                let k = choose|k: int| from <= k < v.len() && !is_digit(#[trigger] v@[k]);
                assert(v@.skip(from as int)[k - from] == v@[k]);
            }
        }
    }
    from < v.len() && all
}

/// The whole-disk device of `device`; see `base_block_device_spec`.
pub fn base_block_device(device: &str) -> (r: Option<String>)
    ensures
        r matches Some(s) ==> base_block_device_spec(device@) == Some(s@),
        r is None ==> base_block_device_spec(device@) is None,
{
    let v = chars_of(device);
    let dev = chars_of("/dev/");
    proof {
        reveal_strlit("/dev/");
    }
    if !starts_with(&v, &dev) {
        return None;
    }
    let name = trim_start_all_vec(&v, &dev);
    let special = has_prefix_str(&name, "nvme") || has_prefix_str(&name, "mmcblk") || has_prefix_str(&name, "loop");
    let base = if special {
        match last_index_of_vec(&name, 'p') {
            Some(idx) => {
                if digits_after(&name, idx + 1) {
                    sub_vec(&name, 0, idx)
                } else {
                    name
                }
            },
            None => name,
        }
    } else {
        let trimmed = strip_trailing_digits_vec(&name);
        if trimmed.len() == 0 {
            name
        } else {
            trimmed
        }
    };
    let mut out = String::from_str("/dev/");
    crate::text::push_chars(&mut out, &base);
    proof {
        if special {
            if let Some(idx) = last_index_of(name@, 'p') {
                assert(name@.subrange(0, idx) =~= name@.take(idx));
            }
        }
    }
    Some(out)
}

fn has_prefix_str(v: &Vec<char>, p: &str) -> (r: bool)
    ensures
        r == has_prefix(v@, p@),
{
    starts_with_str(v, p)
}

/// What the edge of the target-disk check read: the device path, its kind
/// and sysfs entry, `/proc/self/mountinfo`, the developer-mode switch and
/// the device size.
#[derive(Debug, Clone)]
pub struct TargetDiskFacts {
    pub path: String,
    pub is_block_device: bool,
    pub in_sys_block: bool,
    pub is_partition: bool,
    pub mountinfo: String,
    pub developer_mode: bool,
    pub size_bytes: u64,
}

/// The root disk and the target disk are the same whole disk.
pub open spec fn targets_root_disk(facts: TargetDiskFacts) -> bool {
    &&& !facts.developer_mode
    &&& root_source_from(lines(facts.mountinfo@)) matches Some(root)
    &&& base_block_device_spec(root) matches Some(rd)
    &&& base_block_device_spec(facts.path@) matches Some(td)
    &&& rd == td
}

/// The target-disk check, in the order the checks run.
pub fn check_target_disk(facts: &TargetDiskFacts, min_target_disk_gb: u64) -> (r: Result<(), PreflightError>)
    ensures
        !facts.is_block_device ==> (r matches Err(PreflightError::NotBlockDevice(p)) && p@ == facts.path@),
        facts.is_block_device && !facts.in_sys_block ==> (r matches Err(PreflightError::UnknownBlockDevice(p)) && p@ == facts.path@),
        facts.is_block_device && facts.in_sys_block && facts.is_partition ==> (r matches Err(PreflightError::IsPartition(p)) && p@ == facts.path@),
        r is Ok <==> {
            &&& facts.is_block_device
            &&& facts.in_sys_block
            &&& !facts.is_partition
            &&& mounts_from(lines(facts.mountinfo@), facts.path@).len() == 0
            &&& !targets_root_disk(*facts)
            &&& facts.size_bytes >= min_target_disk_gb * GIB
        },
        r matches Err(PreflightError::MountedFilesystems { disk, mounts }) ==> {
            &&& disk@ == facts.path@
            &&& strictly_sorted(views_of(mounts@))
            &&& views_of(mounts@).to_set() == mounts_from(lines(facts.mountinfo@), facts.path@).to_set()
        },
        r matches Err(PreflightError::IsRootDisk { disk, root_disk }) ==> {
            &&& disk@ == facts.path@
            &&& targets_root_disk(*facts)
            &&& base_block_device_spec(facts.path@) == Some(root_disk@)
        },
        r matches Err(PreflightError::TargetTooSmall { disk, size_bytes, required_gb }) ==> {
            &&& disk@ == facts.path@
            &&& size_bytes == facts.size_bytes
            &&& required_gb == min_target_disk_gb
        },
{
    let path = facts.path.as_str();
    if !facts.is_block_device {
        return Err(PreflightError::NotBlockDevice(String::from_str(path)));
    }
    if !facts.in_sys_block {
        return Err(PreflightError::UnknownBlockDevice(String::from_str(path)));
    }
    if facts.is_partition {
        return Err(PreflightError::IsPartition(String::from_str(path)));
    }
    let mounted = mounted_under_device(facts.mountinfo.as_str(), path);
    if mounted.len() > 0 {
        proof {
            let s = mounts_from(lines(facts.mountinfo@), facts.path@);
            assert(views_of(mounted@)[0] == mounted@[0]@);
            assert(views_of(mounted@).to_set().contains(mounted@[0]@));
            assert(s.to_set().contains(mounted@[0]@));
        }
        return Err(PreflightError::MountedFilesystems { disk: String::from_str(path), mounts: mounted });
    }
    proof {
        let s = mounts_from(lines(facts.mountinfo@), facts.path@);
        if s.len() > 0 {
            assert(s.to_set().contains(s[0]));
            assert(views_of(mounted@).to_set().contains(s[0]));
        }
    }
    if !facts.developer_mode {
        if let Some(root_source) = root_mount_source(facts.mountinfo.as_str()) {
            match (base_block_device(root_source.as_str()), base_block_device(path)) {
                (Some(root_disk), Some(target_disk)) => {
                    if str_eq(root_disk.as_str(), target_disk.as_str()) {
                        return Err(PreflightError::IsRootDisk { disk: String::from_str(path), root_disk });
                    }
                },
                _ => {},
            }
        }
    }
    assert((min_target_disk_gb as u128) * (GIB as u128) <= 0xffff_ffff_ffff_ffffu128 * 0x4000_0000u128) by (nonlinear_arith)
        requires
            min_target_disk_gb <= 0xffff_ffff_ffff_ffffu64,
    ;
    if (facts.size_bytes as u128) < (min_target_disk_gb as u128) * (GIB as u128) {
        return Err(PreflightError::TargetTooSmall {
            disk: String::from_str(path),
            size_bytes: facts.size_bytes,
            required_gb: min_target_disk_gb,
        });
    }
    Ok(())
}

// ---------------------------------------------------------------------------
// OS release and binaries
// ---------------------------------------------------------------------------

/// The OS check: the host must be Fedora with a known `VERSION_ID`.
pub fn check_os_release(id: &str, version: Option<u32>) -> (r: Result<u32, PreflightError>)
    ensures
        id@ != "fedora"@ ==> (r matches Err(PreflightError::NotFedora(found)) && found@ == id@),
        id@ == "fedora"@ && version is None ==> r matches Err(PreflightError::UnknownFedoraVersion),
        id@ == "fedora"@ && version is Some ==> r == Ok::<u32, PreflightError>(version->0),
{
    if !str_eq(id, "fedora") {
        return Err(PreflightError::NotFedora(String::from_str(id)));
    }
    match version {
        Some(v) => Ok(v),
        None => Err(PreflightError::UnknownFedoraVersion),
    }
}

/// Where `binary` is looked for, in order: `dir/binary`, then
/// `dir/binary.exe`, for each directory of `PATH` in turn.
pub open spec fn binary_candidates_spec(binary: Seq<char>, dirs: Seq<Seq<char>>) -> Seq<Seq<char>>
    decreases dirs.len(),
{
    if dirs.len() == 0 {
        seq![]
    } else {
        binary_candidates_spec(binary, dirs.drop_last()) + seq![
            join_path_spec(dirs.last(), binary),
            join_path_spec(dirs.last(), binary + ".exe"@),
        ]
    }
}

/// The paths at which `binary` is looked for; the first that exists is used.
pub fn binary_candidates(binary: &str, dirs: &Vec<String>) -> (r: Vec<String>)
    ensures
        views_of(r@) == binary_candidates_spec(binary@, views_of(dirs@)),
{
    let mut with_exe = String::from_str(binary);
    crate::text::push_str(&mut with_exe, ".exe");
    let mut r: Vec<String> = Vec::new();
    let mut i: usize = 0;
    while i < dirs.len()
        invariant
            i <= dirs.len(),
            with_exe@ == binary@ + ".exe"@,
            views_of(r@) == binary_candidates_spec(binary@, views_of(dirs@.take(i as int))),
        decreases dirs.len() - i,
    {
        let ghost before = views_of(r@);
        r.push(join_path(dirs[i].as_str(), binary));
        r.push(join_path(dirs[i].as_str(), with_exe.as_str()));
        proof {
            let d = views_of(dirs@.take(i + 1));
            assert(d.drop_last() =~= views_of(dirs@.take(i as int)));
            assert(d.last() == dirs@[i as int]@);
            assert(views_of(r@) =~= before + seq![
                join_path_spec(dirs@[i as int]@, binary@),
                join_path_spec(dirs@[i as int]@, binary@ + ".exe"@),
            ]);
        }
        i += 1;
    }
    assert(dirs@.take(dirs.len() as int) =~= dirs@);
    r
}

/// The executable check on a found binary: a regular file with an execute bit.
pub fn check_executable(path: &str, is_file: bool, mode: u32) -> (r: Result<(), PreflightError>)
    ensures
        !is_file ==> (r matches Err(PreflightError::NotRegularFile(p)) && p@ == path@),
        is_file && mode & 0o111 == 0 ==> (r matches Err(PreflightError::NotExecutable(p)) && p@ == path@),
        is_file && mode & 0o111 != 0 ==> r is Ok,
{
    if !is_file {
        return Err(PreflightError::NotRegularFile(String::from_str(path)));
    }
    if mode & 0o111 == 0 {
        return Err(PreflightError::NotExecutable(String::from_str(path)));
    }
    Ok(())
}

} // verus!
