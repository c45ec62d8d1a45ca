//! Block devices as sysfs describes them: transport, boot tag and the
//! canonical label shown in the disk list.
use crate::os_release::lowercase;
use crate::text::{
    chars_of, contains_seq, contains_str, dec_digits, has_prefix, parse_u64_vec, parse_unsigned,
    push_chars, push_str, split_char, split_char_vec, starts_with_str, string_of, trim_ws, trim_ws_vec,
    u64_to_dec, views,
};
use vstd::prelude::*;

verus! {

/// Best-effort transport type of a block device.
#[derive(Debug, Clone, Copy, PartialEq, Eq, Structural)]
pub enum TransportType {
    Usb,
    Nvme,
    Sata,
    Mmc,
    Scsi,
    Unknown,
}

pub open spec fn transport_hint(t: TransportType) -> Seq<char> {
    match t {
        TransportType::Usb => "USB"@,
        TransportType::Nvme => "NVMe"@,
        TransportType::Sata => "SATA"@,
        TransportType::Mmc => "MMC"@,
        TransportType::Scsi => "SCSI"@,
        TransportType::Unknown => "Unknown"@,
    }
}

impl TransportType {
    /// Short display name of the transport.
    pub fn hint(&self) -> (r: &'static str)
        ensures
            r@ == transport_hint(*self),
    {
        match self {
            TransportType::Usb => "USB",
            TransportType::Nvme => "NVMe",
            TransportType::Sata => "SATA",
            TransportType::Mmc => "MMC",
            TransportType::Scsi => "SCSI",
            TransportType::Unknown => "Unknown",
        }
    }
}

/// How the UI should tag the boot relationship for a disk.
#[derive(Debug, Clone, Copy, PartialEq, Eq, Structural)]
pub enum BootTag {
    BootMedia,
    BootMaybe,
    NotBoot,
    Unknown,
}

pub open spec fn boot_tag_label(b: BootTag) -> Seq<char> {
    match b {
        BootTag::BootMedia => "BOOT MEDIA"@,
        BootTag::BootMaybe => "BOOT?"@,
        BootTag::NotBoot => "BOOT: NO"@,
        BootTag::Unknown => "BOOT: UNKNOWN"@,
    }
}

impl BootTag {
    pub fn label(&self) -> (r: &'static str)
        ensures
            r@ == boot_tag_label(*self),
    {
        match self {
            BootTag::BootMedia => "BOOT MEDIA",
            BootTag::BootMaybe => "BOOT?",
            BootTag::NotBoot => "BOOT: NO",
            BootTag::Unknown => "BOOT: UNKNOWN",
        }
    }
}

/// The last `/`-separated segment that is neither empty nor `.`.
pub open spec fn last_name_segment(parts: Seq<Seq<char>>) -> Option<Seq<char>>
    decreases parts.len(),
{
    if parts.len() == 0 {
        None
    } else if parts.last().len() == 0 || parts.last() == "."@ {
        last_name_segment(parts.drop_last())
    } else {
        Some(parts.last())
    }
}

/// `Path::file_name` on Unix: the final component of the path when it is a
/// normal name (empty and `.` segments do not count; `..` or nothing left
/// gives none).
pub open spec fn path_file_name(p: Seq<char>) -> Option<Seq<char>> {
    match last_name_segment(split_char(p, '/')) {
        Some(n) => if n == ".."@ {
            None
        } else {
            Some(n)
        },
        None => None,
    }
}

/// The final normal component of a path (`Path::file_name`).
pub fn file_name_of(path: &str) -> (r: Option<String>)
    ensures
        match r {
            Some(s) => path_file_name(path@) == Some(s@),
            None => path_file_name(path@) is None,
        },
{
    proof {
        reveal_strlit(".");
        reveal_strlit("..");
    }
    let v = chars_of(path);
    let parts = split_char_vec(&v, '/');
    let ghost ps = views(parts@);
    assert(ps.take(parts.len() as int) =~= ps);
    let mut k: usize = parts.len();
    while k > 0
        invariant
            k <= parts.len(),
            ps == views(parts@),
            ps == split_char(path@, '/'),
            last_name_segment(ps) == last_name_segment(ps.take(k as int)),
        decreases k,
    {
        proof {
            reveal_strlit(".");
            reveal_strlit("..");
        }
        let seg = &parts[k - 1];
        let ghost t = ps.take(k as int);
        assert(t.last() == seg@);
        assert(t.drop_last() =~= ps.take(k - 1));
        if seg.len() == 0 || (seg.len() == 1 && seg[0] == '.') {
            assert(seg.len() == 1 ==> seg@ =~= "."@);
            k -= 1;
        } else {
            assert(seg@ != "."@) by {
                if seg@ == "."@ {
                    assert(seg@.len() == 1 && seg@[0] == '.');
                }
            }
            if seg.len() == 2 && seg[0] == '.' && seg[1] == '.' {
                assert(seg@ =~= ".."@);
                return None;
            }
            assert(seg@ != ".."@) by {
                if seg@ == ".."@ {
                    assert(seg@.len() == 2 && seg@[0] == '.' && seg@[1] == '.');
                }
            }
            return Some(string_of(seg));
        }
    }
    assert(ps.take(0) =~= Seq::<Seq<char>>::empty());
    None
}

/// The device name of a device path (`/dev/sda` gives `sda`); an error for a
/// path with no final name.
pub fn device_basename(path: &str) -> (r: Result<String, anyhow::Error>)
    ensures
        match r {
            Ok(s) => path_file_name(path@) == Some(s@),
            Err(_) => path_file_name(path@) is None,
        },
{
    match file_name_of(path) {
        Some(name) => Ok(name),
        None => Err(invalid_device_path(path)),
    }
}

/// `anyhow!` with the message for an invalid device path.
#[verifier::external_body]
fn invalid_device_path(path: &str) -> anyhow::Error {
    anyhow::Error::msg(format!("invalid device path {}", path))
}

/// The size in bytes from the sector count in a sysfs `size` file (the
/// trimmed text read as a number of 512-byte sectors, saturating).
pub open spec fn sectors_to_bytes(text: Seq<char>) -> Option<u64> {
    match parse_unsigned(trim_ws(text), u64::MAX as nat) {
        Some(n) => Some(if n * 512 > u64::MAX { u64::MAX } else { (n * 512) as u64 }),
        None => None,
    }
}

pub fn parse_sector_bytes(text: &str) -> (r: Option<u64>)
    ensures
        r == sectors_to_bytes(text@),
{
    let v = chars_of(text);
    let t = trim_ws_vec(&v);
    match parse_u64_vec(&t) {
        Some(n) => Some(
            if n > u64::MAX / 512 {
                u64::MAX
            } else {
                n * 512
            },
        ),
        None => None,
    }
}

/// Whether a sysfs block device is virtual or ephemeral and left out of the
/// disk list (loop, ram, zram, device-mapper, md and optical devices).
pub open spec fn skip_block_device(name: Seq<char>) -> bool {
    has_prefix(name, "loop"@) || has_prefix(name, "ram"@) || has_prefix(name, "zram"@)
        || has_prefix(name, "dm-"@) || has_prefix(name, "md"@) || has_prefix(name, "sr"@)
}

/// The scan leaves out the virtual and ephemeral devices — loop devices,
/// RAM disks, compressed RAM (zram) swap, device-mapper and md arrays,
/// optical drives — and keeps the disks one installs to: SCSI/SATA/USB
/// (`sd*`), NVMe and MMC devices.
pub proof fn law_scan_skips_virtual_devices(name: Seq<char>)
    ensures
        has_prefix(name, "loop"@) ==> skip_block_device(name),
        has_prefix(name, "ram"@) ==> skip_block_device(name),
        has_prefix(name, "zram"@) ==> skip_block_device(name),
        has_prefix(name, "dm-"@) ==> skip_block_device(name),
        has_prefix(name, "md"@) ==> skip_block_device(name),
        has_prefix(name, "sr"@) ==> skip_block_device(name),
        has_prefix(name, "sd"@) ==> !skip_block_device(name),
        has_prefix(name, "nvme"@) ==> !skip_block_device(name),
        has_prefix(name, "mmcblk"@) ==> !skip_block_device(name),
{
    reveal_strlit("loop");
    reveal_strlit("ram");
    reveal_strlit("zram");
    reveal_strlit("dm-");
    reveal_strlit("md");
    reveal_strlit("sr");
    reveal_strlit("sd");
    reveal_strlit("nvme");
    reveal_strlit("mmcblk");
    if has_prefix(name, "sd"@) || has_prefix(name, "nvme"@) || has_prefix(name, "mmcblk"@) {
        let c0 = name[0];
        let c1 = name[1];
        assert(c0 == 's' || c0 == 'n' || c0 == 'm') by {
            if has_prefix(name, "sd"@) {
                assert(name.subrange(0, 2)[0] == name[0]);
            } else if has_prefix(name, "nvme"@) {
                assert(name.subrange(0, 4)[0] == name[0]);
            } else {
                assert(name.subrange(0, 6)[0] == name[0]);
            }
        }
        if has_prefix(name, "sd"@) {
            assert(name.subrange(0, 2)[1] == name[1]);
            assert(c0 == 's' && c1 == 'd');
        }
        if has_prefix(name, "mmcblk"@) {
            assert(name.subrange(0, 6)[1] == name[1]);
            assert(c0 == 'm' && c1 == 'm');
        }
        if has_prefix(name, "nvme"@) {
            assert(name.subrange(0, 4)[0] == name[0]);
            assert(c0 == 'n');
        }
        if has_prefix(name, "loop"@) {
            assert(name.subrange(0, 4)[0] == name[0]);
        }
        if has_prefix(name, "ram"@) {
            assert(name.subrange(0, 3)[0] == name[0]);
        }
        if has_prefix(name, "zram"@) {
            assert(name.subrange(0, 4)[0] == name[0]);
        }
        if has_prefix(name, "dm-"@) {
            assert(name.subrange(0, 3)[0] == name[0]);
        }
        if has_prefix(name, "md"@) {
            assert(name.subrange(0, 2)[0] == name[0]);
            assert(name.subrange(0, 2)[1] == name[1]);
        }
        if has_prefix(name, "sr"@) {
            assert(name.subrange(0, 2)[0] == name[0]);
            assert(name.subrange(0, 2)[1] == name[1]);
        }
    }
}

pub fn should_skip_block_device(name: &str) -> (r: bool)
    ensures
        r == skip_block_device(name@),
{
    let v = chars_of(name);
    starts_with_str(&v, "loop") || starts_with_str(&v, "ram") || starts_with_str(&v, "zram")
        || starts_with_str(&v, "dm-") || starts_with_str(&v, "md") || starts_with_str(&v, "sr")
}

/// The transport of a device, from its name first (`nvme*`, `mmcblk*`) and,
/// for `sd*` devices, from the lowercased target of its sysfs `device` link
/// (`link_hint`): USB, then ATA, else SCSI.
pub open spec fn transport_of(dev_name: Seq<char>, link_hint: Option<Seq<char>>) -> TransportType {
    if has_prefix(dev_name, "nvme"@) {
        TransportType::Nvme
    } else if has_prefix(dev_name, "mmcblk"@) {
        TransportType::Mmc
    } else if has_prefix(dev_name, "sd"@) {
        match link_hint {
            Some(h) => if contains_seq(h, "usb"@) {
                TransportType::Usb
            } else if contains_seq(h, "ata"@) {
                TransportType::Sata
            } else {
                TransportType::Scsi
            },
            None => TransportType::Scsi,
        }
    } else {
        TransportType::Unknown
    }
}

/// How a device's transport is told: NVMe and MMC devices by their names;
/// an `sd*` device by its sysfs link, USB when the link goes through a USB
/// controller, else SATA when it goes through an ATA port, else SCSI (also
/// when there is no link); any other name is of unknown transport.
pub proof fn law_transport_detection(dev_name: Seq<char>, hint: Option<Seq<char>>)
    ensures
        has_prefix(dev_name, "nvme"@) ==> transport_of(dev_name, hint) == TransportType::Nvme,
        has_prefix(dev_name, "mmcblk"@) ==> transport_of(dev_name, hint) == TransportType::Mmc,
        has_prefix(dev_name, "sd"@) ==> (hint matches Some(h) && contains_seq(h, "usb"@) ==> transport_of(dev_name, hint)
            == TransportType::Usb),
        has_prefix(dev_name, "sd"@) ==> (hint matches Some(h) && !contains_seq(h, "usb"@) && contains_seq(h, "ata"@)
            ==> transport_of(dev_name, hint) == TransportType::Sata),
        has_prefix(dev_name, "sd"@) ==> (hint matches Some(h) && !contains_seq(h, "usb"@) && !contains_seq(h, "ata"@)
            ==> transport_of(dev_name, hint) == TransportType::Scsi),
        has_prefix(dev_name, "sd"@) && hint is None ==> transport_of(dev_name, hint) == TransportType::Scsi,
        !has_prefix(dev_name, "nvme"@) && !has_prefix(dev_name, "mmcblk"@) && !has_prefix(dev_name, "sd"@)
            ==> transport_of(dev_name, hint) == TransportType::Unknown,
{
    reveal_strlit("nvme");
    reveal_strlit("mmcblk");
    reveal_strlit("sd");
    if has_prefix(dev_name, "sd"@) {
        assert(dev_name.subrange(0, 2)[0] == dev_name[0]);
        if has_prefix(dev_name, "nvme"@) {
            assert(dev_name.subrange(0, 4)[0] == dev_name[0]);
        }
        if has_prefix(dev_name, "mmcblk"@) {
            assert(dev_name.subrange(0, 6)[0] == dev_name[0]);
        }
    }
    if has_prefix(dev_name, "mmcblk"@) {
        assert(dev_name.subrange(0, 6)[0] == dev_name[0]);
        if has_prefix(dev_name, "nvme"@) {
            assert(dev_name.subrange(0, 4)[0] == dev_name[0]);
        }
    }
}

/// Best-effort transport detection from the device name and, for `sd*`
/// devices, the lowercased target of the sysfs `device` link.
pub fn detect_transport_type(dev_name: &str, link_hint: Option<&str>) -> (r: TransportType)
    ensures
        r == transport_of(
            dev_name@,
            match link_hint {
                Some(h) => Some(h@),
                None => None,
            },
        ),
{
    let n = chars_of(dev_name);
    if starts_with_str(&n, "nvme") {
        return TransportType::Nvme;
    }
    if starts_with_str(&n, "mmcblk") {
        return TransportType::Mmc;
    }
    if starts_with_str(&n, "sd") {
        if let Some(h) = link_hint {
            let hv = chars_of(h);
            if contains_str(&hv, "usb") {
                return TransportType::Usb;
            }
            if contains_str(&hv, "ata") {
                return TransportType::Sata;
            }
        }
        return TransportType::Scsi;
    }
    TransportType::Unknown
}

/// A block device found under `/sys/block`.
#[derive(Debug, Clone)]
pub struct BlockDeviceInfo {
    pub name: String,
    pub dev_path: String,
    pub sysfs_path: String,
    pub size_bytes: u64,
    pub vendor: Option<String>,
    pub model: Option<String>,
    pub serial: Option<String>,
    pub wwn: Option<String>,
    pub removable: bool,
}

/// A size in tenths of `unit`, rounded to nearest with ties to even (how
/// `{:.1}` prints the exact quotient).
pub open spec fn tenths(bytes: nat, unit: nat) -> nat {
    let q = (bytes * 10) / unit;
    let r = (bytes * 10) % unit;
    if 2 * r > unit || (2 * r == unit && q % 2 == 1) {
        q + 1
    } else {
        q
    }
}

/// `n` tenths written with one decimal (`12.3`).
pub open spec fn one_decimal(t: nat) -> Seq<char> {
    dec_digits(t / 10) + "."@ + dec_digits(t % 10)
}

/// A human-readable size: B below 1 KiB, else one decimal in the largest of
/// KiB, MiB, GiB that is at most the size.
pub open spec fn human_size_spec(bytes: nat) -> Seq<char> {
    if bytes >= 1073741824 {
        one_decimal(tenths(bytes, 1073741824)) + " GiB"@
    } else if bytes >= 1048576 {
        one_decimal(tenths(bytes, 1048576)) + " MiB"@
    } else if bytes >= 1024 {
        one_decimal(tenths(bytes, 1024)) + " KiB"@
    } else {
        dec_digits(bytes) + " B"@
    }
}

fn tenths_of(bytes: u64, unit: u64) -> (r: u64)
    requires
        unit >= 1024,
        unit % 2 == 0,
    ensures
        r == tenths(bytes as nat, unit as nat),
{
    let b = bytes as u128 * 10;
    let u = unit as u128;
    let q = b / u;
    let rem = b % u;
    let t = if 2 * rem > u || (2 * rem == u && q % 2 == 1) {
        q + 1
    } else {
        q
    };
    assert(q <= bytes as u128 * 10 / 1024) by (nonlinear_arith)
        requires
            q == b / u,
            u >= 1024,
            b == bytes as u128 * 10,
    ;
    t as u64
}

fn with_unit(t: u64, unit: &str) -> (r: String)
    ensures
        r@ == one_decimal(t as nat) + unit@,
{
    let mut out = String::new();
    push_chars(&mut out, &u64_to_dec(t / 10));
    push_str(&mut out, ".");
    push_chars(&mut out, &u64_to_dec(t % 10));
    push_str(&mut out, unit);
    out
}

pub fn human_size(bytes: u64) -> (r: String)
    ensures
        r@ == human_size_spec(bytes as nat),
{
    if bytes >= 1073741824 {
        with_unit(tenths_of(bytes, 1073741824), " GiB")
    } else if bytes >= 1048576 {
        with_unit(tenths_of(bytes, 1048576), " MiB")
    } else if bytes >= 1024 {
        with_unit(tenths_of(bytes, 1024), " KiB")
    } else {
        let mut out = String::new();
        push_chars(&mut out, &u64_to_dec(bytes));
        push_str(&mut out, " B");
        out
    }
}

/// A vendor or model string trimmed, or `None` when it is missing or blank.
pub open spec fn present(o: Option<String>) -> Option<Seq<char>> {
    match o {
        Some(s) => if trim_ws(s@).len() > 0 {
            Some(trim_ws(s@))
        } else {
            None
        },
        None => None,
    }
}

fn present_of(o: &Option<String>) -> (r: Option<Vec<char>>)
    ensures
        match r {
            Some(v) => present(*o) == Some(v@),
            None => present(*o) is None,
        },
{
    match o {
        Some(s) => {
            let v = chars_of(s.as_str());
            let t = trim_ws_vec(&v);
            if t.len() > 0 {
                Some(t)
            } else {
                None
            }
        },
        None => None,
    }
}

/// The label after its identity: transport, size, location and boot tag.
pub open spec fn label_tail(dev: BlockDeviceInfo, boot: BootTag, transport: TransportType) -> Seq<char> {
    let location = if dev.removable { "REMOVABLE"@ } else { "INTERNAL"@ };
    " ("@ + transport_hint(transport) + ") "@ + human_size_spec(dev.size_bytes as nat) + " ["@ + location
        + "] ["@ + boot_tag_label(boot) + "]"@
}

/// The identity used when sysfs gave no usable vendor and model.
pub open spec fn unknown_identity(dev: BlockDeviceInfo) -> Seq<char> {
    "Unknown disk ("@ + human_size_spec(dev.size_bytes as nat) + ") - missing sysfs data"@
}

/// The canonical disk label: identity (vendor and model, or a warning that
/// sysfs gave none), transport, size, location and boot tag.  The label is
/// never device-first: where vendor and model would make it start with
/// `/dev/`, the warning identity stands in their place.
pub open spec fn canonical_label_spec(dev: BlockDeviceInfo, boot: BootTag, transport: TransportType) -> Seq<char> {
    let fallback = unknown_identity(dev) + label_tail(dev, boot, transport);
    match (present(dev.vendor), present(dev.model)) {
        (Some(v), Some(m)) => {
            let full = v + " "@ + m + label_tail(dev, boot, transport);
            if has_prefix(full, "/dev/"@) {
                fallback
            } else {
                full
            }
        },
        _ => fallback,
    }
}

/// Canonical, non-device-first disk label for UI display; `link_hint` is the
/// lowercased target of the device's sysfs `device` link, when it could be
/// read.
pub fn canonical_disk_label(dev: &BlockDeviceInfo, boot: BootTag, link_hint: Option<&str>) -> (r: String)
    ensures
        r@ == canonical_label_spec(
            *dev,
            boot,
            transport_of(
                dev.name@,
                match link_hint {
                    Some(h) => Some(h@),
                    None => None,
                },
            ),
        ),
        !has_prefix(r@, "/dev/"@),
{
    let size = human_size(dev.size_bytes);
    let transport = detect_transport_type(dev.name.as_str(), link_hint);
    let location = if dev.removable {
        "REMOVABLE"
    } else {
        "INTERNAL"
    };
    let mut tail = String::new();
    push_str(&mut tail, " (");
    push_str(&mut tail, transport.hint());
    push_str(&mut tail, ") ");
    push_str(&mut tail, size.as_str());
    push_str(&mut tail, " [");
    push_str(&mut tail, location);
    push_str(&mut tail, "] [");
    push_str(&mut tail, boot.label());
    push_str(&mut tail, "]");
    assert(tail@ =~= label_tail(*dev, boot, transport));
    let mut fallback = String::new();
    push_str(&mut fallback, "Unknown disk (");
    push_str(&mut fallback, size.as_str());
    push_str(&mut fallback, ") - missing sysfs data");
    assert(fallback@ =~= unknown_identity(*dev));
    push_str(&mut fallback, tail.as_str());
    proof {
        reveal_strlit("Unknown disk (");
        reveal_strlit("/dev/");
        assert(fallback@[0] == 'U');
        assert(!has_prefix(fallback@, "/dev/"@)) by {
            if has_prefix(fallback@, "/dev/"@) {
                assert(fallback@.subrange(0, 5)[0] == fallback@[0]);
            }
        }
    }
    match (present_of(&dev.vendor), present_of(&dev.model)) {
        (Some(v), Some(m)) => {
            let mut full = String::new();
            push_chars(&mut full, &v);
            push_str(&mut full, " ");
            push_chars(&mut full, &m);
            push_str(&mut full, tail.as_str());
            if starts_with_str(&chars_of(full.as_str()), "/dev/") {
                fallback
            } else {
                full
            }
        },
        _ => fallback,
    }
}

/// The trimmed text of a sysfs attribute, or `None` when it is blank.
pub open spec fn attribute(text: Option<Seq<char>>) -> Option<Seq<char>> {
    match text {
        Some(t) => if trim_ws(t).len() > 0 {
            Some(trim_ws(t))
        } else {
            None
        },
        None => None,
    }
}

fn attribute_of(text: Option<String>) -> (r: Option<String>)
    ensures
        match r {
            Some(s) => attribute(match text {
                Some(t) => Some(t@),
                None => None,
            }) == Some(s@),
            None => attribute(match text {
                Some(t) => Some(t@),
                None => None,
            }) is None,
        },
{
    match text {
        Some(t) => {
            let v = chars_of(t.as_str());
            let tr = trim_ws_vec(&v);
            if tr.len() > 0 {
                Some(string_of(&tr))
            } else {
                None
            }
        },
        None => None,
    }
}

/// What the sysfs files of one block device say, as read from disk
/// (`None` for a file that could not be read).
pub struct SysfsReadings {
    pub size: Option<String>,
    pub vendor: Option<String>,
    pub model: Option<String>,
    pub serial: Option<String>,
    pub wwid: Option<String>,
    pub wwn: Option<String>,
    pub removable: Option<String>,
}

pub open spec fn opt_view(o: Option<String>) -> Option<Seq<char>> {
    match o {
        Some(s) => Some(s@),
        None => None,
    }
}

/// The entry for one device directory of `/sys/block`, or `None` when the
/// device is skipped: virtual names, an unreadable or zero size.
pub fn block_device_from_sysfs(name: &str, sysfs_path: &str, readings: SysfsReadings) -> (r: Option<BlockDeviceInfo>)
    ensures
        skip_block_device(name@) ==> r is None,
        !skip_block_device(name@) && (match opt_view(readings.size) {
            Some(t) => sectors_to_bytes(t) matches Some(b) && b > 0,
            None => false,
        }) <==> r is Some,
        r matches Some(d) ==> {
            &&& d.name@ == name@
            &&& d.dev_path@ == "/dev/"@ + name@
            &&& d.sysfs_path@ == sysfs_path@
            &&& Some(d.size_bytes) == sectors_to_bytes(opt_view(readings.size)->0)
            &&& opt_view(d.vendor) == attribute(opt_view(readings.vendor))
            &&& opt_view(d.model) == attribute(opt_view(readings.model))
            &&& opt_view(d.serial) == attribute(opt_view(readings.serial))
            &&& opt_view(d.wwn) == (if attribute(opt_view(readings.wwid)) is Some {
                attribute(opt_view(readings.wwid))
            } else {
                attribute(opt_view(readings.wwn))
            })
            &&& d.removable == (match attribute(opt_view(readings.removable)) {
                Some(t) => parse_unsigned(t, u64::MAX as nat) == Some(1nat),
                None => false,
            })
        },
{
    if should_skip_block_device(name) {
        return None;
    }
    let size_bytes = match &readings.size {
        Some(t) => match parse_sector_bytes(t.as_str()) {
            Some(b) => b,
            None => return None,
        },
        None => return None,
    };
    if size_bytes == 0 {
        return None;
    }
    let removable = match attribute_of(readings.removable) {
        Some(t) => {
            let tv = chars_of(t.as_str());
            match parse_u64_vec(&tv) {
                Some(n) => n == 1,
                None => false,
            }
        },
        None => false,
    };
    let wwid = attribute_of(readings.wwid);
    let wwn = match wwid {
        Some(w) => Some(w),
        None => attribute_of(readings.wwn),
    };
    let mut dev_path = String::from_str("/dev/");
    push_str(&mut dev_path, name);
    Some(
        BlockDeviceInfo {
            name: String::from_str(name),
            dev_path,
            sysfs_path: String::from_str(sysfs_path),
            size_bytes,
            vendor: attribute_of(readings.vendor),
            model: attribute_of(readings.model),
            serial: attribute_of(readings.serial),
            wwn,
            removable,
        },
    )
}

} // verus!
