//! Plain-value types that the Dojo state machine works on.
use crate::sysfs::block::TransportType;
use crate::tui::partition::PartitionScheme;
use vstd::prelude::*;

verus! {

/// How sure boot-device detection is that a disk holds the running system.
#[derive(Debug, Clone, Copy, PartialEq, Eq, Structural)]
pub enum BootConfidence {
    Confident,
    Unverified,
    NotBoot,
    Unknown,
}

pub open spec fn boot_conf_is_boot(b: BootConfidence) -> bool {
    b == BootConfidence::Confident || b == BootConfidence::Unverified
}

impl BootConfidence {
    /// Whether the disk is (or may be) the boot medium.
    pub fn is_boot(&self) -> (r: bool)
        ensures
            r == boot_conf_is_boot(*self),
    {
        match self {
            BootConfidence::Confident | BootConfidence::Unverified => true,
            _ => false,
        }
    }
}

/// What sysfs reports about a disk.
#[derive(Debug, Clone)]
pub struct DiskIdentity {
    pub vendor: Option<String>,
    pub model: Option<String>,
    pub serial: Option<String>,
    pub wwn: Option<String>,
    pub size_bytes: u64,
    pub transport: TransportType,
}

/// A disk offered as an installation target.
#[derive(Debug, Clone)]
pub struct DiskOption {
    pub identity: DiskIdentity,
    pub stable_id: String,
    pub path: String,
    pub removable: bool,
    pub boot_confidence: BootConfidence,
    pub is_source_disk: bool,
}

/// A disk that holds the running system (boot or source medium).
pub open spec fn disk_protected(d: DiskOption) -> bool {
    boot_conf_is_boot(d.boot_confidence) || d.is_source_disk
}

pub fn is_protected(d: &DiskOption) -> (r: bool)
    ensures
        r == disk_protected(*d),
{
    d.boot_confidence.is_boot() || d.is_source_disk
}

/// The operating systems the installer offers.
#[derive(Debug, Clone, Copy, PartialEq, Eq, Structural)]
pub enum OsDistro {
    Fedora,
    Ubuntu,
    RaspberryPiOS,
    Manjaro,
}

pub open spec fn distro_display(d: OsDistro) -> Seq<char> {
    match d {
        OsDistro::Fedora => "Fedora"@,
        OsDistro::Ubuntu => "Ubuntu"@,
        OsDistro::RaspberryPiOS => "Raspberry Pi OS"@,
        OsDistro::Manjaro => "Manjaro"@,
    }
}

impl OsDistro {
    pub fn all() -> (r: Vec<OsDistro>)
        ensures
            r@ == seq![OsDistro::Fedora, OsDistro::Ubuntu, OsDistro::RaspberryPiOS, OsDistro::Manjaro],
    {
        let v = vec![OsDistro::Fedora, OsDistro::Ubuntu, OsDistro::RaspberryPiOS, OsDistro::Manjaro];
        assert(v@ =~= seq![OsDistro::Fedora, OsDistro::Ubuntu, OsDistro::RaspberryPiOS, OsDistro::Manjaro]);
        v
    }

    pub fn display(&self) -> (r: &'static str)
        ensures
            r@ == distro_display(*self),
    {
        match self {
            OsDistro::Fedora => "Fedora",
            OsDistro::Ubuntu => "Ubuntu",
            OsDistro::RaspberryPiOS => "Raspberry Pi OS",
            OsDistro::Manjaro => "Manjaro",
        }
    }

    pub fn is_available(&self) -> (r: bool)
        ensures
            r,
    {
        true
    }
}

/// Where the OS image comes from.
#[derive(Debug, Clone, Copy, PartialEq, Eq, Structural)]
pub enum ImageSource {
    LocalFile,
    DownloadCatalogue,
}

/// Where the EFI firmware comes from.
#[derive(Debug, Clone, Copy, PartialEq, Eq, Structural)]
pub enum EfiSource {
    DownloadEfiImage,
    LocalEfiImage,
}

impl EfiSource {
    pub fn all() -> (r: Vec<EfiSource>)
        ensures
            r@ == seq![EfiSource::DownloadEfiImage, EfiSource::LocalEfiImage],
    {
        let v = vec![EfiSource::DownloadEfiImage, EfiSource::LocalEfiImage];
        assert(v@ =~= seq![EfiSource::DownloadEfiImage, EfiSource::LocalEfiImage]);
        v
    }
}

#[derive(Debug, Clone)]
pub struct SourceOption {
    pub label: String,
    pub value: ImageSource,
}

#[derive(Debug, Clone)]
pub struct OsVariantOption {
    /// Variant id from the download catalogue.
    pub id: String,
    /// Human display label.
    pub label: String,
}

#[derive(Debug, Clone)]
pub struct ImageOption {
    pub label: String,
    pub version: String,
    pub edition: String,
    pub path: String,
}

#[derive(Debug, Clone)]
pub struct OptionToggle {
    pub label: String,
    pub enabled: bool,
}

/// One image of the download catalogue.
#[derive(Debug, Clone)]
pub struct CatalogueImage {
    pub os: OsDistro,
    pub variant: String,
    pub arch: String,
    pub file_name: String,
}

/// State of an installation step.
#[derive(Debug, Clone, Copy, PartialEq, Eq, Structural)]
pub enum StepState {
    Pending,
    Running,
    Completed,
    Failed,
    Skipped,
}

/// A download the UI may ask for.
#[derive(Debug, Clone, PartialEq, Eq)]
pub enum DownloadType {
    FedoraImage { version: String, edition: String, dest_dir: String },
    UefiFirmware { dest_dir: String },
}

/// Keys the state machine reacts to.
#[derive(Debug, Clone, Copy, PartialEq, Eq, Structural)]
pub enum KeyCode {
    Char(char),
    Enter,
    Esc,
    Backspace,
    Delete,
    Left,
    Right,
    Up,
    Down,
    Home,
    End,
    Tab,
    BackTab,
    F(u8),
    Other,
}

/// A key press: the key and whether Control was held.
#[derive(Debug, Clone, Copy, PartialEq, Eq, Structural)]
pub struct KeyEvent {
    pub code: KeyCode,
    pub control: bool,
}

impl KeyEvent {
    pub fn new(code: KeyCode) -> (r: KeyEvent)
        ensures
            r.code == code && !r.control,
    {
        KeyEvent { code, control: false }
    }
}

/// Disk identity as recorded in the install report.
#[derive(Debug, Clone)]
pub struct DiskIdentityReport {
    pub vendor: Option<String>,
    pub model: Option<String>,
    pub transport: Option<String>,
    pub size_bytes: Option<u64>,
}

/// Everything the execution pipeline needs to perform an installation.
#[derive(Debug, Clone)]
pub struct FlashConfig {
    pub mash_root: String,
    pub state_path: String,
    pub os_distro: OsDistro,
    pub os_variant: String,
    pub image: String,
    pub disk: String,
    pub scheme: PartitionScheme,
    pub uefi_dir: String,
    pub auto_unmount: bool,
    pub watch: bool,
    pub locale: Option<String>,
    pub early_ssh: bool,
    pub efi_size: String,
    pub boot_size: String,
    pub root_end: String,
    pub download_uefi_firmware: bool,
    pub image_source_selection: ImageSource,
    pub image_version: String,
    pub image_edition: String,
    pub dry_run: bool,
    pub disk_identity: Option<DiskIdentityReport>,
    pub os_distro_label: String,
    pub os_flavour_label: String,
    pub typed_execute_confirmation: bool,
}

/// What the caller has to do after a key was handled.
#[derive(Debug)]
pub enum InputResult {
    Continue,
    Quit,
    Complete,
    StartFlash(Box<FlashConfig>),
    StartDownload(DownloadType),
    /// Scan the disks again and hand the result to `App::rescan_disks`.
    RescanDisks,
}

} // verus!
