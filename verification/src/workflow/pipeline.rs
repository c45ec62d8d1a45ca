//! The install pipeline: its configuration, the plan of stages shown before
//! anything runs, and the stage definitions handed to the stage runner.
use crate::hal::error::HalError;
use crate::hal::ops::{gated, FormatOps, MountOps};
use crate::hal::options::{FormatOptions, MountOptions};
use crate::path::{join_path, join_path_spec};
use crate::procfs::views_of;
use crate::text::{dec_digits, dec_pad2, push_chars, push_str, str_eq, u64_to_pad2, u64_to_string};
use crate::workflow::error::WorkflowError;
use crate::workflow::os_install::ImageKey;
use crate::workflow::preflight::PreflightConfig;
use crate::tui::types::OsDistro;
use vstd::prelude::*;

verus! {

// ---------------------------------------------------------------------------
// Configuration
// ---------------------------------------------------------------------------

/// A filesystem to mount: device, mount point and optional type.
#[derive(Debug, Clone)]
pub struct MountSpec {
    pub device: String,
    pub target: String,
    pub fstype: Option<String>,
}

impl MountSpec {
    fn duplicate(&self) -> (r: MountSpec)
        ensures
            r == *self,
    {
        MountSpec {
            device: self.device.clone(),
            target: self.target.clone(),
            fstype: self.fstype.clone(),
        }
    }
}

fn copy_mounts(v: &Vec<MountSpec>) -> (r: Vec<MountSpec>)
    ensures
        r@ == v@,
{
    let mut r: Vec<MountSpec> = Vec::new();
    let mut i: usize = 0;
    while i < v.len()
        invariant
            i <= v.len(),
            r@ == v@.take(i as int),
        decreases v.len() - i,
    {
        r.push(v[i].duplicate());
        assert(v@.take(i + 1) =~= v@.take(i as int).push(v@[i as int]));
        i += 1;
    }
    assert(v@.take(v.len() as int) =~= v@);
    r
}

fn copy_strings(v: &Vec<String>) -> (r: Vec<String>)
    ensures
        r@ == v@,
{
    let r = v.clone();
    assert(r@ =~= v@);
    r
}

/// Everything the pipeline needs to plan and run an installation.
#[derive(Debug, Clone)]
pub struct InstallConfig {
    pub dry_run: bool,
    pub execute: bool,
    pub state_path: String,
    pub disk: Option<String>,
    pub mounts: Vec<MountSpec>,
    pub format_ext4: Vec<String>,
    pub format_btrfs: Vec<String>,
    pub packages: Vec<String>,
    pub kernel_fix: bool,
    pub kernel_fix_root: Option<String>,
    pub mountinfo_path: Option<String>,
    pub by_uuid_path: Option<String>,
    pub reboot_count: u32,
    pub mash_root: String,
    pub download_image: bool,
    pub download_uefi: bool,
    pub image_version: String,
    pub image_edition: String,
    pub download_mirror: Option<String>,
    pub download_checksum: Option<String>,
    pub download_checksum_url: Option<String>,
    pub download_timeout_secs: u64,
    pub download_retries: usize,
    pub download_dir: String,
}

/// Settings of the download stage.
#[derive(Debug, Clone)]
pub struct DownloadStageConfig {
    pub enabled: bool,
    pub mirror_override: Option<String>,
    pub checksum_override: Option<String>,
    pub checksum_url: Option<String>,
    pub timeout_secs: u64,
    pub retries: usize,
    pub download_dir: String,
}

impl DownloadStageConfig {
    pub open spec fn of_install(self, cfg: InstallConfig) -> bool {
        &&& self.enabled == cfg.download_image
        &&& self.mirror_override == cfg.download_mirror
        &&& self.checksum_override == cfg.download_checksum
        &&& self.checksum_url == cfg.download_checksum_url
        &&& self.timeout_secs == cfg.download_timeout_secs
        &&& self.retries == cfg.download_retries
        &&& self.download_dir == cfg.download_dir
    }

    pub fn from_install_config(cfg: &InstallConfig) -> (r: Self)
        ensures
            r.of_install(*cfg),
    {
        Self {
            enabled: cfg.download_image,
            mirror_override: cfg.download_mirror.clone(),
            checksum_override: cfg.download_checksum.clone(),
            checksum_url: cfg.download_checksum_url.clone(),
            timeout_secs: cfg.download_timeout_secs,
            retries: cfg.download_retries,
            download_dir: cfg.download_dir.clone(),
        }
    }
}

/// Devices the disk stage formats.
#[derive(Debug, Clone)]
pub struct DiskStageConfig {
    pub format_ext4: Vec<String>,
    pub format_btrfs: Vec<String>,
}

impl DiskStageConfig {
    pub open spec fn of_install(self, cfg: InstallConfig) -> bool {
        &&& self.format_ext4@ == cfg.format_ext4@
        &&& self.format_btrfs@ == cfg.format_btrfs@
    }

    pub fn from_install_config(cfg: &InstallConfig) -> (r: Self)
        ensures
            r.of_install(*cfg),
    {
        Self { format_ext4: copy_strings(&cfg.format_ext4), format_btrfs: copy_strings(&cfg.format_btrfs) }
    }
}

/// Settings of the kernel-fix (boot) stage.
#[derive(Debug, Clone)]
pub struct BootStageConfig {
    pub enabled: bool,
    pub root: Option<String>,
    pub mountinfo: Option<String>,
    pub by_uuid: Option<String>,
}

impl BootStageConfig {
    pub open spec fn of_install(self, cfg: InstallConfig) -> bool {
        &&& self.enabled == cfg.kernel_fix
        &&& self.root == cfg.kernel_fix_root
        &&& self.mountinfo == cfg.mountinfo_path
        &&& self.by_uuid == cfg.by_uuid_path
    }

    pub fn from_install_config(cfg: &InstallConfig) -> (r: Self)
        ensures
            r.of_install(*cfg),
    {
        Self {
            enabled: cfg.kernel_fix,
            root: cfg.kernel_fix_root.clone(),
            mountinfo: cfg.mountinfo_path.clone(),
            by_uuid: cfg.by_uuid_path.clone(),
        }
    }
}

/// Filesystems the mount stage mounts.
#[derive(Debug, Clone)]
pub struct MountStageConfig {
    pub mounts: Vec<MountSpec>,
}

impl MountStageConfig {
    pub open spec fn of_install(self, cfg: InstallConfig) -> bool {
        self.mounts@ == cfg.mounts@
    }

    pub fn from_install_config(cfg: &InstallConfig) -> (r: Self)
        ensures
            r.of_install(*cfg),
    {
        Self { mounts: copy_mounts(&cfg.mounts) }
    }
}

/// Packages the package stage installs.
#[derive(Debug, Clone)]
pub struct PackageStageConfig {
    pub packages: Vec<String>,
}

impl PackageStageConfig {
    pub open spec fn of_install(self, cfg: InstallConfig) -> bool {
        self.packages@ == cfg.packages@
    }

    pub fn from_install_config(cfg: &InstallConfig) -> (r: Self)
        ensures
            r.of_install(*cfg),
    {
        Self { packages: copy_strings(&cfg.packages) }
    }
}

/// Paths the resume stage needs.
#[derive(Debug, Clone)]
pub struct ResumeStageConfig {
    pub mash_root: String,
    pub state_path: String,
}

impl ResumeStageConfig {
    pub open spec fn of_install(self, cfg: InstallConfig) -> bool {
        &&& self.mash_root == cfg.mash_root
        &&& self.state_path == cfg.state_path
    }

    pub fn from_install_config(cfg: &InstallConfig) -> (r: Self)
        ensures
            r.of_install(*cfg),
    {
        Self { mash_root: cfg.mash_root.clone(), state_path: cfg.state_path.clone() }
    }
}

// ---------------------------------------------------------------------------
// The plan
// ---------------------------------------------------------------------------

/// One stage of the plan: its name and what it will do.
#[derive(Debug, Clone)]
pub struct StagePlan {
    pub name: &'static str,
    pub description: String,
}

impl View for StagePlan {
    type V = (Seq<char>, Seq<char>);

    open spec fn view(&self) -> (Seq<char>, Seq<char>) {
        (self.name@, self.description@)
    }
}

/// The stages in order and the number of reboots the install needs.
#[derive(Debug, Clone)]
pub struct InstallPlan {
    pub stages: Vec<StagePlan>,
    pub reboot_count: u32,
}

pub open spec fn stage_views(v: Seq<StagePlan>) -> Seq<(Seq<char>, Seq<char>)> {
    v.map_values(|s: StagePlan| s@)
}

impl View for InstallPlan {
    type V = (Seq<(Seq<char>, Seq<char>)>, u32);

    open spec fn view(&self) -> (Seq<(Seq<char>, Seq<char>)>, u32) {
        (stage_views(self.stages@), self.reboot_count)
    }
}

/// Description of the download stage.
pub open spec fn download_description(cfg: InstallConfig) -> Seq<char> {
    "Download Fedora "@ + cfg.image_version@ + " "@ + cfg.image_edition@ + " + optional UEFI to "@
        + join_path_spec(cfg.mash_root@, "downloads"@)
}

/// The disk named in the plan.
pub open spec fn planned_disk(cfg: InstallConfig) -> Seq<char> {
    match cfg.disk {
        Some(d) => d@,
        None => "<unspecified>"@,
    }
}

/// The eight stages of every plan, with their descriptions.
pub open spec fn planned_stages(cfg: InstallConfig) -> Seq<(Seq<char>, Seq<char>)> {
    seq![
        ("Preflight"@, "Read-only checks"@),
        ("Download assets"@, download_description(cfg)),
        ("Disk probe"@, "Target: "@ + planned_disk(cfg)),
        ("Format plan"@, dec_digits((cfg.format_ext4.len() + cfg.format_btrfs.len()) as nat) + " format operations"@),
        ("Mount plan"@, dec_digits(cfg.mounts.len() as nat) + " mount operations"@),
        ("Package plan"@, dec_digits(cfg.packages.len() as nat) + " packages"@),
        ("Kernel fix check"@, if cfg.kernel_fix {
            "USB-root alignment enabled (paths required)"@
        } else {
            "Skipped"@
        }),
        ("Resume unit"@, "Install resume unit + request reboot (if required)"@),
    ]
}

/// One line of the plan summary: `NN. name — description`.
pub open spec fn summary_line(i: int, stage: (Seq<char>, Seq<char>)) -> Seq<char> {
    dec_pad2((i + 1) as nat) + ". "@ + stage.0 + " — "@ + stage.1
}

/// The plan summary: a header, one line per stage, and the reboot count.
pub open spec fn summary_spec(plan: (Seq<(Seq<char>, Seq<char>)>, u32)) -> Seq<Seq<char>> {
    seq!["Execution plan:"@] + Seq::new(plan.0.len(), |i: int| summary_line(i, plan.0[i])) + seq![
        "Reboots: "@ + dec_digits(plan.1 as nat),
    ]
}

fn stage(name: &'static str, description: String) -> (r: StagePlan)
    ensures
        r@ == (name@, description@),
{
    StagePlan { name, description }
}

fn count_text(n: u64, suffix: &str) -> (r: String)
    ensures
        r@ == dec_digits(n as nat) + suffix@,
{
    let mut s = u64_to_string(n);
    push_str(&mut s, suffix);
    s
}

impl InstallPlan {
    pub fn summary_lines(&self) -> (lines: Vec<String>)
        ensures
            views_of(lines@) == summary_spec(self@),
    {
        let mut lines: Vec<String> = Vec::new();
        lines.push(String::from_str("Execution plan:"));
        let ghost stages = stage_views(self.stages@);
        let mut idx: usize = 0;
        while idx < self.stages.len()
            invariant
                idx <= self.stages.len(),
                stages == stage_views(self.stages@),
                views_of(lines@) == seq!["Execution plan:"@] + Seq::new(
                    idx as nat,
                    |i: int| summary_line(i, stages[i]),
                ),
            decreases self.stages.len() - idx,
        {
            let st = &self.stages[idx];
            let mut line = String::new();
            let num = u64_to_pad2((idx + 1) as u64);
            push_chars(&mut line, &num);
            push_str(&mut line, ". ");
            push_str(&mut line, st.name);
            push_str(&mut line, " — ");
            push_str(&mut line, st.description.as_str());
            let ghost before = views_of(lines@);
            lines.push(line);
            proof {
                assert(views_of(lines@) =~= before.push(line@));
                assert(stages[idx as int] == st@);
                assert(Seq::new((idx + 1) as nat, |i: int| summary_line(i, stages[i])) =~= Seq::new(
                    idx as nat,
                    |i: int| summary_line(i, stages[i]),
                ).push(summary_line(idx as int, stages[idx as int])));
            }
            idx += 1;
        }
        let ghost before = views_of(lines@);
        let mut last = String::from_str("Reboots: ");
        let n = u64_to_string(self.reboot_count as u64);
        push_str(&mut last, n.as_str());
        lines.push(last);
        proof {
            assert(views_of(lines@) =~= before.push(last@));
        }
        lines
    }
}

pub fn build_plan(cfg: &InstallConfig) -> (plan: InstallPlan)
    requires
        cfg.format_ext4.len() + cfg.format_btrfs.len() <= u64::MAX,
    ensures
        plan@ == (planned_stages(*cfg), cfg.reboot_count),
{
    let disk = match &cfg.disk {
        Some(d) => d.clone(),
        None => String::from_str("<unspecified>"),
    };
    let mount_count = cfg.mounts.len() as u64;
    let format_count = cfg.format_ext4.len() as u64 + cfg.format_btrfs.len() as u64;
    let package_count = cfg.packages.len() as u64;

    let mut download_desc = String::from_str("Download Fedora ");
    push_str(&mut download_desc, cfg.image_version.as_str());
    push_str(&mut download_desc, " ");
    push_str(&mut download_desc, cfg.image_edition.as_str());
    push_str(&mut download_desc, " + optional UEFI to ");
    let downloads = join_path(cfg.mash_root.as_str(), "downloads");
    push_str(&mut download_desc, downloads.as_str());

    let mut target = String::from_str("Target: ");
    push_str(&mut target, disk.as_str());

    let kernel_desc = if cfg.kernel_fix {
        String::from_str("USB-root alignment enabled (paths required)")
    } else {
        String::from_str("Skipped")
    };

    let mut stages: Vec<StagePlan> = Vec::new();
    stages.push(stage("Preflight", String::from_str("Read-only checks")));
    stages.push(stage("Download assets", download_desc));
    stages.push(stage("Disk probe", target));
    stages.push(stage("Format plan", count_text(format_count, " format operations")));
    stages.push(stage("Mount plan", count_text(mount_count, " mount operations")));
    stages.push(stage("Package plan", count_text(package_count, " packages")));
    stages.push(stage("Kernel fix check", kernel_desc));
    stages.push(
        stage(
            "Resume unit",
            String::from_str("Install resume unit + request reboot (if required)"),
        ),
    );
    let plan = InstallPlan { stages, reboot_count: cfg.reboot_count };
    assert(stage_views(plan.stages@) =~= planned_stages(*cfg));
    plan
}

// ---------------------------------------------------------------------------
// Stage definitions
// ---------------------------------------------------------------------------

/// Names under which the install state records stages.
#[derive(Debug, Clone)]
pub enum StageName {
    Preflight,
    DownloadAssets,
    MountPlan,
    FormatPlan,
    PackagePlan,
    KernelFixCheck,
    ResumeUnit,
    /// A stage without a dedicated name, recorded under its plan name.
    Named(String),
}

/// What a stage does when it runs, with the settings it runs with.
#[derive(Debug, Clone)]
pub enum StageTask {
    Preflight(PreflightConfig),
    Download(DownloadStageConfig),
    Mount(MountStageConfig),
    Format(DiskStageConfig),
    Package(PackageStageConfig),
    KernelFix(BootStageConfig),
    Resume(ResumeStageConfig),
    /// A stage that only reports its description.
    Announce { description: String },
}

/// A stage ready for the runner.
#[derive(Debug, Clone)]
pub struct StageDefinition {
    pub name: StageName,
    pub task: StageTask,
}

/// Binaries the selected stages need: `dnf` for packages, the mkfs tools
/// for the filesystems to create.
pub open spec fn required_binaries_spec(cfg: InstallConfig) -> Seq<Seq<char>> {
    (if cfg.packages.len() > 0 { seq!["dnf"@] } else { seq![] }) + (if cfg.format_ext4.len() > 0 {
        seq!["mkfs.ext4"@]
    } else {
        seq![]
    }) + (if cfg.format_btrfs.len() > 0 {
        seq!["mkfs.btrfs"@]
    } else {
        seq![]
    })
}

/// The preflight checks for a tool exactly when a stage needs it: `dnf`
/// when packages are to be installed, `mkfs.ext4` when ext4 devices are to
/// be formatted, `mkfs.btrfs` when btrfs devices are; and for nothing else,
/// each tool named once.
pub proof fn law_required_binaries_follow_config(cfg: InstallConfig)
    ensures
        required_binaries_spec(cfg).contains("dnf"@) <==> cfg.packages.len() > 0,
        required_binaries_spec(cfg).contains("mkfs.ext4"@) <==> cfg.format_ext4.len() > 0,
        required_binaries_spec(cfg).contains("mkfs.btrfs"@) <==> cfg.format_btrfs.len() > 0,
        required_binaries_spec(cfg).len() == (if cfg.packages.len() > 0 { 1int } else { 0 }) + (if cfg.format_ext4.len()
            > 0 { 1int } else { 0 }) + (if cfg.format_btrfs.len() > 0 { 1int } else { 0 }),
        forall|i: int|
            0 <= i < required_binaries_spec(cfg).len() ==> #[trigger] required_binaries_spec(cfg)[i] == "dnf"@
                || required_binaries_spec(cfg)[i] == "mkfs.ext4"@ || required_binaries_spec(cfg)[i] == "mkfs.btrfs"@,
{
    reveal_strlit("dnf");
    reveal_strlit("mkfs.ext4");
    reveal_strlit("mkfs.btrfs");
    let a: Seq<Seq<char>> = if cfg.packages.len() > 0 { seq!["dnf"@] } else { seq![] };
    let b: Seq<Seq<char>> = if cfg.format_ext4.len() > 0 { seq!["mkfs.ext4"@] } else { seq![] };
    let c: Seq<Seq<char>> = if cfg.format_btrfs.len() > 0 { seq!["mkfs.btrfs"@] } else { seq![] };
    let s = required_binaries_spec(cfg);
    assert(s == a + b + c);
    assert forall|i: int| 0 <= i < s.len() implies #[trigger] s[i] == "dnf"@ || s[i] == "mkfs.ext4"@ || s[i]
        == "mkfs.btrfs"@ by {
        if i < a.len() {
            assert(s[i] == a[i]);
        } else if i < a.len() + b.len() {
            assert(s[i] == b[i - a.len()]);
        } else {
            assert(s[i] == c[i - a.len() - b.len()]);
        }
    }
    if cfg.packages.len() > 0 {
        assert(s[0] == "dnf"@);
    }
    if cfg.format_ext4.len() > 0 {
        assert(s[a.len() as int] == "mkfs.ext4"@);
    }
    if cfg.format_btrfs.len() > 0 {
        assert(s[(a.len() + b.len()) as int] == "mkfs.btrfs"@);
    }
    assert forall|i: int| 0 <= i < s.len() && #[trigger] s[i] == "dnf"@ implies cfg.packages.len() > 0 by {
        if i >= a.len() && i < a.len() + b.len() {
            assert(s[i] == b[i - a.len()]);
        } else if i >= a.len() + b.len() {
            assert(s[i] == c[i - a.len() - b.len()]);
        }
    }
    assert forall|i: int| 0 <= i < s.len() && #[trigger] s[i] == "mkfs.ext4"@ implies cfg.format_ext4.len() > 0 by {
        if i < a.len() {
            assert(s[i] == a[i]);
        } else if i >= a.len() + b.len() {
            assert(s[i] == c[i - a.len() - b.len()]);
        }
    }
    assert forall|i: int| 0 <= i < s.len() && #[trigger] s[i] == "mkfs.btrfs"@ implies cfg.format_btrfs.len() > 0 by {
        if i < a.len() {
            assert(s[i] == a[i]);
        } else if i < a.len() + b.len() {
            assert(s[i] == b[i - a.len()]);
        }
    }
}

/// Whether the install reaches the network: packages or downloads.
pub open spec fn requires_network_spec(cfg: InstallConfig) -> bool {
    cfg.packages.len() > 0 || cfg.download_image || cfg.download_uefi
}

pub fn required_binaries(cfg: &InstallConfig) -> (bins: Vec<String>)
    ensures
        views_of(bins@) == required_binaries_spec(*cfg),
{
    let mut bins: Vec<String> = Vec::new();
    if cfg.packages.len() > 0 {
        bins.push(String::from_str("dnf"));
    }
    let ghost a = views_of(bins@);
    if cfg.format_ext4.len() > 0 {
        bins.push(String::from_str("mkfs.ext4"));
    }
    let ghost b = views_of(bins@);
    if cfg.format_btrfs.len() > 0 {
        bins.push(String::from_str("mkfs.btrfs"));
    }
    proof {
        assert(a =~= (if cfg.packages.len() > 0 { seq!["dnf"@] } else { seq![] }));
        assert(b =~= a + (if cfg.format_ext4.len() > 0 { seq!["mkfs.ext4"@] } else { seq![] }));
        assert(views_of(bins@) =~= b + (if cfg.format_btrfs.len() > 0 {
            seq!["mkfs.btrfs"@]
        } else {
            seq![]
        }));
    }
    bins
}

/// The definition the pipeline builds for the plan stage `(name, description)`.
pub open spec fn defines_stage(d: StageDefinition, name: Seq<char>, description: Seq<char>, cfg: InstallConfig) -> bool {
    if name == "Preflight"@ {
        &&& d.name is Preflight
        &&& d.task matches StageTask::Preflight(p) && p.is_for_install(
            cfg.disk,
            requires_network_spec(cfg),
            required_binaries_spec(cfg),
        )
    } else if name == "Download assets"@ {
        d.name is DownloadAssets && (d.task matches StageTask::Download(c) && c.of_install(cfg))
    } else if name == "Mount plan"@ {
        d.name is MountPlan && (d.task matches StageTask::Mount(c) && c.of_install(cfg))
    } else if name == "Format plan"@ {
        d.name is FormatPlan && (d.task matches StageTask::Format(c) && c.of_install(cfg))
    } else if name == "Package plan"@ {
        d.name is PackagePlan && (d.task matches StageTask::Package(c) && c.of_install(cfg))
    } else if name == "Kernel fix check"@ {
        d.name is KernelFixCheck && (d.task matches StageTask::KernelFix(c) && c.of_install(cfg))
    } else if name == "Resume unit"@ {
        d.name is ResumeUnit && (d.task matches StageTask::Resume(c) && c.of_install(cfg))
    } else {
        &&& d.name matches StageName::Named(n) && n@ == name
        &&& d.task matches StageTask::Announce { description: t } && t@ == description
    }
}

fn define_stage(plan_stage: &StagePlan, cfg: &InstallConfig) -> (d: StageDefinition)
    ensures
        defines_stage(d, plan_stage.name@, plan_stage.description@, *cfg),
{
    let name = plan_stage.name;
    if str_eq(name, "Preflight") {
        let bins = required_binaries(cfg);
        let requires_network = cfg.packages.len() > 0 || cfg.download_image || cfg.download_uefi;
        StageDefinition {
            name: StageName::Preflight,
            task: StageTask::Preflight(PreflightConfig::for_install(cfg.disk.clone(), requires_network, bins)),
        }
    } else if str_eq(name, "Download assets") {
        StageDefinition {
            name: StageName::DownloadAssets,
            task: StageTask::Download(DownloadStageConfig::from_install_config(cfg)),
        }
    } else if str_eq(name, "Mount plan") {
        StageDefinition {
            name: StageName::MountPlan,
            task: StageTask::Mount(MountStageConfig::from_install_config(cfg)),
        }
    } else if str_eq(name, "Format plan") {
        StageDefinition {
            name: StageName::FormatPlan,
            task: StageTask::Format(DiskStageConfig::from_install_config(cfg)),
        }
    } else if str_eq(name, "Package plan") {
        StageDefinition {
            name: StageName::PackagePlan,
            task: StageTask::Package(PackageStageConfig::from_install_config(cfg)),
        }
    } else if str_eq(name, "Kernel fix check") {
        StageDefinition {
            name: StageName::KernelFixCheck,
            task: StageTask::KernelFix(BootStageConfig::from_install_config(cfg)),
        }
    } else if str_eq(name, "Resume unit") {
        StageDefinition {
            name: StageName::ResumeUnit,
            task: StageTask::Resume(ResumeStageConfig::from_install_config(cfg)),
        }
    } else {
        StageDefinition {
            name: StageName::Named(String::from_str(name)),
            task: StageTask::Announce { description: plan_stage.description.clone() },
        }
    }
}

/// One definition per plan stage, in plan order.
pub fn build_stage_definitions(plan: &InstallPlan, cfg: &InstallConfig) -> (defs: Vec<StageDefinition>)
    ensures
        defs.len() == plan.stages.len(),
        forall|i: int|
            0 <= i < defs.len() ==> #[trigger] defines_stage(
                defs@[i],
                plan.stages@[i].name@,
                plan.stages@[i].description@,
                *cfg,
            ),
{
    let mut defs: Vec<StageDefinition> = Vec::new();
    let mut i: usize = 0;
    while i < plan.stages.len()
        invariant
            i <= plan.stages.len(),
            defs.len() == i,
            forall|j: int|
                0 <= j < i ==> #[trigger] defines_stage(
                    defs@[j],
                    plan.stages@[j].name@,
                    plan.stages@[j].description@,
                    *cfg,
                ),
        decreases plan.stages.len() - i,
    {
        let d = define_stage(&plan.stages[i], cfg);
        defs.push(d);
        i += 1;
    }
    defs
}

// ---------------------------------------------------------------------------
// Running
// ---------------------------------------------------------------------------

/// Runs stage definitions against the persisted install state.
pub trait StageExecutor {
    /// Whether this executor keeps the record of its runs given by `runs`;
    /// one that does not promises nothing about that record.
    open spec fn keeps_record(&self) -> bool {
        false
    }

    /// The runs asked of this executor so far: the stage definitions handed
    /// over, the state path, the dry-run flag, and the answer.
    open spec fn runs(&self) -> Seq<(Seq<StageDefinition>, Seq<char>, bool, Result<(), WorkflowError>)> {
        Seq::empty()
    }

    /// Runs `stages` in order, skipping those the state at `state_path`
    /// records as completed.
    fn run_stages(&mut self, stages: &Vec<StageDefinition>, state_path: &str, dry_run: bool) -> (r: Result<(), WorkflowError>)
        ensures
            old(self).keeps_record() ==> final(self).keeps_record() && final(self).runs() == old(self).runs().push(
                (stages@, state_path@, dry_run, r),
            ),
    ;
}

/// The stage definitions of the install that `cfg` configures, one per
/// planned stage, in plan order.
pub open spec fn defines_plan(defs: Seq<StageDefinition>, cfg: InstallConfig) -> bool {
    &&& defs.len() == planned_stages(cfg).len()
    &&& forall|i: int|
        0 <= i < defs.len() ==> #[trigger] defines_stage(defs[i], planned_stages(cfg)[i].0, planned_stages(cfg)[i].1, cfg)
}

/// What an execute run hands its executor and reads back: one run of the
/// plan's stage definitions with the configured state path and dry-run
/// flag, whose answer decides the result.
pub open spec fn ran_plan_once<E: StageExecutor>(before: E, after: E, cfg: InstallConfig, r: Result<InstallPlan, WorkflowError>) -> bool {
    before.keeps_record() ==> {
        &&& after.runs().len() == before.runs().len() + 1
        &&& after.runs().drop_last() == before.runs()
        &&& defines_plan(after.runs().last().0, cfg)
        &&& after.runs().last().1 == cfg.state_path@
        &&& after.runs().last().2 == cfg.dry_run
        &&& (r is Ok <==> after.runs().last().3 is Ok)
        &&& (r matches Err(e) ==> after.runs().last().3 == Err::<(), WorkflowError>(e))
    }
}

/// Builds the plan and, in execute mode, runs its stages.
fn run_pipeline_impl<E: StageExecutor>(cfg: &InstallConfig, executor: &mut E) -> (r: Result<InstallPlan, WorkflowError>)
    requires
        cfg.format_ext4.len() + cfg.format_btrfs.len() <= u64::MAX,
    ensures
        r matches Ok(plan) ==> plan@ == (planned_stages(*cfg), cfg.reboot_count),
        !cfg.execute ==> r is Ok,
        !cfg.execute ==> *final(executor) == *old(executor),
        cfg.execute ==> ran_plan_once(*old(executor), *final(executor), *cfg, r),
{
    let plan = build_plan(cfg);
    if !cfg.execute {
        return Ok(plan);
    }
    let defs = build_stage_definitions(&plan, cfg);
    let answer = executor.run_stages(&defs, cfg.state_path.as_str(), cfg.dry_run);
    proof {
        if old(executor).keeps_record() {
            let last = executor.runs().last();
            assert(executor.runs().drop_last() =~= old(executor).runs());
            assert(last.0 == defs@);
            assert(defines_plan(defs@, *cfg));
        }
    }
    match answer {
        Ok(()) => Ok(plan),
        Err(e) => Err(e),
    }
}

/// Plans the install; in execute mode only a dry run may run here, the
/// destructive run needs `run_pipeline_execute`.
pub fn run_pipeline<E: StageExecutor>(cfg: &InstallConfig, executor: &mut E) -> (r: Result<InstallPlan, WorkflowError>)
    requires
        cfg.format_ext4.len() + cfg.format_btrfs.len() <= u64::MAX,
    ensures
        !cfg.execute ==> (r matches Ok(plan) && plan@ == (planned_stages(*cfg), cfg.reboot_count)),
        cfg.execute && !cfg.dry_run ==> r matches Err(WorkflowError::ExecuteRequiresArmed),
        r matches Ok(plan) ==> plan@ == (planned_stages(*cfg), cfg.reboot_count),
        !cfg.execute || !cfg.dry_run ==> *final(executor) == *old(executor),
        cfg.execute && cfg.dry_run ==> ran_plan_once(*old(executor), *final(executor), *cfg, r),
{
    if cfg.execute && !cfg.dry_run {
        return Err(WorkflowError::ExecuteRequiresArmed);
    }
    run_pipeline_impl(cfg, executor)
}

/// The armed entry point: runs the stages for real.
pub fn run_pipeline_execute<E: StageExecutor>(cfg: &InstallConfig, executor: &mut E) -> (r: Result<InstallPlan, WorkflowError>)
    requires
        cfg.format_ext4.len() + cfg.format_btrfs.len() <= u64::MAX,
    ensures
        !cfg.execute || cfg.dry_run ==> r matches Err(WorkflowError::NotArmedForExecute),
        !cfg.execute || cfg.dry_run ==> *final(executor) == *old(executor),
        r matches Ok(plan) ==> plan@ == (planned_stages(*cfg), cfg.reboot_count),
        cfg.execute && !cfg.dry_run ==> ran_plan_once(*old(executor), *final(executor), *cfg, r),
{
    if !cfg.execute || cfg.dry_run {
        return Err(WorkflowError::NotArmedForExecute);
    }
    run_pipeline_impl(cfg, executor)
}

/// The disk stage: formats each configured device, ext4 ones first.
/// Returns the devices to record as formatted (none in a dry run).
pub fn run_disk_stage<H: FormatOps>(hal: &mut H, cfg: &DiskStageConfig, dry_run: bool) -> (r: Result<Vec<String>, HalError>)
    ensures
        cfg.format_ext4.len() == 0 && cfg.format_btrfs.len() == 0 ==> (r matches Ok(rec) && rec.len() == 0),
        dry_run ==> (r matches Ok(rec) && rec.len() == 0),
        !dry_run ==> (r matches Ok(rec) ==> views_of(rec@) == views_of(cfg.format_ext4@) + views_of(cfg.format_btrfs@)),
{
    let mut recorded: Vec<String> = Vec::new();
    if cfg.format_ext4.len() == 0 && cfg.format_btrfs.len() == 0 {
        return Ok(recorded);
    }
    let opts = FormatOptions::new(dry_run, true);
    let mut i: usize = 0;
    while i < cfg.format_ext4.len()
        invariant
            i <= cfg.format_ext4.len(),
            opts.dry_run == dry_run,
            dry_run ==> recorded.len() == 0,
            !dry_run ==> views_of(recorded@) == views_of(cfg.format_ext4@.take(i as int)),
        decreases cfg.format_ext4.len() - i,
    {
        match hal.format_ext4(cfg.format_ext4[i].as_str(), &opts) {
            Ok(()) => {},
            Err(e) => return Err(e),
        }
        if !dry_run {
            let ghost before = recorded@;
            let dev = cfg.format_ext4[i].clone();
            recorded.push(dev);
            assert(cfg.format_ext4@.take(i + 1) =~= cfg.format_ext4@.take(i as int).push(cfg.format_ext4@[i as int]));
            assert(views_of(recorded@) =~= views_of(before).push(dev@));
            assert(views_of(recorded@) =~= views_of(cfg.format_ext4@.take(i + 1)));
        }
        i += 1;
    }
    assert(cfg.format_ext4@.take(cfg.format_ext4.len() as int) =~= cfg.format_ext4@);
    let ghost head = views_of(cfg.format_ext4@);
    let mut j: usize = 0;
    while j < cfg.format_btrfs.len()
        invariant
            j <= cfg.format_btrfs.len(),
            opts.dry_run == dry_run,
            head == views_of(cfg.format_ext4@),
            dry_run ==> recorded.len() == 0,
            !dry_run ==> views_of(recorded@) == head + views_of(cfg.format_btrfs@.take(j as int)),
        decreases cfg.format_btrfs.len() - j,
    {
        match hal.format_btrfs(cfg.format_btrfs[j].as_str(), &opts) {
            Ok(()) => {},
            Err(e) => return Err(e),
        }
        if !dry_run {
            let ghost before = recorded@;
            let dev = cfg.format_btrfs[j].clone();
            recorded.push(dev);
            assert(cfg.format_btrfs@.take(j + 1) =~= cfg.format_btrfs@.take(j as int).push(cfg.format_btrfs@[j as int]));
            assert(views_of(recorded@) =~= views_of(before).push(dev@));
            assert(views_of(cfg.format_btrfs@.take(j + 1)) =~= views_of(cfg.format_btrfs@.take(j as int)).push(dev@));
            assert(views_of(recorded@) =~= head + views_of(cfg.format_btrfs@.take(j + 1)));
        }
        j += 1;
    }
    assert(cfg.format_btrfs@.take(cfg.format_btrfs.len() as int) =~= cfg.format_btrfs@);
    Ok(recorded)
}

/// Creating the directory a filesystem is mounted on, with its parents
/// (`std::fs::create_dir_all`).
pub trait MountPointMaker {
    fn create_dir_all(&mut self, path: &str) -> Result<(), HalError>;
}

/// The mount stage: mounts each configured filesystem that is not mounted
/// yet, creating its mount point first unless this is a dry run.  A mount
/// point whose state cannot be read counts as not mounted.
pub fn run_mount_stage<H: MountOps, D: MountPointMaker>(
    hal: &mut H,
    dirs: &mut D,
    cfg: &MountStageConfig,
    dry_run: bool,
) -> (r: Result<(), HalError>)
    ensures
        cfg.mounts.len() == 0 ==> r is Ok,
        dry_run ==> r is Ok,
{
    let mut i: usize = 0;
    while i < cfg.mounts.len()
        decreases cfg.mounts.len() - i,
    {
        let spec = &cfg.mounts[i];
        let mounted = match hal.is_mounted(spec.target.as_str()) {
            Ok(m) => m,
            Err(_) => false,
        };
        if !mounted {
            if !dry_run {
                match dirs.create_dir_all(spec.target.as_str()) {
                    Ok(()) => {},
                    Err(e) => return Err(e),
                }
            }
            let fstype = match &spec.fstype {
                Some(t) => Some(t.as_str()),
                None => None,
            };
            match hal.mount_device(spec.device.as_str(), spec.target.as_str(), fstype, MountOptions::new(), dry_run) {
                Ok(()) => {},
                Err(e) => return Err(e),
            }
        }
        i += 1;
    }
    Ok(())
}

/// What the download stage asks the downloader for: the canonical Fedora
/// image for aarch64, with the stage's mirror, checksum and retry settings,
/// resuming a partial download.
#[derive(Debug, Clone)]
pub struct DownloadRequest {
    pub image: ImageKey,
    pub mirror_override: Option<String>,
    pub checksum_override: Option<String>,
    pub checksum_url: Option<String>,
    pub max_retries: usize,
    pub timeout_secs: u64,
    pub download_dir: String,
    pub resume: bool,
}

/// The request of the download stage; none when the stage is disabled or in
/// a dry run.
pub fn download_stage_request(cfg: &DownloadStageConfig, dry_run: bool) -> (r: Option<DownloadRequest>)
    ensures
        !cfg.enabled || dry_run <==> r is None,
        r matches Some(q) ==> {
            &&& q.image.os == OsDistro::Fedora
            &&& q.image.variant@ == "kde_mobile_disk"@
            &&& q.image.arch@ == "aarch64"@
            &&& q.mirror_override == cfg.mirror_override
            &&& q.checksum_override == cfg.checksum_override
            &&& q.checksum_url == cfg.checksum_url
            &&& q.max_retries == cfg.retries
            &&& q.timeout_secs == cfg.timeout_secs
            &&& q.download_dir == cfg.download_dir
            &&& q.resume
        },
{
    if !cfg.enabled || dry_run {
        return None;
    }
    Some(DownloadRequest {
        image: ImageKey {
            os: OsDistro::Fedora,
            variant: String::from_str("kde_mobile_disk"),
            arch: String::from_str("aarch64"),
        },
        mirror_override: cfg.mirror_override.clone(),
        checksum_override: cfg.checksum_override.clone(),
        checksum_url: cfg.checksum_url.clone(),
        max_retries: cfg.retries,
        timeout_secs: cfg.timeout_secs,
        download_dir: cfg.download_dir.clone(),
        resume: true,
    })
}

/// What the boot stage does.
#[derive(Debug, Clone)]
pub enum BootStageStep {
    /// The kernel fix is disabled.
    Skip,
    /// A dry run: the paths are checked, nothing is patched.
    DryRun,
    /// Patch the boot configuration under `root`, using the mount table read
    /// from `mountinfo` and the `by-uuid` directory `by_uuid`.
    Apply { root: String, mountinfo: String, by_uuid: String },
}

pub open spec fn boot_stage_missing(message: Seq<char>, e: WorkflowError) -> bool {
    e matches WorkflowError::Stage { stage, message: m } && stage@ == "Kernel fix check"@ && m@ == message
}

fn boot_stage_error(message: &str) -> (e: WorkflowError)
    ensures
        boot_stage_missing(message@, e),
{
    WorkflowError::Stage { stage: String::from_str("Kernel fix check"), message: String::from_str(message) }
}

/// Decides the boot stage: each of the three paths is required once the
/// kernel fix is enabled, checked in the order root, mountinfo, by-uuid.
pub fn plan_boot_stage(cfg: &BootStageConfig, dry_run: bool) -> (r: Result<BootStageStep, WorkflowError>)
    ensures
        !cfg.enabled ==> r matches Ok(BootStageStep::Skip),
        cfg.enabled && cfg.root is None ==> (r matches Err(e) && boot_stage_missing(
            "kernel_fix_root is required for boot stage"@,
            e,
        )),
        cfg.enabled && cfg.root is Some && cfg.mountinfo is None ==> (r matches Err(e)
            && boot_stage_missing("mountinfo_path is required for boot stage"@, e)),
        cfg.enabled && cfg.root is Some && cfg.mountinfo is Some && cfg.by_uuid is None ==> (r matches Err(
            e,
        ) && boot_stage_missing("by_uuid_path is required for boot stage"@, e)),
        cfg.enabled && cfg.root is Some && cfg.mountinfo is Some && cfg.by_uuid is Some ==> if dry_run {
            r matches Ok(BootStageStep::DryRun)
        } else {
            r matches Ok(BootStageStep::Apply { root, mountinfo, by_uuid }) && Some(root) == cfg.root
                && Some(mountinfo) == cfg.mountinfo && Some(by_uuid) == cfg.by_uuid
        },
{
    if !cfg.enabled {
        return Ok(BootStageStep::Skip);
    }
    let root = match &cfg.root {
        Some(r) => r,
        None => return Err(boot_stage_error("kernel_fix_root is required for boot stage")),
    };
    let mountinfo = match &cfg.mountinfo {
        Some(m) => m,
        None => return Err(boot_stage_error("mountinfo_path is required for boot stage")),
    };
    let by_uuid = match &cfg.by_uuid {
        Some(b) => b,
        None => return Err(boot_stage_error("by_uuid_path is required for boot stage")),
    };
    if dry_run {
        return Ok(BootStageStep::DryRun);
    }
    Ok(BootStageStep::Apply { root: root.clone(), mountinfo: mountinfo.clone(), by_uuid: by_uuid.clone() })
}

} // verus!
