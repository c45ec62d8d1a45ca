use mash::hal::fake::{FakeHal, Operation};
use mash::hal::error::HalError;
use mash::hal::ops::MountOps;
use mash::hal::options::MountOptions;
use mash::workflow::error::WorkflowError;
use mash::workflow::pipeline::{
    build_plan, build_stage_definitions, download_stage_request, plan_boot_stage, required_binaries, run_disk_stage, run_mount_stage, run_pipeline,
    run_pipeline_execute, BootStageConfig, DiskStageConfig, DownloadStageConfig, InstallConfig,
    BootStageStep, MountPointMaker, MountSpec, MountStageConfig, PackageStageConfig, ResumeStageConfig, StageDefinition as PipelineStage,
    StageExecutor, StageName, StageTask,
};
use mash::workflow::preflight::{
    base_block_device, binary_candidates, check_disk_space, check_executable, check_os_release,
    check_ram, check_target_disk, PreflightConfig, PreflightError, TargetDiskFacts,
};
use mash::workflow::stage_runner::{
    StageAction, StageDefinition, StageProgress, StageRunner, StateStore, WorkflowState,
};
use mash::workflow::{NoopWorkflow, Workflow};
use mash::tui::{NoopTui, Tui};
use std::sync::{Arc, Mutex};

fn config() -> InstallConfig {
    InstallConfig {
        dry_run: true,
        execute: false,
        state_path: "/tmp/state.json".to_string(),
        disk: None,
        mounts: Vec::new(),
        format_ext4: Vec::new(),
        format_btrfs: Vec::new(),
        packages: Vec::new(),
        kernel_fix: false,
        kernel_fix_root: None,
        mountinfo_path: None,
        by_uuid_path: None,
        reboot_count: 1,
        mash_root: "/".to_string(),
        download_image: false,
        download_uefi: false,
        image_version: "43".to_string(),
        image_edition: "KDE".to_string(),
        download_mirror: None,
        download_checksum: None,
        download_checksum_url: None,
        download_timeout_secs: 120,
        download_retries: 3,
        download_dir: "downloads/images".to_string(),
    }
}

#[test]
fn tests_plan_includes_expected_stages() {
    let cfg = config();
    let plan = build_plan(&cfg);
    assert_eq!(plan.stages.len(), 8);
    assert_eq!(plan.stages[0].name, "Preflight");
    assert_eq!(plan.stages[1].name, "Download assets");
    assert_eq!(plan.stages[6].name, "Kernel fix check");
    assert_eq!(plan.stages[7].name, "Resume unit");
}

#[test]
fn plan_describes_each_stage() {
    let mut cfg = config();
    cfg.disk = Some("/dev/sdb".to_string());
    cfg.format_ext4 = vec!["/dev/sdb1".to_string()];
    cfg.format_btrfs = vec!["/dev/sdb2".to_string()];
    cfg.packages = vec!["vim".to_string()];
    cfg.kernel_fix = true;
    cfg.mash_root = "/mash".to_string();
    let plan = build_plan(&cfg);
    assert_eq!(plan.stages[1].description, "Download Fedora 43 KDE + optional UEFI to /mash/downloads");
    assert_eq!(plan.stages[2].description, "Target: /dev/sdb");
    assert_eq!(plan.stages[3].description, "2 format operations");
    assert_eq!(plan.stages[4].description, "0 mount operations");
    assert_eq!(plan.stages[5].description, "1 packages");
    assert_eq!(plan.stages[6].description, "USB-root alignment enabled (paths required)");
    assert_eq!(plan.reboot_count, 1);
}

#[test]
fn plan_without_disk_names_it_unspecified() {
    let plan = build_plan(&config());
    assert_eq!(plan.stages[2].description, "Target: <unspecified>");
    assert_eq!(plan.stages[6].description, "Skipped");
    assert_eq!(plan.stages[1].description, "Download Fedora 43 KDE + optional UEFI to /downloads");
}

#[test]
fn summary_lists_numbered_stages_and_reboots() {
    let plan = build_plan(&config());
    let lines = plan.summary_lines();
    assert_eq!(lines.len(), 10);
    assert_eq!(lines[0], "Execution plan:");
    assert_eq!(lines[1], "01. Preflight — Read-only checks");
    assert_eq!(lines[8], "08. Resume unit — Install resume unit + request reboot (if required)");
    assert_eq!(lines[9], "Reboots: 1");
}

#[test]
fn required_binaries_follow_selected_stages() {
    let mut cfg = config();
    assert!(required_binaries(&cfg).is_empty());
    cfg.packages = vec!["git".to_string()];
    cfg.format_btrfs = vec!["/dev/sdb2".to_string()];
    assert_eq!(required_binaries(&cfg), vec!["dnf".to_string(), "mkfs.btrfs".to_string()]);
}

#[test]
fn stage_configs_copy_install_settings() {
    let mut cfg = config();
    cfg.download_image = true;
    cfg.download_mirror = Some("http://mirror".to_string());
    cfg.mounts = vec![MountSpec { device: "/dev/sdb1".to_string(), target: "/mnt".to_string(), fstype: Some("ext4".to_string()) }];
    cfg.kernel_fix_root = Some("/mnt/root".to_string());
    let d = DownloadStageConfig::from_install_config(&cfg);
    assert!(d.enabled);
    assert_eq!(d.mirror_override.as_deref(), Some("http://mirror"));
    assert_eq!(d.retries, 3);
    assert_eq!(d.timeout_secs, 120);
    let m = MountStageConfig::from_install_config(&cfg);
    assert_eq!(m.mounts.len(), 1);
    assert_eq!(m.mounts[0].target, "/mnt");
    let b = BootStageConfig::from_install_config(&cfg);
    assert!(!b.enabled);
    assert_eq!(b.root.as_deref(), Some("/mnt/root"));
    let r = ResumeStageConfig::from_install_config(&cfg);
    assert_eq!(r.state_path, "/tmp/state.json");
    assert!(PackageStageConfig::from_install_config(&cfg).packages.is_empty());
    assert!(DiskStageConfig::from_install_config(&cfg).format_ext4.is_empty());
}

#[test]
fn stage_definitions_follow_plan_order() {
    let mut cfg = config();
    cfg.disk = Some("/dev/sdb".to_string());
    let plan = build_plan(&cfg);
    let defs = build_stage_definitions(&plan, &cfg);
    assert_eq!(defs.len(), 8);
    assert!(matches!(defs[0].name, StageName::Preflight));
    match &defs[0].task {
        StageTask::Preflight(p) => {
            assert_eq!(p.target_disk.as_deref(), Some("/dev/sdb"));
            assert!(p.network_endpoint.is_none());
            assert!(p.required_binaries.is_empty());
        }
        _ => panic!("preflight stage expected"),
    }
    assert!(matches!(defs[1].task, StageTask::Download(_)));
    match (&defs[2].name, &defs[2].task) {
        (StageName::Named(n), StageTask::Announce { description }) => {
            assert_eq!(n, "Disk probe");
            assert_eq!(description, "Target: /dev/sdb");
        }
        _ => panic!("disk probe only announces"),
    }
    assert!(matches!(defs[3].task, StageTask::Format(_)));
    assert!(matches!(defs[4].task, StageTask::Mount(_)));
    assert!(matches!(defs[5].task, StageTask::Package(_)));
    assert!(matches!(defs[6].task, StageTask::KernelFix(_)));
    assert!(matches!(defs[7].task, StageTask::Resume(_)));
}

struct CountingExecutor {
    runs: usize,
    fail: bool,
}

impl StageExecutor for CountingExecutor {
    fn run_stages(&mut self, stages: &Vec<PipelineStage>, _state_path: &str, _dry_run: bool) -> Result<(), WorkflowError> {
        self.runs += stages.len();
        if self.fail {
            Err(WorkflowError::Stage { stage: "Preflight".to_string(), message: "boom".to_string() })
        } else {
            Ok(())
        }
    }
}

#[test]
fn run_pipeline_plans_only_without_execute() {
    let mut exec = CountingExecutor { runs: 0, fail: false };
    let plan = run_pipeline(&config(), &mut exec).unwrap();
    assert_eq!(plan.stages.len(), 8);
    assert_eq!(exec.runs, 0);
}

#[test]
fn run_pipeline_refuses_unarmed_execute() {
    let mut cfg = config();
    cfg.execute = true;
    cfg.dry_run = false;
    let mut exec = CountingExecutor { runs: 0, fail: false };
    assert!(matches!(run_pipeline(&cfg, &mut exec), Err(WorkflowError::ExecuteRequiresArmed)));
    assert_eq!(exec.runs, 0);
    assert_eq!(
        WorkflowError::ExecuteRequiresArmed.message(),
        "execute-mode requires an ArmedConfig; use run_pipeline_execute"
    );
}

#[test]
fn run_pipeline_simulates_execute_dry_run() {
    let mut cfg = config();
    cfg.execute = true;
    let mut exec = CountingExecutor { runs: 0, fail: false };
    assert!(run_pipeline(&cfg, &mut exec).is_ok());
    assert_eq!(exec.runs, 8);
    let mut failing = CountingExecutor { runs: 0, fail: true };
    assert!(matches!(run_pipeline(&cfg, &mut failing), Err(WorkflowError::Stage { .. })));
}

#[test]
fn run_pipeline_execute_needs_execute_without_dry_run() {
    let mut exec = CountingExecutor { runs: 0, fail: false };
    assert!(matches!(run_pipeline_execute(&config(), &mut exec), Err(WorkflowError::NotArmedForExecute)));
    let mut cfg = config();
    cfg.execute = true;
    cfg.dry_run = false;
    assert!(run_pipeline_execute(&cfg, &mut exec).is_ok());
    assert_eq!(exec.runs, 8);
}

#[test]
fn disk_stage_formats_in_order_and_records_devices() {
    let mut hal = FakeHal::new();
    let cfg = DiskStageConfig { format_ext4: vec!["/dev/mock1".to_string()], format_btrfs: vec!["/dev/mock2".to_string()] };
    let recorded = run_disk_stage(&mut hal, &cfg, false).unwrap();
    assert_eq!(recorded, vec!["/dev/mock1".to_string(), "/dev/mock2".to_string()]);
    let ops = hal.operations();
    assert!(matches!(&ops[0], Operation::FormatExt4 { device } if device == "/dev/mock1"));
    assert!(matches!(&ops[1], Operation::FormatBtrfs { device } if device == "/dev/mock2"));
}

#[test]
fn disk_stage_dry_run_records_nothing() {
    let mut hal = FakeHal::new();
    let cfg = DiskStageConfig { format_ext4: vec!["/dev/mock1".to_string()], format_btrfs: Vec::new() };
    assert!(run_disk_stage(&mut hal, &cfg, true).unwrap().is_empty());
    assert_eq!(hal.operation_count(), 0);
}

// ---------------------------------------------------------------------------
// Preflight
// ---------------------------------------------------------------------------

#[test]
fn preflight_defaults() {
    let cfg = PreflightConfig::default();
    assert_eq!(cfg.min_ram_mb, 4096);
    assert_eq!(cfg.min_disk_gb, 16);
    assert_eq!(cfg.disk_space_path, "/");
    assert_eq!(cfg.network_endpoint, Some(("kde.fedoraproject.org".to_string(), 443)));
    assert_eq!(cfg.required_binaries.len(), 6);
}

#[test]
fn preflight_for_install_uses_exact_binaries() {
    let cfg = PreflightConfig::for_install(Some("/dev/sdb".to_string()), false, Vec::new());
    assert_eq!(cfg.target_disk.as_deref(), Some("/dev/sdb"));
    assert!(cfg.network_endpoint.is_none());
    assert!(cfg.required_binaries.is_empty());
}

#[test]
fn ram_check_thresholds() {
    assert!(check_ram("MemAvailable: 8388608 kB\n", 4096).is_ok());
    assert!(matches!(
        check_ram("MemAvailable: 1048576 kB\n", 4096),
        Err(PreflightError::InsufficientRam { available_mb: 1024, required_mb: 4096 })
    ));
    assert!(matches!(check_ram("", 4096), Err(PreflightError::RamUnknown)));
}

#[test]
fn disk_space_check_uses_gib() {
    assert!(check_disk_space("/", 16 * 1024 * 1024 * 1024, 16).is_ok());
    assert!(matches!(
        check_disk_space("/", 16 * 1024 * 1024 * 1024 - 1, 16),
        Err(PreflightError::InsufficientDiskSpace { .. })
    ));
}

#[test]
fn base_block_device_strips_partitions() {
    assert_eq!(base_block_device("/dev/sda3"), Some("/dev/sda".to_string()));
    assert_eq!(base_block_device("/dev/nvme0n1p2"), Some("/dev/nvme0n1".to_string()));
    assert_eq!(base_block_device("/dev/mmcblk0p1"), Some("/dev/mmcblk0".to_string()));
    assert_eq!(base_block_device("/dev/loop0p1"), Some("/dev/loop0".to_string()));
    assert_eq!(base_block_device("/dev/nvme0n1"), Some("/dev/nvme0n1".to_string()));
    assert_eq!(base_block_device("/dev/123"), Some("/dev/123".to_string()));
    assert_eq!(base_block_device("sda1"), None);
}

fn facts(path: &str, mountinfo: &str) -> TargetDiskFacts {
    TargetDiskFacts {
        path: path.to_string(),
        is_block_device: true,
        in_sys_block: true,
        is_partition: false,
        mountinfo: mountinfo.to_string(),
        developer_mode: false,
        size_bytes: 64 * 1024 * 1024 * 1024,
    }
}

#[test]
fn target_disk_checks_in_order() {
    let root = "36 28 0:31 / / rw - ext4 /dev/sda3 rw\n";
    assert!(check_target_disk(&facts("/dev/sdb", root), 16).is_ok());
    let mut f = facts("/dev/sdb", root);
    f.is_block_device = false;
    assert!(matches!(check_target_disk(&f, 16), Err(PreflightError::NotBlockDevice(_))));
    let mut f = facts("/dev/sdb", root);
    f.is_partition = true;
    assert!(matches!(check_target_disk(&f, 16), Err(PreflightError::IsPartition(_))));
    let mounted = "36 28 0:31 / / rw - ext4 /dev/sda3 rw\n40 28 0:40 / /mnt/x rw - ext4 /dev/sdb1 rw\n";
    match check_target_disk(&facts("/dev/sdb", mounted), 16) {
        Err(PreflightError::MountedFilesystems { mounts, .. }) => assert_eq!(mounts, vec!["/mnt/x".to_string()]),
        _ => panic!("mounted filesystems expected"),
    }
    match check_target_disk(&facts("/dev/sda", root), 16) {
        Err(PreflightError::MountedFilesystems { .. }) => {}
        _ => panic!("the root disk has mounted filesystems"),
    }
    let mut f = facts("/dev/sdb", root);
    f.size_bytes = 1024;
    assert!(matches!(check_target_disk(&f, 16), Err(PreflightError::TargetTooSmall { size_bytes: 1024, .. })));
}

#[test]
fn developer_mode_does_not_skip_the_mount_check() {
    let mi = "36 28 0:31 / / rw - ext4 /dev/sdb2 rw\n";
    let mut f = facts("/dev/sdb", mi);
    f.developer_mode = true;
    assert!(matches!(check_target_disk(&f, 16), Err(PreflightError::MountedFilesystems { .. })));
}

#[test]
fn os_release_check_requires_fedora_with_version() {
    assert_eq!(check_os_release("fedora", Some(43)).unwrap(), 43);
    assert!(matches!(check_os_release("ubuntu", Some(24)), Err(PreflightError::NotFedora(id)) if id == "ubuntu"));
    assert!(matches!(check_os_release("fedora", None), Err(PreflightError::UnknownFedoraVersion)));
}

#[test]
fn binary_candidates_in_path_order() {
    let dirs = vec!["/usr/bin".to_string(), "/opt/bin/".to_string()];
    assert_eq!(
        binary_candidates("dnf", &dirs),
        vec!["/usr/bin/dnf", "/usr/bin/dnf.exe", "/opt/bin/dnf", "/opt/bin/dnf.exe"]
    );
}

#[test]
fn executable_check_needs_file_and_exec_bit() {
    assert!(check_executable("/usr/bin/dnf", true, 0o755).is_ok());
    assert!(matches!(check_executable("/usr/bin/dnf", true, 0o644), Err(PreflightError::NotExecutable(_))));
    assert!(matches!(check_executable("/usr/bin", false, 0o755), Err(PreflightError::NotRegularFile(_))));
}

// ---------------------------------------------------------------------------
// Stage runner
// ---------------------------------------------------------------------------

#[derive(Clone, Default)]
struct MemStore(Arc<Mutex<Option<StageProgress>>>);

impl StateStore<StageProgress> for MemStore {
    fn load(&mut self) -> Result<Option<StageProgress>, String> {
        Ok(self.0.lock().unwrap().clone())
    }

    fn save(&mut self, state: &StageProgress) -> Result<(), String> {
        *self.0.lock().unwrap() = Some(state.clone());
        Ok(())
    }
}

struct Record {
    calls: Arc<Mutex<Vec<String>>>,
    label: &'static str,
}

impl StageAction<StageProgress> for Record {
    fn run(&self, _state: &mut StageProgress, _dry_run: bool) -> Result<(), WorkflowError> {
        self.calls.lock().unwrap().push(self.label.to_string());
        Ok(())
    }
}

#[test]
fn runner_skips_completed_stages() {
    let mut store = MemStore::default();
    let mut seeded = StageProgress::new(false);
    seeded.completed.push("stage-1".to_string());
    store.save(&seeded).unwrap();

    let calls = Arc::new(Mutex::new(Vec::new()));
    let stages = vec![
        StageDefinition { name: "stage-1", run: Record { calls: Arc::clone(&calls), label: "stage-1" } },
        StageDefinition { name: "stage-2", run: Record { calls: Arc::clone(&calls), label: "stage-2" } },
    ];

    let mut runner = StageRunner::new(store.clone(), false, StageProgress::new);
    let final_state = runner.run(&stages).unwrap();

    assert_eq!(calls.lock().unwrap().as_slice(), &["stage-2"]);
    assert!(final_state.is_completed("stage-1"));
    assert!(final_state.is_completed("stage-2"));
    assert!(store.load().unwrap().unwrap().is_completed("stage-2"));
}

struct Failing {
    calls: Arc<Mutex<Vec<String>>>,
    label: &'static str,
    fail: bool,
}

impl StageAction<StageProgress> for Failing {
    fn run(&self, _state: &mut StageProgress, dry_run: bool) -> Result<(), WorkflowError> {
        self.calls.lock().unwrap().push(format!("{}:{}", self.label, dry_run));
        if self.fail {
            Err(WorkflowError::Stage { stage: self.label.to_string(), message: "boom".to_string() })
        } else {
            Ok(())
        }
    }
}

#[test]
fn runner_stops_at_first_failing_stage() {
    let mut store = MemStore::default();
    let calls = Arc::new(Mutex::new(Vec::new()));
    let stages = vec![
        StageDefinition { name: "a", run: Failing { calls: Arc::clone(&calls), label: "a", fail: false } },
        StageDefinition { name: "b", run: Failing { calls: Arc::clone(&calls), label: "b", fail: true } },
        StageDefinition { name: "c", run: Failing { calls: Arc::clone(&calls), label: "c", fail: false } },
    ];
    let mut runner = StageRunner::new(store.clone(), true, StageProgress::new);
    let r = runner.run(&stages);
    assert!(matches!(r, Err(WorkflowError::Stage { ref stage, .. }) if stage == "b"));
    assert_eq!(calls.lock().unwrap().as_slice(), &["a:true", "b:true"]);
    let saved = store.load().unwrap().unwrap();
    assert!(saved.is_completed("a"));
    assert!(!saved.is_completed("b"));
    assert_eq!(saved.current.as_deref(), Some("b"));
}

#[test]
fn runner_initializes_state_with_dry_run_flag() {
    let store = MemStore::default();
    let mut runner = StageRunner::new(store, true, StageProgress::new);
    let stages: Vec<StageDefinition<'_, Record>> = Vec::new();
    let state = runner.run(&stages).unwrap();
    assert!(state.dry_run);
}

#[test]
fn runner_can_disable_persistence() {
    let mut store = MemStore::default();
    let calls = Arc::new(Mutex::new(Vec::new()));
    let stages = vec![StageDefinition { name: "stage-1", run: Record { calls, label: "stage-1" } }];

    let mut runner = StageRunner::new_with_persist(store.clone(), false, false, StageProgress::new);
    let state = runner.run(&stages).unwrap();
    assert!(state.is_completed("stage-1"));
    assert!(store.load().unwrap().is_none());
}

#[test]
fn progress_records_current_and_completed_once() {
    let mut p = StageProgress::new(false);
    p.set_current("a");
    assert_eq!(p.current.as_deref(), Some("a"));
    p.mark_completed("a");
    p.mark_completed("a");
    assert_eq!(p.completed, vec!["a".to_string()]);
    assert!(p.is_completed("a"));
    assert!(!p.is_completed("b"));
}

#[test]
fn noop_workflow_and_tui_succeed() {
    let wf = NoopWorkflow::new(FakeHal::new());
    assert!(wf.run().is_ok());
    let mut tui = NoopTui::new(NoopWorkflow::new(FakeHal::new()));
    assert!(tui.run().is_ok());
}

#[test]
fn workflow_error_messages() {
    assert_eq!(
        WorkflowError::Stage { stage: "Format plan".to_string(), message: "boom".to_string() }.message(),
        "Stage Format plan failed: boom"
    );
    assert_eq!(WorkflowError::Hal(HalError::DiskBusy).message(), "Disk is busy (mounted or in use)");
}

// ---------------------------------------------------------------------------
// Full-disk OS installs
// ---------------------------------------------------------------------------

use mash::tui::types::OsDistro;
use mash::workflow::os_install::{
    run as run_os_install, run_stages as run_os_install_stages, select_image, DownloadArtifact, ImageKey, ImageSource, InstallEvent,
    OsInstallBackend, OsInstallConfig, OsInstallState,
};

#[derive(Clone, Default)]
struct InstallStore(Arc<Mutex<Option<OsInstallState>>>);

impl StateStore<OsInstallState> for InstallStore {
    fn load(&mut self) -> Result<Option<OsInstallState>, String> {
        Ok(self.0.lock().unwrap().clone())
    }

    fn save(&mut self, state: &OsInstallState) -> Result<(), String> {
        *self.0.lock().unwrap() = Some(state.clone());
        Ok(())
    }
}

#[derive(Default)]
struct IndexBackend {
    downloads: usize,
    events: Vec<String>,
}

impl OsInstallBackend for IndexBackend {
    fn download(&mut self, key: &ImageKey, download_dir: &str) -> Result<DownloadArtifact, String> {
        self.downloads += 1;
        Ok(DownloadArtifact { name: format!("{}.img.xz", key.variant), path: format!("{}/{}.img.xz", download_dir, key.variant) })
    }

    fn index_file_name(&mut self, key: &ImageKey) -> Option<String> {
        Some(format!("{}.img.xz", key.variant))
    }

    fn file_exists(&mut self, _path: &str) -> bool {
        true
    }

    fn cancel_requested(&mut self) -> bool {
        false
    }

    fn report(&mut self, event: InstallEvent) {
        if let InstallEvent::StageStarted(s) = event {
            self.events.push(s);
        }
    }
}

fn install_config(os: OsDistro, source: ImageSource, dry_run: bool) -> OsInstallConfig {
    OsInstallConfig {
        mash_root: "/mash".to_string(),
        state_path: "/mash/state.json".to_string(),
        os,
        variant: "server_24_04_3".to_string(),
        arch: "aarch64".to_string(),
        target_disk: "/tmp/disk.img".to_string(),
        download_dir: "/mash/downloads/images".to_string(),
        image_source: source,
        dry_run,
    }
}

#[test]
fn os_install_flashes_local_image_and_records_device() {
    let mut hal = FakeHal::new();
    let mut backend = IndexBackend::default();
    let mut store = InstallStore::default();
    let cfg = install_config(OsDistro::Ubuntu, ImageSource::Local("/tmp/ubuntu.img.xz".to_string()), false);
    let state = run_os_install(&mut hal, &mut backend, &mut store, &cfg, true).unwrap();
    assert_eq!(backend.downloads, 0);
    assert!(matches!(&hal.operations()[0], Operation::FlashImage { image, target } if image == "/tmp/ubuntu.img.xz" && target == "/tmp/disk.img"));
    assert_eq!(state.flashed_devices, vec!["/tmp/disk.img".to_string()]);
    assert_eq!(state.selected_os.as_deref(), Some("Ubuntu"));
    assert!(!state.post_boot_partition_expansion_required);
    assert_eq!(backend.events.len(), 4);
    assert!(store.load().unwrap().unwrap().is_completed("Apply OS-specific rules"));
}

#[test]
fn os_install_downloads_then_flashes_the_indexed_artifact() {
    let mut hal = FakeHal::new();
    let mut backend = IndexBackend::default();
    let cfg = install_config(OsDistro::RaspberryPiOS, ImageSource::Download, false);
    let state = run_os_install(&mut hal, &mut backend, &mut InstallStore::default(), &cfg, true).unwrap();
    assert_eq!(backend.downloads, 1);
    assert_eq!(state.download_artifacts.len(), 1);
    assert!(matches!(&hal.operations()[0], Operation::FlashImage { image, .. } if image == "/mash/downloads/images/server_24_04_3.img.xz"));
}

#[test]
fn manjaro_install_requires_post_boot_expansion() {
    let mut hal = FakeHal::new();
    let mut backend = IndexBackend::default();
    let cfg = install_config(OsDistro::Manjaro, ImageSource::Local("/tmp/manjaro.img.xz".to_string()), false);
    let state = run_os_install(&mut hal, &mut backend, &mut InstallStore::default(), &cfg, true).unwrap();
    assert!(state.post_boot_partition_expansion_required);
}

#[test]
fn os_install_refuses_unconfirmed_execute_and_dry_run_writes_nothing() {
    let mut hal = FakeHal::new();
    let mut backend = IndexBackend::default();
    let cfg = install_config(OsDistro::Ubuntu, ImageSource::Download, false);
    assert!(matches!(
        run_os_install(&mut hal, &mut backend, &mut InstallStore::default(), &cfg, false),
        Err(WorkflowError::InstallNotConfirmed)
    ));
    let dry = install_config(OsDistro::Manjaro, ImageSource::Download, true);
    let state = run_os_install(&mut hal, &mut backend, &mut InstallStore::default(), &dry, false).unwrap();
    assert_eq!(hal.operation_count(), 0);
    assert_eq!(backend.downloads, 0);
    assert!(!state.post_boot_partition_expansion_required);
}

#[test]
fn os_install_resumes_after_completed_stages() {
    let mut hal = FakeHal::new();
    let mut backend = IndexBackend::default();
    let mut store = InstallStore::default();
    let mut seeded = OsInstallState::new(false);
    for s in ["Record install intent", "Download OS image", "Flash OS image"] {
        seeded.mark_completed(s);
    }
    store.save(&seeded).unwrap();
    let cfg = install_config(OsDistro::Ubuntu, ImageSource::Download, false);
    run_os_install(&mut hal, &mut backend, &mut store, &cfg, true).unwrap();
    assert_eq!(hal.operation_count(), 0);
    assert_eq!(backend.events, vec!["Apply OS-specific rules".to_string()]);
}

#[test]
fn image_selection_uses_last_matching_download() {
    let cfg = install_config(OsDistro::Ubuntu, ImageSource::Download, false);
    let artifacts = vec![
        DownloadArtifact { name: "a.img".to_string(), path: "/old/a.img".to_string() },
        DownloadArtifact { name: "b.img".to_string(), path: "/b.img".to_string() },
        DownloadArtifact { name: "a.img".to_string(), path: "/new/a.img".to_string() },
    ];
    assert_eq!(select_image(&cfg, &artifacts, Some("a.img".to_string())).unwrap(), "/new/a.img");
    assert_eq!(
        select_image(&cfg, &artifacts, Some("c.img".to_string())).unwrap_err(),
        "download artifact not found in state; cannot flash"
    );
    assert_eq!(
        select_image(&cfg, &artifacts, None).unwrap_err(),
        "download index missing image spec for selection"
    );
}

struct MountDirs(Vec<String>);

impl MountPointMaker for MountDirs {
    fn create_dir_all(&mut self, path: &str) -> Result<(), HalError> {
        self.0.push(path.to_string());
        Ok(())
    }
}

fn mount_config() -> MountStageConfig {
    MountStageConfig {
        mounts: vec![
            MountSpec { device: "/dev/sda1".to_string(), target: "/mnt/a".to_string(), fstype: None },
            MountSpec { device: "/dev/sda2".to_string(), target: "/mnt/b".to_string(), fstype: Some("ext4".to_string()) },
        ],
    }
}

#[test]
fn mount_stage_mounts_what_is_not_mounted_yet() {
    let mut hal = FakeHal::new();
    hal.mount_device("/dev/sda1", "/mnt/a", None, MountOptions::new(), false).unwrap();
    let mut dirs = MountDirs(Vec::new());
    run_mount_stage(&mut hal, &mut dirs, &mount_config(), false).unwrap();
    assert_eq!(dirs.0, vec!["/mnt/b".to_string()]);
    assert!(hal.is_mounted("/mnt/b").unwrap());
    assert_eq!(hal.operation_count(), 2);
}

#[test]
fn mount_stage_dry_run_creates_no_mount_point() {
    let mut hal = FakeHal::new();
    let mut dirs = MountDirs(Vec::new());
    assert!(run_mount_stage(&mut hal, &mut dirs, &mount_config(), true).is_ok());
    assert!(dirs.0.is_empty());
    let empty = MountStageConfig { mounts: Vec::new() };
    assert!(run_mount_stage(&mut hal, &mut dirs, &empty, false).is_ok());
    assert!(dirs.0.is_empty());
}

fn download_cfg(enabled: bool) -> DownloadStageConfig {
    DownloadStageConfig {
        enabled,
        mirror_override: Some("https://mirror.example".to_string()),
        checksum_override: None,
        checksum_url: None,
        timeout_secs: 120,
        retries: 3,
        download_dir: "/tmp/dl".to_string(),
    }
}

#[test]
fn download_stage_asks_for_the_fedora_image() {
    assert!(download_stage_request(&download_cfg(false), false).is_none());
    assert!(download_stage_request(&download_cfg(true), true).is_none());
    let req = download_stage_request(&download_cfg(true), false).unwrap();
    assert_eq!(req.image.variant, "kde_mobile_disk");
    assert_eq!(req.image.arch, "aarch64");
    assert_eq!(req.mirror_override.as_deref(), Some("https://mirror.example"));
    assert_eq!(req.max_retries, 3);
    assert_eq!(req.timeout_secs, 120);
    assert_eq!(req.download_dir, "/tmp/dl");
    assert!(req.resume);
}

#[test]
fn boot_stage_requires_its_paths() {
    let mut cfg = BootStageConfig { enabled: false, root: None, mountinfo: None, by_uuid: None };
    assert!(matches!(plan_boot_stage(&cfg, false), Ok(BootStageStep::Skip)));
    cfg.enabled = true;
    match plan_boot_stage(&cfg, false) {
        Err(e) => assert_eq!(e.message(), "Stage Kernel fix check failed: kernel_fix_root is required for boot stage"),
        Ok(_) => panic!("expected an error"),
    }
    cfg.root = Some("/mnt/root".to_string());
    match plan_boot_stage(&cfg, false) {
        Err(e) => assert_eq!(e.message(), "Stage Kernel fix check failed: mountinfo_path is required for boot stage"),
        Ok(_) => panic!("expected an error"),
    }
    cfg.mountinfo = Some("/proc/self/mountinfo".to_string());
    match plan_boot_stage(&cfg, false) {
        Err(e) => assert_eq!(e.message(), "Stage Kernel fix check failed: by_uuid_path is required for boot stage"),
        Ok(_) => panic!("expected an error"),
    }
    cfg.by_uuid = Some("/dev/disk/by-uuid".to_string());
    assert!(matches!(plan_boot_stage(&cfg, true), Ok(BootStageStep::DryRun)));
    match plan_boot_stage(&cfg, false) {
        Ok(BootStageStep::Apply { root, mountinfo, by_uuid }) => {
            assert_eq!(root, "/mnt/root");
            assert_eq!(mountinfo, "/proc/self/mountinfo");
            assert_eq!(by_uuid, "/dev/disk/by-uuid");
        }
        _ => panic!("expected the fix to apply"),
    }
}

#[test]
fn os_install_stages_run_from_a_given_state() {
    let mut hal = FakeHal::new();
    let mut backend = IndexBackend::default();
    let mut store = InstallStore::default();
    let mut seeded = OsInstallState::new(false);
    seeded.mark_completed("Record install intent");
    let cfg = install_config(OsDistro::Manjaro, ImageSource::Local("/tmp/m.img".to_string()), false);
    let state = run_os_install_stages(&mut hal, &mut backend, &mut store, &cfg, true, seeded).unwrap();
    assert_eq!(state.selected_os, None);
    assert_eq!(state.flashed_devices, vec!["/tmp/disk.img".to_string()]);
    assert!(state.post_boot_partition_expansion_required);
    assert_eq!(backend.events, vec!["Download OS image".to_string(), "Flash OS image".to_string(), "Apply OS-specific rules".to_string()]);
}
