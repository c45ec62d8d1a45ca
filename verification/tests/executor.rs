use mash::hal::error::HalError;
use mash::hal::fake::{FakeHal, Operation};
use mash::workflow::error::WorkflowError;
use mash::workflow::executor::{
    parse_state_text, state_text, PipelineExecutor, PipelineState, StageServices, StateFiles,
};
use mash::workflow::pipeline::{
    run_pipeline, run_pipeline_execute, DownloadRequest, InstallConfig, MountPointMaker, ResumeStageConfig,
};
use mash::workflow::preflight::PreflightConfig;
use std::cell::RefCell;
use std::collections::HashMap;

fn config() -> InstallConfig {
    InstallConfig {
        dry_run: false,
        execute: true,
        state_path: "/state".to_string(),
        disk: Some("/dev/mock".to_string()),
        mounts: Vec::new(),
        format_ext4: vec!["/dev/mock1".to_string()],
        format_btrfs: vec!["/dev/mock2".to_string()],
        packages: Vec::new(),
        kernel_fix: false,
        kernel_fix_root: None,
        mountinfo_path: None,
        by_uuid_path: None,
        reboot_count: 1,
        mash_root: "/".to_string(),
        download_image: false,
        download_uefi: false,
        image_version: "43".to_string(),
        image_edition: "KDE".to_string(),
        download_mirror: None,
        download_checksum: None,
        download_checksum_url: None,
        download_timeout_secs: 120,
        download_retries: 3,
        download_dir: "downloads/images".to_string(),
    }
}

struct Dirs(Vec<String>);

impl MountPointMaker for Dirs {
    fn create_dir_all(&mut self, path: &str) -> Result<(), HalError> {
        self.0.push(path.to_string());
        Ok(())
    }
}

#[derive(Default)]
struct Services {
    calls: Vec<String>,
}

impl StageServices for Services {
    fn preflight(&mut self, _cfg: &PreflightConfig) -> Result<(), String> {
        self.calls.push("preflight".to_string());
        Ok(())
    }
    fn download(&mut self, request: &DownloadRequest) -> Result<(), String> {
        self.calls.push(format!("download {}", request.image.variant));
        Ok(())
    }
    fn apply_kernel_fix(&mut self, root: &str, _mountinfo: &str, _by_uuid: &str) -> Result<(), String> {
        self.calls.push(format!("kernel fix {}", root));
        Ok(())
    }
    fn install_packages(&mut self, packages: &Vec<String>, _dry_run: bool) -> Result<(), String> {
        self.calls.push(format!("packages {}", packages.join(",")));
        Ok(())
    }
    fn install_resume_unit(&mut self, _cfg: &ResumeStageConfig) -> Result<(), String> {
        self.calls.push("resume".to_string());
        Ok(())
    }
    fn announce(&mut self, description: &str) {
        self.calls.push(format!("announce {}", description));
    }
}

#[derive(Default)]
struct Files(RefCell<HashMap<String, PipelineState>>);

impl StateFiles for Files {
    fn load_state(&self, path: &str) -> Result<Option<PipelineState>, String> {
        Ok(self.0.borrow().get(path).cloned())
    }
    fn save_state(&self, path: &str, state: &PipelineState) -> Result<(), String> {
        self.0.borrow_mut().insert(path.to_string(), state.clone());
        Ok(())
    }
}

fn executor() -> PipelineExecutor<FakeHal, Dirs, Services, Files> {
    PipelineExecutor::new(FakeHal::new(), Dirs(Vec::new()), Services::default(), Files::default())
}

#[test]
fn armed_pipeline_runs_every_stage_through_the_library() {
    let mut cfg = config();
    cfg.kernel_fix = true;
    cfg.kernel_fix_root = Some("/mnt/root".to_string());
    cfg.mountinfo_path = Some("/proc/self/mountinfo".to_string());
    cfg.by_uuid_path = Some("/dev/disk/by-uuid".to_string());
    cfg.download_image = true;
    cfg.packages = vec!["vim".to_string()];
    let mut exec = executor();
    let plan = run_pipeline_execute(&cfg, &mut exec).unwrap();
    let state = exec.files.0.borrow().get("/state").cloned().unwrap();
    for stage in &plan.stages {
        assert!(state.progress.completed.contains(&stage.name.to_string()), "{} not completed", stage.name);
    }
    assert_eq!(state.formatted_devices, vec!["/dev/mock1".to_string(), "/dev/mock2".to_string()]);
    assert!(state.boot_stage_completed);
    assert!(exec.hal.has_operation(|op| matches!(op, Operation::FormatExt4 { .. })));
    assert!(exec.hal.has_operation(|op| matches!(op, Operation::FormatBtrfs { .. })));
    assert_eq!(
        exec.services.calls,
        vec![
            "preflight".to_string(),
            "download kde_mobile_disk".to_string(),
            "announce Target: /dev/mock".to_string(),
            "packages vim".to_string(),
            "kernel fix /mnt/root".to_string(),
            "resume".to_string(),
        ]
    );
}

#[test]
fn dry_run_pipeline_formats_nothing() {
    let mut cfg = config();
    cfg.dry_run = true;
    let mut exec = executor();
    run_pipeline(&cfg, &mut exec).unwrap();
    let state = exec.files.0.borrow().get("/state").cloned().unwrap();
    assert!(state.formatted_devices.is_empty());
    assert_eq!(exec.hal.operation_count(), 0);
}

#[test]
fn completed_stages_are_skipped() {
    let mut exec = executor();
    let mut preset = PipelineState::new(false);
    preset.progress.completed.push("Format plan".to_string());
    exec.files.0.borrow_mut().insert("/state".to_string(), preset);
    run_pipeline_execute(&config(), &mut exec).unwrap();
    assert_eq!(exec.hal.operation_count(), 0);
}

#[test]
fn plan_only_call_runs_no_stage() {
    let mut cfg = config();
    cfg.execute = false;
    let mut exec = executor();
    run_pipeline(&cfg, &mut exec).unwrap();
    assert!(exec.files.0.borrow().is_empty());
    assert!(exec.services.calls.is_empty());
}

#[test]
fn kernel_fix_without_root_stops_the_run() {
    let mut cfg = config();
    cfg.kernel_fix = true;
    let mut exec = executor();
    match run_pipeline_execute(&cfg, &mut exec) {
        Err(WorkflowError::Stage { stage, message }) => {
            assert_eq!(stage, "Kernel fix check");
            assert_eq!(message, "kernel_fix_root is required for boot stage");
        }
        _ => panic!("expected the kernel fix stage to fail"),
    }
    assert!(!exec.services.calls.contains(&"resume".to_string()));
}

#[test]
fn state_text_reads_back() {
    let mut state = PipelineState::new(true);
    state.progress.completed.push("Preflight".to_string());
    state.progress.completed.push("Format plan".to_string());
    state.formatted_devices.push("/dev/sdb1".to_string());
    state.boot_stage_completed = true;
    let text = state_text(&state);
    assert_eq!(
        text,
        "dry-run\ncompleted Preflight\ncompleted Format plan\nformatted /dev/sdb1\nboot-completed\n"
    );
    let back = parse_state_text(&text);
    assert!(back.progress.dry_run);
    assert_eq!(back.progress.completed, state.progress.completed);
    assert_eq!(back.formatted_devices, state.formatted_devices);
    assert!(back.boot_stage_completed);
    assert_eq!(back.progress.current, None);
}

#[test]
fn state_text_ignores_unknown_lines() {
    let back = parse_state_text("noise\ncompleted Mount plan\r\n");
    assert!(!back.progress.dry_run);
    assert_eq!(back.progress.completed, vec!["Mount plan".to_string()]);
    assert!(back.formatted_devices.is_empty());
    assert!(!back.boot_stage_completed);
}
