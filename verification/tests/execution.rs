use mash::tui::app::App;
use mash::tui::execution::{
    build_completion_lines, download_failed, fedora_finished, fedora_flash_paths, install_finished, is_cancellation,
    needs_download_index, os_install_config, run_execution_pipeline, DownloadOutcome,
    ExecutionBackend, ExecutionEvent,
};
use mash::tui::steps::InstallStepType;
use mash::tui::types::{FlashConfig, ImageSource, OsDistro};
use mash::workflow::os_install::{ImageSource as OsImageSource, OsInstallConfig};

fn flash_config() -> FlashConfig {
    let mut c = App::new().build_flash_config().expect("config");
    c.mash_root = "/mash".to_string();
    c.image = "/images/local.raw.xz".to_string();
    c.uefi_dir = "/uefi".to_string();
    c.os_distro_label = "Fedora".to_string();
    c.os_flavour_label = "KDE".to_string();
    c
}

fn outcome(dry_run: bool, post_boot: bool) -> DownloadOutcome {
    DownloadOutcome {
        image_path: Some("/img".to_string()),
        uefi_dir: None,
        cancelled: false,
        post_boot_partition_expansion_required: post_boot,
        os_distro_label: "Manjaro".to_string(),
        os_flavour_label: "Minimal".to_string(),
        dry_run,
    }
}

#[test]
fn completion_lines_for_dry_run() {
    let lines = build_completion_lines(&outcome(true, false));
    assert_eq!(
        lines,
        vec![
            "✅ DRY-RUN complete.",
            "No disk writes occurred.",
            "",
            "Selected: Manjaro (Minimal)",
            "",
            "Report: /mash/install-report.json",
        ]
    );
}

#[test]
fn completion_lines_note_post_boot_expansion() {
    let lines = build_completion_lines(&outcome(false, true));
    assert_eq!(lines[0], "🎉 Installation complete.");
    assert_eq!(lines[1], "Installed: Manjaro (Minimal)");
    assert_eq!(lines[8], "⚠️ Note (Manjaro): post-boot partition expansion is required.");
    assert_eq!(lines.len(), 11);
    assert_eq!(build_completion_lines(&outcome(false, false)).len(), 9);
}

#[test]
fn cancellation_is_detected_case_insensitively() {
    assert!(is_cancellation("Download CANCELLED by user"));
    assert!(is_cancellation("cancel"));
    assert!(!is_cancellation("disk full"));
}

#[test]
fn download_index_needed_for_catalogue_or_fedora_uefi() {
    let mut c = flash_config();
    c.os_distro = OsDistro::Fedora;
    c.image_source_selection = ImageSource::LocalFile;
    c.download_uefi_firmware = false;
    assert!(!needs_download_index(&c));
    c.download_uefi_firmware = true;
    assert!(needs_download_index(&c));
    c.os_distro = OsDistro::Ubuntu;
    assert!(!needs_download_index(&c));
    c.image_source_selection = ImageSource::DownloadCatalogue;
    assert!(needs_download_index(&c));
}

#[test]
fn failed_download_is_cancelled_or_an_error() {
    let c = flash_config();
    match download_failed(&c, Some("/img".to_string()), "Cancelled".to_string()) {
        Ok(o) => {
            assert!(o.cancelled);
            assert_eq!(o.image_path.as_deref(), Some("/img"));
            assert_eq!(o.os_distro_label, "Fedora");
        }
        Err(_) => panic!("cancellation expected"),
    }
    assert_eq!(download_failed(&c, None, "checksum mismatch".to_string()).unwrap_err(), "checksum mismatch");
}

#[test]
fn fedora_paths_prefer_downloads() {
    let c = flash_config();
    assert_eq!(fedora_flash_paths(&c, &None, &None), ("/images/local.raw.xz".to_string(), "/uefi".to_string()));
    assert_eq!(
        fedora_flash_paths(&c, &Some("/dl/img".to_string()), &Some("/dl/uefi".to_string())),
        ("/dl/img".to_string(), "/dl/uefi".to_string())
    );
}

#[test]
fn os_install_config_from_flash_config() {
    let mut c = flash_config();
    c.os_distro = OsDistro::RaspberryPiOS;
    c.image_source_selection = ImageSource::LocalFile;
    let i = os_install_config(&c);
    assert_eq!(i.arch, "aarch64");
    assert_eq!(i.download_dir, "/mash/downloads/images");
    assert!(matches!(i.image_source, OsImageSource::Local(ref p) if p == "/images/local.raw.xz"));
    assert_eq!(i.os, OsDistro::RaspberryPiOS);
    c.image_source_selection = ImageSource::DownloadCatalogue;
    assert!(matches!(os_install_config(&c).image_source, OsImageSource::Download));
    let key = i.image_key();
    assert_eq!(key.arch, "aarch64");
}

#[test]
fn install_results_become_outcomes() {
    let c = flash_config();
    let o = install_finished(&c, Ok(true)).unwrap();
    assert!(!o.cancelled);
    assert!(o.post_boot_partition_expansion_required);
    assert_eq!(o.image_path.as_deref(), Some("/images/local.raw.xz"));
    assert!(install_finished(&c, Err("cancelled".to_string())).unwrap().cancelled);
    assert_eq!(install_finished(&c, Err("flash failed".to_string())).unwrap_err(), "flash failed");
}

#[derive(Default)]
struct FakeBackend {
    calls: Vec<String>,
    events: usize,
    cancel: bool,
    fail_image: Option<String>,
    fail_index: bool,
}

impl ExecutionBackend for FakeBackend {
    fn load_download_index(&mut self) -> Result<(), String> {
        self.calls.push("index".to_string());
        if self.fail_index {
            Err("index parse error".to_string())
        } else {
            Ok(())
        }
    }

    fn fetch_fedora_image(&mut self, download_root: &str, version: &str, edition: &str) -> Result<String, String> {
        self.calls.push(format!("image {} {} {}", download_root, version, edition));
        match &self.fail_image {
            Some(m) => Err(m.clone()),
            None => Ok("/mash/downloads/fedora.raw.xz".to_string()),
        }
    }

    fn fetch_uefi_bundle(&mut self, download_root: &str) -> Result<String, String> {
        self.calls.push(format!("uefi {}", download_root));
        Ok("/mash/downloads/uefi".to_string())
    }

    fn cancel_requested(&self) -> bool {
        self.cancel
    }

    fn discard_downloads(&mut self, _image: &Option<String>, _uefi_dir: &Option<String>) {
        self.calls.push("discard".to_string());
    }

    fn flash_fedora(&mut self, _config: &FlashConfig, image: &str, uefi_dir: &str, armed: bool) -> Result<(), String> {
        self.calls.push(format!("flash {} {} {}", image, uefi_dir, armed));
        Ok(())
    }

    fn install_os(&mut self, install: &OsInstallConfig, armed: bool, _typed_confirmation: bool) -> Result<bool, String> {
        self.calls.push(format!("install {} {}", install.download_dir, armed));
        Ok(true)
    }

    fn report(&mut self, _event: ExecutionEvent) {
        self.events += 1;
    }
}

#[test]
fn fedora_run_downloads_then_flashes() {
    let mut c = flash_config();
    c.os_distro = OsDistro::Fedora;
    c.image_source_selection = ImageSource::DownloadCatalogue;
    c.download_uefi_firmware = true;
    let mut b = FakeBackend::default();
    let o = run_execution_pipeline(&mut b, &c, true).unwrap();
    assert_eq!(
        b.calls,
        vec![
            "index".to_string(),
            format!("image /mash/downloads {} {}", c.image_version, c.image_edition),
            "uefi /mash/downloads".to_string(),
            "flash /mash/downloads/fedora.raw.xz /mash/downloads/uefi true".to_string(),
        ]
    );
    assert!(!o.cancelled);
    assert_eq!(o.image_path.as_deref(), Some("/mash/downloads/fedora.raw.xz"));
    assert!(b.events > 0);
}

#[test]
fn fedora_run_cancelled_after_downloads_discards_them() {
    let mut c = flash_config();
    c.os_distro = OsDistro::Fedora;
    c.image_source_selection = ImageSource::LocalFile;
    c.download_uefi_firmware = false;
    let mut b = FakeBackend { cancel: true, ..Default::default() };
    let o = run_execution_pipeline(&mut b, &c, false).unwrap();
    assert!(o.cancelled);
    assert_eq!(b.calls, vec!["discard".to_string()]);
}

#[test]
fn fedora_run_download_failure_is_an_error() {
    let mut c = flash_config();
    c.os_distro = OsDistro::Fedora;
    c.image_source_selection = ImageSource::DownloadCatalogue;
    let mut b = FakeBackend { fail_image: Some("HTTP 500".to_string()), ..Default::default() };
    assert_eq!(run_execution_pipeline(&mut b, &c, false).unwrap_err(), "HTTP 500");
}

#[test]
fn other_systems_run_a_full_disk_install() {
    let mut c = flash_config();
    c.os_distro = OsDistro::Manjaro;
    c.image_source_selection = ImageSource::LocalFile;
    let mut b = FakeBackend::default();
    let o = run_execution_pipeline(&mut b, &c, true).unwrap();
    assert_eq!(b.calls, vec!["install /mash/downloads/images true".to_string()]);
    assert!(o.post_boot_partition_expansion_required);
}

#[test]
fn ui_starts_a_run_once() {
    let mut app = App::new();
    assert!(app.begin_run());
    assert!(app.is_running);
    assert_eq!(app.status_message, "⬇️ Starting downloads...");
    assert!(!app.begin_run());
}

#[test]
fn ui_after_completed_run() {
    let mut app = App::new();
    app.begin_run();
    app.finish_run(Ok(outcome(true, false)));
    assert!(!app.is_running);
    assert_eq!(app.current_step_type, InstallStepType::Complete);
    assert_eq!(app.status_message, "✅ Complete.");
    assert_eq!(app.downloaded_image_path.as_deref(), Some("/img"));
    assert_eq!(app.completion_lines[0], "✅ DRY-RUN complete.");
}

#[test]
fn ui_after_failed_or_cancelled_run() {
    let mut app = App::new();
    app.begin_run();
    app.finish_run(Err("disk vanished".to_string()));
    assert!(!app.is_running);
    assert_eq!(app.error_message.as_deref(), Some("Execution failed: disk vanished"));
    assert_eq!(app.status_message, "❌ Execution failed.");

    app.finish_run(Err("Cancelled by user".to_string()));
    assert_eq!(app.error_message.as_deref(), Some("Execution cancelled."));

    let mut cancelled = outcome(false, false);
    cancelled.cancelled = true;
    app.finish_run(Ok(cancelled));
    assert_eq!(app.error_message.as_deref(), Some("Download cancelled."));
    assert_eq!(app.status_message, "🛑 Download cancelled.");
}

#[test]
fn fedora_run_endings() {
    let c = flash_config();
    let cancelled = fedora_finished(&c, Some("/i".to_string()), Some("/u".to_string()), None).unwrap();
    assert!(cancelled.cancelled);
    assert_eq!(cancelled.image_path, None);
    assert_eq!(cancelled.uefi_dir, None);
    let done = fedora_finished(&c, Some("/i".to_string()), None, Some(Ok(()))).unwrap();
    assert!(!done.cancelled);
    assert_eq!(done.image_path.as_deref(), Some("/i"));
    assert_eq!(done.uefi_dir, None);
    assert_eq!(done.os_distro_label, c.os_distro_label);
    assert_eq!(fedora_finished(&c, None, None, Some(Err("flash broke".to_string()))).unwrap_err(), "flash broke");
}

#[test]
fn unavailable_catalogue_ends_the_run_with_its_context() {
    let mut c = flash_config();
    c.os_distro = OsDistro::Fedora;
    c.image_source_selection = ImageSource::DownloadCatalogue;
    let mut b = FakeBackend { fail_index: true, ..FakeBackend::default() };
    assert_eq!(run_execution_pipeline(&mut b, &c, false).unwrap_err(), "download catalogue unavailable");
    assert_eq!(b.calls, vec!["index".to_string()]);
}

#[test]
fn full_disk_install_is_handed_the_run_arming() {
    let mut c = flash_config();
    c.os_distro = OsDistro::RaspberryPiOS;
    c.image_source_selection = ImageSource::LocalFile;
    let mut b = FakeBackend::default();
    run_execution_pipeline(&mut b, &c, false).unwrap();
    assert_eq!(b.calls, vec!["install /mash/downloads/images false".to_string()]);
}
