//! Running an installation started from the Dojo: which downloads a flash
//! configuration needs, which install path it takes, what each result
//! means, and how the UI state follows the run.
use crate::os_release::{lowercase, to_lowercase};
use crate::path::{join_path, join_path_spec};
use crate::procfs::views_of;
use crate::text::{chars_of, contains_seq, contains_str, push_str};
use crate::tui::app::{opt_str_view, with_error, with_status, with_step, App, AppView};
use crate::tui::steps::InstallStepType;
use crate::tui::types::{FlashConfig, ImageSource, OsDistro};
use crate::workflow::os_install::{ImageSource as OsImageSource, OsInstallConfig};
use vstd::prelude::*;

verus! {

/// How a run ended: the images used, whether it was cancelled, and what
/// the completion screen shows.
#[derive(Debug, Clone)]
pub struct DownloadOutcome {
    pub image_path: Option<String>,
    pub uefi_dir: Option<String>,
    pub cancelled: bool,
    pub post_boot_partition_expansion_required: bool,
    pub os_distro_label: String,
    pub os_flavour_label: String,
    pub dry_run: bool,
}

// ---------------------------------------------------------------------------
// Completion text
// ---------------------------------------------------------------------------

pub open spec fn completion_lines_spec(o: DownloadOutcome) -> Seq<Seq<char>> {
    if o.dry_run {
        seq![
            "✅ DRY-RUN complete."@,
            "No disk writes occurred."@,
            ""@,
            "Selected: "@ + o.os_distro_label@ + " ("@ + o.os_flavour_label@ + ")"@,
            ""@,
            "Report: /mash/install-report.json"@,
        ]
    } else {
        seq![
            "🎉 Installation complete."@,
            "Installed: "@ + o.os_distro_label@ + " ("@ + o.os_flavour_label@ + ")"@,
            ""@,
            "Next steps:"@,
            "1) Safely remove the installer media."@,
            "2) Insert the target media into the Raspberry Pi and boot."@,
            "3) Follow the first-boot prompts."@,
        ] + (if o.post_boot_partition_expansion_required {
            seq![""@, "⚠️ Note (Manjaro): post-boot partition expansion is required."@]
        } else {
            seq![]
        }) + seq![""@, "Report: /mash/install-report.json"@]
    }
}

fn labelled(prefix: &str, outcome: &DownloadOutcome) -> (r: String)
    ensures
        r@ == prefix@ + outcome.os_distro_label@ + " ("@ + outcome.os_flavour_label@ + ")"@,
{
    let mut s = String::from_str(prefix);
    push_str(&mut s, outcome.os_distro_label.as_str());
    push_str(&mut s, " (");
    push_str(&mut s, outcome.os_flavour_label.as_str());
    push_str(&mut s, ")");
    s
}

/// The lines of the completion screen.
pub fn build_completion_lines(outcome: &DownloadOutcome) -> (lines: Vec<String>)
    ensures
        views_of(lines@) == completion_lines_spec(*outcome),
{
    let mut lines: Vec<String> = Vec::new();
    if outcome.dry_run {
        lines.push(String::from_str("✅ DRY-RUN complete."));
        lines.push(String::from_str("No disk writes occurred."));
        lines.push(String::from_str(""));
        lines.push(labelled("Selected: ", outcome));
        lines.push(String::from_str(""));
        lines.push(String::from_str("Report: /mash/install-report.json"));
        assert(views_of(lines@) =~= completion_lines_spec(*outcome));
        return lines;
    }
    lines.push(String::from_str("🎉 Installation complete."));
    lines.push(labelled("Installed: ", outcome));
    lines.push(String::from_str(""));
    lines.push(String::from_str("Next steps:"));
    lines.push(String::from_str("1) Safely remove the installer media."));
    lines.push(String::from_str("2) Insert the target media into the Raspberry Pi and boot."));
    lines.push(String::from_str("3) Follow the first-boot prompts."));
    if outcome.post_boot_partition_expansion_required {
        lines.push(String::from_str(""));
        lines.push(String::from_str("⚠️ Note (Manjaro): post-boot partition expansion is required."));
    }
    lines.push(String::from_str(""));
    lines.push(String::from_str("Report: /mash/install-report.json"));
    assert(views_of(lines@) =~= completion_lines_spec(*outcome));
    lines
}

// ---------------------------------------------------------------------------
// Decisions of a run
// ---------------------------------------------------------------------------

/// An error message reports a cancellation: it mentions "cancel" in any case.
pub open spec fn is_cancellation_spec(message: Seq<char>) -> bool {
    contains_seq(lowercase(message), "cancel"@)
}

pub fn is_cancellation(message: &str) -> (r: bool)
    ensures
        r == is_cancellation_spec(message@),
{
    let lower = to_lowercase(message);
    let v = chars_of(lower.as_str());
    contains_str(&v, "cancel")
}

/// The download catalogue is needed to download the image, and for Fedora
/// also to download the UEFI firmware.
pub open spec fn needs_download_index_spec(c: FlashConfig) -> bool {
    match c.os_distro {
        OsDistro::Fedora => c.image_source_selection == ImageSource::DownloadCatalogue
            || c.download_uefi_firmware,
        _ => c.image_source_selection == ImageSource::DownloadCatalogue,
    }
}

pub fn needs_download_index(config: &FlashConfig) -> (r: bool)
    ensures
        r == needs_download_index_spec(*config),
{
    match config.os_distro {
        OsDistro::Fedora => config.image_source_selection == ImageSource::DownloadCatalogue
            || config.download_uefi_firmware,
        _ => config.image_source_selection == ImageSource::DownloadCatalogue,
    }
}

/// The outcome carries the configuration's labels and run mode.
pub open spec fn labels_of(o: DownloadOutcome, c: FlashConfig) -> bool {
    &&& o.os_distro_label@ == c.os_distro_label@
    &&& o.os_flavour_label@ == c.os_flavour_label@
    &&& o.dry_run == c.dry_run
}

fn outcome_for(
    config: &FlashConfig,
    image_path: Option<String>,
    uefi_dir: Option<String>,
    cancelled: bool,
    post_boot: bool,
) -> (o: DownloadOutcome)
    ensures
        labels_of(o, *config),
        o.image_path == image_path,
        o.uefi_dir == uefi_dir,
        o.cancelled == cancelled,
        o.post_boot_partition_expansion_required == post_boot,
{
    DownloadOutcome {
        image_path,
        uefi_dir,
        cancelled,
        post_boot_partition_expansion_required: post_boot,
        os_distro_label: config.os_distro_label.clone(),
        os_flavour_label: config.os_flavour_label.clone(),
        dry_run: config.dry_run,
    }
}

/// `r` is the successful outcome with these paths and flags and the
/// configuration's labels and mode.
pub open spec fn is_outcome(
    r: Result<DownloadOutcome, String>,
    config: FlashConfig,
    image_path: Option<String>,
    uefi_dir: Option<String>,
    cancelled: bool,
    post_boot: bool,
) -> bool {
    r matches Ok(o) && labels_of(o, config) && o.image_path == image_path && o.uefi_dir == uefi_dir && o.cancelled
        == cancelled && o.post_boot_partition_expansion_required == post_boot
}

/// The result of a run whose download failed with `message`: a cancelled
/// outcome keeping the image downloaded so far when it was a cancellation,
/// else the message as the error.
pub open spec fn failed_download_result(
    config: FlashConfig,
    image_so_far: Option<String>,
    message: String,
    r: Result<DownloadOutcome, String>,
) -> bool {
    if is_cancellation_spec(message@) {
        is_outcome(r, config, image_so_far, None, true, false)
    } else {
        r == Err::<DownloadOutcome, String>(message)
    }
}

/// The result of a full-disk install that answered `answer`.
pub open spec fn install_result_of(config: FlashConfig, answer: Result<bool, String>, r: Result<DownloadOutcome, String>) -> bool {
    match answer {
        Ok(post_boot) => is_outcome(r, config, Some(config.image), None, false, post_boot),
        Err(m) => failed_download_result(config, None, m, r),
    }
}

/// The result of a Fedora run after its downloads: cancelled (`None`), or
/// the flash's answer.
pub open spec fn fedora_result_of(
    config: FlashConfig,
    image: Option<String>,
    uefi: Option<String>,
    flash: Option<Result<(), String>>,
    r: Result<DownloadOutcome, String>,
) -> bool {
    match flash {
        None => is_outcome(r, config, None, None, true, false),
        Some(Ok(())) => is_outcome(r, config, image, uefi, false, false),
        Some(Err(m)) => r == Err::<DownloadOutcome, String>(m),
    }
}

/// A failed download: a cancellation ends the run as cancelled, keeping the
/// image downloaded so far; any other failure is the run's error.
pub fn download_failed(config: &FlashConfig, image_so_far: Option<String>, message: String) -> (r: Result<DownloadOutcome, String>)
    ensures
        is_cancellation_spec(message@) ==> (r matches Ok(o) && o.cancelled && o.image_path == image_so_far
            && o.uefi_dir is None && !o.post_boot_partition_expansion_required && labels_of(o, *config)),
        !is_cancellation_spec(message@) ==> r == Err::<DownloadOutcome, String>(message),
        failed_download_result(*config, image_so_far, message, r),
{
    if is_cancellation(message.as_str()) {
        Ok(outcome_for(config, image_so_far, None, true, false))
    } else {
        Err(message)
    }
}

/// The image and UEFI directory a Fedora flash uses: what was downloaded,
/// else what the configuration names.
pub fn fedora_flash_paths(config: &FlashConfig, downloaded_image: &Option<String>, downloaded_uefi: &Option<String>) -> (r: (String, String))
    ensures
        r.0@ == (match downloaded_image { Some(p) => p@, None => config.image@ }),
        r.1@ == (match downloaded_uefi { Some(p) => p@, None => config.uefi_dir@ }),
{
    let image = match downloaded_image {
        Some(p) => p.clone(),
        None => config.image.clone(),
    };
    let uefi = match downloaded_uefi {
        Some(p) => p.clone(),
        None => config.uefi_dir.clone(),
    };
    (image, uefi)
}

/// The full-disk install a non-Fedora configuration asks for.
pub open spec fn is_install_for(r: OsInstallConfig, config: FlashConfig) -> bool {
    &&& r.mash_root == config.mash_root
    &&& r.state_path == config.state_path
    &&& r.os == config.os_distro
    &&& r.variant == config.os_variant
    &&& r.arch@ == "aarch64"@
    &&& r.target_disk == config.disk
    &&& r.download_dir@ == join_path_spec(join_path_spec(config.mash_root@, "downloads"@), "images"@)
    &&& config.image_source_selection == ImageSource::LocalFile ==> (r.image_source matches OsImageSource::Local(p) && p
        == config.image)
    &&& config.image_source_selection == ImageSource::DownloadCatalogue ==> r.image_source is Download
    &&& r.dry_run == config.dry_run
}

pub fn os_install_config(config: &FlashConfig) -> (r: OsInstallConfig)
    ensures
        is_install_for(r, *config),
{
    let image_source = match config.image_source_selection {
        ImageSource::LocalFile => OsImageSource::Local(config.image.clone()),
        ImageSource::DownloadCatalogue => OsImageSource::Download,
    };
    let downloads = join_path(config.mash_root.as_str(), "downloads");
    OsInstallConfig {
        mash_root: config.mash_root.clone(),
        state_path: config.state_path.clone(),
        os: config.os_distro,
        variant: config.os_variant.clone(),
        arch: String::from_str("aarch64"),
        target_disk: config.disk.clone(),
        download_dir: join_path(downloads.as_str(), "images"),
        image_source,
        dry_run: config.dry_run,
    }
}

/// The result of a full-disk install: success reports the image and the
/// post-boot expansion flag; a cancellation ends the run as cancelled;
/// other failures are the run's error.
pub fn install_finished(config: &FlashConfig, result: Result<bool, String>) -> (r: Result<DownloadOutcome, String>)
    ensures
        result matches Ok(post_boot) ==> (r matches Ok(o) && !o.cancelled && o.image_path == Some(config.image)
            && o.uefi_dir is None && o.post_boot_partition_expansion_required == post_boot && labels_of(o, *config)),
        result matches Err(m) ==> (is_cancellation_spec(m@) ==> (r matches Ok(o) && o.cancelled && o.image_path is None
            && o.uefi_dir is None && !o.post_boot_partition_expansion_required && labels_of(o, *config))),
        result matches Err(m) ==> (!is_cancellation_spec(m@) ==> r == Err::<DownloadOutcome, String>(m)),
        install_result_of(*config, result, r),
{
    match result {
        Ok(post_boot) => Ok(outcome_for(config, Some(config.image.clone()), None, false, post_boot)),
        Err(m) => download_failed(config, None, m),
    }
}

// ---------------------------------------------------------------------------
// The run
// ---------------------------------------------------------------------------

/// Download phases reported to the progress view.
#[derive(Debug, Clone, Copy, PartialEq, Eq, Structural)]
pub enum Phase {
    DownloadImage,
    DownloadUefi,
}

/// Progress of a run, as the progress view receives it.
#[derive(Debug, Clone)]
pub enum ExecutionEvent {
    PhaseStarted(Phase),
    PhaseCompleted(Phase),
    PhaseSkipped(Phase),
    Status(String),
    Error(String),
    Complete,
}

/// A request of an installation run to its backend, with the answer.
pub enum BackendCall {
    LoadIndex { answer: Result<(), String> },
    FetchImage { root: String, version: String, edition: String, answer: Result<String, String> },
    FetchUefi { root: String, answer: Result<String, String> },
    Discard { image: Option<String>, uefi_dir: Option<String> },
    Flash { config: FlashConfig, image: String, uefi_dir: String, armed: bool, answer: Result<(), String> },
    InstallOs { install: OsInstallConfig, armed: bool, typed_confirmation: bool, answer: Result<bool, String> },
}

/// The work a run hands out: downloads, flashing and installing, and the
/// progress reports.
pub trait ExecutionBackend {
    /// Whether this backend keeps the record given by `calls`; one that does
    /// not promises nothing about that record.
    open spec fn keeps_record(&self) -> bool {
        false
    }

    /// The requests made of this backend so far (progress reports aside).
    open spec fn calls(&self) -> Seq<BackendCall> {
        Seq::empty()
    }

    fn load_download_index(&mut self) -> (r: Result<(), String>)
        ensures
            old(self).keeps_record() ==> (final(self).keeps_record() && final(self).calls().len() == old(self).calls().len() + 1 && final(self).calls().drop_last() == old(self).calls() && (final(self).calls().last() == BackendCall::LoadIndex { answer: r })),
    ;

    /// Downloads the Fedora image into `download_root`; gives its path.
    fn fetch_fedora_image(&mut self, download_root: &str, version: &str, edition: &str) -> (r: Result<String, String>)
        ensures
            old(self).keeps_record() ==> (final(self).keeps_record() && final(self).calls().len() == old(self).calls().len() + 1 && final(self).calls().drop_last() == old(self).calls() && (final(self).calls().last() matches BackendCall::FetchImage { root, version: v, edition: e, answer } && root@ == download_root@
                        && v@ == version@ && e@ == edition@ && answer == r)),
    ;

    /// Downloads the UEFI bundle into `download_root`; gives its directory.
    fn fetch_uefi_bundle(&mut self, download_root: &str) -> (r: Result<String, String>)
        ensures
            old(self).keeps_record() ==> (final(self).keeps_record() && final(self).calls().len() == old(self).calls().len() + 1 && final(self).calls().drop_last() == old(self).calls() && (final(self).calls().last() matches BackendCall::FetchUefi { root, answer } && root@ == download_root@ && answer == r)),
    ;

    fn cancel_requested(&self) -> bool;

    /// Removes what a cancelled run downloaded.
    fn discard_downloads(&mut self, image: &Option<String>, uefi_dir: &Option<String>)
        ensures
            old(self).keeps_record() ==> (final(self).keeps_record() && final(self).calls().len() == old(self).calls().len() + 1 && final(self).calls().drop_last() == old(self).calls() && (final(self).calls().last() == BackendCall::Discard { image: *image, uefi_dir: *uefi_dir })),
    ;

    /// The Fedora full-loop install; `armed` when Safe Mode was disarmed.
    fn flash_fedora(&mut self, config: &FlashConfig, image: &str, uefi_dir: &str, armed: bool) -> (r: Result<(), String>)
        ensures
            old(self).keeps_record() ==> (final(self).keeps_record() && final(self).calls().len() == old(self).calls().len() + 1 && final(self).calls().drop_last() == old(self).calls() && (final(self).calls().last() matches BackendCall::Flash { config: k, image: i, uefi_dir: u, armed: a, answer } && k == *config
                        && i@ == image@ && u@ == uefi_dir@ && a == armed && answer == r)),
    ;

    /// A full-disk OS install; gives whether post-boot partition expansion is required.
    fn install_os(&mut self, install: &OsInstallConfig, armed: bool, typed_confirmation: bool) -> (r: Result<bool, String>)
        ensures
            old(self).keeps_record() ==> (final(self).keeps_record() && final(self).calls().len() == old(self).calls().len() + 1 && final(self).calls().drop_last() == old(self).calls() && (final(self).calls().last() == BackendCall::InstallOs { install: *install, armed, typed_confirmation, answer: r })),
    ;

    fn report(&mut self, event: ExecutionEvent)
        ensures
            old(self).keeps_record() ==> final(self).keeps_record() && final(self).calls() == old(self).calls(),
    ;
}

/// The requests of a Fedora run once its index is loaded (`s`): the image
/// download when the catalogue is the source, then the UEFI download when
/// asked for, each ending the run when it fails; then the discard of a
/// cancelled run or the flash of the downloaded (or configured) image and
/// UEFI directory with the run's arming.
pub open spec fn fedora_calls(config: FlashConfig, armed: bool, s: Seq<BackendCall>) -> bool {
    let root = join_path_spec(config.mash_root@, "downloads"@);
    if config.image_source_selection == ImageSource::DownloadCatalogue {
        &&& s.len() >= 1
        &&& s[0] matches BackendCall::FetchImage { root: r, version, edition, answer } && r@ == root && version@
            == config.image_version@ && edition@ == config.image_edition@ && match answer {
            Ok(p) => fedora_uefi_calls(config, armed, s.skip(1), Some(p)),
            Err(_) => s.len() == 1,
        }
    } else {
        fedora_uefi_calls(config, armed, s, None)
    }
}

pub open spec fn fedora_uefi_calls(config: FlashConfig, armed: bool, s: Seq<BackendCall>, image: Option<String>) -> bool {
    let root = join_path_spec(config.mash_root@, "downloads"@);
    if config.download_uefi_firmware {
        &&& s.len() >= 1
        &&& s[0] matches BackendCall::FetchUefi { root: r, answer } && r@ == root && match answer {
            Ok(p) => fedora_final_calls(config, armed, s.skip(1), image, Some(p)),
            Err(_) => s.len() == 1,
        }
    } else {
        fedora_final_calls(config, armed, s, image, None)
    }
}

pub open spec fn fedora_final_calls(
    config: FlashConfig,
    armed: bool,
    s: Seq<BackendCall>,
    image: Option<String>,
    uefi: Option<String>,
) -> bool {
    &&& s.len() == 1
    &&& s[0] == BackendCall::Discard { image, uefi_dir: uefi } || flashes(s[0], config, armed, image, uefi)
}

/// The flash of `image` (or the configured image) and `uefi` (or the
/// configured UEFI directory) with the configuration and arming.
pub open spec fn flashes(c: BackendCall, config: FlashConfig, armed: bool, image: Option<String>, uefi: Option<String>) -> bool {
    c matches BackendCall::Flash { config: k, image: i, uefi_dir: u, armed: a, answer } && k == config && a == armed
        && i@ == (match image {
        Some(p) => p@,
        None => config.image@,
    }) && u@ == (match uefi {
        Some(p) => p@,
        None => config.uefi_dir@,
    })
}

/// The requests of an installation run: the download index first when the
/// configuration needs it (a failure ends the run); then the Fedora
/// downloads and flash, or the one full-disk install of the configured
/// system, handed the run's arming and typed confirmation.
pub open spec fn run_calls(config: FlashConfig, armed: bool, s: Seq<BackendCall>) -> bool {
    if needs_download_index_spec(config) {
        &&& s.len() >= 1
        &&& s[0] matches BackendCall::LoadIndex { answer } && match answer {
            Ok(()) => body_calls(config, armed, s.skip(1)),
            Err(_) => s.len() == 1,
        }
    } else {
        body_calls(config, armed, s)
    }
}

pub open spec fn body_calls(config: FlashConfig, armed: bool, s: Seq<BackendCall>) -> bool {
    if config.os_distro == OsDistro::Fedora {
        fedora_calls(config, armed, s)
    } else {
        &&& s.len() == 1
        &&& s[0] matches BackendCall::InstallOs { install, armed: a, typed_confirmation, answer } && is_install_for(
            install,
            config,
        ) && a == armed && typed_confirmation == config.typed_execute_confirmation
    }
}

/// How a Fedora run ends once its downloads are done: `None` when it was
/// cancelled before flashing (a cancelled outcome naming no paths), else the
/// answer of the flash (success gives exactly the downloaded paths; a failure
/// message is passed on).
pub fn fedora_finished(
    config: &FlashConfig,
    image: Option<String>,
    uefi: Option<String>,
    flash: Option<Result<(), String>>,
) -> (r: Result<DownloadOutcome, String>)
    ensures
        flash is None ==> (r matches Ok(o) && o.cancelled && o.image_path is None && o.uefi_dir is None
            && !o.post_boot_partition_expansion_required && labels_of(o, *config)),
        flash matches Some(Ok(())) ==> (r matches Ok(o) && !o.cancelled && o.image_path == image
            && o.uefi_dir == uefi && !o.post_boot_partition_expansion_required && labels_of(o, *config)),
        flash matches Some(Err(m)) ==> r == Err::<DownloadOutcome, String>(m),
        fedora_result_of(*config, image, uefi, flash, r),
{
    match flash {
        None => Ok(outcome_for(config, None, None, true, false)),
        Some(Ok(())) => Ok(outcome_for(config, image, uefi, false, false)),
        Some(Err(m)) => Err(m),
    }
}

/// Downloads one phase for the Fedora path.
fn fetch_phase<B: ExecutionBackend>(backend: &mut B, config: &FlashConfig, phase: Phase, root: &str) -> (r: Result<String, String>)
    ensures
        old(backend).keeps_record() ==> {
            &&& final(backend).keeps_record()
            &&& final(backend).calls().len() == old(backend).calls().len() + 1
            &&& final(backend).calls().drop_last() == old(backend).calls()
            &&& phase is DownloadImage ==> (final(backend).calls().last() matches BackendCall::FetchImage {
                root: rt,
                version,
                edition,
                answer,
            } && rt@ == root@ && version@ == config.image_version@ && edition@ == config.image_edition@ && answer == r)
            &&& phase is DownloadUefi ==> (final(backend).calls().last() matches BackendCall::FetchUefi {
                root: rt,
                answer,
            } && rt@ == root@ && answer == r)
        },
{
    backend.report(ExecutionEvent::PhaseStarted(phase));
    let r = match phase {
        Phase::DownloadImage => {
            backend.report(ExecutionEvent::Status(String::from_str("⬇️ Downloading Fedora image...")));
            backend.fetch_fedora_image(root, config.image_version.as_str(), config.image_edition.as_str())
        },
        Phase::DownloadUefi => {
            backend.report(ExecutionEvent::Status(String::from_str("⬇️ Downloading UEFI bundle...")));
            backend.fetch_uefi_bundle(root)
        },
    };
    match &r {
        Ok(_) => backend.report(ExecutionEvent::PhaseCompleted(phase)),
        Err(_) => backend.report(ExecutionEvent::Status(String::from_str("🧹 Cleaning up..."))),
    }
    r
}

/// Runs an installation: Fedora goes through its downloads and the
/// full-loop flash, other systems through a full-disk install.  Whatever
/// the backend answers, a finished run carries the configuration's labels
/// and mode, a cancelled run asks for no partition expansion, a Fedora run
/// reports only what it downloaded, and a full-disk install reports the
/// configured image.
pub fn run_execution_pipeline<B: ExecutionBackend>(backend: &mut B, config: &FlashConfig, yes_i_know: bool) -> (r: Result<DownloadOutcome, String>)
    ensures
        r matches Ok(o) ==> labels_of(o, *config),
        r matches Ok(o) ==> (o.cancelled ==> !o.post_boot_partition_expansion_required),
        config.os_distro == OsDistro::Fedora ==> (r matches Ok(o) ==> !o.post_boot_partition_expansion_required),
        config.os_distro == OsDistro::Fedora && config.image_source_selection == ImageSource::LocalFile ==> (
        r matches Ok(o) ==> o.image_path is None),
        config.os_distro == OsDistro::Fedora && !config.download_uefi_firmware ==> (r matches Ok(o)
            ==> o.uefi_dir is None),
        config.os_distro != OsDistro::Fedora ==> (r matches Ok(o) ==> (o.uefi_dir is None && (!o.cancelled
            ==> o.image_path == Some(config.image)))),
        old(backend).keeps_record() ==> {
            &&& final(backend).calls().len() >= old(backend).calls().len()
            &&& final(backend).calls().take(old(backend).calls().len() as int) == old(backend).calls()
            &&& run_calls(*config, yes_i_know, final(backend).calls().skip(old(backend).calls().len() as int))
        },
        old(backend).keeps_record() ==> run_outcome(*config, final(backend).calls().skip(old(backend).calls().len() as int), r),
{
    let ghost c0 = backend.calls();
    if needs_download_index(config) {
        match backend.load_download_index() {
            Ok(()) => {},
            Err(e) => {
                proof {
                    if old(backend).keeps_record() {
                        lemma_record_last(c0, backend.calls());
                    }
                }
                return Err(String::from_str("download catalogue unavailable"));
            },
        }
    }
    let ghost c1 = backend.calls();
    let r = if config.os_distro == OsDistro::Fedora {
        run_fedora(backend, config, yes_i_know)
    } else {
        run_full_disk(backend, config, yes_i_know)
    };
    proof {
        if old(backend).keeps_record() {
            let n = backend.calls();
            if needs_download_index_spec(*config) {
                lemma_record_step(c0, c1, n);
            } else {
                assert(c1 == c0);
            }
        }
    }
    r
}

/// Every destructive request in `s` (a flash or a full-disk install) carries
/// the run's arming, and an install the configured typed confirmation.
pub open spec fn arming_kept(s: Seq<BackendCall>, config: FlashConfig, armed: bool) -> bool {
    forall|k: int|
        0 <= k < s.len() ==> {
            &&& (#[trigger] s[k]) matches BackendCall::Flash { armed: a, .. } ==> a == armed
            &&& s[k] matches BackendCall::InstallOs { armed: a, typed_confirmation: t, .. } ==> a == armed && t
                == config.typed_execute_confirmation
        }
}

proof fn lemma_arming_after_first(s: Seq<BackendCall>, config: FlashConfig, armed: bool)
    requires
        s.len() >= 1,
        !(s[0] is Flash),
        !(s[0] is InstallOs),
        arming_kept(s.skip(1), config, armed),
    ensures
        arming_kept(s, config, armed),
{
    assert forall|k: int| 0 <= k < s.len() implies {
        &&& (#[trigger] s[k]) matches BackendCall::Flash { armed: a, .. } ==> a == armed
        &&& s[k] matches BackendCall::InstallOs { armed: a, typed_confirmation: t, .. } ==> a == armed && t
            == config.typed_execute_confirmation
    } by {
        if k > 0 {
            assert(s[k] == s.skip(1)[k - 1]);
        }
    }
}

proof fn lemma_arming_final(config: FlashConfig, armed: bool, s: Seq<BackendCall>, image: Option<String>, uefi: Option<String>)
    requires
        fedora_final_calls(config, armed, s, image, uefi),
    ensures
        arming_kept(s, config, armed),
{
}

proof fn lemma_arming_uefi(config: FlashConfig, armed: bool, s: Seq<BackendCall>, image: Option<String>)
    requires
        fedora_uefi_calls(config, armed, s, image),
    ensures
        arming_kept(s, config, armed),
{
    if config.download_uefi_firmware {
        if let BackendCall::FetchUefi { root, answer } = s[0] {
            if let Ok(p) = answer {
                lemma_arming_final(config, armed, s.skip(1), image, Some(p));
                lemma_arming_after_first(s, config, armed);
            }
        }
    } else {
        lemma_arming_final(config, armed, s, image, None);
    }
}

proof fn lemma_arming_fedora(config: FlashConfig, armed: bool, s: Seq<BackendCall>)
    requires
        fedora_calls(config, armed, s),
    ensures
        arming_kept(s, config, armed),
{
    if config.image_source_selection == ImageSource::DownloadCatalogue {
        if let BackendCall::FetchImage { root, version, edition, answer } = s[0] {
            if let Ok(p) = answer {
                lemma_arming_uefi(config, armed, s.skip(1), Some(p));
                lemma_arming_after_first(s, config, armed);
            }
        }
    } else {
        lemma_arming_uefi(config, armed, s, None);
    }
}

/// An installation run hands its backend destructive work (a flash or a
/// full-disk install) only with the arming it was given, and an install
/// only with the configured typed confirmation.
pub proof fn law_run_keeps_arming(config: FlashConfig, armed: bool, s: Seq<BackendCall>)
    requires
        run_calls(config, armed, s),
    ensures
        arming_kept(s, config, armed),
{
    let body = if needs_download_index_spec(config) { s.skip(1) } else { s };
    if needs_download_index_spec(config) && s[0] matches BackendCall::LoadIndex { answer: Err(_) } {
    } else {
        if config.os_distro == OsDistro::Fedora {
            lemma_arming_fedora(config, armed, body);
        }
        if needs_download_index_spec(config) {
            lemma_arming_after_first(s, config, armed);
        }
    }
}

/// The result of an installation run read from its requests `s` and their
/// answers: a failed index load ends the run with "download catalogue
/// unavailable"; a failed download ends it as `failed_download_result`
/// says; a full-disk install gives `install_result_of` its answer; a Fedora
/// run ends as `fedora_result_of` says of its discard or flash.
pub open spec fn run_outcome(config: FlashConfig, s: Seq<BackendCall>, r: Result<DownloadOutcome, String>) -> bool {
    if needs_download_index_spec(config) {
        &&& s.len() >= 1
        &&& s[0] matches BackendCall::LoadIndex { answer } && match answer {
            Ok(()) => body_outcome(config, s.skip(1), r),
            Err(_) => r matches Err(m) && m@ == "download catalogue unavailable"@,
        }
    } else {
        body_outcome(config, s, r)
    }
}

pub open spec fn body_outcome(config: FlashConfig, s: Seq<BackendCall>, r: Result<DownloadOutcome, String>) -> bool {
    if config.os_distro == OsDistro::Fedora {
        fedora_outcome(config, s, r)
    } else {
        &&& s.len() >= 1
        &&& s[0] matches BackendCall::InstallOs { answer, .. } && install_result_of(config, answer, r)
    }
}

pub open spec fn fedora_outcome(config: FlashConfig, s: Seq<BackendCall>, r: Result<DownloadOutcome, String>) -> bool {
    if config.image_source_selection == ImageSource::DownloadCatalogue {
        &&& s.len() >= 1
        &&& s[0] matches BackendCall::FetchImage { answer, .. } && match answer {
            Ok(p) => fedora_uefi_outcome(config, s.skip(1), Some(p), r),
            Err(e) => failed_download_result(config, None, e, r),
        }
    } else {
        fedora_uefi_outcome(config, s, None, r)
    }
}

pub open spec fn fedora_uefi_outcome(
    config: FlashConfig,
    s: Seq<BackendCall>,
    image: Option<String>,
    r: Result<DownloadOutcome, String>,
) -> bool {
    if config.download_uefi_firmware {
        &&& s.len() >= 1
        &&& s[0] matches BackendCall::FetchUefi { answer, .. } && match answer {
            Ok(p) => fedora_final_outcome(config, s.skip(1), image, Some(p), r),
            Err(e) => failed_download_result(config, image, e, r),
        }
    } else {
        fedora_final_outcome(config, s, image, None, r)
    }
}

pub open spec fn fedora_final_outcome(
    config: FlashConfig,
    s: Seq<BackendCall>,
    image: Option<String>,
    uefi: Option<String>,
    r: Result<DownloadOutcome, String>,
) -> bool {
    &&& s.len() >= 1
    &&& match s[0] {
        BackendCall::Discard { .. } => fedora_result_of(config, image, uefi, None, r),
        BackendCall::Flash { answer, .. } => fedora_result_of(config, image, uefi, Some(answer), r),
        _ => false,
    }
}

/// A record `n` that extends `b`, itself `a` with one more request, extends
/// `a`, and what it adds to `a` starts with that request.
proof fn lemma_record_step(a: Seq<BackendCall>, b: Seq<BackendCall>, n: Seq<BackendCall>)
    requires
        b.len() == a.len() + 1,
        b.drop_last() == a,
        n.len() >= b.len(),
        n.take(b.len() as int) == b,
    ensures
        n.len() >= a.len(),
        n.take(a.len() as int) == a,
        n.skip(a.len() as int).len() >= 1,
        n.skip(a.len() as int)[0] == b.last(),
        n.skip(a.len() as int).skip(1) == n.skip(b.len() as int),
{
    assert(n.take(a.len() as int) =~= b.take(a.len() as int));
    assert(b.take(a.len() as int) =~= a);
    assert(n.skip(a.len() as int)[0] == n[a.len() as int]);
    assert(n[a.len() as int] == b[a.len() as int]);
    assert(n.skip(a.len() as int).skip(1) =~= n.skip(b.len() as int));
}

/// A record `n` that is `a` with one more request adds just that request.
proof fn lemma_record_last(a: Seq<BackendCall>, n: Seq<BackendCall>)
    requires
        n.len() == a.len() + 1,
        n.drop_last() == a,
    ensures
        n.take(a.len() as int) == a,
        n.skip(a.len() as int) == seq![n.last()],
{
    assert(n.take(a.len() as int) =~= a);
    assert(n.skip(a.len() as int) =~= seq![n.last()]);
}

/// The full-disk install of a non-Fedora configuration.
fn run_full_disk<B: ExecutionBackend>(backend: &mut B, config: &FlashConfig, yes_i_know: bool) -> (r: Result<DownloadOutcome, String>)
    requires
        config.os_distro != OsDistro::Fedora,
    ensures
        r matches Ok(o) ==> labels_of(o, *config),
        r matches Ok(o) ==> (o.cancelled ==> !o.post_boot_partition_expansion_required),
        r matches Ok(o) ==> (o.uefi_dir is None && (!o.cancelled ==> o.image_path == Some(config.image))),
        old(backend).keeps_record() ==> {
            &&& final(backend).calls().len() >= old(backend).calls().len()
            &&& final(backend).calls().take(old(backend).calls().len() as int) == old(backend).calls()
            &&& body_calls(*config, yes_i_know, final(backend).calls().skip(old(backend).calls().len() as int))
        },
        old(backend).keeps_record() ==> body_outcome(*config, final(backend).calls().skip(old(backend).calls().len() as int), r),
{
    let ghost c0 = backend.calls();
    let install = os_install_config(config);
    let result = backend.install_os(&install, yes_i_know, config.typed_execute_confirmation);
    let ghost c1 = backend.calls();
    match &result {
        Ok(_) => backend.report(ExecutionEvent::Complete),
        Err(m) => if is_cancellation(m.as_str()) {
            backend.report(ExecutionEvent::Error(String::from_str("Cancelled")))
        } else {
            backend.report(ExecutionEvent::Error(m.clone()))
        },
    }
    proof {
        if old(backend).keeps_record() {
            lemma_record_last(c0, c1);
        }
    }
    install_finished(config, result)
}

/// A Fedora run once the download index is loaded.
fn run_fedora<B: ExecutionBackend>(backend: &mut B, config: &FlashConfig, yes_i_know: bool) -> (r: Result<DownloadOutcome, String>)
    requires
        config.os_distro == OsDistro::Fedora,
    ensures
        r matches Ok(o) ==> labels_of(o, *config),
        r matches Ok(o) ==> !o.post_boot_partition_expansion_required,
        config.image_source_selection == ImageSource::LocalFile ==> (r matches Ok(o) ==> o.image_path is None),
        !config.download_uefi_firmware ==> (r matches Ok(o) ==> o.uefi_dir is None),
        old(backend).keeps_record() ==> {
            &&& final(backend).calls().len() >= old(backend).calls().len()
            &&& final(backend).calls().take(old(backend).calls().len() as int) == old(backend).calls()
            &&& fedora_calls(*config, yes_i_know, final(backend).calls().skip(old(backend).calls().len() as int))
        },
        old(backend).keeps_record() ==> fedora_outcome(*config, final(backend).calls().skip(old(backend).calls().len() as int), r),
{
    let ghost c0 = backend.calls();
    let root = join_path(config.mash_root.as_str(), "downloads");
    if config.image_source_selection == ImageSource::DownloadCatalogue {
        let fetched = fetch_phase(backend, config, Phase::DownloadImage, root.as_str());
        let ghost c1 = backend.calls();
        match fetched {
            Ok(p) => {
                let r = fedora_after_image(backend, config, yes_i_know, root.as_str(), Some(p));
                proof {
                    if old(backend).keeps_record() {
                        lemma_record_step(c0, c1, backend.calls());
                    }
                }
                r
            },
            Err(e) => {
                let r = download_failed(config, None, e);
                match &r {
                    Ok(_) => backend.report(ExecutionEvent::Error(String::from_str("Cancelled"))),
                    Err(m) => backend.report(ExecutionEvent::Error(m.clone())),
                }
                proof {
                    if old(backend).keeps_record() {
                        lemma_record_last(c0, backend.calls());
                    }
                }
                r
            },
        }
    } else {
        backend.report(ExecutionEvent::PhaseSkipped(Phase::DownloadImage));
        fedora_after_image(backend, config, yes_i_know, root.as_str(), None)
    }
}

/// A Fedora run once its image is settled (`image` when it was downloaded).
fn fedora_after_image<B: ExecutionBackend>(
    backend: &mut B,
    config: &FlashConfig,
    yes_i_know: bool,
    root: &str,
    image: Option<String>,
) -> (r: Result<DownloadOutcome, String>)
    requires
        root@ == join_path_spec(config.mash_root@, "downloads"@),
    ensures
        r matches Ok(o) ==> labels_of(o, *config),
        r matches Ok(o) ==> !o.post_boot_partition_expansion_required,
        r matches Ok(o) ==> (o.image_path is None || o.image_path == image),
        !config.download_uefi_firmware ==> (r matches Ok(o) ==> o.uefi_dir is None),
        old(backend).keeps_record() ==> {
            &&& final(backend).calls().len() >= old(backend).calls().len()
            &&& final(backend).calls().take(old(backend).calls().len() as int) == old(backend).calls()
            &&& fedora_uefi_calls(*config, yes_i_know, final(backend).calls().skip(old(backend).calls().len() as int), image)
        },
        old(backend).keeps_record() ==> fedora_uefi_outcome(*config, final(backend).calls().skip(old(backend).calls().len() as int), image, r),
{
    let ghost c0 = backend.calls();
    if config.download_uefi_firmware {
        let fetched = fetch_phase(backend, config, Phase::DownloadUefi, root);
        let ghost c1 = backend.calls();
        match fetched {
            Ok(p) => {
                let r = fedora_finish(backend, config, yes_i_know, image, Some(p));
                proof {
                    if old(backend).keeps_record() {
                        lemma_record_step(c0, c1, backend.calls());
                    }
                }
                r
            },
            Err(e) => {
                let r = download_failed(config, image, e);
                match &r {
                    Ok(_) => backend.report(ExecutionEvent::Error(String::from_str("Cancelled"))),
                    Err(m) => backend.report(ExecutionEvent::Error(m.clone())),
                }
                proof {
                    if old(backend).keeps_record() {
                        lemma_record_last(c0, backend.calls());
                    }
                }
                r
            },
        }
    } else {
        backend.report(ExecutionEvent::PhaseSkipped(Phase::DownloadUefi));
        fedora_finish(backend, config, yes_i_know, image, None)
    }
}

/// The end of a Fedora run: the discard of a cancelled run, or the flash.
fn fedora_finish<B: ExecutionBackend>(
    backend: &mut B,
    config: &FlashConfig,
    yes_i_know: bool,
    image: Option<String>,
    uefi: Option<String>,
) -> (r: Result<DownloadOutcome, String>)
    ensures
        r matches Ok(o) ==> labels_of(o, *config),
        r matches Ok(o) ==> !o.post_boot_partition_expansion_required,
        r matches Ok(o) ==> (o.image_path is None || o.image_path == image),
        r matches Ok(o) ==> (o.uefi_dir is None || o.uefi_dir == uefi),
        old(backend).keeps_record() ==> {
            &&& final(backend).calls().len() >= old(backend).calls().len()
            &&& final(backend).calls().take(old(backend).calls().len() as int) == old(backend).calls()
            &&& fedora_final_calls(*config, yes_i_know, final(backend).calls().skip(old(backend).calls().len() as int), image, uefi)
        },
        old(backend).keeps_record() ==> fedora_final_outcome(*config, final(backend).calls().skip(old(backend).calls().len() as int), image, uefi, r),
{
    let ghost c0 = backend.calls();
    if backend.cancel_requested() {
        backend.report(ExecutionEvent::Status(String::from_str("🧹 Cleaning up...")));
        backend.discard_downloads(&image, &uefi);
        backend.report(ExecutionEvent::Error(String::from_str("Cancelled")));
        proof {
            if old(backend).keeps_record() {
                lemma_record_last(c0, backend.calls());
            }
        }
        return fedora_finished(config, image, uefi, None);
    }
    let (image_path, uefi_dir) = fedora_flash_paths(config, &image, &uefi);
    let flashed = backend.flash_fedora(config, image_path.as_str(), uefi_dir.as_str(), yes_i_know);
    proof {
        if old(backend).keeps_record() {
            lemma_record_last(c0, backend.calls());
            assert(flashes(backend.calls().last(), *config, yes_i_know, image, uefi));
        }
    }
    fedora_finished(config, image, uefi, Some(flashed))
}

// ---------------------------------------------------------------------------
// The UI around a run
// ---------------------------------------------------------------------------

/// The UI after the run ended with `result`.
#[verifier::opaque]
pub open spec fn after_run(v: AppView, result: Result<DownloadOutcome, String>) -> AppView {
    match result {
        Ok(o) => if o.cancelled {
            AppView {
                is_running: false,
                ..with_status(with_error(v, Some("Download cancelled."@)), "🛑 Download cancelled."@)
            }
        } else {
            AppView {
                downloaded_image_path: opt_str_view(o.image_path),
                downloaded_uefi_dir: opt_str_view(o.uefi_dir),
                is_running: false,
                completion_lines: v.completion_lines,
                ..with_status(with_step(v, InstallStepType::Complete), "✅ Complete."@)
            }
        },
        Err(m) => if is_cancellation_spec(m@) {
            AppView {
                is_running: false,
                ..with_status(with_error(v, Some("Execution cancelled."@)), "🛑 Execution cancelled."@)
            }
        } else {
            AppView {
                is_running: false,
                ..with_status(with_error(v, Some("Execution failed: "@ + m@)), "❌ Execution failed."@)
            }
        },
    }
}

impl App {
    /// A flash was requested: it starts unless a run is already going.
    /// Gives whether to start it.
    pub fn begin_run(&mut self) -> (start: bool)
        ensures
            start == !old(self)@.is_running,
            start ==> final(self)@ == (AppView { is_running: true, ..with_status(old(self)@, "⬇️ Starting downloads..."@) }),
            !start ==> final(self)@ == old(self)@,
    {
        if self.running() {
            return false;
        }
        self.set_is_running(true);
        self.set_status_str("⬇️ Starting downloads...");
        true
    }

    fn end_cancelled(&mut self, error: &str, status: &str)
        ensures
            final(self)@ == (AppView { is_running: false, ..with_status(with_error(old(self)@, Some(error@)), status@) }),
    {
        self.set_error_str(error);
        self.set_status_str(status);
        self.set_is_running(false);
    }

    fn end_download_cancelled(&mut self, outcome: &DownloadOutcome)
        requires
            outcome.cancelled,
        ensures
            final(self)@ == after_run(old(self)@, Ok(*outcome)),
    {
        self.end_cancelled("Download cancelled.", "🛑 Download cancelled.");
        proof {
            reveal(after_run);
        }
    }

    fn end_error(&mut self, m: String)
        ensures
            final(self)@ == after_run(old(self)@, Err(m)),
    {
        if is_cancellation(m.as_str()) {
            self.end_cancelled("Execution cancelled.", "🛑 Execution cancelled.");
        } else {
            let mut msg = String::from_str("Execution failed: ");
            push_str(&mut msg, m.as_str());
            self.set_error_string(msg);
            self.set_status_str("❌ Execution failed.");
            self.set_is_running(false);
        }
        proof {
            reveal(after_run);
        }
    }

    fn end_completed(&mut self, outcome: DownloadOutcome)
        requires
            !outcome.cancelled,
        ensures
            final(self)@ == (AppView { completion_lines: final(self)@.completion_lines, ..after_run(old(self)@, Ok(outcome)) }),
            views_of(final(self)@.completion_lines) == completion_lines_spec(outcome),
    {
        let completion = build_completion_lines(&outcome);
        self.set_downloaded_paths(outcome.image_path, outcome.uefi_dir);
        self.set_is_running(false);
        self.set_step(InstallStepType::Complete);
        self.set_completion_lines(completion);
        self.set_status_str("✅ Complete.");
        proof {
            reveal(after_run);
        }
    }

    /// Takes in the result of a run.  A completed run shows its completion
    /// lines; otherwise they stay as they were.
    pub fn finish_run(&mut self, result: Result<DownloadOutcome, String>)
        ensures
            final(self)@ == (AppView { completion_lines: final(self)@.completion_lines, ..after_run(old(self)@, result) }),
            result matches Ok(o) ==> (!o.cancelled ==> views_of(final(self)@.completion_lines) == completion_lines_spec(o)),
            result matches Ok(o) ==> (o.cancelled ==> final(self)@ == after_run(old(self)@, result)),
            result is Err ==> final(self)@ == after_run(old(self)@, result),
    {
        match result {
            Ok(outcome) => {
                if outcome.cancelled {
                    self.end_download_cancelled(&outcome);
                } else {
                    self.end_completed(outcome);
                }
            },
            Err(m) => {
                self.end_error(m);
            },
        }
    }
}

} // verus!

verus! {

/// However a run ends, the UI no longer shows it as running.
pub proof fn law_run_end_clears_running(v: AppView, result: Result<DownloadOutcome, String>)
    ensures
        !after_run(v, result).is_running,
{
    reveal(after_run);
}

/// Only a finished, not cancelled run moves the UI to the completion step.
pub proof fn law_only_finished_runs_complete(v: AppView, result: Result<DownloadOutcome, String>)
    requires
        v.step != InstallStepType::Complete,
    ensures
        after_run(v, result).step == InstallStepType::Complete <==> (result matches Ok(o) && !o.cancelled),
{
    reveal(after_run);
}

} // verus!
