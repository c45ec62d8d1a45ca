//! Full-disk OS installs (Ubuntu, Raspberry Pi OS, Manjaro): their
//! configuration, the state they record, and the resumable run of their
//! four stages: record the intent, download the image, flash it, apply the
//! rules of the OS.
use crate::hal::error::{HalError, HalResult};
use crate::hal::ops::FlashOps;
use crate::hal::options::FlashOptions;
use crate::procfs::views_of;
use crate::text::str_eq;
use crate::tui::types::OsDistro;
use crate::workflow::error::WorkflowError;
use crate::workflow::stage_runner::{
    is_save_of, save_failed_with, saves_state, StageProgress, StateStore, StoreCall, WorkflowState,
};
use vstd::prelude::*;

verus! {

/// Where the OS image comes from.
#[derive(Debug, Clone)]
pub enum ImageSource {
    /// Use a local on-disk image (typically .img, .raw, or compressed .xz).
    Local(String),
    /// Download the image from the canonical index.
    Download,
}

/// Which image of the download index an install uses.
#[derive(Debug, Clone)]
pub struct ImageKey {
    pub os: OsDistro,
    pub variant: String,
    pub arch: String,
}

/// Everything a full-disk OS install needs.
#[derive(Debug, Clone)]
pub struct OsInstallConfig {
    pub mash_root: String,
    pub state_path: String,
    pub os: OsDistro,
    pub variant: String,
    pub arch: String,
    pub target_disk: String,
    pub download_dir: String,
    pub image_source: ImageSource,
    pub dry_run: bool,
}

impl OsInstallConfig {
    /// The index entry for this install: its OS, variant and architecture.
    pub fn image_key(&self) -> (k: ImageKey)
        ensures
            k.os == self.os,
            k.variant == self.variant,
            k.arch == self.arch,
    {
        ImageKey { os: self.os, variant: self.variant.clone(), arch: self.arch.clone() }
    }
}


/// A downloaded image as the install state records it.
#[derive(Debug, Clone)]
pub struct DownloadArtifact {
    pub name: String,
    pub path: String,
}

/// What an OS install records: stage progress, the selection, downloads,
/// flashed devices and whether the partition must be expanded after boot.
#[derive(Debug, Clone)]
pub struct OsInstallState {
    pub progress: StageProgress,
    pub selected_os: Option<String>,
    pub selected_variant: Option<String>,
    pub download_artifacts: Vec<DownloadArtifact>,
    pub flashed_devices: Vec<String>,
    pub post_boot_partition_expansion_required: bool,
}

impl OsInstallState {
    pub fn new(dry_run: bool) -> (r: Self)
        ensures
            r.progress.completed@.len() == 0,
            r.progress.dry_run == dry_run,
            r.selected_os is None,
            r.selected_variant is None,
            r.download_artifacts@.len() == 0,
            r.flashed_devices@.len() == 0,
            !r.post_boot_partition_expansion_required,
    {
        OsInstallState {
            progress: StageProgress::new(dry_run),
            selected_os: None,
            selected_variant: None,
            download_artifacts: Vec::new(),
            flashed_devices: Vec::new(),
            post_boot_partition_expansion_required: false,
        }
    }
}

impl WorkflowState for OsInstallState {
    open spec fn completed_stages(&self) -> Set<Seq<char>> {
        self.progress.completed_stages()
    }

    fn is_completed(&self, stage: &str) -> (r: bool) {
        self.progress.is_completed(stage)
    }

    fn set_current(&mut self, stage: &str)
        ensures
            *final(self) == (OsInstallState { progress: final(self).progress, ..*old(self) }),
    {
        self.progress.set_current(stage);
    }

    fn mark_completed(&mut self, stage: &str)
        ensures
            *final(self) == (OsInstallState { progress: final(self).progress, ..*old(self) }),
    {
        self.progress.mark_completed(stage);
    }
}

/// The name under which the state records the OS.
pub open spec fn os_name(os: OsDistro) -> Seq<char> {
    match os {
        OsDistro::Fedora => "Fedora"@,
        OsDistro::Ubuntu => "Ubuntu"@,
        OsDistro::RaspberryPiOS => "RaspberryPiOS"@,
        OsDistro::Manjaro => "Manjaro"@,
    }
}

fn os_name_of(os: OsDistro) -> (r: String)
    ensures
        r@ == os_name(os),
{
    match os {
        OsDistro::Fedora => String::from_str("Fedora"),
        OsDistro::Ubuntu => String::from_str("Ubuntu"),
        OsDistro::RaspberryPiOS => String::from_str("RaspberryPiOS"),
        OsDistro::Manjaro => String::from_str("Manjaro"),
    }
}

/// Progress reports of an install.
#[derive(Debug, Clone)]
pub enum InstallEvent {
    StageStarted(String),
    StageCompleted(String),
    StageError { stage: String, message: String },
    Status(String),
}

/// A request of an install to its backend, with the answer.
pub enum InstallRequest {
    Download { key: ImageKey, download_dir: String, answer: Result<DownloadArtifact, String> },
    IndexFileName { key: ImageKey, answer: Option<String> },
    FileExists { path: String, answer: bool },
    CancelCheck { answer: bool },
}

/// `c` is the download of `key` into `dir`, answered `r`.
pub open spec fn is_download(c: InstallRequest, key: ImageKey, dir: Seq<char>, r: Result<DownloadArtifact, String>) -> bool {
    c matches InstallRequest::Download { key: k, download_dir: d, answer } && k == key && d@ == dir && answer == r
}

/// `c` is the check that `path` exists, answered `r`.
pub open spec fn is_file_check(c: InstallRequest, path: Seq<char>, r: bool) -> bool {
    c matches InstallRequest::FileExists { path: p, answer } && p@ == path && answer == r
}

/// An answer that ends a stage with a stage error: a cancel, a failed
/// download, a missing file, or an index answer the image selection
/// rejected.
pub open spec fn stage_failure_answer(c: InstallRequest) -> bool {
    match c {
        InstallRequest::CancelCheck { answer } => answer,
        InstallRequest::Download { answer, .. } => answer is Err,
        InstallRequest::FileExists { answer, .. } => !answer,
        InstallRequest::IndexFileName { .. } => true,
    }
}

/// The requests `added` of an install of `cfg`: none in a dry run; every
/// download is of the configured image key into the configured directory.
pub open spec fn requests_fit(added: Seq<InstallRequest>, cfg: OsInstallConfig) -> bool {
    &&& cfg.dry_run ==> added.len() == 0
    &&& forall|k: int|
        0 <= k < added.len() ==> match #[trigger] added[k] {
            InstallRequest::Download { key, download_dir, .. } => key.os == cfg.os && key.variant == cfg.variant
                && key.arch == cfg.arch && download_dir@ == cfg.download_dir@,
            _ => true,
        }
}

/// A backend record `before` grown to `after` by requests that fit the
/// install, a stage error being the answer of the last of them.
pub open spec fn install_asked<B: OsInstallBackend, T>(before: B, after: B, cfg: OsInstallConfig, r: Result<T, WorkflowError>) -> bool {
    before.keeps_record() ==> {
        &&& after.keeps_record()
        &&& after.requests().len() >= before.requests().len()
        &&& after.requests().take(before.requests().len() as int) == before.requests()
        &&& requests_fit(after.requests().skip(before.requests().len() as int), cfg)
        &&& r matches Err(WorkflowError::Stage { .. }) ==> after.requests().len() > before.requests().len()
            && stage_failure_answer(after.requests().last())
    }
}

/// The outside work of an install: the download index and downloader, the
/// file system, the cancel flag and progress reports.
pub trait OsInstallBackend {
    /// Whether this backend keeps the record given by `requests`; one that
    /// does not promises nothing about that record.
    open spec fn keeps_record(&self) -> bool {
        false
    }

    /// The questions and downloads asked of this backend so far, with their
    /// answers (progress reports aside).
    open spec fn requests(&self) -> Seq<InstallRequest> {
        Seq::empty()
    }

    /// Downloads the image for `key` into `download_dir`.
    fn download(&mut self, key: &ImageKey, download_dir: &str) -> (r: Result<DownloadArtifact, String>)
        ensures
            old(self).keeps_record() ==> final(self).keeps_record() && final(self).requests().len() == old(
                self,
            ).requests().len() + 1 && final(self).requests().drop_last() == old(self).requests() && is_download(
                final(self).requests().last(),
                *key,
                download_dir@,
                r,
            ),
    ;

    /// The file name that the download index lists for `key`.
    fn index_file_name(&mut self, key: &ImageKey) -> (r: Option<String>)
        ensures
            old(self).keeps_record() ==> final(self).keeps_record() && final(self).requests() == old(
                self,
            ).requests().push(InstallRequest::IndexFileName { key: *key, answer: r }),
    ;

    fn file_exists(&mut self, path: &str) -> (r: bool)
        ensures
            old(self).keeps_record() ==> final(self).keeps_record() && final(self).requests().len() == old(
                self,
            ).requests().len() + 1 && final(self).requests().drop_last() == old(self).requests() && is_file_check(
                final(self).requests().last(),
                path@,
                r,
            ),
    ;

    fn cancel_requested(&mut self) -> (r: bool)
        ensures
            old(self).keeps_record() ==> final(self).keeps_record() && final(self).requests() == old(
                self,
            ).requests().push(InstallRequest::CancelCheck { answer: r }),
    ;

    fn report(&mut self, event: InstallEvent)
        ensures
            old(self).keeps_record() ==> final(self).keeps_record() && final(self).requests() == old(self).requests(),
    ;
}

/// The stages of an OS install, in order.
pub open spec fn install_stages() -> Seq<Seq<char>> {
    seq!["Record install intent"@, "Download OS image"@, "Flash OS image"@, "Apply OS-specific rules"@]
}

/// Index of the last artifact named `name`.
pub open spec fn last_artifact_named(a: Seq<DownloadArtifact>, name: Seq<char>) -> Option<int>
    decreases a.len(),
{
    if a.len() == 0 {
        None
    } else if a.last().name@ == name {
        Some(a.len() - 1)
    } else {
        last_artifact_named(a.drop_last(), name)
    }
}

/// The image a flash uses: the local file, or the last recorded download
/// whose name the index gives for the selection.
pub fn select_image(cfg: &OsInstallConfig, artifacts: &Vec<DownloadArtifact>, expected_name: Option<String>) -> (r: Result<String, String>)
    ensures
        cfg.image_source matches ImageSource::Local(p) ==> r == Ok::<String, String>(p),
        cfg.image_source is Download ==> (match expected_name {
            None => r matches Err(m) && m@ == "download index missing image spec for selection"@,
            Some(n) => match last_artifact_named(artifacts@, n@) {
                None => r matches Err(m) && m@ == "download artifact not found in state; cannot flash"@,
                Some(i) => r matches Ok(p) && p@ == artifacts@[i].path@,
            },
        }),
{
    match &cfg.image_source {
        ImageSource::Local(p) => Ok(p.clone()),
        ImageSource::Download => {
            let name = match &expected_name {
                Some(n) => n,
                None => return Err(String::from_str("download index missing image spec for selection")),
            };
            let mut i = artifacts.len();
            assert(artifacts@.take(i as int) =~= artifacts@);
            while i > 0
                invariant
                    i <= artifacts.len(),
                    cfg.image_source is Download,
                    expected_name == Some(*name),
                    last_artifact_named(artifacts@, name@) == last_artifact_named(artifacts@.take(i as int), name@),
                decreases i,
            {
                assert(artifacts@.take(i as int).drop_last() =~= artifacts@.take(i - 1));
                if str_eq(artifacts[i - 1].name.as_str(), name.as_str()) {
                    assert(artifacts@.take(i as int).last() == artifacts@[i - 1]);
                    assert(last_artifact_named(artifacts@.take(i as int), name@) == Some(i - 1));
                    return Ok(artifacts[i - 1].path.clone());
                }
                i -= 1;
            }
            assert(artifacts@.take(0) =~= Seq::<DownloadArtifact>::empty());
            Err(String::from_str("download artifact not found in state; cannot flash"))
        },
    }
}

/// Records `target` among the flashed devices, once.
fn record_flashed(state: &mut OsInstallState, target: &str)
    ensures
        views_of(final(state).flashed_devices@).to_set() == views_of(old(state).flashed_devices@).to_set().insert(target@),
        *final(state) == (OsInstallState { flashed_devices: final(state).flashed_devices, ..*old(state) }),
{
    let mut i: usize = 0;
    while i < state.flashed_devices.len()
        invariant
            i <= state.flashed_devices.len(),
            forall|j: int| 0 <= j < i ==> state.flashed_devices@[j]@ != target@,
        decreases state.flashed_devices.len() - i,
    {
        if str_eq(state.flashed_devices[i].as_str(), target) {
            proof {
                let v = views_of(state.flashed_devices@);
                assert(v[i as int] == target@);
                assert(v.to_set().insert(target@) =~= v.to_set());
            }
            return;
        }
        i += 1;
    }
    let ghost before = views_of(state.flashed_devices@);
    state.flashed_devices.push(String::from_str(target));
    proof {
        assert(views_of(state.flashed_devices@) =~= before.push(target@));
        before.lemma_push_to_set_commute(target@);
    }
}

fn stage_failed(stage: &str, message: String) -> (e: WorkflowError)
    ensures
        e matches WorkflowError::Stage { stage: s, message: m } && s@ == stage@ && m@ == message@,
{
    WorkflowError::Stage { stage: String::from_str(stage), message }
}

proof fn lemma_asked(before: Seq<InstallRequest>, after: Seq<InstallRequest>, added: Seq<InstallRequest>, cfg: OsInstallConfig)
    requires
        after == before + added,
        requests_fit(added, cfg),
    ensures
        after.len() >= before.len(),
        after.take(before.len() as int) == before,
        requests_fit(after.skip(before.len() as int), cfg),
{
    assert(after.take(before.len() as int) =~= before);
    assert(after.skip(before.len() as int) =~= added);
}

proof fn lemma_asked_trans(b0: Seq<InstallRequest>, b1: Seq<InstallRequest>, b2: Seq<InstallRequest>, cfg: OsInstallConfig)
    requires
        b1.len() >= b0.len(),
        b1.take(b0.len() as int) == b0,
        requests_fit(b1.skip(b0.len() as int), cfg),
        b2.len() >= b1.len(),
        b2.take(b1.len() as int) == b1,
        requests_fit(b2.skip(b1.len() as int), cfg),
    ensures
        b2.len() >= b0.len(),
        b2.take(b0.len() as int) == b0,
        requests_fit(b2.skip(b0.len() as int), cfg),
{
    assert(b2.take(b0.len() as int) =~= b1.take(b0.len() as int));
    let a = b2.skip(b0.len() as int);
    assert forall|k: int| 0 <= k < a.len() implies match #[trigger] a[k] {
        InstallRequest::Download { key, download_dir, .. } => key.os == cfg.os && key.variant == cfg.variant
            && key.arch == cfg.arch && download_dir@ == cfg.download_dir@,
        _ => true,
    } by {
        if k < b1.len() - b0.len() {
            assert(a[k] == b1.skip(b0.len() as int)[k]);
        } else {
            assert(a[k] == b2.skip(b1.len() as int)[k - (b1.len() - b0.len())]);
        }
    }
    if cfg.dry_run {
        assert(b1.len() == b0.len());
    }
}

/// Runs one stage of the install on `state`.
fn run_stage<H: FlashOps, B: OsInstallBackend>(
    index: usize,
    hal: &mut H,
    backend: &mut B,
    state: &mut OsInstallState,
    cfg: &OsInstallConfig,
    destructive_confirmed: bool,
) -> (r: Result<(), WorkflowError>)
    requires
        index < 4,
        cfg.dry_run || destructive_confirmed,
    ensures
        final(state).progress == old(state).progress,
        index == 0 ==> r is Ok,
        index == 0 ==> (final(state).selected_os matches Some(o) && o@ == os_name(cfg.os)),
        index == 0 ==> final(state).selected_variant == Some(cfg.variant),
        index == 1 && (cfg.dry_run || cfg.image_source is Local) ==> (r is Ok && *final(state) == *old(state)),
        index == 2 && cfg.dry_run ==> (r is Ok && *final(state) == *old(state)),
        index == 2 && r is Ok && !cfg.dry_run ==> views_of(final(state).flashed_devices@).to_set().contains(cfg.target_disk@),
        index == 3 ==> (r is Ok && final(state).post_boot_partition_expansion_required == (
            old(state).post_boot_partition_expansion_required || (!cfg.dry_run && cfg.os == OsDistro::Manjaro))),
        index != 0 ==> final(state).selected_os == old(state).selected_os && final(state).selected_variant
            == old(state).selected_variant,
        index == 3 ==> final(state).flashed_devices == old(state).flashed_devices,
        r matches Err(e) ==> (e is Stage || e is Hal),
        index != 2 ==> *final(hal) == *old(hal),
        r matches Err(WorkflowError::Hal(_)) ==> index == 2,
        install_asked(*old(backend), *final(backend), *cfg, r),
        index == 2 && old(hal).keeps_flash_record() ==> hal_error_from_flash(old(hal).flashes(), final(hal).flashes(), r),
        index == 2 && old(hal).keeps_flash_record() ==> final(hal).keeps_flash_record() && install_flashes(
            old(hal).flashes(),
            final(hal).flashes(),
            Set::empty(),
            *cfg,
            destructive_confirmed,
            r is Ok,
        ),
{
    let ghost b0 = backend.requests();
    let ghost keeps = backend.keeps_record();
    proof {
        assert(hal.flashes().take(hal.flashes().len() as int) =~= hal.flashes());
        lemma_asked(b0, b0, Seq::empty(), *cfg);
    }
    if index == 0 {
        backend.report(InstallEvent::Status(String::from_str("🧾 Recording install intent...")));
        state.selected_os = Some(os_name_of(cfg.os));
        state.selected_variant = Some(cfg.variant.clone());
        Ok(())
    } else if index == 1 {
        backend.report(InstallEvent::Status(String::from_str("⬇️ Downloading OS image...")));
        if let ImageSource::Local(_) = &cfg.image_source {
            return Ok(());
        }
        if cfg.dry_run {
            return Ok(());
        }
        let cancelled = backend.cancel_requested();
        let ghost c1 = InstallRequest::CancelCheck { answer: cancelled };
        if cancelled {
            proof {
                if keeps {
                    assert(backend.requests() == b0.push(c1));
                    assert(backend.requests() =~= b0 + seq![c1]);
                    lemma_asked(b0, backend.requests(), seq![c1], *cfg);
                }
            }
            return Err(stage_failed("Download OS image", String::from_str("cancelled")));
        }
        let key = cfg.image_key();
        let downloaded = backend.download(&key, cfg.download_dir.as_str());
        proof {
            if keeps {
                let c2 = backend.requests().last();
                assert(backend.requests().drop_last() == b0.push(c1));
                assert(backend.requests() == b0.push(c1).push(c2));
                assert(b0.push(c1).push(c2) =~= b0 + seq![c1, c2]);
                lemma_asked(b0, backend.requests(), seq![c1, c2], *cfg);
            }
        }
        match downloaded {
            Ok(artifact) => {
                state.download_artifacts.push(artifact);
                Ok(())
            },
            Err(m) => Err(stage_failed("Download OS image", m)),
        }
    } else if index == 2 {
        backend.report(InstallEvent::Status(String::from_str("💾 Flashing image to disk...")));
        if cfg.dry_run {
            return Ok(());
        }
        let cancelled = backend.cancel_requested();
        let ghost c1 = InstallRequest::CancelCheck { answer: cancelled };
        if cancelled {
            proof {
                if keeps {
                    assert(backend.requests() == b0.push(c1));
                    assert(backend.requests() =~= b0 + seq![c1]);
                    lemma_asked(b0, backend.requests(), seq![c1], *cfg);
                }
            }
            return Err(stage_failed("Flash OS image", String::from_str("cancelled")));
        }
        let key = cfg.image_key();
        let expected = backend.index_file_name(&key);
        let ghost c2 = InstallRequest::IndexFileName { key, answer: expected };
        proof {
            if keeps {
                assert(backend.requests() == b0.push(c1).push(c2));
                assert(b0.push(c1).push(c2) =~= b0 + seq![c1, c2]);
                lemma_asked(b0, backend.requests(), seq![c1, c2], *cfg);
            }
        }
        let image = match select_image(cfg, &state.download_artifacts, expected) {
            Ok(p) => p,
            Err(m) => return Err(stage_failed("Flash OS image", m)),
        };
        if let ImageSource::Download = &cfg.image_source {
            let exists = backend.file_exists(image.as_str());
            proof {
                if keeps {
                    let c3 = backend.requests().last();
                    assert(backend.requests().drop_last() == b0.push(c1).push(c2));
                    assert(backend.requests() == b0.push(c1).push(c2).push(c3));
                    assert(b0.push(c1).push(c2).push(c3) =~= b0 + seq![c1, c2, c3]);
                    lemma_asked(b0, backend.requests(), seq![c1, c2, c3], *cfg);
                }
            }
            if !exists {
                let mut m = String::from_str("downloaded image missing on disk: ");
                crate::text::push_str(&mut m, image.as_str());
                return Err(stage_failed("Flash OS image", m));
            }
        }
        let opts = FlashOptions::new(false, destructive_confirmed);
        let ghost f0 = hal.flashes();
        let flashed = hal.flash_raw_image(image.as_str(), cfg.target_disk.as_str(), &opts);
        proof {
            if old(hal).keeps_flash_record() {
                assert(hal.flashes().take(f0.len() as int) =~= f0);
            }
        }
        match flashed {
            Ok(()) => {},
            Err(e) => return Err(WorkflowError::Hal(e)),
        }
        record_flashed(state, cfg.target_disk.as_str());
        Ok(())
    } else {
        backend.report(InstallEvent::Status(String::from_str("🔧 Applying OS rules...")));
        if !cfg.dry_run && cfg.os == OsDistro::Manjaro {
            state.post_boot_partition_expansion_required = true;
        }
        Ok(())
    }
}

fn stage_name(index: usize) -> (r: &'static str)
    requires
        index < 4,
    ensures
        r@ == install_stages()[index as int],
{
    if index == 0 {
        "Record install intent"
    } else if index == 1 {
        "Download OS image"
    } else if index == 2 {
        "Flash OS image"
    } else {
        "Apply OS-specific rules"
    }
}

/// An image write asked for by the flash stage: to the configured target
/// disk, not as a dry run, with the run's confirmation.
pub open spec fn flash_request(f: (Seq<char>, Seq<char>, FlashOptions, HalResult<()>), cfg: OsInstallConfig, confirmed: bool) -> bool {
    f.1 == cfg.target_disk@ && f.2 == FlashOptions { dry_run: false, confirmed }
}

/// The image writes (`before` grown to `after`) of an install that starts
/// from the completion records `done`: none in a dry run or when the flash
/// stage is recorded; otherwise at most one, a flash request; and one that
/// succeeded when the install succeeded (`ok`).
pub open spec fn install_flashes(
    before: Seq<(Seq<char>, Seq<char>, FlashOptions, HalResult<()>)>,
    after: Seq<(Seq<char>, Seq<char>, FlashOptions, HalResult<()>)>,
    done: Set<Seq<char>>,
    cfg: OsInstallConfig,
    confirmed: bool,
    ok: bool,
) -> bool {
    &&& after.len() >= before.len()
    &&& after.len() <= before.len() + 1
    &&& after.take(before.len() as int) == before
    &&& (cfg.dry_run || done.contains(install_stages()[2])) ==> after.len() == before.len()
    &&& after.len() == before.len() + 1 ==> flash_request(after.last(), cfg, confirmed)
    &&& (ok && !cfg.dry_run && !done.contains(install_stages()[2])) ==> (after.len() == before.len() + 1
        && after.last().3 is Ok)
}

proof fn lemma_flashes_weaken(
    before: Seq<(Seq<char>, Seq<char>, FlashOptions, HalResult<()>)>,
    after: Seq<(Seq<char>, Seq<char>, FlashOptions, HalResult<()>)>,
    done: Set<Seq<char>>,
    cfg: OsInstallConfig,
    confirmed: bool,
    ok: bool,
)
    requires
        install_flashes(before, after, done, cfg, confirmed, ok),
    ensures
        install_flashes(before, after, done, cfg, confirmed, false),
{
}

proof fn lemma_flash_stage(
    before: Seq<(Seq<char>, Seq<char>, FlashOptions, HalResult<()>)>,
    after: Seq<(Seq<char>, Seq<char>, FlashOptions, HalResult<()>)>,
    done: Set<Seq<char>>,
    cfg: OsInstallConfig,
    confirmed: bool,
    ok: bool,
)
    requires
        install_flashes(before, after, Set::empty(), cfg, confirmed, ok),
        !done.contains(install_stages()[2]),
    ensures
        install_flashes(before, after, done, cfg, confirmed, ok),
        install_flashes(before, after, done, cfg, confirmed, false),
{
}

/// The result of an install that starts from the completion records
/// `done`: on success every stage is recorded, and each stage that ran left
/// its mark (the selected system and variant; the target among the flashed
/// devices outside a dry run; for Manjaro the post-boot expansion flag
/// outside a dry run); an error is a stage's, the HAL's or the store's.
pub open spec fn install_result(done: Set<Seq<char>>, cfg: OsInstallConfig, r: Result<OsInstallState, WorkflowError>) -> bool {
    &&& r matches Ok(s) ==> forall|i: int| 0 <= i < 4 ==> s.completed_stages().contains(#[trigger] install_stages()[i])
    &&& r matches Ok(s) ==> (!done.contains(install_stages()[0]) ==> (s.selected_os matches Some(o) && o@ == os_name(
        cfg.os,
    ) && s.selected_variant == Some(cfg.variant)))
    &&& r matches Ok(s) ==> (!done.contains(install_stages()[2]) && !cfg.dry_run ==> views_of(
        s.flashed_devices@,
    ).to_set().contains(cfg.target_disk@))
    &&& r matches Ok(s) ==> (!done.contains(install_stages()[3]) && !cfg.dry_run && cfg.os == OsDistro::Manjaro
        ==> s.post_boot_partition_expansion_required)
    &&& r matches Err(e) ==> (e is Stage || e is Hal || e is Store)
}

/// The completion records after the first `n` stages of an install that
/// starts from the records `done`.
pub open spec fn install_done_upto(done: Set<Seq<char>>, n: int) -> Set<Seq<char>>
    decreases n,
{
    if n <= 0 {
        done
    } else {
        install_done_upto(done, n - 1).insert(install_stages()[n - 1])
    }
}

/// The completion records of the states an install starting from `done`
/// hands its store while running its first `n` stages: for each stage it
/// runs, the records before it and then with it added.
pub open spec fn install_saves_upto(done: Set<Seq<char>>, n: int) -> Seq<Set<Seq<char>>>
    decreases n,
{
    if n <= 0 {
        Seq::empty()
    } else {
        let prev = install_saves_upto(done, n - 1);
        let d = install_done_upto(done, n - 1);
        if d.contains(install_stages()[n - 1]) {
            prev
        } else {
            prev.push(d).push(d.insert(install_stages()[n - 1]))
        }
    }
}

/// The completion records of the states an install starting from `done`
/// hands its store: those of its stages, then the final state's.
pub open spec fn install_saves(done: Set<Seq<char>>) -> Seq<Set<Seq<char>>> {
    install_saves_upto(done, 4).push(install_done_upto(done, 4))
}

/// What an install that starts from `done` handed its store (`added`): a
/// prefix of `install_saves`, every save but the last answered `Ok`; a store
/// error is the last save's answer; a successful install made them all, the
/// last holding the returned state.
pub open spec fn install_saved(added: Seq<StoreCall<OsInstallState>>, done: Set<Seq<char>>, r: Result<OsInstallState, WorkflowError>) -> bool {
    &&& added.len() <= install_saves(done).len()
    &&& forall|k: int| 0 <= k < added.len() ==> is_save_of(#[trigger] added[k], install_saves(done)[k], k < added.len() - 1)
    &&& r matches Err(WorkflowError::Store(m)) ==> added.len() > 0 && save_failed_with(added.last(), m)
    &&& r matches Ok(st) ==> added.len() == install_saves(done).len() && saves_state(added.last(), st, true)
}

/// An install's store record `before` grown to `after` as `install_saved`
/// says, when the store keeps one.
pub open spec fn install_store_ran<St: StateStore<OsInstallState>>(before: St, after: St, done: Set<Seq<char>>, r: Result<OsInstallState, WorkflowError>) -> bool {
    before.keeps_record() ==> {
        &&& after.keeps_record()
        &&& after.store_calls().len() >= before.store_calls().len()
        &&& after.store_calls().take(before.store_calls().len() as int) == before.store_calls()
        &&& install_saved(after.store_calls().skip(before.store_calls().len() as int), done, r)
    }
}

/// A HAL error of an install is the answer of its image write.
pub open spec fn hal_error_from_flash<T>(
    before: Seq<(Seq<char>, Seq<char>, FlashOptions, HalResult<()>)>,
    after: Seq<(Seq<char>, Seq<char>, FlashOptions, HalResult<()>)>,
    r: Result<T, WorkflowError>,
) -> bool {
    r matches Err(WorkflowError::Hal(e)) ==> after.len() == before.len() + 1 && after.last().3 == Err::<(), HalError>(e)
}

proof fn lemma_install_saves_prefix(done: Set<Seq<char>>, n: int, m: int)
    requires
        0 <= n <= m <= 4,
    ensures
        install_saves_upto(done, n).len() <= install_saves_upto(done, m).len(),
        forall|k: int| 0 <= k < install_saves_upto(done, n).len() ==> install_saves_upto(done, n)[k]
            == #[trigger] install_saves_upto(done, m)[k],
    decreases m - n,
{
    if n < m {
        lemma_install_saves_prefix(done, n, m - 1);
    }
}

proof fn lemma_install_saves_full(done: Set<Seq<char>>, n: int)
    requires
        0 <= n <= 4,
    ensures
        install_saves_upto(done, n).len() <= install_saves_upto(done, 4).len(),
        forall|k: int| 0 <= k < install_saves_upto(done, n).len() ==> install_saves_upto(done, n)[k]
            == #[trigger] install_saves(done)[k],
{
    lemma_install_saves_prefix(done, n, 4);
    assert forall|k: int| 0 <= k < install_saves_upto(done, n).len() implies install_saves_upto(done, n)[k]
        == #[trigger] install_saves(done)[k] by {
        assert(install_saves_upto(done, n)[k] == install_saves_upto(done, 4)[k]);
    }
}

/// The stages of a full-disk install run from `state`, the state the store
/// held (or a fresh one): each stage it records as completed is skipped, the
/// others run in order, with the state saved before and after each stage
/// and at the end.  On success every stage is recorded as completed, and
/// each stage that ran left its mark: the selected system and variant, the
/// target among the flashed devices (outside a dry run), and for Manjaro
/// the post-boot expansion flag (outside a dry run).
#[verifier::loop_isolation(false)]
pub fn run_stages<H: FlashOps, B: OsInstallBackend, St: StateStore<OsInstallState>>(
    hal: &mut H,
    backend: &mut B,
    store: &mut St,
    cfg: &OsInstallConfig,
    destructive_confirmed: bool,
    state: OsInstallState,
) -> (r: Result<OsInstallState, WorkflowError>)
    requires
        cfg.dry_run || destructive_confirmed,
    ensures
        install_result(state.completed_stages(), *cfg, r),
        install_store_ran(*old(store), *final(store), state.completed_stages(), r),
        install_asked(*old(backend), *final(backend), *cfg, r),
        old(hal).keeps_flash_record() ==> hal_error_from_flash(old(hal).flashes(), final(hal).flashes(), r),
        old(hal).keeps_flash_record() ==> final(hal).keeps_flash_record() && install_flashes(
            old(hal).flashes(),
            final(hal).flashes(),
            state.completed_stages(),
            *cfg,
            destructive_confirmed,
            r is Ok,
        ),
{
    let ghost s0 = state;
    let ghost d0 = state.completed_stages();
    let ghost f0 = hal.flashes();
    let ghost sc0 = store.store_calls();
    let ghost keeps = store.keeps_record();
    let ghost bb0 = backend.requests();
    let mut state = state;
    proof {
        lemma_asked(bb0, bb0, Seq::empty(), *cfg);
        assert(store.store_calls().take(sc0.len() as int) =~= sc0);
        assert(install_done_upto(d0, 0) == d0);
    }
    proof {
        reveal_strlit("Record install intent");
        reveal_strlit("Download OS image");
        reveal_strlit("Flash OS image");
        reveal_strlit("Apply OS-specific rules");
        assert(install_stages()[0][0] == 'R' && install_stages()[1][0] == 'D' && install_stages()[2][0] == 'F'
            && install_stages()[3][0] == 'A');
    }
    proof {
        assert(f0.take(f0.len() as int) =~= f0);
    }
    let mut index: usize = 0;
    while index < 4
        invariant
            index <= 4,
            cfg.dry_run || destructive_confirmed,
            install_stages()[0][0] == 'R' && install_stages()[1][0] == 'D' && install_stages()[2][0] == 'F'
                && install_stages()[3][0] == 'A',
            forall|j: int| 0 <= j < index ==> state.completed_stages().contains(#[trigger] install_stages()[j]),
            forall|j: int| index <= j < 4 ==> (state.completed_stages().contains(#[trigger] install_stages()[j])
                <==> s0.completed_stages().contains(install_stages()[j])),
            index > 0 && !s0.completed_stages().contains(install_stages()[0]) ==> (state.selected_os matches Some(o)
                && o@ == os_name(cfg.os) && state.selected_variant == Some(cfg.variant)),
            index > 2 && !s0.completed_stages().contains(install_stages()[2]) && !cfg.dry_run
                ==> views_of(state.flashed_devices@).to_set().contains(cfg.target_disk@),
            index > 3 && !s0.completed_stages().contains(install_stages()[3]) && !cfg.dry_run && cfg.os
                == OsDistro::Manjaro ==> state.post_boot_partition_expansion_required,
            f0 == old(hal).flashes(),
            old(hal).keeps_flash_record() ==> hal.keeps_flash_record() && install_flashes(
                f0,
                hal.flashes(),
                s0.completed_stages(),
                *cfg,
                destructive_confirmed,
                index > 2,
            ),
            old(hal).keeps_flash_record() && index <= 2 ==> hal.flashes() == f0,
            state.completed_stages() == install_done_upto(d0, index as int),
            bb0 == old(backend).requests(),
            old(backend).keeps_record() ==> backend.keeps_record(),
            old(backend).keeps_record() ==> backend.requests().len() >= bb0.len(),
            old(backend).keeps_record() ==> backend.requests().take(bb0.len() as int) == bb0,
            old(backend).keeps_record() ==> requests_fit(backend.requests().skip(bb0.len() as int), *cfg),
            keeps ==> store.keeps_record(),
            keeps ==> store.store_calls().take(sc0.len() as int) == sc0,
            keeps ==> store.store_calls().len() == sc0.len() + install_saves_upto(d0, index as int).len(),
            keeps ==> forall|k: int| 0 <= k < install_saves_upto(d0, index as int).len() ==> is_save_of(
                #[trigger] store.store_calls()[sc0.len() + k],
                install_saves_upto(d0, index as int)[k],
                true,
            ),
        decreases 4 - index,
    {
        let name = stage_name(index);
        let ghost pre = install_saves_upto(d0, index as int);
        proof {
            lemma_install_saves_prefix(d0, index as int, index + 1);
            lemma_install_saves_full(d0, index as int);
            lemma_install_saves_full(d0, index + 1);
        }
        if !state.is_completed(name) {
            state.set_current(name);
            proof {
                if old(hal).keeps_flash_record() {
                    lemma_flashes_weaken(f0, hal.flashes(), s0.completed_stages(), *cfg, destructive_confirmed, index > 2);
                }
            }
            let ghost calls_a = store.store_calls();
            let ghost state_a = state;
            let saved = store.save(&state);
            let ghost ans_a = saved;
            let ghost after_a = store.store_calls();
            proof {
                if keeps {
                    assert(store.store_calls().take(sc0.len() as int) =~= sc0);
                    let added = store.store_calls().skip(sc0.len() as int);
                    assert forall|k: int| 0 <= k < added.len() implies is_save_of(
                        #[trigger] added[k],
                        install_saves(d0)[k],
                        k < added.len() - 1,
                    ) by {
                        assert(added[k] == store.store_calls()[sc0.len() + k]);
                        if k < pre.len() {
                            assert(store.store_calls()[sc0.len() + k] == calls_a[sc0.len() + k]);
                        }
                    }
                }
            }
            match saved {
                Ok(()) => {},
                Err(m) => return Err(WorkflowError::Store(m)),
            }
            backend.report(InstallEvent::StageStarted(String::from_str(name)));
            let ghost fb = hal.flashes();
            let ghost bq = backend.requests();
            let res = run_stage(index, hal, backend, &mut state, cfg, destructive_confirmed);
            proof {
                if old(backend).keeps_record() {
                    lemma_asked_trans(bb0, bq, backend.requests(), *cfg);
                }
            }
            proof {
                if old(hal).keeps_flash_record() {
                    if index == 2 {
                        assert(!s0.completed_stages().contains(install_stages()[2]));
                        lemma_flash_stage(f0, hal.flashes(), s0.completed_stages(), *cfg, destructive_confirmed, res is Ok);
                    } else {
                        assert(hal.flashes() == fb);
                        lemma_flashes_weaken(f0, hal.flashes(), s0.completed_stages(), *cfg, destructive_confirmed, index > 2);
                    }
                }
            }
            match res {
                Ok(()) => {},
                Err(e) => {
                    backend.report(InstallEvent::StageError { stage: String::from_str(name), message: e.message() });
                    return Err(e);
                },
            }
            backend.report(InstallEvent::StageCompleted(String::from_str(name)));
            let ghost before = state.completed_stages();
            state.mark_completed(name);
            proof {
                assert(state.completed_stages() =~= install_done_upto(d0, index + 1));
                assert forall|j: int| index < j < 4 implies (state.completed_stages().contains(
                    #[trigger] install_stages()[j],
                ) <==> s0.completed_stages().contains(install_stages()[j])) by {
                    assert(install_stages()[j] != install_stages()[index as int]) by {
                        assert(install_stages()[j][0] != install_stages()[index as int][0]);
                    }
                }
            }
            let ghost calls_b = store.store_calls();
            let saved = store.save(&state);
            proof {
                if keeps {
                    assert(store.store_calls().take(sc0.len() as int) =~= sc0);
                    let added = store.store_calls().skip(sc0.len() as int);
                    assert forall|k: int| 0 <= k < added.len() implies is_save_of(
                        #[trigger] added[k],
                        install_saves(d0)[k],
                        k < added.len() - 1,
                    ) by {
                        assert(added[k] == store.store_calls()[sc0.len() + k]);
                        if k < pre.len() + 1 {
                            assert(store.store_calls()[sc0.len() + k] == calls_b[sc0.len() + k]);
                        }
                    }
                }
            }
            let ghost ans_b = saved;
            let ghost state_b = state;
            match saved {
                Ok(()) => {},
                Err(m) => return Err(WorkflowError::Store(m)),
            }
            proof {
                if keeps {
                    let d = install_done_upto(d0, index as int);
                    assert(!d.contains(install_stages()[index as int]));
                    assert(install_saves_upto(d0, index + 1) == pre.push(d).push(d.insert(install_stages()[index as int])));
                    assert(store.store_calls().last() == (StoreCall::Save { state: state_b, answer: ans_b }));
                        assert forall|k: int| 0 <= k < install_saves_upto(d0, index + 1).len() implies is_save_of(
                            #[trigger] store.store_calls()[sc0.len() + k],
                            install_saves_upto(d0, index + 1)[k],
                            true,
                        ) by {
                            if k < pre.len() + 1 {
                                assert(store.store_calls()[sc0.len() + k] == calls_b[sc0.len() + k]);
                                assert(calls_b[sc0.len() + k] == after_a[sc0.len() + k]);
                            }
                            if k < pre.len() {
                                assert(after_a[sc0.len() + k] == calls_a[sc0.len() + k]);
                            } else if k == pre.len() {
                                assert(after_a[sc0.len() + k] == (StoreCall::Save { state: state_a, answer: ans_a }));
                                assert(state_a.completed_stages() == install_done_upto(d0, index as int));
                            }
                        }
                }
            }
        } else {
            proof {
                assert(install_done_upto(d0, index + 1) =~= install_done_upto(d0, index as int));
            }
        }
        index += 1;
    }
    let ghost calls_c = store.store_calls();
    let saved = store.save(&state);
    proof {
        if keeps {
            assert(store.store_calls().take(sc0.len() as int) =~= sc0);
            let added = store.store_calls().skip(sc0.len() as int);
            assert forall|k: int| 0 <= k < added.len() implies is_save_of(
                #[trigger] added[k],
                install_saves(d0)[k],
                k < added.len() - 1,
            ) by {
                assert(added[k] == store.store_calls()[sc0.len() + k]);
                if k < added.len() - 1 {
                    assert(store.store_calls()[sc0.len() + k] == calls_c[sc0.len() + k]);
                }
            }
        }
    }
    match saved {
        Ok(()) => Ok(state),
        Err(m) => {
            proof {
                lemma_asked(backend.requests(), backend.requests(), Seq::empty(), *cfg);
            }
            Err(WorkflowError::Store(m))
        },
    }
}

/// The completion records an install starts from, given what the store
/// answered to its load.
pub open spec fn done_of(stored: Option<OsInstallState>) -> Set<Seq<char>> {
    match stored {
        Some(st) => st.completed_stages(),
        None => Set::empty(),
    }
}

/// An install on what the store answered to its load (`loaded`), with the
/// HAL before and after: a store error ends it with that error, touching
/// neither HAL nor store; otherwise it ran from the stored records (or a
/// fresh state's) as `install_result`, `install_flashes`,
/// `hal_error_from_flash` and `install_store_ran` say.
pub open spec fn install_ran_on<H: FlashOps, St: StateStore<OsInstallState>>(
    loaded: Result<Option<OsInstallState>, String>,
    hal_before: H,
    hal_after: H,
    store_before: St,
    store_after: St,
    cfg: OsInstallConfig,
    confirmed: bool,
    r: Result<OsInstallState, WorkflowError>,
) -> bool {
    match loaded {
        Err(m) => r == Err::<OsInstallState, WorkflowError>(WorkflowError::Store(m)) && hal_after == hal_before
            && store_after == store_before,
        Ok(stored) => {
            &&& install_result(done_of(stored), cfg, r)
            &&& install_store_ran(store_before, store_after, done_of(stored), r)
            &&& hal_before.keeps_flash_record() ==> hal_after.keeps_flash_record() && install_flashes(
                hal_before.flashes(),
                hal_after.flashes(),
                done_of(stored),
                cfg,
                confirmed,
                r is Ok,
            ) && hal_error_from_flash(hal_before.flashes(), hal_after.flashes(), r)
        },
    }
}

/// The stages of a full-disk install on what the store answered
/// (`loaded`): a store error ends it before any stage; otherwise the stages
/// run from the stored state, or a fresh one when the store holds none.
pub fn run_loaded<H: FlashOps, B: OsInstallBackend, St: StateStore<OsInstallState>>(
    hal: &mut H,
    backend: &mut B,
    store: &mut St,
    cfg: &OsInstallConfig,
    destructive_confirmed: bool,
    loaded: Result<Option<OsInstallState>, String>,
) -> (r: Result<OsInstallState, WorkflowError>)
    requires
        cfg.dry_run || destructive_confirmed,
    ensures
        install_ran_on(loaded, *old(hal), *final(hal), *old(store), *final(store), *cfg, destructive_confirmed, r),
        loaded is Err ==> *final(backend) == *old(backend),
        install_asked(*old(backend), *final(backend), *cfg, r),
{
    match loaded {
        Ok(Some(s)) => run_stages(hal, backend, store, cfg, destructive_confirmed, s),
        Ok(None) => {
            let fresh = OsInstallState::new(cfg.dry_run);
            proof {
                assert(fresh.completed_stages() =~= Set::<Seq<char>>::empty());
            }
            run_stages(hal, backend, store, cfg, destructive_confirmed, fresh)
        },
        Err(m) => {
            proof {
                lemma_asked(backend.requests(), backend.requests(), Seq::empty(), *cfg);
            }
            Err(WorkflowError::Store(m))
        },
    }
}

/// Runs a full-disk install: refused outside a dry run without
/// confirmation (and refused on no other ground, touching nothing);
/// otherwise it loads from the store and runs on the answer as
/// `run_loaded` says.
pub fn run<H: FlashOps, B: OsInstallBackend, St: StateStore<OsInstallState>>(
    hal: &mut H,
    backend: &mut B,
    store: &mut St,
    cfg: &OsInstallConfig,
    destructive_confirmed: bool,
) -> (r: Result<OsInstallState, WorkflowError>)
    ensures
        r matches Err(WorkflowError::InstallNotConfirmed) <==> !cfg.dry_run && !destructive_confirmed,
        !cfg.dry_run && !destructive_confirmed ==> *final(hal) == *old(hal) && *final(store) == *old(store),
        r matches Err(e) ==> ((cfg.dry_run || destructive_confirmed) ==> (e is Stage || e is Hal || e is Store)),
        r matches Ok(state) ==> forall|i: int| 0 <= i < 4 ==> state.completed_stages().contains(#[trigger] install_stages()[i]),
        !cfg.dry_run && !destructive_confirmed ==> *final(backend) == *old(backend),
        install_asked(*old(backend), *final(backend), *cfg, r),
        (cfg.dry_run || destructive_confirmed) && old(store).keeps_record() ==> {
            &&& final(store).store_calls().len() > old(store).store_calls().len()
            &&& final(store).store_calls()[old(store).store_calls().len() as int] matches StoreCall::Load { answer }
                && exists|mid: St|
                #![trigger mid.store_calls()]
                mid.keeps_record() && mid.store_calls() == old(store).store_calls().push(StoreCall::Load { answer })
                    && install_ran_on(answer, *old(hal), *final(hal), mid, *final(store), *cfg, destructive_confirmed, r)
        },
{
    if !cfg.dry_run && !destructive_confirmed {
        proof {
            lemma_asked(backend.requests(), backend.requests(), Seq::empty(), *cfg);
        }
        return Err(WorkflowError::InstallNotConfirmed);
    }
    let loaded = store.load();
    let ghost lg = loaded;
    let ghost mid = *store;
    let r = run_loaded(hal, backend, store, cfg, destructive_confirmed, loaded);
    proof {
        if old(store).keeps_record() {
            let c0 = old(store).store_calls();
            let cm = mid.store_calls();
            if lg is Err {
                assert(store.store_calls() == cm);
            } else {
                assert(store.store_calls().take(cm.len() as int) == cm);
            }
            assert(store.store_calls()[c0.len() as int] == cm[c0.len() as int]);
            assert(install_ran_on(lg, *old(hal), *hal, mid, *store, *cfg, destructive_confirmed, r));
        }
    }
    r
}

} // verus!
