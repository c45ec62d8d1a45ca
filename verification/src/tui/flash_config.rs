//! The flash configuration that the Dojo hands to the execution pipeline.
use crate::sysfs::block::transport_hint;
use crate::text::{chars_of, concat2, ends_with_str, push_str, starts_with_str, str_eq};
use crate::tui::app::{lemma_view, selected_distro, App, AppView};
use crate::tui::partition::PartitionScheme;
use crate::tui::types::{
    distro_display, CatalogueImage, DiskIdentityReport, EfiSource, FlashConfig, ImageSource,
    InputResult, OptionToggle, OsDistro,
};
use vstd::prelude::*;
use vstd::string::*;

verus! {

/// `PathBuf::join` on Unix: an absolute `part` replaces `base`; otherwise a
/// `/` is inserted unless `base` is empty or already ends with one.
pub open spec fn path_join(base: Seq<char>, part: Seq<char>) -> Seq<char> {
    if part.len() > 0 && part[0] == '/' {
        part
    } else if base.len() == 0 || base.last() == '/' {
        base + part
    } else {
        base + "/"@ + part
    }
}

pub fn join_path(base: &str, part: &str) -> (r: String)
    ensures
        r@ == path_join(base@, part@),
{
    proof {
        reveal_strlit("/");
    }
    let pv = chars_of(part);
    if pv.len() > 0 && pv[0] == '/' {
        return String::from_str(part);
    }
    let bv = chars_of(base);
    if bv.len() == 0 || bv[bv.len() - 1] == '/' {
        concat2(base, part)
    } else {
        let mut r = String::from_str(base);
        r.append("/");
        r.append(part);
        r
    }
}

/// The flash configuration as values.
pub struct FlashConfigView {
    pub mash_root: Seq<char>,
    pub state_path: Seq<char>,
    pub os_distro: OsDistro,
    pub os_variant: Seq<char>,
    pub image: Seq<char>,
    pub disk: Seq<char>,
    pub scheme: PartitionScheme,
    pub uefi_dir: Seq<char>,
    pub auto_unmount: bool,
    pub watch: bool,
    pub locale: Option<Seq<char>>,
    pub early_ssh: bool,
    pub efi_size: Seq<char>,
    pub boot_size: Seq<char>,
    pub root_end: Seq<char>,
    pub download_uefi_firmware: bool,
    pub image_source_selection: ImageSource,
    pub image_version: Seq<char>,
    pub image_edition: Seq<char>,
    pub dry_run: bool,
    pub disk_identity: Option<(Option<Seq<char>>, Option<Seq<char>>, Option<Seq<char>>, Option<u64>)>,
    pub os_distro_label: Seq<char>,
    pub os_flavour_label: Seq<char>,
    pub typed_execute_confirmation: bool,
}

pub open spec fn opt_view(o: Option<String>) -> Option<Seq<char>> {
    match o {
        Some(s) => Some(s@),
        None => None,
    }
}

pub open spec fn report_view(r: Option<DiskIdentityReport>) -> Option<(Option<Seq<char>>, Option<Seq<char>>, Option<Seq<char>>, Option<u64>)> {
    match r {
        Some(d) => Some((opt_view(d.vendor), opt_view(d.model), opt_view(d.transport), d.size_bytes)),
        None => None,
    }
}

pub open spec fn flash_view(c: FlashConfig) -> FlashConfigView {
    FlashConfigView {
        mash_root: c.mash_root@,
        state_path: c.state_path@,
        os_distro: c.os_distro,
        os_variant: c.os_variant@,
        image: c.image@,
        disk: c.disk@,
        scheme: c.scheme,
        uefi_dir: c.uefi_dir@,
        auto_unmount: c.auto_unmount,
        watch: c.watch,
        locale: opt_view(c.locale),
        early_ssh: c.early_ssh,
        efi_size: c.efi_size@,
        boot_size: c.boot_size@,
        root_end: c.root_end@,
        download_uefi_firmware: c.download_uefi_firmware,
        image_source_selection: c.image_source_selection,
        image_version: c.image_version@,
        image_edition: c.image_edition@,
        dry_run: c.dry_run,
        disk_identity: report_view(c.disk_identity),
        os_distro_label: c.os_distro_label@,
        os_flavour_label: c.os_flavour_label@,
        typed_execute_confirmation: c.typed_execute_confirmation,
    }
}

/// What handling a key asks of the caller, as values.
pub enum Outcome {
    Continue,
    Quit,
    Complete,
    StartFlash(FlashConfigView),
    StartDownload,
    RescanDisks,
}

pub open spec fn outcome(r: InputResult) -> Outcome {
    match r {
        InputResult::Continue => Outcome::Continue,
        InputResult::Quit => Outcome::Quit,
        InputResult::Complete => Outcome::Complete,
        InputResult::StartFlash(c) => Outcome::StartFlash(flash_view(*c)),
        InputResult::StartDownload(_) => Outcome::StartDownload,
        InputResult::RescanDisks => Outcome::RescanDisks,
    }
}

/// `enabled` of the first option with the given label.
pub open spec fn option_named(opts: Seq<OptionToggle>, label: Seq<char>) -> Option<bool>
    decreases opts.len(),
{
    if opts.len() == 0 {
        None
    } else if opts[0].label@ == label {
        Some(opts[0].enabled)
    } else {
        option_named(opts.drop_first(), label)
    }
}

/// File name of the first catalogue image for `os`/`variant` on aarch64.
pub open spec fn catalogue_file(cat: Seq<CatalogueImage>, os: OsDistro, variant: Seq<char>) -> Option<Seq<char>>
    decreases cat.len(),
{
    if cat.len() == 0 {
        None
    } else if cat[0].os == os && cat[0].variant@ == variant && cat[0].arch@ == "aarch64"@ {
        Some(cat[0].file_name@)
    } else {
        catalogue_file(cat.drop_first(), os, variant)
    }
}

pub open spec fn selected_variant_id(v: AppView) -> Seq<char> {
    if v.os_variant_index < v.os_variants.len() {
        v.os_variants[v.os_variant_index as int].0
    } else {
        Seq::empty()
    }
}

pub open spec fn selected_image_source(v: AppView) -> ImageSource {
    if v.image_source_index < v.image_sources.len() {
        v.image_sources[v.image_source_index as int].value
    } else {
        ImageSource::LocalFile
    }
}

pub open spec fn requires_uefi_download(v: AppView) -> bool {
    v.uefi_source_index < v.uefi_sources.len() && v.uefi_sources[v.uefi_source_index as int]
        == EfiSource::DownloadEfiImage
}

pub open spec fn downloads_dir(v: AppView) -> Seq<char> {
    path_join(v.mash_root, "downloads"@)
}

pub open spec fn image_path_of(v: AppView) -> Seq<char> {
    match selected_image_source(v) {
        ImageSource::LocalFile => v.image_source_path,
        ImageSource::DownloadCatalogue => {
            let name = match v.catalogue {
                Some(cat) => match catalogue_file(cat, selected_distro(v), selected_variant_id(v)) {
                    Some(f) => f,
                    None => "missing-image-spec.img.xz"@,
                },
                None => "missing-image-spec.img.xz"@,
            };
            path_join(path_join(downloads_dir(v), "images"@), name)
        },
    }
}

pub open spec fn flash_config_spec(v: AppView) -> FlashConfigView {
    FlashConfigView {
        mash_root: v.mash_root,
        state_path: v.state_path,
        os_distro: selected_distro(v),
        os_variant: selected_variant_id(v),
        image: image_path_of(v),
        disk: if v.disk_index < v.disks.len() {
            v.disks[v.disk_index as int].path@
        } else {
            "/dev/sda"@
        },
        scheme: if v.scheme_index < v.partition_schemes.len() {
            v.partition_schemes[v.scheme_index as int]
        } else {
            PartitionScheme::Mbr
        },
        uefi_dir: match v.downloaded_uefi_dir {
            Some(d) => d,
            None => if requires_uefi_download(v) {
                path_join(downloads_dir(v), "uefi"@)
            } else {
                v.uefi_source_path
            },
        },
        auto_unmount: match option_named(v.options, "Auto-unmount target disk"@) {
            Some(b) => b,
            None => true,
        },
        watch: false,
        locale: if v.locale_index < v.locales.len() {
            Some(v.locales[v.locale_index as int]@)
        } else {
            None
        },
        early_ssh: match option_named(v.options, "Enable early SSH"@) {
            Some(b) => b,
            None => false,
        },
        efi_size: v.efi_size,
        boot_size: v.boot_size,
        root_end: v.root_end,
        download_uefi_firmware: requires_uefi_download(v),
        image_source_selection: selected_image_source(v),
        image_version: "43"@,
        image_edition: "KDE"@,
        dry_run: v.dry_run,
        disk_identity: if v.disk_index < v.disks.len() {
            let d = v.disks[v.disk_index as int];
            Some(
                (
                    opt_view(d.identity.vendor),
                    opt_view(d.identity.model),
                    Some(transport_hint(d.identity.transport)),
                    Some(d.identity.size_bytes),
                ),
            )
        } else {
            None
        },
        os_distro_label: if v.os_distro_index < v.os_distros.len() {
            distro_display(v.os_distros[v.os_distro_index as int])
        } else {
            "Unknown"@
        },
        os_flavour_label: if v.os_variant_index < v.os_variants.len() {
            v.os_variants[v.os_variant_index as int].1
        } else {
            "Unknown"@
        },
        typed_execute_confirmation: v.execute_confirmation_confirmed,
    }
}

fn clone_opt(o: &Option<String>) -> (r: Option<String>)
    ensures
        opt_view(r) == opt_view(*o),
{
    match o {
        Some(s) => Some(s.clone()),
        None => None,
    }
}

pub(crate) fn find_option(opts: &Vec<OptionToggle>, label: &str) -> (r: Option<bool>)
    ensures
        r == option_named(opts@, label@),
{
    let mut i: usize = 0;
    assert(opts@.subrange(0, opts.len() as int) =~= opts@);
    while i < opts.len()
        invariant
            i <= opts.len(),
            option_named(opts@, label@) == option_named(opts@.subrange(i as int, opts.len() as int), label@),
        decreases opts.len() - i,
    {
        let ghost rest = opts@.subrange(i as int, opts.len() as int);
        assert(rest[0] == opts@[i as int]);
        if str_eq(opts[i].label.as_str(), label) {
            return Some(opts[i].enabled);
        }
        assert(rest.drop_first() =~= opts@.subrange(i + 1, opts.len() as int));
        i += 1;
    }
    None
}

fn find_catalogue_file(cat: &Vec<CatalogueImage>, os: OsDistro, variant: &str) -> (r: Option<String>)
    ensures
        opt_view(r) == catalogue_file(cat@, os, variant@),
{
    let mut i: usize = 0;
    assert(cat@.subrange(0, cat.len() as int) =~= cat@);
    while i < cat.len()
        invariant
            i <= cat.len(),
            catalogue_file(cat@, os, variant@) == catalogue_file(cat@.subrange(i as int, cat.len() as int), os, variant@),
        decreases cat.len() - i,
    {
        let ghost rest = cat@.subrange(i as int, cat.len() as int);
        assert(rest[0] == cat@[i as int]);
        let img = &cat[i];
        if img.os == os && str_eq(img.variant.as_str(), variant) && str_eq(img.arch.as_str(), "aarch64") {
            return Some(img.file_name.clone());
        }
        assert(rest.drop_first() =~= cat@.subrange(i + 1, cat.len() as int));
        i += 1;
    }
    None
}

impl App {
    pub fn selected_distro(&self) -> (r: OsDistro)
        ensures
            r == selected_distro(self@),
    {
        proof {
            lemma_view(*self);
        }
        if self.os_distro_index < self.os_distros.len() {
            self.os_distros[self.os_distro_index]
        } else {
            OsDistro::Fedora
        }
    }

    pub fn selected_variant_id(&self) -> (r: Option<String>)
        ensures
            self.os_variant_index < self.os_variants.len() ==> (r matches Some(s) && s@
                == selected_variant_id(self@)),
            self.os_variant_index >= self.os_variants.len() ==> r is None,
    {
        proof {
            lemma_view(*self);
        }
        if self.os_variant_index < self.os_variants.len() {
            Some(self.os_variants[self.os_variant_index].id.clone())
        } else {
            None
        }
    }

    pub fn requires_image_download(&self) -> (r: bool)
        ensures
            r == (self.image_source_index < self.image_sources.len()
                && self.image_sources@[self.image_source_index as int].value
                == ImageSource::DownloadCatalogue),
    {
        proof {
            lemma_view(*self);
        }
        if self.image_source_index < self.image_sources.len() {
            self.image_sources[self.image_source_index].value == ImageSource::DownloadCatalogue
        } else {
            false
        }
    }

    pub fn requires_uefi_download(&self) -> (r: bool)
        ensures
            r == requires_uefi_download(self@),
    {
        proof {
            lemma_view(*self);
        }
        self.uefi_source_index < self.uefi_sources.len() && self.uefi_sources[self.uefi_source_index]
            == EfiSource::DownloadEfiImage
    }

    /// Builds the flash configuration from the current selections.
    pub fn build_flash_config(&self) -> (r: Option<FlashConfig>)
        ensures
            r matches Some(c) && flash_view(c) == flash_config_spec(self@),
    {
        proof {
            lemma_view(*self);
        }
        let download_uefi_firmware = self.requires_uefi_download();
        let os_distro = self.selected_distro();
        let os_variant = match self.selected_variant_id() {
            Some(s) => s,
            None => String::new(),
        };
        let downloads = join_path(self.mash_root.as_str(), "downloads");
        let image_source = if self.image_source_index < self.image_sources.len() {
            self.image_sources[self.image_source_index].value
        } else {
            ImageSource::LocalFile
        };
        let image = match image_source {
            ImageSource::LocalFile => self.image_source_path.clone(),
            ImageSource::DownloadCatalogue => {
                let file_name = match &self.catalogue {
                    Some(cat) => match find_catalogue_file(cat, os_distro, os_variant.as_str()) {
                        Some(f) => f,
                        None => String::from_str("missing-image-spec.img.xz"),
                    },
                    None => String::from_str("missing-image-spec.img.xz"),
                };
                let images = join_path(downloads.as_str(), "images");
                join_path(images.as_str(), file_name.as_str())
            },
        };
        let disk_identity = if self.disk_index < self.disks.len() {
            let d = &self.disks[self.disk_index];
            Some(
                DiskIdentityReport {
                    vendor: clone_opt(&d.identity.vendor),
                    model: clone_opt(&d.identity.model),
                    transport: Some(String::from_str(d.identity.transport.hint())),
                    size_bytes: Some(d.identity.size_bytes),
                },
            )
        } else {
            None
        };
        let disk = if self.disk_index < self.disks.len() {
            self.disks[self.disk_index].path.clone()
        } else {
            String::from_str("/dev/sda")
        };
        let scheme = if self.scheme_index < self.partition_schemes.len() {
            self.partition_schemes[self.scheme_index]
        } else {
            PartitionScheme::Mbr
        };
        let uefi_dir = match &self.downloaded_uefi_dir {
            Some(d) => d.clone(),
            None => if download_uefi_firmware {
                join_path(downloads.as_str(), "uefi")
            } else {
                self.uefi_source_path.clone()
            },
        };
        let auto_unmount = match find_option(&self.options, "Auto-unmount target disk") {
            Some(b) => b,
            None => true,
        };
        let early_ssh = match find_option(&self.options, "Enable early SSH") {
            Some(b) => b,
            None => false,
        };
        let locale = if self.locale_index < self.locales.len() {
            Some(self.locales[self.locale_index].clone())
        } else {
            None
        };
        let os_distro_label = if self.os_distro_index < self.os_distros.len() {
            String::from_str(self.os_distros[self.os_distro_index].display())
        } else {
            String::from_str("Unknown")
        };
        let os_flavour_label = if self.os_variant_index < self.os_variants.len() {
            self.os_variants[self.os_variant_index].label.clone()
        } else {
            String::from_str("Unknown")
        };
        let c = FlashConfig {
            mash_root: self.mash_root.clone(),
            state_path: self.state_path.clone(),
            os_distro,
            os_variant,
            image,
            disk,
            scheme,
            uefi_dir,
            auto_unmount,
            watch: false,
            locale,
            early_ssh,
            efi_size: self.efi_size.clone(),
            boot_size: self.boot_size.clone(),
            root_end: self.root_end.clone(),
            download_uefi_firmware,
            image_source_selection: image_source,
            image_version: String::from_str("43"),
            image_edition: String::from_str("KDE"),
            dry_run: self.dry_run,
            disk_identity,
            os_distro_label,
            os_flavour_label,
            typed_execute_confirmation: self.execute_confirmation_confirmed,
        };
        Some(c)
    }
}

} // verus!
