//! The text of the Dojo screen: the lines of the current step, the summary of
//! the plan, the info panel and the plain-text dump of a step.
//!
//! What the state machine does not hold (how a disk identifies itself, how
//! schemes and EFI sources are named, the live telemetry of an installation and
//! the time since flashing began) comes in a `ScreenContext` of plain values.
use crate::text::{
    chars_of, concat2, concat3, dec_digits, dec_pad2, push_str, replace_all, replace_str,
    split_char, split_char_vec, string_of, trim_ws, trim_ws_vec, u64_to_pad2, u64_to_string, views,
    is_ascii_alnum, char_is_ascii_alnum,
};
use crate::tui::app::{
    fresh_state, lemma_view, lemma_view_set_step, refresh_customizations, refresh_variants,
    strings_view, with_step, App, AppView,
};
use crate::tui::flash_config::option_named;
use crate::tui::partition::{CustomizeField, PartitionScheme};
use crate::tui::screen::{expected_actions, expected_actions_spec, join_lines};
use crate::tui::steps::{all_steps, title_of, InstallStepType};
use crate::tui::types::{
    disk_protected, distro_display, is_protected, BootConfidence, DiskOption,
    EfiSource, ImageSource, OsDistro,
};
use vstd::prelude::*;
use vstd::string::*;

verus! {

/// One phase of an installation as the progress telemetry reports it.
#[derive(Debug, Clone)]
pub struct PhaseRow {
    pub symbol: String,
    pub name: String,
}

/// The live telemetry of an installation, reduced to what the screen prints:
/// percentages already rounded and clamped, the ETA and speeds already
/// formatted.  `phases` lists every phase in order; a phase's number is its
/// position counting from one.
#[derive(Debug, Clone)]
pub struct ProgressView {
    pub status: String,
    pub overall_percent: u64,
    pub phase_percent: u64,
    pub eta: String,
    pub phases: Vec<PhaseRow>,
    pub current_phase: Option<usize>,
    pub is_complete: bool,
    /// Copy speed in MB/s with one decimal, where it is above zero.
    pub rsync_speed: Option<String>,
    /// Disk speed in MB/s with one decimal, where it is above zero.
    pub disk_io_speed: Option<String>,
}

/// What the screen shows beside the state of the `App`.
#[derive(Debug, Clone)]
pub struct ScreenContext {
    /// How each disk of `App::disks` identifies itself, by position; `None`
    /// (or no entry) where its identity could not be resolved.
    pub disk_identities: Vec<Option<String>>,
    /// How the two partition schemes are printed.
    pub mbr_name: String,
    pub gpt_name: String,
    /// How the two EFI sources are named in their option list.
    pub efi_download_name: String,
    pub efi_local_name: String,
    pub progress: ProgressView,
    /// Milliseconds since flashing began, if it has.
    pub elapsed_ms: Option<u64>,
}

// ---------------------------------------------------------------------------
// Lines
// ---------------------------------------------------------------------------

/// `▶` before the selected entry of a list, a space before the others.
pub open spec fn marker(selected: bool) -> Seq<char> {
    if selected {
        "▶"@
    } else {
        " "@
    }
}

/// The lines of an option list with the entry at `selected` marked.
pub open spec fn option_lines(opts: Seq<Seq<char>>, selected: int) -> Seq<Seq<char>> {
    if opts.len() == 0 {
        seq!["ℹ️ No options available."@]
    } else {
        Seq::new(opts.len(), |i: int| marker(i == selected) + " "@ + opts[i])
    }
}

fn push_line(items: &mut Vec<String>, s: &str)
    ensures
        strings_view(final(items)@) == strings_view(old(items)@).push(s@),
{
    let ghost before = strings_view(items@);
    items.push(String::from_str(s));
    assert(strings_view(items@) =~= before.push(s@));
}

fn push_string(items: &mut Vec<String>, s: String)
    ensures
        strings_view(final(items)@) == strings_view(old(items)@).push(s@),
{
    let ghost before = strings_view(items@);
    let ghost sv = s@;
    items.push(s);
    assert(strings_view(items@) =~= before.push(sv));
}

/// Appends the lines of an option list.
pub fn push_options(items: &mut Vec<String>, options: &Vec<String>, selected: usize)
    ensures
        strings_view(final(items)@) == strings_view(old(items)@) + option_lines(
            strings_view(options@),
            selected as int,
        ),
{
    let ghost before = strings_view(items@);
    let ghost opts = strings_view(options@);
    if options.len() == 0 {
        push_line(items, "ℹ️ No options available.");
        assert(before.push("ℹ️ No options available."@) =~= before + option_lines(opts, selected as int));
        return;
    }
    let mut i: usize = 0;
    while i < options.len()
        invariant
            i <= options.len(),
            opts == strings_view(options@),
            opts.len() > 0,
            strings_view(items@) == before + option_lines(opts, selected as int).take(i as int),
        decreases options.len() - i,
    {
        let m = if i == selected {
            "▶"
        } else {
            " "
        };
        let line = concat3(m, " ", options[i].as_str());
        push_string(items, line);
        assert(option_lines(opts, selected as int).take(i + 1) =~= option_lines(
            opts,
            selected as int,
        ).take(i as int).push(marker(i == selected) + " "@ + opts[i as int]));
        i += 1;
    }
    assert(option_lines(opts, selected as int).take(options.len() as int) =~= option_lines(
        opts,
        selected as int,
    ));
}

/// The entry at `i`, if there is one (`slice::get`).
pub open spec fn entry<T>(s: Seq<T>, i: int) -> Option<T> {
    if 0 <= i < s.len() {
        Some(s[i])
    } else {
        None
    }
}

// ---------------------------------------------------------------------------
// Disks
// ---------------------------------------------------------------------------

/// How the disk at position `i` identifies itself, if it was resolved.
pub open spec fn identity_at(c: ScreenContext, i: int) -> Option<Seq<char>> {
    match entry(c.disk_identities@, i) {
        Some(Some(s)) => Some(s@),
        _ => None,
    }
}

fn identity_of(c: &ScreenContext, i: usize) -> (r: Option<&String>)
    ensures
        match r {
            Some(s) => identity_at(*c, i as int) == Some(s@),
            None => identity_at(*c, i as int) is None,
        },
{
    if i < c.disk_identities.len() {
        match &c.disk_identities[i] {
            Some(s) => Some(s),
            None => None,
        }
    } else {
        None
    }
}

/// The identity text, or the marker of a failed identity.
pub open spec fn identity_or_failed(c: ScreenContext, i: int) -> Seq<char> {
    match identity_at(c, i) {
        Some(s) => s,
        None => "❌ IDENTITY FAILED"@,
    }
}

fn identity_text(c: &ScreenContext, i: usize) -> (r: String)
    ensures
        r@ == identity_or_failed(*c, i as int),
{
    match identity_of(c, i) {
        Some(s) => s.clone(),
        None => String::from_str("❌ IDENTITY FAILED"),
    }
}

/// The tags of a disk entry: source media first, then boot media or, for a
/// disk that is no boot medium, whether it is removable.
pub open spec fn disk_tags(d: DiskOption) -> Seq<char> {
    let kind = match d.boot_confidence {
        BootConfidence::Confident => "⚠ BOOT MEDIA"@,
        BootConfidence::Unverified => "⚠ BOOT?"@,
        _ => if d.removable {
            "REMOVABLE"@
        } else {
            "INTERNAL"@
        },
    };
    if d.is_source_disk {
        "⚠ SOURCE MEDIA, "@ + kind
    } else {
        kind
    }
}

/// One line of the disk list.
pub open spec fn disk_entry(d: DiskOption, identity: Option<Seq<char>>) -> Seq<char> {
    match identity {
        Some(id) => d.path@ + " - "@ + id + " - "@ + disk_tags(d),
        None => d.path@ + " - ❌ IDENTITY FAILED - Cannot proceed"@,
    }
}

/// One line of the disk list: path, identity and tags.
pub fn format_disk_entry(disk: &DiskOption, identity: Option<&String>) -> (r: String)
    ensures
        r@ == disk_entry(*disk, match identity {
            Some(s) => Some(s@),
            None => None,
        }),
{
    match identity {
        None => concat2(disk.path.as_str(), " - ❌ IDENTITY FAILED - Cannot proceed"),
        Some(id) => {
            let kind = match disk.boot_confidence {
                BootConfidence::Confident => "⚠ BOOT MEDIA",
                BootConfidence::Unverified => "⚠ BOOT?",
                _ => if disk.removable {
                    "REMOVABLE"
                } else {
                    "INTERNAL"
                },
            };
            let mut r = concat3(disk.path.as_str(), " - ", id.as_str());
            push_str(&mut r, " - ");
            if disk.is_source_disk {
                push_str(&mut r, "⚠ SOURCE MEDIA, ");
            }
            push_str(&mut r, kind);
            r
        },
    }
}

// ---------------------------------------------------------------------------
// Schemes, layouts, EFI sources
// ---------------------------------------------------------------------------

pub open spec fn scheme_choice(s: PartitionScheme) -> Seq<char> {
    match s {
        PartitionScheme::Mbr => "MBR — compatibility & simplicity"@,
        PartitionScheme::Gpt => "GPT — modern, UEFI-oriented"@,
    }
}

/// A partition scheme as the scheme list offers it.
pub fn format_partition_scheme(scheme: PartitionScheme) -> (r: &'static str)
    ensures
        r@ == scheme_choice(scheme),
{
    match scheme {
        PartitionScheme::Mbr => "MBR — compatibility & simplicity",
        PartitionScheme::Gpt => "GPT — modern, UEFI-oriented",
    }
}

pub open spec fn scheme_short(s: PartitionScheme) -> Seq<char> {
    match s {
        PartitionScheme::Mbr => "MBR"@,
        PartitionScheme::Gpt => "GPT"@,
    }
}

/// How the context prints a scheme.
pub open spec fn scheme_name(c: ScreenContext, s: PartitionScheme) -> Seq<char> {
    match s {
        PartitionScheme::Mbr => c.mbr_name@,
        PartitionScheme::Gpt => c.gpt_name@,
    }
}

fn scheme_name_of(c: &ScreenContext, s: PartitionScheme) -> (r: &String)
    ensures
        r@ == scheme_name(*c, s),
{
    match s {
        PartitionScheme::Mbr => &c.mbr_name,
        PartitionScheme::Gpt => &c.gpt_name,
    }
}

/// How the context names an EFI source.
pub open spec fn efi_name(c: ScreenContext, s: EfiSource) -> Seq<char> {
    match s {
        EfiSource::DownloadEfiImage => c.efi_download_name@,
        EfiSource::LocalEfiImage => c.efi_local_name@,
    }
}

/// One line of a layout preview: the part trimmed, with a space put before
/// each unit, indented by two spaces.
pub open spec fn preview_line(p: Seq<char>) -> Seq<char> {
    "  "@ + replace_all(replace_all(p, "MiB"@, " MiB"@), "GiB"@, " GiB"@)
}

/// The preview lines of the `|`-separated parts, empty parts left out.
pub open spec fn preview_lines(parts: Seq<Seq<char>>) -> Seq<Seq<char>>
    decreases parts.len(),
{
    if parts.len() == 0 {
        Seq::empty()
    } else {
        let rest = preview_lines(parts.drop_last());
        let p = trim_ws(parts.last());
        if p.len() == 0 {
            rest
        } else {
            rest.push(preview_line(p))
        }
    }
}

pub open spec fn layout_preview(layout: Seq<char>) -> Seq<Seq<char>> {
    preview_lines(split_char(layout, '|'))
}

/// The partitions of a layout string, one per line.
pub fn format_layout_preview(layout: &str) -> (r: Vec<String>)
    ensures
        strings_view(r@) == layout_preview(layout@),
{
    let chars = chars_of(layout);
    let parts = split_char_vec(&chars, '|');
    let ghost ps = views(parts@);
    let mut out: Vec<String> = Vec::new();
    let mut i: usize = 0;
    while i < parts.len()
        invariant
            i <= parts.len(),
            ps == views(parts@),
            ps == split_char(layout@, '|'),
            strings_view(out@) == preview_lines(ps.take(i as int)),
        decreases parts.len() - i,
    {
        assert(ps.take(i + 1).drop_last() =~= ps.take(i as int));
        let p = trim_ws_vec(&parts[i]);
        if p.len() > 0 {
            proof {
                reveal_strlit("MiB");
                reveal_strlit("GiB");
            }
            let a = replace_str(&p, "MiB", " MiB");
            let b = replace_str(&a, "GiB", " GiB");
            let mut line = String::from_str("  ");
            let tail = string_of(&b);
            line.append(tail.as_str());
            push_string(&mut out, line);
        }
        i += 1;
    }
    assert(ps.take(parts.len() as int) =~= ps);
    out
}

// ---------------------------------------------------------------------------
// Plan summary and info panel
// ---------------------------------------------------------------------------

/// `Disk: <path> - <identity>` for the selected disk.
pub open spec fn disk_line(v: AppView, c: ScreenContext, d: DiskOption) -> Seq<char> {
    "Disk: "@ + d.path@ + " - "@ + identity_or_failed(c, v.disk_index as int)
}

fn disk_line_of(app: &App, c: &ScreenContext) -> (r: String)
    requires
        app.disk_index < app.disks.len(),
    ensures
        r@ == disk_line(app@, *c, app.disks@[app.disk_index as int]),
{
    proof {
        lemma_view(*app);
    }
    let mut r = concat3("Disk: ", app.disks[app.disk_index].path.as_str(), " - ");
    let info = identity_text(c, app.disk_index);
    r.append(info.as_str());
    r
}

/// What the plan review lists: OS, variant, disk, then what will be done.
pub open spec fn plan_lines(v: AppView, c: ScreenContext) -> Seq<Seq<char>> {
    let distro = entry(v.os_distros, v.os_distro_index as int);
    let l_os = match distro {
        Some(d) => "OS: "@ + distro_display(d),
        None => "OS: <not selected>"@,
    };
    let l_variant = match entry(v.os_variants, v.os_variant_index as int) {
        Some(x) => "Variant: "@ + x.1,
        None => "Variant: <not selected>"@,
    };
    let l_disk = match entry(v.disks, v.disk_index as int) {
        Some(d) => disk_line(v, c, d),
        None => "Disk: <not selected>"@,
    };
    let head = seq![l_os, l_variant, l_disk];
    if distro == Some(OsDistro::Fedora) {
        let l_efi = match entry(v.uefi_sources, v.uefi_source_index as int) {
            Some(EfiSource::LocalEfiImage) => "EFI: Local ("@ + v.uefi_source_path + ")"@,
            Some(EfiSource::DownloadEfiImage) => "EFI: Download image"@,
            None => "EFI: <not selected>"@,
        };
        head.push(l_efi).push("Action: install Fedora with custom partition layout"@).push(
            "Reboots: 1"@,
        )
    } else {
        let a = head.push("Action: flash upstream full-disk image (no repartition)"@);
        let b = if distro == Some(OsDistro::Manjaro) {
            a.push("Note: post-boot partition expansion required"@)
        } else {
            a
        };
        b.push("Reboots: 0"@)
    }
}

/// The lines of the plan review.
pub fn build_plan_lines(app: &App, c: &ScreenContext) -> (r: Vec<String>)
    ensures
        strings_view(r@) == plan_lines(app@, *c),
{
    proof {
        lemma_view(*app);
    }
    let mut lines: Vec<String> = Vec::new();
    let distro = if app.os_distro_index < app.os_distros.len() {
        Some(app.os_distros[app.os_distro_index])
    } else {
        None
    };
    match distro {
        Some(d) => push_string(&mut lines, concat2("OS: ", d.display())),
        None => push_line(&mut lines, "OS: <not selected>"),
    }
    if app.os_variant_index < app.os_variants.len() {
        push_string(&mut lines, concat2("Variant: ", app.os_variants[app.os_variant_index].label.as_str()));
    } else {
        push_line(&mut lines, "Variant: <not selected>");
    }
    if app.disk_index < app.disks.len() {
        push_string(&mut lines, disk_line_of(app, c));
    } else {
        push_line(&mut lines, "Disk: <not selected>");
    }
    if distro == Some(OsDistro::Fedora) {
        if app.uefi_source_index < app.uefi_sources.len() {
            match app.uefi_sources[app.uefi_source_index] {
                EfiSource::LocalEfiImage => {
                    push_string(&mut lines, concat3("EFI: Local (", app.uefi_source_path.as_str(), ")"));
                },
                EfiSource::DownloadEfiImage => {
                    push_line(&mut lines, "EFI: Download image");
                },
            }
        } else {
            push_line(&mut lines, "EFI: <not selected>");
        }
        push_line(&mut lines, "Action: install Fedora with custom partition layout");
        push_line(&mut lines, "Reboots: 1");
    } else {
        push_line(&mut lines, "Action: flash upstream full-disk image (no repartition)");
        if distro == Some(OsDistro::Manjaro) {
            push_line(&mut lines, "Note: post-boot partition expansion required");
        }
        push_line(&mut lines, "Reboots: 0");
    }
    assert(strings_view(lines@) =~= plan_lines(app@, *c));
    lines
}

/// The lines joined with newlines (`[String]::join("\n")`).
pub fn join_with_newlines(lines: &Vec<String>) -> (r: String)
    ensures
        r@ == join_lines(strings_view(lines@)),
{
    let ghost ls = strings_view(lines@);
    let mut out = String::new();
    let mut i: usize = 0;
    while i < lines.len()
        invariant
            i <= lines.len(),
            ls == strings_view(lines@),
            out@ == join_lines(ls.take(i as int)),
        decreases lines.len() - i,
    {
        if i > 0 {
            push_str(&mut out, "\n");
        }
        push_str(&mut out, lines[i].as_str());
        proof {
            let t = ls.take(i + 1);
            assert(t.drop_last() =~= ls.take(i as int));
            assert(t.last() == ls[i as int]);
            if i == 0 {
                assert(ls.take(0) =~= Seq::<Seq<char>>::empty());
            }
        }
        i += 1;
    }
    assert(ls.take(lines.len() as int) =~= ls);
    out
}

/// The right-hand panel: mode, arming state, current selections and, while
/// an installation runs, its progress.
pub open spec fn info_panel_lines(v: AppView, c: ScreenContext) -> Seq<Seq<char>> {
    let a = seq![
        if v.dry_run {
            "🟡 DRY-RUN (no disk writes)"@
        } else {
            "🔴 EXECUTE (disk writes possible)"@
        },
        ""@,
        if v.destructive_armed {
            "🔴 ARMED (writes enabled)"@
        } else {
            "🟢 SAFE (disarmed)"@
        },
        ""@,
        "Selections:"@,
    ];
    let b = match entry(v.os_distros, v.os_distro_index as int) {
        Some(d) => a.push("OS: "@ + distro_display(d)),
        None => a,
    };
    let e = match entry(v.os_variants, v.os_variant_index as int) {
        Some(x) => b.push("Variant: "@ + x.1),
        None => b,
    };
    let f = match entry(v.disks, v.disk_index as int) {
        Some(d) => e.push(
            "Disk: "@ + match identity_at(c, v.disk_index as int) {
                Some(id) => id,
                None => d.path@,
            },
        ),
        None => e,
    };
    let g = match entry(v.partition_schemes, v.scheme_index as int) {
        Some(s) => f.push("Scheme: "@ + scheme_short(s)),
        None => f,
    };
    if v.is_running {
        g + seq![
            ""@,
            "Progress:"@,
            "Overall: "@ + dec_digits(c.progress.overall_percent as nat) + "%"@,
            "Phase: "@ + dec_digits(c.progress.phase_percent as nat) + "%"@,
            "ETA: "@ + c.progress.eta@,
        ]
    } else {
        g
    }
}

pub open spec fn info_panel(v: AppView, c: ScreenContext) -> Seq<char> {
    join_lines(info_panel_lines(v, c))
}

/// The info panel, its lines joined with newlines.
pub fn build_info_panel(app: &App, c: &ScreenContext) -> (r: String)
    ensures
        r@ == info_panel(app@, *c),
{
    proof {
        lemma_view(*app);
    }
    let mut lines: Vec<String> = Vec::new();
    if app.dry_run {
        push_line(&mut lines, "🟡 DRY-RUN (no disk writes)");
    } else {
        push_line(&mut lines, "🔴 EXECUTE (disk writes possible)");
    }
    push_line(&mut lines, "");
    if app.destructive_armed {
        push_line(&mut lines, "🔴 ARMED (writes enabled)");
    } else {
        push_line(&mut lines, "🟢 SAFE (disarmed)");
    }
    push_line(&mut lines, "");
    push_line(&mut lines, "Selections:");
    let ghost a = strings_view(lines@);
    assert(a =~= seq![
        if app.dry_run {
            "🟡 DRY-RUN (no disk writes)"@
        } else {
            "🔴 EXECUTE (disk writes possible)"@
        },
        ""@,
        if app.destructive_armed {
            "🔴 ARMED (writes enabled)"@
        } else {
            "🟢 SAFE (disarmed)"@
        },
        ""@,
        "Selections:"@,
    ]);
    if app.os_distro_index < app.os_distros.len() {
        push_string(&mut lines, concat2("OS: ", app.os_distros[app.os_distro_index].display()));
    }
    if app.os_variant_index < app.os_variants.len() {
        push_string(&mut lines, concat2("Variant: ", app.os_variants[app.os_variant_index].label.as_str()));
    }
    if app.disk_index < app.disks.len() {
        match identity_of(c, app.disk_index) {
            Some(id) => push_string(&mut lines, concat2("Disk: ", id.as_str())),
            None => push_string(&mut lines, concat2("Disk: ", app.disks[app.disk_index].path.as_str())),
        }
    }
    if app.scheme_index < app.partition_schemes.len() {
        let short = match app.partition_schemes[app.scheme_index] {
            PartitionScheme::Mbr => "MBR",
            PartitionScheme::Gpt => "GPT",
        };
        push_string(&mut lines, concat2("Scheme: ", short));
    }
    let ghost g = strings_view(lines@);
    if app.is_running {
        push_line(&mut lines, "");
        push_line(&mut lines, "Progress:");
        let mut o = concat2("Overall: ", u64_to_string(c.progress.overall_percent).as_str());
        push_str(&mut o, "%");
        push_string(&mut lines, o);
        let mut ph = concat2("Phase: ", u64_to_string(c.progress.phase_percent).as_str());
        push_str(&mut ph, "%");
        push_string(&mut lines, ph);
        push_string(&mut lines, concat2("ETA: ", c.progress.eta.as_str()));
        assert(strings_view(lines@) =~= g + seq![
            ""@,
            "Progress:"@,
            "Overall: "@ + dec_digits(c.progress.overall_percent as nat) + "%"@,
            "Phase: "@ + dec_digits(c.progress.phase_percent as nat) + "%"@,
            "ETA: "@ + c.progress.eta@,
        ]);
    }
    assert(strings_view(lines@) == info_panel_lines(app@, *c));
    join_with_newlines(&lines)
}

// ---------------------------------------------------------------------------
// Status and telemetry
// ---------------------------------------------------------------------------

/// A message that starts with an ASCII letter or digit gets an `ℹ️ ` prefix.
pub open spec fn with_emoji_prefix(m: Seq<char>) -> Seq<char> {
    if m.len() > 0 && is_ascii_alnum(m[0]) {
        "ℹ️ "@ + m
    } else {
        m
    }
}

/// The telemetry status where there is one, else the App's own message.
pub open spec fn status_text(v: AppView, c: ScreenContext) -> Seq<char> {
    with_emoji_prefix(
        if c.progress.status@.len() > 0 {
            c.progress.status@
        } else {
            v.status_message
        },
    )
}

/// The status line of the screen.
pub fn status_message(app: &App, c: &ScreenContext) -> (r: String)
    ensures
        r@ == status_text(app@, *c),
{
    proof {
        lemma_view(*app);
    }
    let message = if c.progress.status.as_str().is_empty() {
        app.status_message.clone()
    } else {
        c.progress.status.clone()
    };
    let chars = chars_of(message.as_str());
    if chars.len() > 0 && char_is_ascii_alnum(chars[0]) {
        concat2("ℹ️ ", message.as_str())
    } else {
        message
    }
}

/// The spinner frame shown `ms` milliseconds after flashing began.
pub open spec fn spinner(ms: nat) -> Seq<char> {
    let i = (ms / 100) % 10;
    if i == 0 {
        "⠋"@
    } else if i == 1 {
        "⠙"@
    } else if i == 2 {
        "⠹"@
    } else if i == 3 {
        "⠸"@
    } else if i == 4 {
        "⠼"@
    } else if i == 5 {
        "⠴"@
    } else if i == 6 {
        "⠦"@
    } else if i == 7 {
        "⠧"@
    } else if i == 8 {
        "⠇"@
    } else {
        "⠏"@
    }
}

pub open spec fn elapsed_of(ms: Option<u64>) -> nat {
    match ms {
        Some(m) => m as nat,
        None => 0,
    }
}

pub fn spinner_frame(elapsed_ms: Option<u64>) -> (r: &'static str)
    ensures
        r@ == spinner(elapsed_of(elapsed_ms)),
{
    let ms: u64 = match elapsed_ms {
        Some(m) => m,
        None => 0,
    };
    let i = (ms / 100) % 10;
    if i == 0 {
        "⠋"
    } else if i == 1 {
        "⠙"
    } else if i == 2 {
        "⠹"
    } else if i == 3 {
        "⠸"
    } else if i == 4 {
        "⠼"
    } else if i == 5 {
        "⠴"
    } else if i == 6 {
        "⠦"
    } else if i == 7 {
        "⠧"
    } else if i == 8 {
        "⠇"
    } else {
        "⠏"
    }
}

/// Whole minutes and seconds, each at least two digits (`{:02}:{:02}`).
pub open spec fn elapsed_text(ms: nat) -> Seq<char> {
    let secs = ms / 1000;
    dec_pad2(secs / 60) + ":"@ + dec_pad2(secs % 60)
}

pub fn elapsed_string(elapsed_ms: Option<u64>) -> (r: String)
    ensures
        r@ == elapsed_text(elapsed_of(elapsed_ms)),
{
    let ms: u64 = match elapsed_ms {
        Some(m) => m,
        None => 0,
    };
    let secs = ms / 1000;
    let m = u64_to_pad2(secs / 60);
    let s = u64_to_pad2(secs % 60);
    let mut r = string_of(&m);
    push_str(&mut r, ":");
    let tail = string_of(&s);
    push_str(&mut r, tail.as_str());
    r
}

/// The current phase, if the telemetry names one of its phases.
pub open spec fn current_phase_row(p: ProgressView) -> Option<PhaseRow> {
    match p.current_phase {
        Some(i) => entry(p.phases@, i as int),
        None => None,
    }
}

/// The name of the current phase or, without telemetry, a hint that changes
/// every five seconds.
pub open spec fn phase_hint_text(c: ScreenContext) -> Seq<char> {
    match current_phase_row(c.progress) {
        Some(row) => row.name@,
        None => {
            let k = (elapsed_of(c.elapsed_ms) / 1000 / 5) % 3;
            if k == 0 {
                "Writing image"@
            } else if k == 1 {
                "Syncing data"@
            } else {
                "Finalizing"@
            }
        },
    }
}

fn current_row(p: &ProgressView) -> (r: Option<&PhaseRow>)
    ensures
        match r {
            Some(row) => current_phase_row(*p) == Some(*row),
            None => current_phase_row(*p) is None,
        },
{
    match p.current_phase {
        Some(i) => if i < p.phases.len() {
            Some(&p.phases[i])
        } else {
            None
        },
        None => None,
    }
}

pub fn phase_hint(c: &ScreenContext) -> (r: String)
    ensures
        r@ == phase_hint_text(*c),
{
    match current_row(&c.progress) {
        Some(row) => row.name.clone(),
        None => {
            let ms: u64 = match c.elapsed_ms {
                Some(m) => m,
                None => 0,
            };
            let k = (ms / 1000 / 5) % 3;
            if k == 0 {
                String::from_str("Writing image")
            } else if k == 1 {
                String::from_str("Syncing data")
            } else {
                String::from_str("Finalizing")
            }
        },
    }
}

/// `Execution steps:` and one line per phase, the current one marked.
pub open spec fn phase_lines(p: ProgressView) -> Seq<Seq<char>> {
    seq!["Execution steps:"@] + Seq::new(
        p.phases@.len(),
        |i: int|
            marker(p.current_phase == Some(i as usize)) + " "@ + p.phases@[i].symbol@ + " "@
                + p.phases@[i].name@,
    )
}

pub fn progress_phase_lines(p: &ProgressView) -> (r: Vec<String>)
    ensures
        strings_view(r@) == phase_lines(*p),
{
    let ghost rows = Seq::new(
        p.phases@.len(),
        |i: int|
            marker(p.current_phase == Some(i as usize)) + " "@ + p.phases@[i].symbol@ + " "@
                + p.phases@[i].name@,
    );
    let mut lines: Vec<String> = Vec::new();
    push_line(&mut lines, "Execution steps:");
    let mut i: usize = 0;
    while i < p.phases.len()
        invariant
            i <= p.phases.len(),
            rows == Seq::new(
                p.phases@.len(),
                |i: int|
                    marker(p.current_phase == Some(i as usize)) + " "@ + p.phases@[i].symbol@
                        + " "@ + p.phases@[i].name@,
            ),
            strings_view(lines@) == seq!["Execution steps:"@] + rows.take(i as int),
        decreases p.phases.len() - i,
    {
        let m = if p.current_phase == Some(i) {
            "▶"
        } else {
            " "
        };
        let mut line = concat3(m, " ", p.phases[i].symbol.as_str());
        push_str(&mut line, " ");
        push_str(&mut line, p.phases[i].name.as_str());
        push_string(&mut lines, line);
        assert(rows.take(i + 1) =~= rows.take(i as int).push(rows[i as int]));
        i += 1;
    }
    assert(rows.take(p.phases.len() as int) =~= rows);
    lines
}

/// `<symbol> Phase <n>/<total>: <name>`, or a wait note without telemetry.
pub open spec fn phase_line_text(p: ProgressView) -> Seq<char> {
    match p.current_phase {
        Some(i) => if i < p.phases@.len() {
            p.phases@[i as int].symbol@ + " Phase "@ + dec_digits((i + 1) as nat) + "/"@
                + dec_digits(p.phases@.len()) + ": "@ + p.phases@[i as int].name@
        } else {
            "⏳ Phase: waiting for telemetry..."@
        },
        None => "⏳ Phase: waiting for telemetry..."@,
    }
}

pub fn phase_line(p: &ProgressView) -> (r: String)
    ensures
        r@ == phase_line_text(*p),
{
    match p.current_phase {
        Some(i) => if i < p.phases.len() {
            let mut r = concat2(p.phases[i].symbol.as_str(), " Phase ");
            let n = i as u64 + 1;
            push_str(&mut r, u64_to_string(n).as_str());
            push_str(&mut r, "/");
            push_str(&mut r, u64_to_string(p.phases.len() as u64).as_str());
            push_str(&mut r, ": ");
            push_str(&mut r, p.phases[i].name.as_str());
            r
        } else {
            String::from_str("⏳ Phase: waiting for telemetry...")
        },
        None => String::from_str("⏳ Phase: waiting for telemetry..."),
    }
}

/// The copy speed where there is one, else the disk speed, else a wait note.
pub open spec fn speed_text(p: ProgressView) -> Seq<char> {
    match p.rsync_speed {
        Some(s) => "🚀 Speed: "@ + s@ + " MB/s"@,
        None => match p.disk_io_speed {
            Some(s) => "💽 Disk: "@ + s@ + " MB/s"@,
            None => "💤 Speed: waiting..."@,
        },
    }
}

/// The telemetry block of a step dump.
pub open spec fn progress_detail_text(
    p: ProgressView,
    phase: Seq<char>,
    overall: Seq<char>,
    eta: Seq<char>,
) -> Seq<char> {
    phase + "\n"@ + overall + " | "@ + eta + " | "@ + speed_text(p)
}

pub fn progress_detail(p: &ProgressView, phase: &str, overall: &str, eta: &str) -> (r: String)
    ensures
        r@ == progress_detail_text(*p, phase@, overall@, eta@),
{
    let speed = match &p.rsync_speed {
        Some(s) => concat3("🚀 Speed: ", s.as_str(), " MB/s"),
        None => match &p.disk_io_speed {
            Some(s) => concat3("💽 Disk: ", s.as_str(), " MB/s"),
            None => String::from_str("💤 Speed: waiting..."),
        },
    };
    let mut r = concat3(phase, "\n", overall);
    push_str(&mut r, " | ");
    push_str(&mut r, eta);
    push_str(&mut r, " | ");
    push_str(&mut r, speed.as_str());
    r
}

// ---------------------------------------------------------------------------
// Option lists of the steps
// ---------------------------------------------------------------------------

pub open spec fn disk_entries(v: AppView, c: ScreenContext) -> Seq<Seq<char>> {
    Seq::new(v.disks.len(), |i: int| disk_entry(v.disks[i], identity_at(c, i)))
}

fn disk_entry_list(app: &App, c: &ScreenContext) -> (r: Vec<String>)
    ensures
        strings_view(r@) == disk_entries(app@, *c),
{
    proof {
        lemma_view(*app);
    }
    let ghost want = disk_entries(app@, *c);
    let mut out: Vec<String> = Vec::new();
    let mut i: usize = 0;
    while i < app.disks.len()
        invariant
            i <= app.disks.len(),
            want == disk_entries(app@, *c),
            want.len() == app.disks.len(),
            strings_view(out@) == want.take(i as int),
        decreases app.disks.len() - i,
    {
        proof {
            lemma_view(*app);
        }
        let e = format_disk_entry(&app.disks[i], identity_of(c, i));
        push_string(&mut out, e);
        assert(want.take(i + 1) =~= want.take(i as int).push(want[i as int]));
        i += 1;
    }
    assert(want.take(app.disks.len() as int) =~= want);
    out
}

pub open spec fn scheme_choices(v: AppView) -> Seq<Seq<char>> {
    Seq::new(v.partition_schemes.len(), |i: int| scheme_choice(v.partition_schemes[i]))
}

fn scheme_choice_list(app: &App) -> (r: Vec<String>)
    ensures
        strings_view(r@) == scheme_choices(app@),
{
    proof {
        lemma_view(*app);
    }
    let ghost want = scheme_choices(app@);
    let mut out: Vec<String> = Vec::new();
    let mut i: usize = 0;
    while i < app.partition_schemes.len()
        invariant
            i <= app.partition_schemes.len(),
            want == scheme_choices(app@),
            want.len() == app.partition_schemes.len(),
            strings_view(out@) == want.take(i as int),
        decreases app.partition_schemes.len() - i,
    {
        proof {
            lemma_view(*app);
        }
        push_line(&mut out, format_partition_scheme(app.partition_schemes[i]));
        assert(want.take(i + 1) =~= want.take(i as int).push(want[i as int]));
        i += 1;
    }
    assert(want.take(app.partition_schemes.len() as int) =~= want);
    out
}

/// How the layout at position `i` is offered: the two defaults by name,
/// others by number.
pub open spec fn layout_label(i: int) -> Seq<char> {
    if i == 0 {
        "Default A (recommended) — Large ROOT for desktop workstation"@
    } else if i == 1 {
        "Default B (minimal) — Compact ROOT for embedded/testing"@
    } else {
        "Layout "@ + dec_digits((i + 1) as nat)
    }
}

pub open spec fn layout_labels(v: AppView) -> Seq<Seq<char>> {
    Seq::new(v.partition_layouts.len(), |i: int| layout_label(i))
}

fn layout_label_list(app: &App) -> (r: Vec<String>)
    ensures
        strings_view(r@) == layout_labels(app@),
{
    proof {
        lemma_view(*app);
    }
    let ghost want = layout_labels(app@);
    let mut out: Vec<String> = Vec::new();
    let mut i: usize = 0;
    while i < app.partition_layouts.len()
        invariant
            i <= app.partition_layouts.len(),
            want == layout_labels(app@),
            want.len() == app.partition_layouts.len(),
            strings_view(out@) == want.take(i as int),
        decreases app.partition_layouts.len() - i,
    {
        if i == 0 {
            push_line(&mut out, "Default A (recommended) — Large ROOT for desktop workstation");
        } else if i == 1 {
            push_line(&mut out, "Default B (minimal) — Compact ROOT for embedded/testing");
        } else {
            let n = i as u64 + 1;
            push_string(&mut out, concat2("Layout ", u64_to_string(n).as_str()));
        }
        assert(want.take(i + 1) =~= want.take(i as int).push(want[i as int]));
        i += 1;
    }
    assert(want.take(app.partition_layouts.len() as int) =~= want);
    out
}

/// The size field that the customisation entry at position `i` edits.
pub open spec fn field_at(i: int) -> Option<CustomizeField> {
    if i == 0 {
        Some(CustomizeField::Efi)
    } else if i == 1 {
        Some(CustomizeField::Boot)
    } else if i == 2 {
        Some(CustomizeField::Root)
    } else {
        None
    }
}

/// A customisation entry, marked where the last error concerns its field.
pub open spec fn customize_label(v: AppView, i: int) -> Seq<char> {
    if field_at(i) is Some && v.customize_error_field == field_at(i) {
        "❌ "@ + v.partition_customizations[i]
    } else {
        v.partition_customizations[i]
    }
}

pub open spec fn customize_labels(v: AppView) -> Seq<Seq<char>> {
    Seq::new(v.partition_customizations.len(), |i: int| customize_label(v, i))
}

fn customize_label_list(app: &App) -> (r: Vec<String>)
    ensures
        strings_view(r@) == customize_labels(app@),
{
    proof {
        lemma_view(*app);
    }
    let ghost want = customize_labels(app@);
    let mut out: Vec<String> = Vec::new();
    let mut i: usize = 0;
    while i < app.partition_customizations.len()
        invariant
            i <= app.partition_customizations.len(),
            want == customize_labels(app@),
            want.len() == app.partition_customizations.len(),
            strings_view(out@) == want.take(i as int),
        decreases app.partition_customizations.len() - i,
    {
        proof {
            lemma_view(*app);
        }
        let field = if i == 0 {
            Some(CustomizeField::Efi)
        } else if i == 1 {
            Some(CustomizeField::Boot)
        } else if i == 2 {
            Some(CustomizeField::Root)
        } else {
            None
        };
        let option = &app.partition_customizations[i];
        if field.is_some() && app.customize_error_field == field {
            push_string(&mut out, concat2("❌ ", option.as_str()));
        } else {
            push_string(&mut out, option.clone());
        }
        assert(want.take(i + 1) =~= want.take(i as int).push(want[i as int]));
        i += 1;
    }
    assert(want.take(app.partition_customizations.len() as int) =~= want);
    out
}

pub open spec fn source_labels(v: AppView) -> Seq<Seq<char>> {
    Seq::new(v.image_sources.len(), |i: int| v.image_sources[i].label@)
}

fn source_label_list(app: &App) -> (r: Vec<String>)
    ensures
        strings_view(r@) == source_labels(app@),
{
    proof {
        lemma_view(*app);
    }
    let ghost want = source_labels(app@);
    let mut out: Vec<String> = Vec::new();
    let mut i: usize = 0;
    while i < app.image_sources.len()
        invariant
            i <= app.image_sources.len(),
            want == source_labels(app@),
            want.len() == app.image_sources.len(),
            strings_view(out@) == want.take(i as int),
        decreases app.image_sources.len() - i,
    {
        proof {
            lemma_view(*app);
        }
        push_string(&mut out, app.image_sources[i].label.clone());
        assert(want.take(i + 1) =~= want.take(i as int).push(want[i as int]));
        i += 1;
    }
    assert(want.take(app.image_sources.len() as int) =~= want);
    out
}

pub open spec fn distro_labels(v: AppView) -> Seq<Seq<char>> {
    Seq::new(v.os_distros.len(), |i: int| distro_display(v.os_distros[i]))
}

fn distro_label_list(app: &App) -> (r: Vec<String>)
    ensures
        strings_view(r@) == distro_labels(app@),
{
    proof {
        lemma_view(*app);
    }
    let ghost want = distro_labels(app@);
    let mut out: Vec<String> = Vec::new();
    let mut i: usize = 0;
    while i < app.os_distros.len()
        invariant
            i <= app.os_distros.len(),
            want == distro_labels(app@),
            want.len() == app.os_distros.len(),
            strings_view(out@) == want.take(i as int),
        decreases app.os_distros.len() - i,
    {
        proof {
            lemma_view(*app);
        }
        push_line(&mut out, app.os_distros[i].display());
        assert(want.take(i + 1) =~= want.take(i as int).push(want[i as int]));
        i += 1;
    }
    assert(want.take(app.os_distros.len() as int) =~= want);
    out
}

pub open spec fn variant_labels(v: AppView) -> Seq<Seq<char>> {
    Seq::new(v.os_variants.len(), |i: int| v.os_variants[i].1)
}

fn variant_label_list(app: &App) -> (r: Vec<String>)
    ensures
        strings_view(r@) == variant_labels(app@),
{
    proof {
        lemma_view(*app);
    }
    let ghost want = variant_labels(app@);
    let mut out: Vec<String> = Vec::new();
    let mut i: usize = 0;
    while i < app.os_variants.len()
        invariant
            i <= app.os_variants.len(),
            want == variant_labels(app@),
            want.len() == app.os_variants.len(),
            strings_view(out@) == want.take(i as int),
        decreases app.os_variants.len() - i,
    {
        proof {
            lemma_view(*app);
        }
        push_string(&mut out, app.os_variants[i].label.clone());
        assert(want.take(i + 1) =~= want.take(i as int).push(want[i as int]));
        i += 1;
    }
    assert(want.take(app.os_variants.len() as int) =~= want);
    out
}

pub open spec fn efi_labels(v: AppView, c: ScreenContext) -> Seq<Seq<char>> {
    Seq::new(v.uefi_sources.len(), |i: int| efi_name(c, v.uefi_sources[i]))
}

fn efi_label_list(app: &App, c: &ScreenContext) -> (r: Vec<String>)
    ensures
        strings_view(r@) == efi_labels(app@, *c),
{
    proof {
        lemma_view(*app);
    }
    let ghost want = efi_labels(app@, *c);
    let mut out: Vec<String> = Vec::new();
    let mut i: usize = 0;
    while i < app.uefi_sources.len()
        invariant
            i <= app.uefi_sources.len(),
            want == efi_labels(app@, *c),
            want.len() == app.uefi_sources.len(),
            strings_view(out@) == want.take(i as int),
        decreases app.uefi_sources.len() - i,
    {
        proof {
            lemma_view(*app);
        }
        let name = match app.uefi_sources[i] {
            EfiSource::DownloadEfiImage => c.efi_download_name.clone(),
            EfiSource::LocalEfiImage => c.efi_local_name.clone(),
        };
        push_string(&mut out, name);
        assert(want.take(i + 1) =~= want.take(i as int).push(want[i as int]));
        i += 1;
    }
    assert(want.take(app.uefi_sources.len() as int) =~= want);
    out
}

/// `[x] label` for an enabled option, `[ ] label` otherwise.
pub open spec fn toggle_labels(v: AppView) -> Seq<Seq<char>> {
    Seq::new(
        v.options.len(),
        |i: int|
            (if v.options[i].enabled {
                "[x] "@
            } else {
                "[ ] "@
            }) + v.options[i].label@,
    )
}

fn toggle_label_list(app: &App) -> (r: Vec<String>)
    ensures
        strings_view(r@) == toggle_labels(app@),
{
    proof {
        lemma_view(*app);
    }
    let ghost want = toggle_labels(app@);
    let mut out: Vec<String> = Vec::new();
    let mut i: usize = 0;
    while i < app.options.len()
        invariant
            i <= app.options.len(),
            want == toggle_labels(app@),
            want.len() == app.options.len(),
            strings_view(out@) == want.take(i as int),
        decreases app.options.len() - i,
    {
        proof {
            lemma_view(*app);
        }
        let b = if app.options[i].enabled {
            "[x] "
        } else {
            "[ ] "
        };
        push_string(&mut out, concat2(b, app.options[i].label.as_str()));
        assert(want.take(i + 1) =~= want.take(i as int).push(want[i as int]));
        i += 1;
    }
    assert(want.take(app.options.len() as int) =~= want);
    out
}

fn fixed_list(a: &str, b: &str) -> (r: Vec<String>)
    ensures
        strings_view(r@) == seq![a@, b@],
{
    let mut out: Vec<String> = Vec::new();
    push_line(&mut out, a);
    push_line(&mut out, b);
    assert(strings_view(out@) =~= seq![a@, b@]);
    out
}

fn single_list(a: &str) -> (r: Vec<String>)
    ensures
        strings_view(r@) == seq![a@],
{
    let mut out: Vec<String> = Vec::new();
    push_line(&mut out, a);
    assert(strings_view(out@) =~= seq![a@]);
    out
}

// ---------------------------------------------------------------------------
// The body of each step
// ---------------------------------------------------------------------------

/// The lines followed by the error message, if there is one.
pub open spec fn with_error(s: Seq<Seq<char>>, e: Option<Seq<char>>) -> Seq<Seq<char>> {
    match e {
        Some(m) => s.push("❌ "@ + m),
        None => s,
    }
}

fn push_error(items: &mut Vec<String>, app: &App)
    ensures
        strings_view(final(items)@) == with_error(strings_view(old(items)@), app@.error_message),
{
    proof {
        lemma_view(*app);
    }
    match &app.error_message {
        Some(e) => push_string(items, concat2("❌ ", e.as_str())),
        None => {},
    }
}

pub open spec fn welcome_body(v: AppView) -> Seq<Seq<char>> {
    seq![
        "👋 Welcome to MASH: a safe, guided installer."@,
        ""@,
        "🛡️ Safety: No disks will be modified unless the installer is ARMED."@,
        "Current state: "@ + if v.destructive_armed {
            "🔴 ARMED (writes enabled)"@
        } else {
            "🟢 SAFE (disarmed — read-only)"@
        },
        ""@,
        "⌨️ Keys:"@,
        "  Enter — Proceed to OS selection"@,
        "  q — Quit installer"@,
    ] + option_lines(strings_view(v.welcome_options), v.welcome_index as int)
}

fn welcome_lines(app: &App) -> (r: Vec<String>)
    ensures
        strings_view(r@) == welcome_body(app@),
{
    proof {
        lemma_view(*app);
    }
    let mut out: Vec<String> = Vec::new();
    push_line(&mut out, "👋 Welcome to MASH: a safe, guided installer.");
    push_line(&mut out, "");
    push_line(&mut out, "🛡️ Safety: No disks will be modified unless the installer is ARMED.");
    let state = if app.destructive_armed {
        "🔴 ARMED (writes enabled)"
    } else {
        "🟢 SAFE (disarmed — read-only)"
    };
    push_string(&mut out, concat2("Current state: ", state));
    push_line(&mut out, "");
    push_line(&mut out, "⌨️ Keys:");
    push_line(&mut out, "  Enter — Proceed to OS selection");
    push_line(&mut out, "  q — Quit installer");
    assert(strings_view(out@) =~= seq![
        "👋 Welcome to MASH: a safe, guided installer."@,
        ""@,
        "🛡️ Safety: No disks will be modified unless the installer is ARMED."@,
        "Current state: "@ + state@,
        ""@,
        "⌨️ Keys:"@,
        "  Enter — Proceed to OS selection"@,
        "  q — Quit installer"@,
    ]);
    push_options(&mut out, &app.welcome_options, app.welcome_index);
    out
}

/// Whether boot-device detection failed for some disk.
pub open spec fn has_unknown_boot(d: Seq<DiskOption>) -> bool {
    exists|i: int| 0 <= i < d.len() && #[trigger] d[i].boot_confidence == BootConfidence::Unknown
}

fn any_unknown_boot(disks: &Vec<DiskOption>) -> (r: bool)
    ensures
        r == has_unknown_boot(disks@),
{
    let mut i: usize = 0;
    while i < disks.len()
        invariant
            i <= disks.len(),
            forall|j: int| 0 <= j < i ==> #[trigger] disks@[j].boot_confidence != BootConfidence::Unknown,
        decreases disks.len() - i,
    {
        if disks[i].boot_confidence == BootConfidence::Unknown {
            assert(disks@[i as int].boot_confidence == BootConfidence::Unknown);
            return true;
        }
        i += 1;
    }
    false
}

pub open spec fn disk_selection_body(v: AppView, c: ScreenContext) -> Seq<Seq<char>> {
    let a = seq![
        "💽 Select a target disk:"@,
        ""@,
        "⌨️ Keys:"@,
        "  ↑/↓ or Tab — Move selection up/down"@,
        "  Enter — Confirm disk choice"@,
        "  r — Refresh disk list"@,
        "  Esc — Go back to previous step"@,
        "  q — Quit installer"@,
        ""@,
    ];
    let b = if has_unknown_boot(v.disks) {
        a + seq![
            ""@,
            "⚠️ WARNING: Boot device detection failed!"@,
            "Boot disk tags may be UNVERIFIED. Proceed with caution."@,
            ""@,
        ]
    } else {
        a
    };
    let d = if v.disks.len() == 0 {
        b.push("No disks detected. Press r to refresh."@)
    } else {
        b
    };
    let e = d + option_lines(disk_entries(v, c), v.disk_index as int);
    match entry(v.disks, v.disk_index as int) {
        Some(disk) => if disk_protected(disk) {
            e + seq![
                ""@,
                "🛑 PROTECTED MEDIA selected."@,
                if v.developer_mode {
                    "Developer mode is ON: you may proceed, but confirmation will require 'DESTROY BOOT DISK'."@
                } else {
                    "This disk cannot be selected. Re-run with --developer-mode to override (dangerous)."@
                },
            ]
        } else {
            e
        },
        None => e,
    }
}

fn disk_selection_lines(app: &App, c: &ScreenContext) -> (r: Vec<String>)
    ensures
        strings_view(r@) == disk_selection_body(app@, *c),
{
    proof {
        lemma_view(*app);
    }
    let mut out: Vec<String> = Vec::new();
    push_line(&mut out, "💽 Select a target disk:");
    push_line(&mut out, "");
    push_line(&mut out, "⌨️ Keys:");
    push_line(&mut out, "  ↑/↓ or Tab — Move selection up/down");
    push_line(&mut out, "  Enter — Confirm disk choice");
    push_line(&mut out, "  r — Refresh disk list");
    push_line(&mut out, "  Esc — Go back to previous step");
    push_line(&mut out, "  q — Quit installer");
    push_line(&mut out, "");
    let ghost a = strings_view(out@);
    assert(a =~= seq![
        "💽 Select a target disk:"@,
        ""@,
        "⌨️ Keys:"@,
        "  ↑/↓ or Tab — Move selection up/down"@,
        "  Enter — Confirm disk choice"@,
        "  r — Refresh disk list"@,
        "  Esc — Go back to previous step"@,
        "  q — Quit installer"@,
        ""@,
    ]);
    if any_unknown_boot(&app.disks) {
        push_line(&mut out, "");
        push_line(&mut out, "⚠️ WARNING: Boot device detection failed!");
        push_line(&mut out, "Boot disk tags may be UNVERIFIED. Proceed with caution.");
        push_line(&mut out, "");
        assert(strings_view(out@) =~= a + seq![
            ""@,
            "⚠️ WARNING: Boot device detection failed!"@,
            "Boot disk tags may be UNVERIFIED. Proceed with caution."@,
            ""@,
        ]);
    }
    if app.disks.len() == 0 {
        push_line(&mut out, "No disks detected. Press r to refresh.");
    }
    let entries = disk_entry_list(app, c);
    push_options(&mut out, &entries, app.disk_index);
    let ghost e = strings_view(out@);
    if app.disk_index < app.disks.len() {
        if is_protected(&app.disks[app.disk_index]) {
            push_line(&mut out, "");
            push_line(&mut out, "🛑 PROTECTED MEDIA selected.");
            if app.developer_mode {
                push_line(
                    &mut out,
                    "Developer mode is ON: you may proceed, but confirmation will require 'DESTROY BOOT DISK'.",
                );
            } else {
                push_line(
                    &mut out,
                    "This disk cannot be selected. Re-run with --developer-mode to override (dangerous).",
                );
            }
            assert(strings_view(out@) =~= e + seq![
                ""@,
                "🛑 PROTECTED MEDIA selected."@,
                if app.developer_mode {
                    "Developer mode is ON: you may proceed, but confirmation will require 'DESTROY BOOT DISK'."@
                } else {
                    "This disk cannot be selected. Re-run with --developer-mode to override (dangerous)."@
                },
            ]);
        }
    }
    out
}

pub open spec fn disk_confirmation_body(v: AppView, c: ScreenContext) -> Seq<Seq<char>> {
    match entry(v.disks, v.disk_index as int) {
        Some(d) => match identity_at(c, v.disk_index as int) {
            None => seq![
                "❌ IDENTITY FAILED - Cannot proceed"@,
                "Disk identity could not be resolved."@,
                "Press Esc to go back and select a different disk."@,
            ],
            Some(info) => {
                let a = if disk_protected(d) {
                    seq![
                        "⚠️⚠️⚠️ CRITICAL WARNING: BOOT DISK SELECTED ⚠️⚠️⚠️"@,
                        ""@,
                        "You are about to DESTROY the disk your system is running from!"@,
                        "This will make your system UNBOOTABLE and cause DATA LOSS!"@,
                        ""@,
                        "BOOT DEVICE TO BE WIPED: "@ + d.path@ + " ("@ + info + ")"@,
                        ""@,
                        "Type 'DESTROY BOOT DISK' to confirm • Esc to go back."@,
                    ]
                } else {
                    seq![
                        "⚠️ Confirm disk destruction:"@,
                        ""@,
                        "TARGET TO BE WIPED: "@ + d.path@ + " ("@ + info + ")"@,
                        ""@,
                        "⌨️ Keys:"@,
                        "  Type DESTROY (exactly) — Confirm and proceed"@,
                        "  Esc — Cancel and go back"@,
                        ""@,
                    ]
                };
                with_error(a.push("Input: "@ + v.wipe_confirmation), v.error_message)
            },
        },
        None => with_error(seq!["No disk selected."@], v.error_message),
    }
}

fn disk_confirmation_lines(app: &App, c: &ScreenContext) -> (r: Vec<String>)
    ensures
        strings_view(r@) == disk_confirmation_body(app@, *c),
{
    proof {
        lemma_view(*app);
    }
    let mut out: Vec<String> = Vec::new();
    if app.disk_index < app.disks.len() {
        let disk = &app.disks[app.disk_index];
        match identity_of(c, app.disk_index) {
            None => {
                push_line(&mut out, "❌ IDENTITY FAILED - Cannot proceed");
                push_line(&mut out, "Disk identity could not be resolved.");
                push_line(&mut out, "Press Esc to go back and select a different disk.");
                assert(strings_view(out@) =~= seq![
                    "❌ IDENTITY FAILED - Cannot proceed"@,
                    "Disk identity could not be resolved."@,
                    "Press Esc to go back and select a different disk."@,
                ]);
                return out;
            },
            Some(info) => {
                let mut target = concat3(disk.path.as_str(), " (", info.as_str());
                push_str(&mut target, ")");
                assert("BOOT DEVICE TO BE WIPED: "@ + target@ =~= "BOOT DEVICE TO BE WIPED: "@ + disk.path@
                    + " ("@ + info@ + ")"@);
                assert("TARGET TO BE WIPED: "@ + target@ =~= "TARGET TO BE WIPED: "@ + disk.path@ + " ("@
                    + info@ + ")"@);
                if is_protected(disk) {
                    push_line(&mut out, "⚠️⚠️⚠️ CRITICAL WARNING: BOOT DISK SELECTED ⚠️⚠️⚠️");
                    push_line(&mut out, "");
                    push_line(&mut out, "You are about to DESTROY the disk your system is running from!");
                    push_line(&mut out, "This will make your system UNBOOTABLE and cause DATA LOSS!");
                    push_line(&mut out, "");
                    push_string(&mut out, concat2("BOOT DEVICE TO BE WIPED: ", target.as_str()));
                    push_line(&mut out, "");
                    push_line(&mut out, "Type 'DESTROY BOOT DISK' to confirm • Esc to go back.");
                    assert(strings_view(out@) =~= seq![
                        "⚠️⚠️⚠️ CRITICAL WARNING: BOOT DISK SELECTED ⚠️⚠️⚠️"@,
                        ""@,
                        "You are about to DESTROY the disk your system is running from!"@,
                        "This will make your system UNBOOTABLE and cause DATA LOSS!"@,
                        ""@,
                        "BOOT DEVICE TO BE WIPED: "@ + disk.path@ + " ("@ + info@ + ")"@,
                        ""@,
                        "Type 'DESTROY BOOT DISK' to confirm • Esc to go back."@,
                    ]);
                } else {
                    push_line(&mut out, "⚠️ Confirm disk destruction:");
                    push_line(&mut out, "");
                    push_string(&mut out, concat2("TARGET TO BE WIPED: ", target.as_str()));
                    push_line(&mut out, "");
                    push_line(&mut out, "⌨️ Keys:");
                    push_line(&mut out, "  Type DESTROY (exactly) — Confirm and proceed");
                    push_line(&mut out, "  Esc — Cancel and go back");
                    push_line(&mut out, "");
                    assert(strings_view(out@) =~= seq![
                        "⚠️ Confirm disk destruction:"@,
                        ""@,
                        "TARGET TO BE WIPED: "@ + disk.path@ + " ("@ + info@ + ")"@,
                        ""@,
                        "⌨️ Keys:"@,
                        "  Type DESTROY (exactly) — Confirm and proceed"@,
                        "  Esc — Cancel and go back"@,
                        ""@,
                    ]);
                }
                push_string(&mut out, concat2("Input: ", app.wipe_confirmation.as_str()));
            },
        }
    } else {
        push_line(&mut out, "No disk selected.");
        assert(strings_view(out@) =~= seq!["No disk selected."@]);
    }
    push_error(&mut out, app);
    out
}

pub open spec fn backup_body(v: AppView) -> Seq<Seq<char>> {
    let a = seq![
        "⚠️ This will erase data on the selected disk."@,
        "💾 Have you backed up your data? (Y/N)"@,
    ];
    let b = if v.backup_confirmed {
        a.push("✅ Backup confirmed."@)
    } else {
        a
    };
    b + option_lines(seq!["No, go back"@, "Yes, I have a backup"@], v.backup_choice_index as int)
}

fn backup_lines(app: &App) -> (r: Vec<String>)
    ensures
        strings_view(r@) == backup_body(app@),
{
    proof {
        lemma_view(*app);
    }
    let mut out: Vec<String> = Vec::new();
    push_line(&mut out, "⚠️ This will erase data on the selected disk.");
    push_line(&mut out, "💾 Have you backed up your data? (Y/N)");
    assert(strings_view(out@) =~= seq![
        "⚠️ This will erase data on the selected disk."@,
        "💾 Have you backed up your data? (Y/N)"@,
    ]);
    if app.backup_confirmed {
        push_line(&mut out, "✅ Backup confirmed.");
    }
    let opts = fixed_list("No, go back", "Yes, I have a backup");
    push_options(&mut out, &opts, app.backup_choice_index);
    out
}

pub open spec fn scheme_body(v: AppView) -> Seq<Seq<char>> {
    seq![
        "🧩 Select a partition scheme:"@,
        ""@,
        "MBR: Compatible with older systems, simpler structure"@,
        "GPT: Modern standard, supports larger disks, UEFI-oriented"@,
        ""@,
        "⌨️ Keys:"@,
        "  ↑/↓ or Tab — Switch between MBR and GPT"@,
        "  Enter — Confirm choice"@,
        "  Esc — Go back"@,
    ] + option_lines(scheme_choices(v), v.scheme_index as int)
}

fn scheme_lines(app: &App) -> (r: Vec<String>)
    ensures
        strings_view(r@) == scheme_body(app@),
{
    proof {
        lemma_view(*app);
    }
    let mut out: Vec<String> = Vec::new();
    push_line(&mut out, "🧩 Select a partition scheme:");
    push_line(&mut out, "");
    push_line(&mut out, "MBR: Compatible with older systems, simpler structure");
    push_line(&mut out, "GPT: Modern standard, supports larger disks, UEFI-oriented");
    push_line(&mut out, "");
    push_line(&mut out, "⌨️ Keys:");
    push_line(&mut out, "  ↑/↓ or Tab — Switch between MBR and GPT");
    push_line(&mut out, "  Enter — Confirm choice");
    push_line(&mut out, "  Esc — Go back");
    assert(strings_view(out@) =~= seq![
        "🧩 Select a partition scheme:"@,
        ""@,
        "MBR: Compatible with older systems, simpler structure"@,
        "GPT: Modern standard, supports larger disks, UEFI-oriented"@,
        ""@,
        "⌨️ Keys:"@,
        "  ↑/↓ or Tab — Switch between MBR and GPT"@,
        "  Enter — Confirm choice"@,
        "  Esc — Go back"@,
    ]);
    let opts = scheme_choice_list(app);
    push_options(&mut out, &opts, app.scheme_index);
    out
}

pub open spec fn layout_body(v: AppView) -> Seq<Seq<char>> {
    let a = seq![
        "📐 Partition Layout:"@,
        ""@,
        "Pick a default layout or customize manually:"@,
        ""@,
    ] + option_lines(layout_labels(v), v.layout_index as int);
    let b = match entry(v.partition_layouts, v.layout_index as int) {
        Some(l) => a + seq![""@, "Partition details:"@] + layout_preview(l@),
        None => a,
    };
    b + seq![
        ""@,
        "⌨️ ↑/↓ or Tab to choose • Enter or Y to accept • M to customize manually • Esc to go back"@,
    ]
}

fn layout_lines(app: &App) -> (r: Vec<String>)
    ensures
        strings_view(r@) == layout_body(app@),
{
    proof {
        lemma_view(*app);
    }
    let mut out: Vec<String> = Vec::new();
    push_line(&mut out, "📐 Partition Layout:");
    push_line(&mut out, "");
    push_line(&mut out, "Pick a default layout or customize manually:");
    push_line(&mut out, "");
    assert(strings_view(out@) =~= seq![
        "📐 Partition Layout:"@,
        ""@,
        "Pick a default layout or customize manually:"@,
        ""@,
    ]);
    let opts = layout_label_list(app);
    push_options(&mut out, &opts, app.layout_index);
    let ghost a = strings_view(out@);
    if app.layout_index < app.partition_layouts.len() {
        push_line(&mut out, "");
        push_line(&mut out, "Partition details:");
        let preview = format_layout_preview(app.partition_layouts[app.layout_index].as_str());
        let ghost mid = strings_view(out@);
        let mut k: usize = 0;
        while k < preview.len()
            invariant
                k <= preview.len(),
                strings_view(out@) == mid + strings_view(preview@).take(k as int),
            decreases preview.len() - k,
        {
            push_string(&mut out, preview[k].clone());
            assert(strings_view(preview@).take(k + 1) =~= strings_view(preview@).take(k as int).push(
                preview@[k as int]@,
            ));
            k += 1;
        }
        assert(strings_view(preview@).take(preview.len() as int) =~= strings_view(preview@));
        assert(mid =~= a + seq![""@, "Partition details:"@]);
    }
    let ghost b = strings_view(out@);
    push_line(&mut out, "");
    push_line(
        &mut out,
        "⌨️ ↑/↓ or Tab to choose • Enter or Y to accept • M to customize manually • Esc to go back",
    );
    assert(strings_view(out@) =~= b + seq![
        ""@,
        "⌨️ ↑/↓ or Tab to choose • Enter or Y to accept • M to customize manually • Esc to go back"@,
    ]);
    out
}

pub open spec fn customize_body(v: AppView) -> Seq<Seq<char>> {
    with_error(
        seq![
            "🛠️ Customize partitions:"@,
            "Use Tab/↑/↓ to select • Type to edit • Backspace to delete • R to reset • Enter."@,
        ] + option_lines(customize_labels(v), v.customize_index as int),
        v.error_message,
    )
}

fn customize_lines(app: &App) -> (r: Vec<String>)
    ensures
        strings_view(r@) == customize_body(app@),
{
    proof {
        lemma_view(*app);
    }
    let mut out: Vec<String> = Vec::new();
    push_line(&mut out, "🛠️ Customize partitions:");
    push_line(&mut out, "Use Tab/↑/↓ to select • Type to edit • Backspace to delete • R to reset • Enter.");
    assert(strings_view(out@) =~= seq![
        "🛠️ Customize partitions:"@,
        "Use Tab/↑/↓ to select • Type to edit • Backspace to delete • R to reset • Enter."@,
    ]);
    let opts = customize_label_list(app);
    push_options(&mut out, &opts, app.customize_index);
    push_error(&mut out, app);
    out
}

pub open spec fn download_source_body(v: AppView) -> Seq<Seq<char>> {
    let a = seq![
        "📥 Select image source:"@,
        "Use ↑/↓ or Tab to choose • Enter to continue • Esc to go back."@,
    ] + option_lines(source_labels(v), v.image_source_index as int);
    match entry(v.image_sources, v.image_source_index as int) {
        Some(src) => if src.value == ImageSource::LocalFile {
            a + seq!["Local image path:"@, v.image_source_path]
        } else {
            a
        },
        None => a,
    }
}

fn download_source_lines(app: &App) -> (r: Vec<String>)
    ensures
        strings_view(r@) == download_source_body(app@),
{
    proof {
        lemma_view(*app);
    }
    let mut out: Vec<String> = Vec::new();
    push_line(&mut out, "📥 Select image source:");
    push_line(&mut out, "Use ↑/↓ or Tab to choose • Enter to continue • Esc to go back.");
    assert(strings_view(out@) =~= seq![
        "📥 Select image source:"@,
        "Use ↑/↓ or Tab to choose • Enter to continue • Esc to go back."@,
    ]);
    let opts = source_label_list(app);
    push_options(&mut out, &opts, app.image_source_index);
    let ghost a = strings_view(out@);
    if app.image_source_index < app.image_sources.len() {
        if app.image_sources[app.image_source_index].value == ImageSource::LocalFile {
            push_line(&mut out, "Local image path:");
            push_string(&mut out, app.image_source_path.clone());
            assert(strings_view(out@) =~= a + seq!["Local image path:"@, app.image_source_path@]);
        }
    }
    out
}

pub open spec fn image_selection_body(v: AppView) -> Seq<Seq<char>> {
    seq![
        "🖼️ Select OS distribution:"@,
        ""@,
        "⌨️ Keys:"@,
        "  ↑/↓ or Tab — Move between OS options"@,
        "  Enter — Confirm OS choice"@,
        "  Esc — Go back"@,
        ""@,
    ] + option_lines(distro_labels(v), v.os_distro_index as int) + seq![
        ""@,
        "Next: pick a variant (server/desktop/etc)."@,
    ]
}

fn image_selection_lines(app: &App) -> (r: Vec<String>)
    ensures
        strings_view(r@) == image_selection_body(app@),
{
    proof {
        lemma_view(*app);
    }
    let mut out: Vec<String> = Vec::new();
    push_line(&mut out, "🖼️ Select OS distribution:");
    push_line(&mut out, "");
    push_line(&mut out, "⌨️ Keys:");
    push_line(&mut out, "  ↑/↓ or Tab — Move between OS options");
    push_line(&mut out, "  Enter — Confirm OS choice");
    push_line(&mut out, "  Esc — Go back");
    push_line(&mut out, "");
    assert(strings_view(out@) =~= seq![
        "🖼️ Select OS distribution:"@,
        ""@,
        "⌨️ Keys:"@,
        "  ↑/↓ or Tab — Move between OS options"@,
        "  Enter — Confirm OS choice"@,
        "  Esc — Go back"@,
        ""@,
    ]);
    let opts = distro_label_list(app);
    push_options(&mut out, &opts, app.os_distro_index);
    let ghost a = strings_view(out@);
    push_line(&mut out, "");
    push_line(&mut out, "Next: pick a variant (server/desktop/etc).");
    assert(strings_view(out@) =~= a + seq![""@, "Next: pick a variant (server/desktop/etc)."@]);
    out
}

pub open spec fn variant_body(v: AppView) -> Seq<Seq<char>> {
    seq![
        "🎛️ Select OS flavour/variant:"@,
        ""@,
        "Choose the edition or desktop environment for your OS."@,
        ""@,
        "⌨️ Keys:"@,
        "  ↑/↓ or Tab — Move between variants"@,
        "  Enter — Confirm variant choice"@,
        "  Esc — Go back to OS selection"@,
        ""@,
    ] + if v.os_variants.len() == 0 {
        seq![
            ""@,
            "❌ Missing metadata: no variants found for this OS."@,
            "Press Esc to go back and choose a different OS."@,
        ]
    } else {
        option_lines(variant_labels(v), v.os_variant_index as int)
    }
}

fn variant_lines(app: &App) -> (r: Vec<String>)
    ensures
        strings_view(r@) == variant_body(app@),
{
    proof {
        lemma_view(*app);
    }
    let mut out: Vec<String> = Vec::new();
    push_line(&mut out, "🎛️ Select OS flavour/variant:");
    push_line(&mut out, "");
    push_line(&mut out, "Choose the edition or desktop environment for your OS.");
    push_line(&mut out, "");
    push_line(&mut out, "⌨️ Keys:");
    push_line(&mut out, "  ↑/↓ or Tab — Move between variants");
    push_line(&mut out, "  Enter — Confirm variant choice");
    push_line(&mut out, "  Esc — Go back to OS selection");
    push_line(&mut out, "");
    let ghost a = strings_view(out@);
    assert(a =~= seq![
        "🎛️ Select OS flavour/variant:"@,
        ""@,
        "Choose the edition or desktop environment for your OS."@,
        ""@,
        "⌨️ Keys:"@,
        "  ↑/↓ or Tab — Move between variants"@,
        "  Enter — Confirm variant choice"@,
        "  Esc — Go back to OS selection"@,
        ""@,
    ]);
    if app.os_variants.len() == 0 {
        push_line(&mut out, "");
        push_line(&mut out, "❌ Missing metadata: no variants found for this OS.");
        push_line(&mut out, "Press Esc to go back and choose a different OS.");
        assert(strings_view(out@) =~= a + seq![
            ""@,
            "❌ Missing metadata: no variants found for this OS."@,
            "Press Esc to go back and choose a different OS."@,
        ]);
    } else {
        let opts = variant_label_list(app);
        push_options(&mut out, &opts, app.os_variant_index);
    }
    out
}

pub open spec fn efi_body(v: AppView, c: ScreenContext) -> Seq<Seq<char>> {
    let a = seq![
        "🧩 Choose how to get the EFI image:"@,
        "Use ↑/↓ or Tab to choose • Enter to continue • Esc to go back."@,
    ] + option_lines(efi_labels(v, c), v.uefi_source_index as int);
    if entry(v.uefi_sources, v.uefi_source_index as int) == Some(EfiSource::LocalEfiImage) {
        a + seq![""@, "Local EFI image path:"@, v.uefi_source_path]
    } else {
        a
    }
}

fn efi_lines(app: &App, c: &ScreenContext) -> (r: Vec<String>)
    ensures
        strings_view(r@) == efi_body(app@, *c),
{
    proof {
        lemma_view(*app);
    }
    let mut out: Vec<String> = Vec::new();
    push_line(&mut out, "🧩 Choose how to get the EFI image:");
    push_line(&mut out, "Use ↑/↓ or Tab to choose • Enter to continue • Esc to go back.");
    assert(strings_view(out@) =~= seq![
        "🧩 Choose how to get the EFI image:"@,
        "Use ↑/↓ or Tab to choose • Enter to continue • Esc to go back."@,
    ]);
    let is_local = app.uefi_source_index < app.uefi_sources.len() && app.uefi_sources[app.uefi_source_index]
        == EfiSource::LocalEfiImage;
    let opts = efi_label_list(app, c);
    push_options(&mut out, &opts, app.uefi_source_index);
    let ghost a = strings_view(out@);
    if is_local {
        push_line(&mut out, "");
        push_line(&mut out, "Local EFI image path:");
        push_string(&mut out, app.uefi_source_path.clone());
        assert(strings_view(out@) =~= a + seq![""@, "Local EFI image path:"@, app.uefi_source_path@]);
    }
    out
}

pub open spec fn locale_body(v: AppView) -> Seq<Seq<char>> {
    seq![
        "🗣️ Select locale and keymap:"@,
        ""@,
        "⌨️ Keys:"@,
        "  ↑/↓ or Tab — Browse locale options"@,
        "  Enter — Confirm locale choice"@,
        "  Esc — Go back"@,
        ""@,
    ] + option_lines(strings_view(v.locales), v.locale_index as int)
}

fn locale_lines(app: &App) -> (r: Vec<String>)
    ensures
        strings_view(r@) == locale_body(app@),
{
    proof {
        lemma_view(*app);
    }
    let mut out: Vec<String> = Vec::new();
    push_line(&mut out, "🗣️ Select locale and keymap:");
    push_line(&mut out, "");
    push_line(&mut out, "⌨️ Keys:");
    push_line(&mut out, "  ↑/↓ or Tab — Browse locale options");
    push_line(&mut out, "  Enter — Confirm locale choice");
    push_line(&mut out, "  Esc — Go back");
    push_line(&mut out, "");
    assert(strings_view(out@) =~= seq![
        "🗣️ Select locale and keymap:"@,
        ""@,
        "⌨️ Keys:"@,
        "  ↑/↓ or Tab — Browse locale options"@,
        "  Enter — Confirm locale choice"@,
        "  Esc — Go back"@,
        ""@,
    ]);
    push_options(&mut out, &app.locales, app.locale_index);
    out
}

pub open spec fn options_body(v: AppView) -> Seq<Seq<char>> {
    seq![
        "⚙️ Installation options:"@,
        ""@,
        "⌨️ Keys:"@,
        "  ↑/↓ — Move between options"@,
        "  Space or Enter — Toggle option on/off"@,
        "  Enter (when done) — Proceed to review"@,
        "  Esc — Go back"@,
        ""@,
    ] + option_lines(toggle_labels(v), v.options_index as int)
}

fn options_lines(app: &App) -> (r: Vec<String>)
    ensures
        strings_view(r@) == options_body(app@),
{
    proof {
        lemma_view(*app);
    }
    let mut out: Vec<String> = Vec::new();
    push_line(&mut out, "⚙️ Installation options:");
    push_line(&mut out, "");
    push_line(&mut out, "⌨️ Keys:");
    push_line(&mut out, "  ↑/↓ — Move between options");
    push_line(&mut out, "  Space or Enter — Toggle option on/off");
    push_line(&mut out, "  Enter (when done) — Proceed to review");
    push_line(&mut out, "  Esc — Go back");
    push_line(&mut out, "");
    assert(strings_view(out@) =~= seq![
        "⚙️ Installation options:"@,
        ""@,
        "⌨️ Keys:"@,
        "  ↑/↓ — Move between options"@,
        "  Space or Enter — Toggle option on/off"@,
        "  Enter (when done) — Proceed to review"@,
        "  Esc — Go back"@,
        ""@,
    ]);
    let opts = toggle_label_list(app);
    push_options(&mut out, &opts, app.options_index);
    out
}

pub open spec fn first_boot_body(v: AppView) -> Seq<Seq<char>> {
    seq![
        "🧑‍💻 First-boot user setup:"@,
        "Use ↑/↓ or Tab to choose • Enter to continue • Esc to go back."@,
    ] + option_lines(strings_view(v.first_boot_options), v.first_boot_index as int)
}

fn first_boot_lines(app: &App) -> (r: Vec<String>)
    ensures
        strings_view(r@) == first_boot_body(app@),
{
    proof {
        lemma_view(*app);
    }
    let mut out: Vec<String> = Vec::new();
    push_line(&mut out, "🧑‍💻 First-boot user setup:");
    push_line(&mut out, "Use ↑/↓ or Tab to choose • Enter to continue • Esc to go back.");
    assert(strings_view(out@) =~= seq![
        "🧑‍💻 First-boot user setup:"@,
        "Use ↑/↓ or Tab to choose • Enter to continue • Esc to go back."@,
    ]);
    push_options(&mut out, &app.first_boot_options, app.first_boot_index);
    out
}

pub open spec fn plan_review_body(v: AppView, c: ScreenContext) -> Seq<Seq<char>> {
    let a = seq!["🧾 Execution plan:"@, ""@, "Review exactly what will happen next:"@] + plan_lines(v, c)
        + seq![""@];
    let b = if v.dry_run {
        a + seq!["🔧 Mode: DRY-RUN (no disk writes will occur)"@, ""@]
    } else {
        a
    };
    b + seq![
        "⌨️ Keys:"@,
        "  Enter — Proceed to final confirmation"@,
        "  Esc — Go back to modify settings"@,
    ]
}

fn append_all(out: &mut Vec<String>, more: &Vec<String>)
    ensures
        strings_view(final(out)@) == strings_view(old(out)@) + strings_view(more@),
{
    let ghost start = strings_view(out@);
    let mut k: usize = 0;
    while k < more.len()
        invariant
            k <= more.len(),
            strings_view(out@) == start + strings_view(more@).take(k as int),
        decreases more.len() - k,
    {
        push_string(out, more[k].clone());
        assert(strings_view(more@).take(k + 1) =~= strings_view(more@).take(k as int).push(
            more@[k as int]@,
        ));
        k += 1;
    }
    assert(strings_view(more@).take(more.len() as int) =~= strings_view(more@));
}

fn plan_review_lines(app: &App, c: &ScreenContext) -> (r: Vec<String>)
    ensures
        strings_view(r@) == plan_review_body(app@, *c),
{
    proof {
        lemma_view(*app);
    }
    let mut out: Vec<String> = Vec::new();
    push_line(&mut out, "🧾 Execution plan:");
    push_line(&mut out, "");
    push_line(&mut out, "Review exactly what will happen next:");
    assert(strings_view(out@) =~= seq!["🧾 Execution plan:"@, ""@, "Review exactly what will happen next:"@]);
    let plan = build_plan_lines(app, c);
    append_all(&mut out, &plan);
    let ghost p = strings_view(out@);
    push_line(&mut out, "");
    assert(strings_view(out@) =~= p + seq![""@]);
    let ghost a = strings_view(out@);
    if app.dry_run {
        push_line(&mut out, "🔧 Mode: DRY-RUN (no disk writes will occur)");
        push_line(&mut out, "");
        assert(strings_view(out@) =~= a + seq!["🔧 Mode: DRY-RUN (no disk writes will occur)"@, ""@]);
    }
    let ghost b = strings_view(out@);
    push_line(&mut out, "⌨️ Keys:");
    push_line(&mut out, "  Enter — Proceed to final confirmation");
    push_line(&mut out, "  Esc — Go back to modify settings");
    assert(strings_view(out@) =~= b + seq![
        "⌨️ Keys:"@,
        "  Enter — Proceed to final confirmation"@,
        "  Esc — Go back to modify settings"@,
    ]);
    out
}

pub open spec fn push_some(s: Seq<Seq<char>>, o: Option<Seq<char>>) -> Seq<Seq<char>> {
    match o {
        Some(l) => s.push(l),
        None => s,
    }
}

/// `Disk: ...` for the selected disk, if there is one.
pub open spec fn disk_summary(v: AppView, c: ScreenContext) -> Option<Seq<char>> {
    match entry(v.disks, v.disk_index as int) {
        Some(d) => Some(disk_line(v, c, d)),
        None => None,
    }
}

pub open spec fn distro_summary(v: AppView) -> Option<Seq<char>> {
    match entry(v.os_distros, v.os_distro_index as int) {
        Some(d) => Some("Distro: "@ + distro_display(d)),
        None => None,
    }
}

pub open spec fn flavour_summary(v: AppView) -> Option<Seq<char>> {
    match entry(v.os_variants, v.os_variant_index as int) {
        Some(x) => Some("Flavour: "@ + x.1),
        None => None,
    }
}

pub open spec fn scheme_summary(v: AppView, c: ScreenContext) -> Option<Seq<char>> {
    match entry(v.partition_schemes, v.scheme_index as int) {
        Some(s) => Some("Scheme: "@ + scheme_name(c, s)),
        None => None,
    }
}

pub open spec fn partitions_line(v: AppView) -> Seq<char> {
    "Partitions: EFI "@ + v.efi_size + " | BOOT "@ + v.boot_size + " | ROOT "@ + v.root_end
        + " | DATA remainder"@
}

pub open spec fn downloads_efi(v: AppView) -> bool {
    entry(v.uefi_sources, v.uefi_source_index as int) == Some(EfiSource::DownloadEfiImage)
}

pub open spec fn efi_image_line(v: AppView) -> Seq<char> {
    if downloads_efi(v) {
        "EFI image: Download"@
    } else {
        "EFI image: Local"@
    }
}

/// The image that will be flashed: the downloaded one, else the selected
/// image, else the typed path.
pub open spec fn effective_image(v: AppView) -> Seq<char> {
    match v.downloaded_image_path {
        Some(p) => p,
        None => match entry(v.images, v.image_index as int) {
            Some(im) => im.path@,
            None => v.image_source_path,
        },
    }
}

pub open spec fn effective_efi(v: AppView) -> Seq<char> {
    if downloads_efi(v) {
        "/tmp/mash-downloads/uefi"@
    } else {
        v.uefi_source_path
    }
}

pub open spec fn yes_no(b: bool) -> Seq<char> {
    if b {
        "Yes"@
    } else {
        "No"@
    }
}

/// `  - <label>: Enabled|Disabled` for each option.
pub open spec fn option_states(v: AppView) -> Seq<Seq<char>> {
    Seq::new(
        v.options.len(),
        |i: int|
            "  - "@ + v.options[i].label@ + ": "@ + if v.options[i].enabled {
                "Enabled"@
            } else {
                "Disabled"@
            },
    )
}

pub open spec fn first_boot_choice(v: AppView) -> Seq<char> {
    match entry(v.first_boot_options, v.first_boot_index as int) {
        Some(s) => s@,
        None => "Prompt to create user"@,
    }
}

/// The opening lines of the confirmation step: mode warnings and keys.
pub open spec fn confirmation_head(v: AppView) -> Seq<Seq<char>> {
    let a = seq![
        "✅ Final confirmation:"@,
        ""@,
        "All settings reviewed. Ready to begin installation."@,
        ""@,
    ];
    let b = if !v.dry_run && !v.destructive_armed {
        a + seq![
            "🛡️ SAFE MODE is ON — you'll be prompted to disarm before any disk writes."@,
            ""@,
        ]
    } else {
        a
    };
    let d = if !v.dry_run {
        b + seq!["⚠️ EXECUTE MODE — this will erase the selected disk."@, ""@]
    } else {
        b
    };
    d + seq!["⌨️ Keys:"@, "  Enter — Continue"@, "  Esc — Go back to review"@, ""@]
}

/// `s` followed by the selections: disk, OS, flavour, scheme, image, layout,
/// partition sizes and EFI source.
pub open spec fn confirmation_selections(s: Seq<Seq<char>>, v: AppView, c: ScreenContext) -> Seq<
    Seq<char>,
> {
    let f = push_some(
        push_some(push_some(push_some(s, disk_summary(v, c)), distro_summary(v)), flavour_summary(v)),
        scheme_summary(v, c),
    );
    let g = push_some(
        f,
        match entry(v.image_sources, v.image_source_index as int) {
            Some(src) => Some("Image source: "@ + src.label@),
            None => None,
        },
    ).push("Image path: "@ + effective_image(v));
    push_some(
        g,
        match entry(v.partition_layouts, v.layout_index as int) {
            Some(l) => Some("Layout: "@ + l@),
            None => None,
        },
    ).push(partitions_line(v)).push(efi_image_line(v)).push("EFI path: "@ + effective_efi(v))
}

/// `s` followed by locale, downloads, mode, options and first-boot choice.
pub open spec fn confirmation_settings(s: Seq<Seq<char>>, v: AppView) -> Seq<Seq<char>> {
    let i = push_some(
        s,
        match entry(v.locales, v.locale_index as int) {
            Some(l) => Some("Locale: "@ + l@),
            None => None,
        },
    ).push(
        "Downloads: Fedora="@ + yes_no(
            option_named(v.options, "Download Fedora image"@) == Some(true),
        ) + " | EFI="@ + yes_no(downloads_efi(v)),
    );
    let j = if v.dry_run {
        i.push("Mode: DRY-RUN (no disk writes)"@)
    } else {
        i
    };
    (j.push("Options:"@) + option_states(v)).push("First boot: "@ + first_boot_choice(v))
}

pub open spec fn confirmation_body(v: AppView, c: ScreenContext) -> Seq<Seq<char>> {
    with_error(
        confirmation_settings(confirmation_selections(confirmation_head(v), v, c), v) + option_lines(
            seq!["Go back"@],
            0,
        ),
        v.error_message,
    )
}

fn opt_push(out: &mut Vec<String>, line: Option<String>)
    ensures
        strings_view(final(out)@) == push_some(strings_view(old(out)@), match line {
            Some(s) => Some(s@),
            None => None,
        }),
{
    match line {
        Some(s) => push_string(out, s),
        None => {},
    }
}

fn disk_summary_of(app: &App, c: &ScreenContext) -> (r: Option<String>)
    ensures
        match r {
            Some(s) => disk_summary(app@, *c) == Some(s@),
            None => disk_summary(app@, *c) is None,
        },
{
    proof {
        lemma_view(*app);
    }
    if app.disk_index < app.disks.len() {
        Some(disk_line_of(app, c))
    } else {
        None
    }
}

fn distro_summary_of(app: &App) -> (r: Option<String>)
    ensures
        match r {
            Some(s) => distro_summary(app@) == Some(s@),
            None => distro_summary(app@) is None,
        },
{
    proof {
        lemma_view(*app);
    }
    if app.os_distro_index < app.os_distros.len() {
        Some(concat2("Distro: ", app.os_distros[app.os_distro_index].display()))
    } else {
        None
    }
}

fn flavour_summary_of(app: &App) -> (r: Option<String>)
    ensures
        match r {
            Some(s) => flavour_summary(app@) == Some(s@),
            None => flavour_summary(app@) is None,
        },
{
    proof {
        lemma_view(*app);
    }
    if app.os_variant_index < app.os_variants.len() {
        Some(concat2("Flavour: ", app.os_variants[app.os_variant_index].label.as_str()))
    } else {
        None
    }
}

fn scheme_summary_of(app: &App, c: &ScreenContext) -> (r: Option<String>)
    ensures
        match r {
            Some(s) => scheme_summary(app@, *c) == Some(s@),
            None => scheme_summary(app@, *c) is None,
        },
{
    proof {
        lemma_view(*app);
    }
    if app.scheme_index < app.partition_schemes.len() {
        Some(concat2("Scheme: ", scheme_name_of(c, app.partition_schemes[app.scheme_index]).as_str()))
    } else {
        None
    }
}

fn partitions_line_of(app: &App) -> (r: String)
    ensures
        r@ == partitions_line(app@),
{
    proof {
        lemma_view(*app);
    }
    let mut r = concat2("Partitions: EFI ", app.efi_size.as_str());
    push_str(&mut r, " | BOOT ");
    push_str(&mut r, app.boot_size.as_str());
    push_str(&mut r, " | ROOT ");
    push_str(&mut r, app.root_end.as_str());
    push_str(&mut r, " | DATA remainder");
    r
}

fn downloads_efi_of(app: &App) -> (r: bool)
    ensures
        r == downloads_efi(app@),
{
    proof {
        lemma_view(*app);
    }
    app.uefi_source_index < app.uefi_sources.len() && app.uefi_sources[app.uefi_source_index]
        == EfiSource::DownloadEfiImage
}

fn confirmation_head_lines(app: &App) -> (r: Vec<String>)
    ensures
        strings_view(r@) == confirmation_head(app@),
{
    proof {
        lemma_view(*app);
    }
    let mut out: Vec<String> = Vec::new();
    push_line(&mut out, "✅ Final confirmation:");
    push_line(&mut out, "");
    push_line(&mut out, "All settings reviewed. Ready to begin installation.");
    push_line(&mut out, "");
    let ghost a = strings_view(out@);
    assert(a =~= seq![
        "✅ Final confirmation:"@,
        ""@,
        "All settings reviewed. Ready to begin installation."@,
        ""@,
    ]);
    if !app.dry_run && !app.destructive_armed {
        push_line(&mut out, "🛡️ SAFE MODE is ON — you'll be prompted to disarm before any disk writes.");
        push_line(&mut out, "");
        assert(strings_view(out@) =~= a + seq![
            "🛡️ SAFE MODE is ON — you'll be prompted to disarm before any disk writes."@,
            ""@,
        ]);
    }
    let ghost b = strings_view(out@);
    if !app.dry_run {
        push_line(&mut out, "⚠️ EXECUTE MODE — this will erase the selected disk.");
        push_line(&mut out, "");
        assert(strings_view(out@) =~= b + seq!["⚠️ EXECUTE MODE — this will erase the selected disk."@, ""@]);
    }
    let ghost d = strings_view(out@);
    push_line(&mut out, "⌨️ Keys:");
    push_line(&mut out, "  Enter — Continue");
    push_line(&mut out, "  Esc — Go back to review");
    push_line(&mut out, "");
    assert(strings_view(out@) =~= d + seq![
        "⌨️ Keys:"@,
        "  Enter — Continue"@,
        "  Esc — Go back to review"@,
        ""@,
    ]);
    out
}

fn push_confirmation_selections(out: &mut Vec<String>, app: &App, c: &ScreenContext)
    ensures
        strings_view(final(out)@) == confirmation_selections(strings_view(old(out)@), app@, *c),
{
    proof {
        lemma_view(*app);
    }
    let download_efi = downloads_efi_of(app);
    let effective_image = match &app.downloaded_image_path {
        Some(p) => p.clone(),
        None => if app.image_index < app.images.len() {
            app.images[app.image_index].path.clone()
        } else {
            app.image_source_path.clone()
        },
    };
    let effective_efi = if download_efi {
        String::from_str("/tmp/mash-downloads/uefi")
    } else {
        app.uefi_source_path.clone()
    };
    opt_push(out, disk_summary_of(app, c));
    opt_push(out, distro_summary_of(app));
    opt_push(out, flavour_summary_of(app));
    opt_push(out, scheme_summary_of(app, c));
    if app.image_source_index < app.image_sources.len() {
        push_string(out, concat2("Image source: ", app.image_sources[app.image_source_index].label.as_str()));
    }
    push_string(out, concat2("Image path: ", effective_image.as_str()));
    if app.layout_index < app.partition_layouts.len() {
        push_string(out, concat2("Layout: ", app.partition_layouts[app.layout_index].as_str()));
    }
    push_string(out, partitions_line_of(app));
    if download_efi {
        push_line(out, "EFI image: Download");
    } else {
        push_line(out, "EFI image: Local");
    }
    push_string(out, concat2("EFI path: ", effective_efi.as_str()));
}

fn push_confirmation_settings(out: &mut Vec<String>, app: &App)
    ensures
        strings_view(final(out)@) == confirmation_settings(strings_view(old(out)@), app@),
{
    proof {
        lemma_view(*app);
    }
    let download_efi = downloads_efi_of(app);
    if app.locale_index < app.locales.len() {
        push_string(out, concat2("Locale: ", app.locales[app.locale_index].as_str()));
    }
    let download_fedora = match crate::tui::flash_config::find_option(&app.options, "Download Fedora image") {
        Some(enabled) => enabled,
        None => false,
    };
    let mut dl = concat2("Downloads: Fedora=", if download_fedora {
        "Yes"
    } else {
        "No"
    });
    push_str(&mut dl, " | EFI=");
    push_str(&mut dl, if download_efi {
        "Yes"
    } else {
        "No"
    });
    push_string(out, dl);
    if app.dry_run {
        push_line(out, "Mode: DRY-RUN (no disk writes)");
    }
    push_line(out, "Options:");
    let ghost before_opts = strings_view(out@);
    let ghost states = option_states(app@);
    let mut k: usize = 0;
    while k < app.options.len()
        invariant
            k <= app.options.len(),
            states == option_states(app@),
            states.len() == app.options.len(),
            strings_view(out@) == before_opts + states.take(k as int),
        decreases app.options.len() - k,
    {
        proof {
            lemma_view(*app);
        }
        let mut line = concat3("  - ", app.options[k].label.as_str(), ": ");
        push_str(&mut line, if app.options[k].enabled {
            "Enabled"
        } else {
            "Disabled"
        });
        push_string(out, line);
        assert(states.take(k + 1) =~= states.take(k as int).push(states[k as int]));
        k += 1;
    }
    assert(states.take(app.options.len() as int) =~= states);
    let first = if app.first_boot_index < app.first_boot_options.len() {
        app.first_boot_options[app.first_boot_index].clone()
    } else {
        String::from_str("Prompt to create user")
    };
    push_string(out, concat2("First boot: ", first.as_str()));
}

fn confirmation_lines(app: &App, c: &ScreenContext) -> (r: Vec<String>)
    ensures
        strings_view(r@) == confirmation_body(app@, *c),
{
    let mut out = confirmation_head_lines(app);
    push_confirmation_selections(&mut out, app, c);
    push_confirmation_settings(&mut out, app);
    let back = single_list("Go back");
    push_options(&mut out, &back, 0);
    push_error(&mut out, app);
    out
}

pub open spec fn execute_gate_body(v: AppView, c: ScreenContext) -> Seq<Seq<char>> {
    let a = seq![
        "🛑 FINAL EXECUTE GATE"@,
        ""@,
        "This is the last checkpoint before disk erase."@,
        ""@,
        "Type EXACTLY (including spaces):"@,
        "I UNDERSTAND THIS WILL ERASE THE SELECTED DISK"@,
        ""@,
        "Input: "@ + v.execute_confirmation_input,
        ""@,
        "⌨️ Keys:"@,
        "  Type phrase — Input must match exactly"@,
        "  Enter — Submit"@,
        "  Esc — Cancel and go back"@,
        ""@,
    ];
    let b = push_some(
        push_some(push_some(push_some(a, distro_summary(v)), flavour_summary(v)), disk_summary(v, c)),
        scheme_summary(v, c),
    );
    with_error(
        b.push(partitions_line(v)).push(efi_image_line(v)).push("EFI path: "@ + v.uefi_source_path),
        v.error_message,
    )
}

fn execute_gate_lines(app: &App, c: &ScreenContext) -> (r: Vec<String>)
    ensures
        strings_view(r@) == execute_gate_body(app@, *c),
{
    proof {
        lemma_view(*app);
    }
    let mut out: Vec<String> = Vec::new();
    push_line(&mut out, "🛑 FINAL EXECUTE GATE");
    push_line(&mut out, "");
    push_line(&mut out, "This is the last checkpoint before disk erase.");
    push_line(&mut out, "");
    push_line(&mut out, "Type EXACTLY (including spaces):");
    push_line(&mut out, "I UNDERSTAND THIS WILL ERASE THE SELECTED DISK");
    push_line(&mut out, "");
    push_string(&mut out, concat2("Input: ", app.execute_confirmation_input.as_str()));
    push_line(&mut out, "");
    push_line(&mut out, "⌨️ Keys:");
    push_line(&mut out, "  Type phrase — Input must match exactly");
    push_line(&mut out, "  Enter — Submit");
    push_line(&mut out, "  Esc — Cancel and go back");
    push_line(&mut out, "");
    assert(strings_view(out@) =~= seq![
        "🛑 FINAL EXECUTE GATE"@,
        ""@,
        "This is the last checkpoint before disk erase."@,
        ""@,
        "Type EXACTLY (including spaces):"@,
        "I UNDERSTAND THIS WILL ERASE THE SELECTED DISK"@,
        ""@,
        "Input: "@ + app.execute_confirmation_input@,
        ""@,
        "⌨️ Keys:"@,
        "  Type phrase — Input must match exactly"@,
        "  Enter — Submit"@,
        "  Esc — Cancel and go back"@,
        ""@,
    ]);
    opt_push(&mut out, distro_summary_of(app));
    opt_push(&mut out, flavour_summary_of(app));
    opt_push(&mut out, disk_summary_of(app, c));
    opt_push(&mut out, scheme_summary_of(app, c));
    push_string(&mut out, partitions_line_of(app));
    if downloads_efi_of(app) {
        push_line(&mut out, "EFI image: Download");
    } else {
        push_line(&mut out, "EFI image: Local");
    }
    push_string(&mut out, concat2("EFI path: ", app.uefi_source_path.as_str()));
    push_error(&mut out, app);
    out
}

pub open spec fn disarm_body(v: AppView) -> Seq<Seq<char>> {
    with_error(
        seq![
            "🛡️ SAFE MODE is active."@,
            "You attempted a destructive action."@,
            ""@,
            "⚠️ SAFE MODE ACTIVE — Disk writes are currently BLOCKED."@,
            ""@,
            "To ARM the installer and enable destructive operations:"@,
            ""@,
            "⌨️ Keys:"@,
            "  Type DESTROY (exactly) — Disarm safe mode and ARM installer"@,
            "  Enter — Submit after typing DESTROY"@,
            "  Esc — Cancel and go back"@,
            ""@,
            "Input: "@ + v.safe_mode_disarm_input,
        ],
        v.error_message,
    ).push("Esc cancels and returns to the summary."@)
}

fn disarm_lines(app: &App) -> (r: Vec<String>)
    ensures
        strings_view(r@) == disarm_body(app@),
{
    proof {
        lemma_view(*app);
    }
    let mut out: Vec<String> = Vec::new();
    push_line(&mut out, "🛡️ SAFE MODE is active.");
    push_line(&mut out, "You attempted a destructive action.");
    push_line(&mut out, "");
    push_line(&mut out, "⚠️ SAFE MODE ACTIVE — Disk writes are currently BLOCKED.");
    push_line(&mut out, "");
    push_line(&mut out, "To ARM the installer and enable destructive operations:");
    push_line(&mut out, "");
    push_line(&mut out, "⌨️ Keys:");
    push_line(&mut out, "  Type DESTROY (exactly) — Disarm safe mode and ARM installer");
    push_line(&mut out, "  Enter — Submit after typing DESTROY");
    push_line(&mut out, "  Esc — Cancel and go back");
    push_line(&mut out, "");
    push_string(&mut out, concat2("Input: ", app.safe_mode_disarm_input.as_str()));
    assert(strings_view(out@) =~= seq![
        "🛡️ SAFE MODE is active."@,
        "You attempted a destructive action."@,
        ""@,
        "⚠️ SAFE MODE ACTIVE — Disk writes are currently BLOCKED."@,
        ""@,
        "To ARM the installer and enable destructive operations:"@,
        ""@,
        "⌨️ Keys:"@,
        "  Type DESTROY (exactly) — Disarm safe mode and ARM installer"@,
        "  Enter — Submit after typing DESTROY"@,
        "  Esc — Cancel and go back"@,
        ""@,
        "Input: "@ + app.safe_mode_disarm_input@,
    ]);
    push_error(&mut out, app);
    push_line(&mut out, "Esc cancels and returns to the summary.");
    out
}

pub open spec fn downloading_body(done: bool, what: Seq<char>, index: usize) -> Seq<Seq<char>> {
    let status = if done {
        "✅ "@ + what + " image downloaded (stub)."@
    } else {
        "⬇️ Ready to simulate "@ + what + " download."@
    };
    seq![status, "Use ↑/↓ to choose • Enter to continue • Esc to go back."@] + option_lines(
        seq!["Mark "@ + what + " download complete"@, "Go back"@],
        index as int,
    )
}

fn downloading_lines(done: bool, what: &str, index: usize) -> (r: Vec<String>)
    ensures
        strings_view(r@) == downloading_body(done, what@, index),
{
    let mut out: Vec<String> = Vec::new();
    let status = if done {
        concat3("✅ ", what, " image downloaded (stub).")
    } else {
        concat3("⬇️ Ready to simulate ", what, " download.")
    };
    push_string(&mut out, status);
    push_line(&mut out, "Use ↑/↓ to choose • Enter to continue • Esc to go back.");
    assert(strings_view(out@) =~= seq![
        if done {
            "✅ "@ + what@ + " image downloaded (stub)."@
        } else {
            "⬇️ Ready to simulate "@ + what@ + " download."@
        },
        "Use ↑/↓ to choose • Enter to continue • Esc to go back."@,
    ]);
    let mut opts: Vec<String> = Vec::new();
    push_string(&mut opts, concat3("Mark ", what, " download complete"));
    push_line(&mut opts, "Go back");
    assert(strings_view(opts@) =~= seq!["Mark "@ + what@ + " download complete"@, "Go back"@]);
    push_options(&mut out, &opts, index);
    out
}

pub open spec fn flashing_body(v: AppView, c: ScreenContext) -> Seq<Seq<char>> {
    let ms = elapsed_of(c.elapsed_ms);
    let a = seq![
        spinner(ms) + " Flashing in progress..."@,
        "Phase: "@ + phase_hint_text(c),
        "Elapsed: "@ + elapsed_text(ms),
        status_text(v, c),
    ];
    let b = if v.cancel_requested && !c.progress.is_complete {
        a.push("🛑 Cancel requested • Cleaning up..."@)
    } else {
        a
    };
    b.push(
        "Overall: "@ + dec_digits(c.progress.overall_percent as nat) + "% • Step: "@ + dec_digits(
            c.progress.phase_percent as nat,
        ) + "% • ETA: "@ + c.progress.eta@,
    ) + phase_lines(c.progress) + option_lines(seq!["Viewing live telemetry"@], 0)
}

fn flashing_lines(app: &App, c: &ScreenContext) -> (r: Vec<String>)
    ensures
        strings_view(r@) == flashing_body(app@, *c),
{
    proof {
        lemma_view(*app);
    }
    let mut out: Vec<String> = Vec::new();
    push_string(&mut out, concat2(spinner_frame(c.elapsed_ms), " Flashing in progress..."));
    push_string(&mut out, concat2("Phase: ", phase_hint(c).as_str()));
    push_string(&mut out, concat2("Elapsed: ", elapsed_string(c.elapsed_ms).as_str()));
    push_string(&mut out, status_message(app, c));
    if app.cancel_requested && !c.progress.is_complete {
        push_line(&mut out, "🛑 Cancel requested • Cleaning up...");
    }
    let mut overall = concat2("Overall: ", u64_to_string(c.progress.overall_percent).as_str());
    push_str(&mut overall, "% • Step: ");
    push_str(&mut overall, u64_to_string(c.progress.phase_percent).as_str());
    push_str(&mut overall, "% • ETA: ");
    push_str(&mut overall, c.progress.eta.as_str());
    push_string(&mut out, overall);
    let phases = progress_phase_lines(&c.progress);
    append_all(&mut out, &phases);
    let tele = single_list("Viewing live telemetry");
    push_options(&mut out, &tele, 0);
    out
}

pub open spec fn complete_body(v: AppView) -> Seq<Seq<char>> {
    (if v.completion_lines.len() == 0 {
        seq!["🎉 Installation complete."@]
    } else {
        strings_view(v.completion_lines)
    }) + seq![""@, "Press Enter to exit."@] + option_lines(seq!["Exit installer"@], 0)
}

fn complete_lines(app: &App) -> (r: Vec<String>)
    ensures
        strings_view(r@) == complete_body(app@),
{
    proof {
        lemma_view(*app);
    }
    let mut out: Vec<String> = Vec::new();
    if app.completion_lines.len() == 0 {
        push_line(&mut out, "🎉 Installation complete.");
        assert(strings_view(out@) =~= seq!["🎉 Installation complete."@]);
    } else {
        append_all(&mut out, &app.completion_lines);
        assert(strings_view(out@) =~= strings_view(app.completion_lines@));
    }
    let ghost a = strings_view(out@);
    push_line(&mut out, "");
    push_line(&mut out, "Press Enter to exit.");
    assert(strings_view(out@) =~= a + seq![""@, "Press Enter to exit."@]);
    let exit = single_list("Exit installer");
    push_options(&mut out, &exit, 0);
    out
}

// ---------------------------------------------------------------------------
// The screen of a step
// ---------------------------------------------------------------------------

/// The lines a step shows below its title.
pub open spec fn step_body(v: AppView, c: ScreenContext) -> Seq<Seq<char>> {
    match v.step {
        InstallStepType::Welcome => welcome_body(v),
        InstallStepType::DiskSelection => disk_selection_body(v, c),
        InstallStepType::DiskConfirmation => disk_confirmation_body(v, c),
        InstallStepType::BackupConfirmation => backup_body(v),
        InstallStepType::PartitionScheme => scheme_body(v),
        InstallStepType::PartitionLayout => layout_body(v),
        InstallStepType::PartitionCustomize => customize_body(v),
        InstallStepType::DownloadSourceSelection => download_source_body(v),
        InstallStepType::ImageSelection => image_selection_body(v),
        InstallStepType::VariantSelection => variant_body(v),
        InstallStepType::EfiImage => efi_body(v, c),
        InstallStepType::LocaleSelection => locale_body(v),
        InstallStepType::Options => options_body(v),
        InstallStepType::FirstBootUser => first_boot_body(v),
        InstallStepType::PlanReview => plan_review_body(v, c),
        InstallStepType::Confirmation => confirmation_body(v, c),
        InstallStepType::ExecuteConfirmationGate => execute_gate_body(v, c),
        InstallStepType::DisarmSafeMode => disarm_body(v),
        InstallStepType::DownloadingFedora => downloading_body(
            v.downloaded_fedora,
            "Fedora"@,
            v.downloading_fedora_index,
        ),
        InstallStepType::DownloadingUefi => downloading_body(
            v.downloaded_uefi,
            "EFI"@,
            v.downloading_uefi_index,
        ),
        InstallStepType::Flashing => flashing_body(v, c),
        InstallStepType::Complete => complete_body(v),
    }
}

/// The steps that print the error message among their own lines.
pub open spec fn shows_error_inline(s: InstallStepType) -> bool {
    s == InstallStepType::PartitionCustomize || s == InstallStepType::DiskConfirmation || s
        == InstallStepType::Confirmation || s == InstallStepType::ExecuteConfirmationGate || s
        == InstallStepType::DisarmSafeMode
}

/// The centre panel: the step's title, its lines and, unless the step prints
/// it itself, the error message.
pub open spec fn dojo_lines(v: AppView, c: ScreenContext) -> Seq<Seq<char>> {
    let lines = seq!["🧭 Step: "@ + title_of(v.step)] + step_body(v, c);
    if shows_error_inline(v.step) {
        lines
    } else {
        with_error(lines, v.error_message)
    }
}

fn step_body_lines(app: &App, c: &ScreenContext) -> (r: Vec<String>)
    ensures
        strings_view(r@) == step_body(app@, *c),
{
    proof {
        lemma_view(*app);
    }
    match app.current_step_type {
        InstallStepType::Welcome => welcome_lines(app),
        InstallStepType::DiskSelection => disk_selection_lines(app, c),
        InstallStepType::DiskConfirmation => disk_confirmation_lines(app, c),
        InstallStepType::BackupConfirmation => backup_lines(app),
        InstallStepType::PartitionScheme => scheme_lines(app),
        InstallStepType::PartitionLayout => layout_lines(app),
        InstallStepType::PartitionCustomize => customize_lines(app),
        InstallStepType::DownloadSourceSelection => download_source_lines(app),
        InstallStepType::ImageSelection => image_selection_lines(app),
        InstallStepType::VariantSelection => variant_lines(app),
        InstallStepType::EfiImage => efi_lines(app, c),
        InstallStepType::LocaleSelection => locale_lines(app),
        InstallStepType::Options => options_lines(app),
        InstallStepType::FirstBootUser => first_boot_lines(app),
        InstallStepType::PlanReview => plan_review_lines(app, c),
        InstallStepType::Confirmation => confirmation_lines(app, c),
        InstallStepType::ExecuteConfirmationGate => execute_gate_lines(app, c),
        InstallStepType::DisarmSafeMode => disarm_lines(app),
        InstallStepType::DownloadingFedora => downloading_lines(
            app.downloaded_fedora,
            "Fedora",
            app.downloading_fedora_index,
        ),
        InstallStepType::DownloadingUefi => downloading_lines(
            app.downloaded_uefi,
            "EFI",
            app.downloading_uefi_index,
        ),
        InstallStepType::Flashing => flashing_lines(app, c),
        InstallStepType::Complete => complete_lines(app),
    }
}

/// The lines of the centre panel for the current step.
pub fn build_dojo_lines(app: &App, c: &ScreenContext) -> (r: Vec<String>)
    ensures
        strings_view(r@) == dojo_lines(app@, *c),
{
    proof {
        lemma_view(*app);
    }
    let mut items: Vec<String> = Vec::new();
    push_string(&mut items, concat2("🧭 Step: ", app.current_step_type.title()));
    assert(strings_view(items@) =~= seq!["🧭 Step: "@ + title_of(app.current_step_type)]);
    let body = step_body_lines(app, c);
    append_all(&mut items, &body);
    let inline = match app.current_step_type {
        InstallStepType::PartitionCustomize | InstallStepType::DiskConfirmation
        | InstallStepType::Confirmation | InstallStepType::ExecuteConfirmationGate
        | InstallStepType::DisarmSafeMode => true,
        _ => false,
    };
    if !inline {
        push_error(&mut items, app);
    }
    items
}

/// The plain-text dump of a step: title, hint line, body, telemetry, status
/// and the keys the step expects.
#[verifier::opaque]
pub open spec fn dump_text(v: AppView, c: ScreenContext) -> Seq<char> {
    let lines = dojo_lines(v, c);
    let hint = if lines.len() > 0 {
        lines[0]
    } else {
        "🧭 Step: (unknown)"@
    };
    let body = if lines.len() > 1 {
        join_lines(lines.drop_first())
    } else {
        "(no body content)"@
    };
    let p = c.progress;
    let percent = dec_digits(p.overall_percent as nat);
    let overall_line = "📈 Overall: "@ + percent + "% | Phase: "@ + dec_digits(p.phase_percent as nat)
        + "%"@;
    let telemetry = progress_detail_text(p, phase_line_text(p), overall_line, "⏱️ ETA: "@ + p.eta@);
    "STEP: "@ + title_of(v.step) + "\n\n- Header: MASH Installer\n- Dojo hint line: "@ + hint
        + "\n- Body contents:\n"@ + body + "\n- Footer/progress/telemetry/status blocks:\nProgress: "@
        + percent + "%\nTelemetry: "@ + telemetry + "\nStatus: "@ + status_text(v, c)
        + "\n- Expected user actions (keys): "@ + expected_actions_spec(v.step) + "\n"@
}

pub fn dump_step(app: &App, c: &ScreenContext) -> (r: String)
    ensures
        r@ == dump_text(app@, *c),
{
    proof {
        lemma_view(*app);
        reveal(dump_text);
    }
    let lines = build_dojo_lines(app, c);
    let ghost ls = strings_view(lines@);
    let hint = if lines.len() > 0 {
        lines[0].clone()
    } else {
        String::from_str("🧭 Step: (unknown)")
    };
    let body = if lines.len() > 1 {
        let mut rest: Vec<String> = Vec::new();
        let mut k: usize = 1;
        while k < lines.len()
            invariant
                1 <= k <= lines.len(),
                ls == strings_view(lines@),
                strings_view(rest@) == ls.subrange(1, k as int),
            decreases lines.len() - k,
        {
            push_string(&mut rest, lines[k].clone());
            assert(ls.subrange(1, k + 1) =~= ls.subrange(1, k as int).push(ls[k as int]));
            k += 1;
        }
        assert(ls.subrange(1, lines.len() as int) =~= ls.drop_first());
        join_with_newlines(&rest)
    } else {
        String::from_str("(no body content)")
    };
    let p = &c.progress;
    let percent = u64_to_string(p.overall_percent);
    let mut overall_line = concat3("📈 Overall: ", percent.as_str(), "% | Phase: ");
    push_str(&mut overall_line, u64_to_string(p.phase_percent).as_str());
    push_str(&mut overall_line, "%");
    let eta_line = concat2("⏱️ ETA: ", p.eta.as_str());
    let phase = phase_line(p);
    let telemetry = progress_detail(p, phase.as_str(), overall_line.as_str(), eta_line.as_str());
    let status = status_message(app, c);
    let mut r = concat3("STEP: ", app.current_step_type.title(), "\n\n- Header: MASH Installer\n- Dojo hint line: ");
    push_str(&mut r, hint.as_str());
    push_str(&mut r, "\n- Body contents:\n");
    push_str(&mut r, body.as_str());
    push_str(&mut r, "\n- Footer/progress/telemetry/status blocks:\nProgress: ");
    push_str(&mut r, percent.as_str());
    push_str(&mut r, "%\nTelemetry: ");
    push_str(&mut r, telemetry.as_str());
    push_str(&mut r, "\nStatus: ");
    push_str(&mut r, status.as_str());
    push_str(&mut r, "\n- Expected user actions (keys): ");
    push_str(&mut r, expected_actions(app.current_step_type));
    push_str(&mut r, "\n");
    r
}

/// The dump of every step, in flow order, for a fresh app.
#[verifier::rlimit(60)]
pub fn dump_all_steps(c: &ScreenContext) -> (r: Vec<String>)
    ensures
        exists|v: AppView|
            fresh_state(v, None, Seq::empty(), Seq::empty(), None) && r.len() == all_steps().len()
                && forall|i: int|
                0 <= i < r.len() ==> #[trigger] r@[i]@ == dump_text(
                    with_step(refresh_variants(refresh_customizations(v)), all_steps()[i]),
                    *c,
                ),
{
    let mut app = App::new();
    let ghost v0 = app@;
    let ghost w = choose|v: AppView|
        fresh_state(v, None, Seq::empty(), Seq::empty(), None) && v0 == refresh_variants(
            refresh_customizations(v),
        );
    let ghost want = Seq::new(all_steps().len(), |j: int| dump_text(with_step(v0, all_steps()[j]), *c));
    let steps = InstallStepType::all();
    let mut out: Vec<String> = Vec::new();
    let mut i: usize = 0;
    let ghost start = app;
    while i < steps.len()
        invariant
            i <= steps.len(),
            steps@ == all_steps(),
            want.len() == steps.len(),
            want == Seq::new(all_steps().len(), |j: int| dump_text(with_step(v0, all_steps()[j]), *c)),
            start@ == v0,
            app == (App { current_step_type: app.current_step_type, ..start }),
            strings_view(out@) == want.take(i as int),
        decreases steps.len() - i,
    {
        app.current_step_type = steps[i];
        proof {
            lemma_view_set_step(start, app);
        }
        let d = dump_step(&app, c);
        push_string(&mut out, d);
        assert(want.take(i + 1) =~= want.take(i as int).push(want[i as int]));
        i += 1;
    }
    assert(want.take(steps.len() as int) =~= want);
    assert forall|i: int| 0 <= i < out.len() implies #[trigger] out@[i]@ == dump_text(
        with_step(refresh_variants(refresh_customizations(w)), all_steps()[i]),
        *c,
    ) by {
        assert(strings_view(out@)[i] == out@[i]@);
    }
    out
}

// ---------------------------------------------------------------------------
// Laws
// ---------------------------------------------------------------------------

/// The info panel opens with the mode and the arming state: a dry run never
/// reads as destructive, and Safe Mode is always visible.
pub proof fn law_info_panel_states_mode_and_arming(v: AppView, c: ScreenContext)
    ensures
        info_panel_lines(v, c).len() >= 5,
        info_panel_lines(v, c)[0] == (if v.dry_run {
            "🟡 DRY-RUN (no disk writes)"@
        } else {
            "🔴 EXECUTE (disk writes possible)"@
        }),
        info_panel_lines(v, c)[2] == (if v.destructive_armed {
            "🔴 ARMED (writes enabled)"@
        } else {
            "🟢 SAFE (disarmed)"@
        }),
{
    let a = seq![
        if v.dry_run {
            "🟡 DRY-RUN (no disk writes)"@
        } else {
            "🔴 EXECUTE (disk writes possible)"@
        },
        ""@,
        if v.destructive_armed {
            "🔴 ARMED (writes enabled)"@
        } else {
            "🟢 SAFE (disarmed)"@
        },
        ""@,
        "Selections:"@,
    ];
    let l = info_panel_lines(v, c);
    assert(l.len() >= a.len());
    assert(l[0] == a[0] && l[2] == a[2]);
}

/// While the disk list has a disk selected that holds the running system
/// (boot or source medium), the screen flags it as protected media.
pub proof fn law_protected_selection_is_flagged(v: AppView, c: ScreenContext)
    requires
        v.step == InstallStepType::DiskSelection,
        v.disk_index < v.disks.len(),
        disk_protected(v.disks[v.disk_index as int]),
    ensures
        dojo_lines(v, c).contains("🛑 PROTECTED MEDIA selected."@),
{
    let a = seq![
        "💽 Select a target disk:"@,
        ""@,
        "⌨️ Keys:"@,
        "  ↑/↓ or Tab — Move selection up/down"@,
        "  Enter — Confirm disk choice"@,
        "  r — Refresh disk list"@,
        "  Esc — Go back to previous step"@,
        "  q — Quit installer"@,
        ""@,
    ];
    let b = if has_unknown_boot(v.disks) {
        a + seq![
            ""@,
            "⚠️ WARNING: Boot device detection failed!"@,
            "Boot disk tags may be UNVERIFIED. Proceed with caution."@,
            ""@,
        ]
    } else {
        a
    };
    let d = if v.disks.len() == 0 {
        b.push("No disks detected. Press r to refresh."@)
    } else {
        b
    };
    let e = d + option_lines(disk_entries(v, c), v.disk_index as int);
    let tail = seq![
        ""@,
        "🛑 PROTECTED MEDIA selected."@,
        if v.developer_mode {
            "Developer mode is ON: you may proceed, but confirmation will require 'DESTROY BOOT DISK'."@
        } else {
            "This disk cannot be selected. Re-run with --developer-mode to override (dangerous)."@
        },
    ];
    let body = disk_selection_body(v, c);
    assert(body == e + tail);
    let head = seq!["🧭 Step: "@ + title_of(v.step)];
    let lines = head + body;
    let k: int = e.len() as int + 2;
    assert(lines[k] == "🛑 PROTECTED MEDIA selected."@);
    let all = dojo_lines(v, c);
    assert(all == with_error(lines, v.error_message));
    assert(all[k] == lines[k]);
    assert(0 <= k < all.len());
}

} // verus!
