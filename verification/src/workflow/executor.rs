//! The install pipeline's stage executor: each stage's task dispatched to
//! the library's stage functions (formatting, mounting, the download and
//! kernel-fix decisions) through the stage runner, with the outside work
//! (preflight reads, downloads, the kernel fix itself, packages, the resume
//! unit, the state file) left to the caller's services.
use crate::hal::error::HalError;
use crate::hal::ops::{FormatOps, MountOps};
use crate::procfs::views_of;
use crate::text::{
    chars_of, lemma_split_char_append, lines, lines_vec, push_str, split_char, strip_cr, strip_prefix,
    strip_prefix_str, string_of, vec_eq,
};
use crate::workflow::error::WorkflowError;
use crate::workflow::pipeline::{
    download_stage_request, plan_boot_stage, run_disk_stage, run_mount_stage, BootStageStep,
    DownloadRequest, MountPointMaker, ResumeStageConfig, StageDefinition as PipelineStage,
    StageExecutor, StageName, StageTask,
};
use crate::workflow::preflight::PreflightConfig;
use crate::workflow::stage_runner::{
    ran_from, dispatched_as, run_order, run_saves, saved_as, saves_follow, StageDefinition, StageDispatch, StageProgress,
    StageRunner, StateStore, StoreCall, WorkflowState,
};
use vstd::prelude::*;

verus! {

/// What an install run records between its stages.
#[derive(Debug, Clone)]
pub struct PipelineState {
    pub progress: StageProgress,
    /// Devices the disk stage formatted, in order.
    pub formatted_devices: Vec<String>,
    /// Whether the kernel fix was applied.
    pub boot_stage_completed: bool,
}

impl PipelineState {
    pub fn new(dry_run: bool) -> (r: Self)
        ensures
            r.progress.completed@.len() == 0,
            r.progress.dry_run == dry_run,
            r.progress.current is None,
            r.formatted_devices@.len() == 0,
            !r.boot_stage_completed,
    {
        PipelineState { progress: StageProgress::new(dry_run), formatted_devices: Vec::new(), boot_stage_completed: false }
    }
}

impl WorkflowState for PipelineState {
    open spec fn completed_stages(&self) -> Set<Seq<char>> {
        self.progress.completed_stages()
    }

    fn is_completed(&self, stage: &str) -> (r: bool) {
        self.progress.is_completed(stage)
    }

    fn set_current(&mut self, stage: &str)
        ensures
            *final(self) == (PipelineState { progress: final(self).progress, ..*old(self) }),
    {
        self.progress.set_current(stage);
    }

    fn mark_completed(&mut self, stage: &str)
        ensures
            *final(self) == (PipelineState { progress: final(self).progress, ..*old(self) }),
    {
        self.progress.mark_completed(stage);
    }
}

/// The outside work of the pipeline's stages.
pub trait StageServices {
    /// The preflight checks' reads, decided by the library's preflight rules.
    fn preflight(&mut self, cfg: &PreflightConfig) -> Result<(), String>;

    /// Fetches what the download stage asks for.
    fn download(&mut self, request: &DownloadRequest) -> Result<(), String>;

    /// Patches the boot configuration under `root` for a USB root.
    fn apply_kernel_fix(&mut self, root: &str, mountinfo: &str, by_uuid: &str) -> Result<(), String>;

    /// Updates the package index and installs `packages`.
    fn install_packages(&mut self, packages: &Vec<String>, dry_run: bool) -> Result<(), String>;

    /// Installs and enables the resume unit and requests a reboot.
    fn install_resume_unit(&mut self, cfg: &ResumeStageConfig) -> Result<(), String>;

    /// Reports a stage that only describes itself.
    fn announce(&mut self, description: &str);
}

// ---------------------------------------------------------------------------
// The state as text
// ---------------------------------------------------------------------------

/// One line per record: `dry-run`, then `completed <stage>` for each
/// completed stage, `formatted <device>` for each formatted device, and
/// `boot-completed`.
pub open spec fn state_lines(s: PipelineState) -> Seq<Seq<char>> {
    (if s.progress.dry_run { seq!["dry-run"@] } else { seq![] })
        + completed_lines(views_of(s.progress.completed@))
        + formatted_lines(views_of(s.formatted_devices@))
        + (if s.boot_stage_completed { seq!["boot-completed"@] } else { seq![] })
}

/// A `completed <stage>` line for each stage.
pub open spec fn completed_lines(cs: Seq<Seq<char>>) -> Seq<Seq<char>> {
    cs.map_values(|c: Seq<char>| "completed "@ + c)
}

/// A `formatted <device>` line for each device.
pub open spec fn formatted_lines(ds: Seq<Seq<char>>) -> Seq<Seq<char>> {
    ds.map_values(|d: Seq<char>| "formatted "@ + d)
}

/// The lines, each ended by a newline.
pub open spec fn terminated(ls: Seq<Seq<char>>) -> Seq<char>
    decreases ls.len(),
{
    if ls.len() == 0 {
        Seq::empty()
    } else {
        terminated(ls.drop_last()) + ls.last() + "\n"@
    }
}

/// A line that reads back as itself: no newline in it and no carriage
/// return at its end.
pub open spec fn plain_line(l: Seq<char>) -> bool {
    !l.contains('\n') && !(l.len() > 0 && l.last() == '\r')
}

/// Lines written one per line read back as the same lines.
pub proof fn lemma_lines_of_terminated(ls: Seq<Seq<char>>)
    requires
        forall|i: int| 0 <= i < ls.len() ==> plain_line(#[trigger] ls[i]),
    ensures
        split_char(terminated(ls), '\n') == ls.push(Seq::<char>::empty()),
        lines(terminated(ls)) == ls,
    decreases ls.len(),
{
    reveal_strlit("\n");
    if ls.len() == 0 {
        assert(split_char(terminated(ls), '\n') =~= ls.push(Seq::<char>::empty()));
    } else {
        let dl = ls.drop_last();
        assert forall|i: int| 0 <= i < dl.len() implies plain_line(#[trigger] dl[i]) by {
            assert(dl[i] == ls[i]);
        }
        lemma_lines_of_terminated(dl);
        let t0 = terminated(dl);
        let last = ls.last();
        assert(plain_line(ls[ls.len() - 1]));
        lemma_split_char_append(t0, last, '\n');
        let t1 = t0 + last;
        assert(split_char(t1, '\n') =~= dl.push(last));
        let t = terminated(ls);
        assert(t == t1 + "\n"@);
        assert(t.drop_last() =~= t1);
        assert(t.last() == '\n');
        assert(split_char(t, '\n') == split_char(t1, '\n').push(Seq::<char>::empty()));
        assert(dl.push(last) =~= ls);
    }
    let p = split_char(terminated(ls), '\n');
    assert(p.drop_last() =~= ls);
    assert(ls.map_values(|l: Seq<char>| strip_cr(l)) =~= ls) by {
        assert forall|i: int| 0 <= i < ls.len() implies strip_cr(ls[i]) == ls[i] by {
            assert(plain_line(ls[i]));
        }
    }
}

fn push_record(out: &mut String, lines: Ghost<Seq<Seq<char>>>, prefix: &str, value: &str)
    requires
        old(out)@ == terminated(lines@),
    ensures
        final(out)@ == terminated(lines@.push(prefix@ + value@)),
{
    push_str(out, prefix);
    push_str(out, value);
    push_str(out, "\n");
    proof {
        let l = lines@.push(prefix@ + value@);
        assert(l.drop_last() =~= lines@);
        assert(final(out)@ =~= terminated(lines@) + (prefix@ + value@) + "\n"@);
    }
}

/// The text an install state is stored as.
pub fn state_text(s: &PipelineState) -> (r: String)
    ensures
        r@ == terminated(state_lines(*s)),
{
    let mut out = String::new();
    let ghost mut ls: Seq<Seq<char>> = Seq::empty();
    if s.progress.dry_run {
        push_record(&mut out, Ghost(ls), "dry-run", "");
        proof {
            reveal_strlit("");
            ls = ls.push("dry-run"@ + ""@);
            assert("dry-run"@ + ""@ =~= "dry-run"@);
        }
    }
    let ghost head = ls;
    assert(head =~= (if s.progress.dry_run { seq!["dry-run"@] } else { seq![] }));
    let mut i: usize = 0;
    while i < s.progress.completed.len()
        invariant
            i <= s.progress.completed.len(),
            ls == head + completed_lines(views_of(s.progress.completed@)).take(i as int),
            out@ == terminated(ls),
        decreases s.progress.completed.len() - i,
    {
        push_record(&mut out, Ghost(ls), "completed ", s.progress.completed[i].as_str());
        proof {
            let m = completed_lines(views_of(s.progress.completed@));
            assert(m.take(i + 1) =~= m.take(i as int).push(m[i as int]));
            ls = ls.push("completed "@ + s.progress.completed@[i as int]@);
        }
        i += 1;
    }
    let ghost mid = ls;
    assert(completed_lines(views_of(s.progress.completed@)).take(
        s.progress.completed.len() as int,
    ) =~= completed_lines(views_of(s.progress.completed@)));
    let mut j: usize = 0;
    while j < s.formatted_devices.len()
        invariant
            j <= s.formatted_devices.len(),
            ls == mid + formatted_lines(views_of(s.formatted_devices@)).take(j as int),
            out@ == terminated(ls),
        decreases s.formatted_devices.len() - j,
    {
        push_record(&mut out, Ghost(ls), "formatted ", s.formatted_devices[j].as_str());
        proof {
            let m = formatted_lines(views_of(s.formatted_devices@));
            assert(m.take(j + 1) =~= m.take(j as int).push(m[j as int]));
            ls = ls.push("formatted "@ + s.formatted_devices@[j as int]@);
        }
        j += 1;
    }
    assert(formatted_lines(views_of(s.formatted_devices@)).take(
        s.formatted_devices.len() as int,
    ) =~= formatted_lines(views_of(s.formatted_devices@)));
    let ghost tail = ls;
    if s.boot_stage_completed {
        push_record(&mut out, Ghost(ls), "boot-completed", "");
        proof {
            reveal_strlit("");
            assert("boot-completed"@ + ""@ =~= "boot-completed"@);
            ls = ls.push("boot-completed"@);
        }
    }
    assert(ls =~= state_lines(*s));
    out
}

/// The state read back from its lines: each line adds its record; other
/// lines are ignored.
pub open spec fn state_of_lines(ls: Seq<Seq<char>>) -> (bool, Seq<Seq<char>>, Seq<Seq<char>>, bool)
    decreases ls.len(),
{
    if ls.len() == 0 {
        (false, Seq::empty(), Seq::empty(), false)
    } else {
        let (dry, completed, formatted, boot) = state_of_lines(ls.drop_last());
        let l = ls.last();
        match strip_prefix(l, "completed "@) {
            Some(c) => (dry, completed.push(c), formatted, boot),
            None => match strip_prefix(l, "formatted "@) {
                Some(d) => (dry, completed, formatted.push(d), boot),
                None => if l == "boot-completed"@ {
                    (dry, completed, formatted, true)
                } else if l == "dry-run"@ {
                    (true, completed, formatted, boot)
                } else {
                    (dry, completed, formatted, boot)
                },
            },
        }
    }
}

pub open spec fn state_view(s: PipelineState) -> (bool, Seq<Seq<char>>, Seq<Seq<char>>, bool) {
    (s.progress.dry_run, views_of(s.progress.completed@), views_of(s.formatted_devices@), s.boot_stage_completed)
}

proof fn lemma_state_of_lines_push(ls: Seq<Seq<char>>, l: Seq<char>)
    ensures
        state_of_lines(ls.push(l)) == ({
            let (dry, completed, formatted, boot) = state_of_lines(ls);
            match strip_prefix(l, "completed "@) {
                Some(c) => (dry, completed.push(c), formatted, boot),
                None => match strip_prefix(l, "formatted "@) {
                    Some(d) => (dry, completed, formatted.push(d), boot),
                    None => if l == "boot-completed"@ {
                        (dry, completed, formatted, true)
                    } else if l == "dry-run"@ {
                        (true, completed, formatted, boot)
                    } else {
                        (dry, completed, formatted, boot)
                    },
                },
            }
        }),
{
    assert(ls.push(l).drop_last() =~= ls);
}

proof fn lemma_read_completed(pre: Seq<Seq<char>>, cs: Seq<Seq<char>>, k: int)
    requires
        0 <= k <= cs.len(),
    ensures
        state_of_lines(pre + completed_lines(cs).take(k)) == ({
            let st = state_of_lines(pre);
            (st.0, st.1 + cs.take(k), st.2, st.3)
        }),
    decreases k,
{
    reveal_strlit("completed ");
    let st = state_of_lines(pre);
    if k == 0 {
        assert(pre + completed_lines(cs).take(0) =~= pre);
        assert(st.1 + cs.take(0) =~= st.1);
    } else {
        lemma_read_completed(pre, cs, k - 1);
        let l = "completed "@ + cs[k - 1];
        assert(completed_lines(cs)[k - 1] == l);
        assert(pre + completed_lines(cs).take(k) =~= (pre + completed_lines(cs).take(k - 1)).push(l));
        lemma_state_of_lines_push(pre + completed_lines(cs).take(k - 1), l);
        assert(l.subrange(0, 10) =~= "completed "@);
        assert(l.subrange(10, l.len() as int) =~= cs[k - 1]);
        assert(strip_prefix(l, "completed "@) == Some(cs[k - 1]));
        assert(st.1 + cs.take(k) =~= (st.1 + cs.take(k - 1)).push(cs[k - 1]));
    }
}

proof fn lemma_read_formatted(pre: Seq<Seq<char>>, ds: Seq<Seq<char>>, k: int)
    requires
        0 <= k <= ds.len(),
    ensures
        state_of_lines(pre + formatted_lines(ds).take(k)) == ({
            let st = state_of_lines(pre);
            (st.0, st.1, st.2 + ds.take(k), st.3)
        }),
    decreases k,
{
    reveal_strlit("completed ");
    reveal_strlit("formatted ");
    let st = state_of_lines(pre);
    if k == 0 {
        assert(pre + formatted_lines(ds).take(0) =~= pre);
        assert(st.2 + ds.take(0) =~= st.2);
    } else {
        lemma_read_formatted(pre, ds, k - 1);
        let l = "formatted "@ + ds[k - 1];
        assert(formatted_lines(ds)[k - 1] == l);
        assert(pre + formatted_lines(ds).take(k) =~= (pre + formatted_lines(ds).take(k - 1)).push(l));
        lemma_state_of_lines_push(pre + formatted_lines(ds).take(k - 1), l);
        assert(l.subrange(0, 10)[0] != "completed "@[0]);
        assert(strip_prefix(l, "completed "@) is None);
        assert(l.subrange(0, 10) =~= "formatted "@);
        assert(l.subrange(10, l.len() as int) =~= ds[k - 1]);
        assert(strip_prefix(l, "formatted "@) == Some(ds[k - 1]));
        assert(st.2 + ds.take(k) =~= (st.2 + ds.take(k - 1)).push(ds[k - 1]));
    }
}

/// An install state written by `state_text` reads back through
/// `parse_state_text` as the same records (the running stage is not kept),
/// when no stage name or device holds a newline or ends with a carriage
/// return.
pub proof fn lemma_state_text_reads_back(s: PipelineState)
    requires
        forall|i: int| 0 <= i < s.progress.completed@.len() ==> plain_line(#[trigger] s.progress.completed@[i]@),
        forall|i: int| 0 <= i < s.formatted_devices@.len() ==> plain_line(#[trigger] s.formatted_devices@[i]@),
    ensures
        state_of_lines(lines(terminated(state_lines(s)))) == state_view(s),
{
    reveal_strlit("completed ");
    reveal_strlit("formatted ");
    reveal_strlit("dry-run");
    reveal_strlit("boot-completed");
    let cs = views_of(s.progress.completed@);
    let ds = views_of(s.formatted_devices@);
    let d0: Seq<Seq<char>> = if s.progress.dry_run { seq!["dry-run"@] } else { seq![] };
    let b: Seq<Seq<char>> = if s.boot_stage_completed { seq!["boot-completed"@] } else { seq![] };
    let ls = state_lines(s);
    assert(ls == d0 + completed_lines(cs) + formatted_lines(ds) + b);
    assert forall|i: int| 0 <= i < ls.len() implies plain_line(#[trigger] ls[i]) by {
        if i < d0.len() {
            assert(ls[i] == "dry-run"@);
            assert(!"dry-run"@.contains('\n')) by {
                if "dry-run"@.contains('\n') {
                    let k = choose|k: int| 0 <= k < "dry-run"@.len() && "dry-run"@[k] == '\n';
                }
            }
        } else if i < d0.len() + cs.len() {
            let j = i - d0.len();
            assert(ls[i] == "completed "@ + cs[j]);
            assert(cs[j] == s.progress.completed@[j]@);
            assert(plain_line(s.progress.completed@[j]@));
            let l = "completed "@ + cs[j];
            assert(!l.contains('\n')) by {
                if l.contains('\n') {
                    let k = choose|k: int| 0 <= k < l.len() && l[k] == '\n';
                    if k >= 10 {
                        assert(cs[j][k - 10] == '\n');
                    }
                }
            }
        } else if i < d0.len() + cs.len() + ds.len() {
            let j = i - d0.len() - cs.len();
            assert(ls[i] == "formatted "@ + ds[j]);
            assert(ds[j] == s.formatted_devices@[j]@);
            assert(plain_line(s.formatted_devices@[j]@));
            let l = "formatted "@ + ds[j];
            assert(!l.contains('\n')) by {
                if l.contains('\n') {
                    let k = choose|k: int| 0 <= k < l.len() && l[k] == '\n';
                    if k >= 10 {
                        assert(ds[j][k - 10] == '\n');
                    }
                }
            }
        } else {
            assert(ls[i] == "boot-completed"@);
            assert(!"boot-completed"@.contains('\n')) by {
                if "boot-completed"@.contains('\n') {
                    let k = choose|k: int| 0 <= k < "boot-completed"@.len() && "boot-completed"@[k] == '\n';
                }
            }
        }
    }
    lemma_lines_of_terminated(ls);
    // the dry-run line
    let empty: Seq<Seq<char>> = Seq::empty();
    assert(state_of_lines(empty) == (false, Seq::<Seq<char>>::empty(), Seq::<Seq<char>>::empty(), false));
    if s.progress.dry_run {
        assert(d0 =~= empty.push("dry-run"@));
        lemma_state_of_lines_push(empty, "dry-run"@);
        assert(strip_prefix("dry-run"@, "completed "@) is None);
        assert(strip_prefix("dry-run"@, "formatted "@) is None);
        assert("dry-run"@ != "boot-completed"@);
    }
    assert(state_of_lines(d0) == (s.progress.dry_run, Seq::<Seq<char>>::empty(), Seq::<Seq<char>>::empty(), false));
    lemma_read_completed(d0, cs, cs.len() as int);
    assert(completed_lines(cs).take(cs.len() as int) =~= completed_lines(cs));
    assert(Seq::<Seq<char>>::empty() + cs.take(cs.len() as int) =~= cs);
    let p1 = d0 + completed_lines(cs);
    lemma_read_formatted(p1, ds, ds.len() as int);
    assert(formatted_lines(ds).take(ds.len() as int) =~= formatted_lines(ds));
    assert(Seq::<Seq<char>>::empty() + ds.take(ds.len() as int) =~= ds);
    let p2 = p1 + formatted_lines(ds);
    if s.boot_stage_completed {
        assert(ls =~= p2.push("boot-completed"@));
        lemma_state_of_lines_push(p2, "boot-completed"@);
        assert("boot-completed"@.subrange(0, 10)[0] != "completed "@[0]);
        assert(strip_prefix("boot-completed"@, "completed "@) is None);
        assert("boot-completed"@.subrange(0, 10)[0] != "formatted "@[0]);
        assert(strip_prefix("boot-completed"@, "formatted "@) is None);
    } else {
        assert(ls =~= p2);
    }
}

/// Reads an install state back from its text.
pub fn parse_state_text(text: &str) -> (r: PipelineState)
    ensures
        state_view(r) == state_of_lines(lines(text@)),
        r.progress.current is None,
{
    let chars = chars_of(text);
    let ls = lines_vec(&chars);
    let ghost all = lines(text@);
    let mut state = PipelineState::new(false);
    let mut i: usize = 0;
    assert(views_of(state.progress.completed@) =~= Seq::<Seq<char>>::empty());
    assert(views_of(state.formatted_devices@) =~= Seq::<Seq<char>>::empty());
    while i < ls.len()
        invariant
            i <= ls.len(),
            all == crate::text::views(ls@),
            state.progress.current is None,
            state_view(state) == state_of_lines(all.subrange(0, i as int)),
        decreases ls.len() - i,
    {
        let ghost pre = all.subrange(0, i + 1);
        assert(pre.drop_last() =~= all.subrange(0, i as int));
        assert(pre.last() == ls@[i as int]@);
        let line = &ls[i];
        if let Some(c) = strip_prefix_str(line, "completed ") {
            let ghost before = views_of(state.progress.completed@);
            state.progress.completed.push(string_of(&c));
            assert(views_of(state.progress.completed@) =~= before.push(c@));
        } else if let Some(d) = strip_prefix_str(line, "formatted ") {
            let ghost before = views_of(state.formatted_devices@);
            state.formatted_devices.push(string_of(&d));
            assert(views_of(state.formatted_devices@) =~= before.push(d@));
        } else if vec_eq(line, &chars_of("boot-completed")) {
            state.boot_stage_completed = true;
        } else if vec_eq(line, &chars_of("dry-run")) {
            state.progress.dry_run = true;
        }
        i += 1;
    }
    assert(all.subrange(0, ls.len() as int) =~= all);
    state
}

/// Where install states are kept, by state path.
pub trait StateFiles {
    fn load_state(&self, path: &str) -> Result<Option<PipelineState>, String>;

    fn save_state(&self, path: &str, state: &PipelineState) -> Result<(), String>;
}

/// The store of one state path, with the record of the loads and saves made
/// through it.
pub struct PathStore<'a, P: StateFiles> {
    pub files: &'a P,
    pub path: &'a str,
    pub record: Ghost<Seq<StoreCall<PipelineState>>>,
}

impl<'a, P: StateFiles> StateStore<PipelineState> for PathStore<'a, P> {
    open spec fn keeps_record(&self) -> bool {
        true
    }

    open spec fn store_calls(&self) -> Seq<StoreCall<PipelineState>> {
        self.record@
    }

    fn load(&mut self) -> (r: Result<Option<PipelineState>, String>) {
        let r = self.files.load_state(self.path);
        self.record = Ghost(self.record@.push(StoreCall::Load { answer: r }));
        r
    }

    fn save(&mut self, state: &PipelineState) -> (r: Result<(), String>) {
        let r = self.files.save_state(self.path, state);
        self.record = Ghost(self.record@.push(StoreCall::Save { state: *state, answer: r }));
        r
    }
}

/// Runs the stage tasks against a HAL, a mount-point maker and the services.
pub struct TaskDispatch<'a, 'b, H: FormatOps + MountOps, D: MountPointMaker, X: StageServices> {
    pub hal: &'a mut H,
    pub dirs: &'a mut D,
    pub services: &'a mut X,
    /// The tasks run so far, with their dry-run flags and answers.
    pub log: Ghost<Seq<(&'b StageTask, bool, Result<(), WorkflowError>)>>,
}

fn stage_error(stage: &str, message: String) -> (e: WorkflowError)
    ensures
        e matches WorkflowError::Stage { stage: s, message: m } && s@ == stage@ && m@ == message@,
{
    WorkflowError::Stage { stage: String::from_str(stage), message }
}

fn append_devices(state: &mut PipelineState, devices: Vec<String>)
    ensures
        *final(state) == (PipelineState { formatted_devices: final(state).formatted_devices, ..*old(state) }),
        views_of(final(state).formatted_devices@) == views_of(old(state).formatted_devices@) + views_of(devices@),
{
    let ghost start = views_of(state.formatted_devices@);
    let ghost s0 = *state;
    let mut i: usize = 0;
    while i < devices.len()
        invariant
            i <= devices.len(),
            *state == (PipelineState { formatted_devices: state.formatted_devices, ..s0 }),
            start == views_of(s0.formatted_devices@),
            views_of(state.formatted_devices@) == start + views_of(devices@).take(i as int),
        decreases devices.len() - i,
    {
        let ghost before = views_of(state.formatted_devices@);
        let d = devices[i].clone();
        state.formatted_devices.push(d);
        assert(views_of(state.formatted_devices@) =~= before.push(devices@[i as int]@));
        assert(views_of(devices@).take(i + 1) =~= views_of(devices@).take(i as int).push(devices@[i as int]@));
        i += 1;
    }
    assert(views_of(devices@).take(devices.len() as int) =~= views_of(devices@));
}

impl<'a, 'b, H: FormatOps + MountOps, D: MountPointMaker, X: StageServices> TaskDispatch<'a, 'b, H, D, X> {
    /// Runs one stage task: the download and kernel-fix decisions and the disk
    /// and mount stages are the library's; what they ask for from outside goes
    /// to the services.  A failure of the services is reported under the
    /// stage's name; a failure of the HAL as it is.
    pub fn run_stage_task(&mut self, task: &StageTask, state: &mut PipelineState, dry_run: bool) -> (r: Result<(), WorkflowError>)
        ensures
            final(self).log == old(self).log,
            final(state).progress == old(state).progress,
            task is Announce ==> r is Ok && *final(state) == *old(state),
            task matches StageTask::Download(c) ==> ((!c.enabled || dry_run) ==> (r is Ok && *final(state) == *old(state))),
            task matches StageTask::Mount(c) ==> ((c.mounts.len() == 0 || dry_run) ==> r is Ok),
            task matches StageTask::Format(c) ==> (r is Ok ==> if dry_run {
                *final(state) == *old(state)
            } else {
                views_of(final(state).formatted_devices@) == views_of(old(state).formatted_devices@) + views_of(
                    c.format_ext4@,
                ) + views_of(c.format_btrfs@)
            }),
            task matches StageTask::Package(c) ==> (c.packages.len() == 0 ==> (r is Ok && *final(state) == *old(state))),
            task matches StageTask::KernelFix(c) ==> (!c.enabled ==> (r is Ok && *final(state) == *old(state))),
            task matches StageTask::KernelFix(c) ==> (c.enabled && c.root is None ==> (r matches Err(e) && (e matches WorkflowError::Stage { stage, message } && stage@ == "Kernel fix check"@ && message@ == "kernel_fix_root is required for boot stage"@))),
            task matches StageTask::KernelFix(c) ==> (c.enabled && dry_run && c.root is Some && c.mountinfo is Some && c.by_uuid is Some ==> (r is Ok && *final(state) == *old(state))),
            task matches StageTask::KernelFix(c) ==> (r is Ok && c.enabled && !dry_run ==> final(state).boot_stage_completed),
            task matches StageTask::Resume(c) ==> ((!old(state).boot_stage_completed || dry_run) ==> (r is Ok && *final(state) == *old(state))),
    {
        match task {
            StageTask::Preflight(cfg) => match self.services.preflight(cfg) {
                Ok(()) => Ok(()),
                Err(m) => Err(stage_error("Preflight", m)),
            },
            StageTask::Download(cfg) => match download_stage_request(cfg, dry_run) {
                None => Ok(()),
                Some(req) => match self.services.download(&req) {
                    Ok(()) => Ok(()),
                    Err(m) => Err(stage_error("Download assets", m)),
                },
            },
            StageTask::Mount(cfg) => match run_mount_stage(self.hal, self.dirs, cfg, dry_run) {
                Ok(()) => Ok(()),
                Err(e) => Err(WorkflowError::Hal(e)),
            },
            StageTask::Format(cfg) => match run_disk_stage(self.hal, cfg, dry_run) {
                Ok(devices) => {
                    if !dry_run {
                        append_devices(state, devices);
                    }
                    Ok(())
                },
                Err(e) => Err(WorkflowError::Hal(e)),
            },
            StageTask::Package(cfg) => {
                if cfg.packages.len() == 0 {
                    return Ok(());
                }
                match self.services.install_packages(&cfg.packages, dry_run) {
                    Ok(()) => Ok(()),
                    Err(m) => Err(stage_error("Package plan", m)),
                }
            },
            StageTask::KernelFix(cfg) => match plan_boot_stage(cfg, dry_run) {
                Err(e) => Err(e),
                Ok(BootStageStep::Skip) => Ok(()),
                Ok(BootStageStep::DryRun) => Ok(()),
                Ok(BootStageStep::Apply { root, mountinfo, by_uuid }) => match self.services.apply_kernel_fix(
                    root.as_str(),
                    mountinfo.as_str(),
                    by_uuid.as_str(),
                ) {
                    Ok(()) => {
                        state.boot_stage_completed = true;
                        Ok(())
                    },
                    Err(m) => Err(stage_error("Kernel fix check", m)),
                },
            },
            StageTask::Resume(cfg) => {
                if !state.boot_stage_completed || dry_run {
                    return Ok(());
                }
                match self.services.install_resume_unit(cfg) {
                    Ok(()) => Ok(()),
                    Err(m) => Err(stage_error("Resume unit", m)),
                }
            },
            StageTask::Announce { description } => {
                self.services.announce(description.as_str());
                Ok(())
            },
        }
    }
}

impl<'a, 'b, H: FormatOps + MountOps, D: MountPointMaker, X: StageServices> StageDispatch<PipelineState, &'b StageTask> for TaskDispatch<'a, 'b, H, D, X> {
    open spec fn dispatched(&self) -> Seq<(&'b StageTask, bool, Result<(), WorkflowError>)> {
        self.log@
    }

    fn run_task(&mut self, task: &&'b StageTask, state: &mut PipelineState, dry_run: bool) -> (r: Result<(), WorkflowError>) {
        let r = self.run_stage_task(*task, state, dry_run);
        self.log = Ghost(self.log@.push((*task, dry_run, r)));
        r
    }
}

/// The name under which the install state records a stage: its plan name.
pub open spec fn stage_key(n: StageName) -> Seq<char> {
    match n {
        StageName::Preflight => "Preflight"@,
        StageName::DownloadAssets => "Download assets"@,
        StageName::MountPlan => "Mount plan"@,
        StageName::FormatPlan => "Format plan"@,
        StageName::PackagePlan => "Package plan"@,
        StageName::KernelFixCheck => "Kernel fix check"@,
        StageName::ResumeUnit => "Resume unit"@,
        StageName::Named(s) => s@,
    }
}

pub fn stage_key_of(n: &StageName) -> (r: &str)
    ensures
        r@ == stage_key(*n),
{
    match n {
        StageName::Preflight => "Preflight",
        StageName::DownloadAssets => "Download assets",
        StageName::MountPlan => "Mount plan",
        StageName::FormatPlan => "Format plan",
        StageName::PackagePlan => "Package plan",
        StageName::KernelFixCheck => "Kernel fix check",
        StageName::ResumeUnit => "Resume unit",
        StageName::Named(s) => s.as_str(),
    }
}

/// The pipeline's stages as the stage runner takes them.
fn runner_stages<'b>(stages: &'b Vec<PipelineStage>) -> (r: Vec<StageDefinition<'b, &'b StageTask>>)
    ensures
        r.len() == stages.len(),
        forall|i: int| 0 <= i < r.len() ==> (#[trigger] r@[i]).name@ == stage_key(stages@[i].name) && *r@[i].run
            == stages@[i].task,
{
    let mut out: Vec<StageDefinition<'b, &'b StageTask>> = Vec::new();
    let mut i: usize = 0;
    while i < stages.len()
        invariant
            i <= stages.len(),
            out.len() == i,
            forall|j: int| 0 <= j < i ==> (#[trigger] out@[j]).name@ == stage_key(stages@[j].name) && *out@[j].run
                == stages@[j].task,
        decreases stages.len() - i,
    {
        out.push(StageDefinition { name: stage_key_of(&stages[i].name), run: &stages[i].task });
        i += 1;
    }
    out
}

/// The tasks a pipeline run dispatches when it starts from the completion
/// records `done`: in order, the task of each stage whose key is not yet
/// recorded (a key is recorded once its stage ran); with the records after
/// the run.
pub open spec fn pipeline_order(done: Set<Seq<char>>, stages: Seq<PipelineStage>) -> (Seq<StageTask>, Set<Seq<char>>)
    decreases stages.len(),
{
    if stages.len() == 0 {
        (Seq::empty(), done)
    } else {
        let prev = pipeline_order(done, stages.drop_last());
        let st = stages.last();
        if prev.1.contains(stage_key(st.name)) {
            prev
        } else {
            (prev.0.push(st.task), prev.1.insert(stage_key(st.name)))
        }
    }
}

/// The completion records of the states a pipeline run hands its state
/// file, in order, when it starts from the records `done`: for each stage it
/// runs, the records before the stage and then with the stage's key added.
pub open spec fn pipeline_saves(done: Set<Seq<char>>, stages: Seq<PipelineStage>) -> Seq<Set<Seq<char>>>
    decreases stages.len(),
{
    if stages.len() == 0 {
        Seq::empty()
    } else {
        let prev = pipeline_saves(done, stages.drop_last());
        let d = pipeline_order(done, stages.drop_last()).1;
        let key = stage_key(stages.last().name);
        if d.contains(key) {
            prev
        } else {
            prev.push(d).push(d.insert(key))
        }
    }
}

/// What a pipeline run did, read from the tasks it dispatched (`added`),
/// for a run that started from the completion records `done`: the tasks are
/// a prefix of `pipeline_order`, each given the run's dry-run flag; every
/// task but the last succeeded, and a failed last task is the run's error;
/// a successful run dispatched them all and ends with the records
/// `pipeline_order` gives; any other error is the store's.
pub open spec fn pipeline_ran(
    added: Seq<(StageTask, bool, Result<(), WorkflowError>)>,
    done: Set<Seq<char>>,
    stages: Seq<PipelineStage>,
    dry_run: bool,
    r: Result<PipelineState, WorkflowError>,
) -> bool {
    let order = pipeline_order(done, stages);
    &&& added.len() <= order.0.len()
    &&& forall|k: int| 0 <= k < added.len() ==> (#[trigger] added[k]).0 == order.0[k] && added[k].1 == dry_run
    &&& forall|k: int| 0 <= k < added.len() - 1 ==> (#[trigger] added[k]).2 is Ok
    &&& (added.len() > 0 && added.last().2 is Err) ==> r == Err::<PipelineState, WorkflowError>(added.last().2->Err_0)
    &&& match r {
        Ok(st) => added.len() == order.0.len() && (added.len() > 0 ==> added.last().2 is Ok)
            && st.completed_stages() == order.1,
        Err(e) => e is Store || (added.len() > 0 && added.last().2 == Err::<(), WorkflowError>(e)),
    }
}

/// The runner's definitions of the pipeline's stages order the same tasks.
proof fn lemma_pipeline_order<'b>(done: Set<Seq<char>>, defs: Seq<StageDefinition<'b, &'b StageTask>>, stages: Seq<PipelineStage>)
    requires
        defs.len() == stages.len(),
        forall|i: int| 0 <= i < defs.len() ==> (#[trigger] defs[i]).name@ == stage_key(stages[i].name) && *defs[i].run
            == stages[i].task,
    ensures
        run_order(done, defs).1 == pipeline_order(done, stages).1,
        run_order(done, defs).0.len() == pipeline_order(done, stages).0.len(),
        forall|k: int| 0 <= k < run_order(done, defs).0.len() ==> *#[trigger] run_order(done, defs).0[k]
            == pipeline_order(done, stages).0[k],
        run_saves(done, defs) == pipeline_saves(done, stages),
    decreases defs.len(),
{
    if defs.len() > 0 {
        let dl = defs.drop_last();
        let sl = stages.drop_last();
        assert forall|i: int| 0 <= i < dl.len() implies (#[trigger] dl[i]).name@ == stage_key(sl[i].name) && *dl[i].run
            == sl[i].task by {
            assert(dl[i] == defs[i]);
        }
        lemma_pipeline_order(done, dl, sl);
        assert(defs.last() == defs[defs.len() - 1]);
    } else {
        assert(run_saves(done, defs) =~= pipeline_saves(done, stages));
    }
}

/// A fresh install state: no stage recorded.
fn fresh_state(dry_run: bool) -> (p: PipelineState)
    ensures
        p.completed_stages() == Set::<Seq<char>>::empty(),
{
    let p = PipelineState::new(dry_run);
    proof {
        assert(views_of(p.progress.completed@).to_set() =~= Set::<Seq<char>>::empty());
    }
    p
}

/// The tasks of a dispatch record, with their flags and answers.
pub open spec fn tasks_of<'b>(log: Seq<(&'b StageTask, bool, Result<(), WorkflowError>)>) -> Seq<(StageTask, bool, Result<(), WorkflowError>)> {
    log.map_values(|e: (&'b StageTask, bool, Result<(), WorkflowError>)| (*e.0, e.1, e.2))
}

/// A pipeline run on what the state file answered (`loaded`), read from the
/// tasks it ran and the loads and saves it made after: a read error ends it
/// with that error, running and saving nothing; otherwise it ran as
/// `pipeline_ran` says from the stored state's records (or a fresh state's),
/// saving as `saves_follow` says of the plan `pipeline_saves`.
pub open spec fn pipeline_run_on(
    loaded: Result<Option<PipelineState>, String>,
    tasks: Seq<(StageTask, bool, Result<(), WorkflowError>)>,
    calls: Seq<StoreCall<PipelineState>>,
    stages: Seq<PipelineStage>,
    dry_run: bool,
    r: Result<PipelineState, WorkflowError>,
) -> bool {
    match loaded {
        Err(m) => r == Err::<PipelineState, WorkflowError>(WorkflowError::Store(m)) && tasks.len() == 0 && calls.len()
            == 0,
        Ok(stored) => {
            let done = match stored {
                Some(st) => st.completed_stages(),
                None => Set::empty(),
            };
            pipeline_ran(tasks, done, stages, dry_run, r) && saves_follow(
                calls,
                pipeline_saves(done, stages),
                true,
                tasks,
                r,
            )
        },
    }
}

/// What a pipeline run that loads its state first did, seen from the
/// executor's records before and after: one load, then a run on its answer.
pub open spec fn pipeline_loaded_and_ran(
    calls_before: Seq<StoreCall<PipelineState>>,
    calls_after: Seq<StoreCall<PipelineState>>,
    tasks_before: Seq<(StageTask, bool, Result<(), WorkflowError>)>,
    tasks_after: Seq<(StageTask, bool, Result<(), WorkflowError>)>,
    stages: Seq<PipelineStage>,
    dry_run: bool,
    r: Result<PipelineState, WorkflowError>,
) -> bool {
    &&& calls_after.len() > calls_before.len()
    &&& calls_after.take(calls_before.len() as int) == calls_before
    &&& tasks_after.len() >= tasks_before.len()
    &&& tasks_after.take(tasks_before.len() as int) == tasks_before
    &&& calls_after[calls_before.len() as int] matches StoreCall::Load { answer } && pipeline_run_on(
        answer,
        tasks_after.skip(tasks_before.len() as int),
        calls_after.skip(calls_before.len() as int + 1),
        stages,
        dry_run,
        r,
    )
}

proof fn lemma_saves_follow_tasks<'b>(
    calls: Seq<StoreCall<PipelineState>>,
    plan: Seq<Set<Seq<char>>>,
    log: Seq<(&'b StageTask, bool, Result<(), WorkflowError>)>,
    r: Result<PipelineState, WorkflowError>,
)
    requires
        saves_follow(calls, plan, true, log, r),
    ensures
        saves_follow(calls, plan, true, tasks_of(log), r),
{
    if log.len() > 0 {
        assert(tasks_of(log).last() == (*log.last().0, log.last().1, log.last().2));
    }
}

/// Runs the pipeline's stages with the library's stage functions.
pub struct PipelineExecutor<H: FormatOps + MountOps, D: MountPointMaker, X: StageServices, P: StateFiles> {
    pub hal: H,
    pub dirs: D,
    pub services: X,
    pub files: P,
    /// The runs asked of it so far: stages, state path, dry-run flag, answer.
    pub record: Ghost<Seq<(Seq<PipelineStage>, Seq<char>, bool, Result<(), WorkflowError>)>>,
    /// The state the last successful run ended with.
    pub last_state: Ghost<Option<PipelineState>>,
    /// The stage tasks run so far, each with its dry-run flag and answer.
    pub tasks: Ghost<Seq<(StageTask, bool, Result<(), WorkflowError>)>>,
    /// The loads and saves of install states made so far, with answers.
    pub file_calls: Ghost<Seq<StoreCall<PipelineState>>>,
}

impl<H: FormatOps + MountOps, D: MountPointMaker, X: StageServices, P: StateFiles> PipelineExecutor<H, D, X, P> {
    pub fn new(hal: H, dirs: D, services: X, files: P) -> (r: Self)
        ensures
            r.hal == hal,
            r.dirs == dirs,
            r.services == services,
            r.files == files,
            r.record@.len() == 0,
            r.last_state@ is None,
            r.tasks@.len() == 0,
            r.file_calls@.len() == 0,
    {
        PipelineExecutor {
            hal,
            dirs,
            services,
            files,
            record: Ghost(Seq::empty()),
            last_state: Ghost(None),
            tasks: Ghost(Seq::empty()),
            file_calls: Ghost(Seq::empty()),
        }
    }

    /// Runs `stages` in order against the state stored at `state_path` (a
    /// fresh one when there is none), as `run_definitions_from` says.
    pub fn run_definitions(&mut self, stages: &Vec<PipelineStage>, state_path: &str, dry_run: bool) -> (r: Result<PipelineState, WorkflowError>)
        ensures
            final(self).record == old(self).record,
            final(self).last_state == old(self).last_state,
            r matches Ok(s) ==> forall|i: int| 0 <= i < stages.len() ==> s.completed_stages().contains(
                #[trigger] stage_key(stages@[i].name),
            ),
            pipeline_loaded_and_ran(
                old(self).file_calls@,
                final(self).file_calls@,
                old(self).tasks@,
                final(self).tasks@,
                stages@,
                dry_run,
                r,
            ),
    {
        let loaded = self.files.load_state(state_path);
        let ghost lg = loaded;
        self.file_calls = Ghost(self.file_calls@.push(StoreCall::Load { answer: loaded }));
        let ghost mid = self.file_calls@;
        let r = self.run_definitions_from(loaded, stages, state_path, dry_run);
        proof {
            let c0 = old(self).file_calls@;
            assert(self.file_calls@.take(c0.len() as int) =~= self.file_calls@.take(mid.len() as int).take(c0.len() as int));
            assert(mid.take(c0.len() as int) =~= c0);
            assert(self.file_calls@[c0.len() as int] == self.file_calls@.take(mid.len() as int)[c0.len() as int]);
            assert(self.file_calls@.skip(c0.len() as int + 1) =~= self.file_calls@.skip(mid.len() as int));
        }
        r
    }

    /// Runs `stages` on what the state files answered for `state_path`
    /// (`loaded`): a read error ends the run before any stage; otherwise the
    /// run starts from the stored state, or a fresh one when there is none,
    /// runs the tasks `pipeline_order` gives from its completion records
    /// (listed in `tasks`), saving the state at `state_path` around each
    /// stage; on success every stage is recorded as completed.
    pub fn run_definitions_from(
        &mut self,
        loaded: Result<Option<PipelineState>, String>,
        stages: &Vec<PipelineStage>,
        state_path: &str,
        dry_run: bool,
    ) -> (r: Result<PipelineState, WorkflowError>)
        ensures
            final(self).record == old(self).record,
            final(self).last_state == old(self).last_state,
            r matches Ok(s) ==> forall|i: int| 0 <= i < stages.len() ==> s.completed_stages().contains(
                #[trigger] stage_key(stages@[i].name),
            ),
            final(self).tasks@.len() >= old(self).tasks@.len(),
            final(self).tasks@.take(old(self).tasks@.len() as int) == old(self).tasks@,
            final(self).file_calls@.len() >= old(self).file_calls@.len(),
            final(self).file_calls@.take(old(self).file_calls@.len() as int) == old(self).file_calls@,
            pipeline_run_on(
                loaded,
                final(self).tasks@.skip(old(self).tasks@.len() as int),
                final(self).file_calls@.skip(old(self).file_calls@.len() as int),
                stages@,
                dry_run,
                r,
            ),
    {
        let ghost lg = loaded;
        let defs = runner_stages(stages);
        let store = PathStore { files: &self.files, path: state_path, record: Ghost(Seq::empty()) };
        let mut runner = StageRunner::new(store, dry_run, fresh_state);
        let mut dispatch = TaskDispatch {
            hal: &mut self.hal,
            dirs: &mut self.dirs,
            services: &mut self.services,
            log: Ghost(Seq::empty()),
        };
        let ghost runner0 = runner;
        let r = runner.run_from(loaded, &defs, &mut dispatch);
        let ghost log = dispatch.log@;
        let ghost rec = runner.store.record@;
        self.tasks = Ghost(self.tasks@ + tasks_of(log));
        self.file_calls = Ghost(self.file_calls@ + rec);
        proof {
            let t0 = old(self).tasks@;
            assert(self.tasks@.take(t0.len() as int) =~= t0);
            assert(self.tasks@.skip(t0.len() as int) =~= tasks_of(log));
            assert(log.skip(0) =~= log);
            if r is Ok {
                let s = r->Ok_0;
                assert forall|i: int| 0 <= i < stages.len() implies s.completed_stages().contains(
                    #[trigger] stage_key(stages@[i].name),
                ) by {
                    assert(defs@[i].name@ == stage_key(stages@[i].name));
                }
            }
            let c0 = old(self).file_calls@;
            assert(self.file_calls@.take(c0.len() as int) =~= c0);
            assert(self.file_calls@.skip(c0.len() as int) =~= rec);
            assert(rec.skip(0) =~= rec);
            if lg is Err {
                assert(rec =~= Seq::<StoreCall<PipelineState>>::empty());
            } else {
                let done: Set<Seq<char>> = match lg {
                    Ok(Some(st)) => st.completed_stages(),
                    _ => Set::empty(),
                };
                if lg->Ok_0 is None {
                    let s0 = choose|s0: PipelineState|
                        call_ensures(runner0.init_state, (runner0.dry_run,), s0) && #[trigger] ran_from(
                            runner0.store,
                            runner.store,
                            log.skip(0),
                            s0.completed_stages(),
                            defs@,
                            runner0.dry_run,
                            runner0.persist,
                            r,
                        );
                    assert(s0.completed_stages() == done);
                }
                assert(ran_from(runner0.store, runner.store, log, done, defs@, runner0.dry_run, runner0.persist, r));
                assert(dispatched_as(log, done, defs@, dry_run, r));
                lemma_pipeline_order(done, defs@, stages@);
                let added = tasks_of(log);
                let order = pipeline_order(done, stages@);
                assert forall|k: int| 0 <= k < added.len() implies (#[trigger] added[k]).0 == order.0[k]
                    && added[k].1 == dry_run by {
                    assert(log[k].0 == run_order(done, defs@).0[k]);
                }
                assert forall|k: int| 0 <= k < added.len() - 1 implies (#[trigger] added[k]).2 is Ok by {
                    assert(log[k].2 is Ok);
                }
                if added.len() > 0 {
                    assert(added.last() == (*log.last().0, log.last().1, log.last().2));
                }
                assert(pipeline_ran(added, done, stages@, dry_run, r));
                assert(saves_follow(rec, run_saves(done, defs@), true, log, r));
                lemma_saves_follow_tasks(rec, pipeline_saves(done, stages@), log, r);
            }
        }
        r
    }
}

impl<H: FormatOps + MountOps, D: MountPointMaker, X: StageServices, P: StateFiles> StageExecutor for PipelineExecutor<H, D, X, P> {
    open spec fn keeps_record(&self) -> bool {
        true
    }

    open spec fn runs(&self) -> Seq<(Seq<PipelineStage>, Seq<char>, bool, Result<(), WorkflowError>)> {
        self.record@
    }

    /// A successful run leaves every stage recorded as completed in the state
    /// it ended with; the run loads the state, runs its tasks and saves as
    /// `pipeline_loaded_and_ran` says, and answers what that run answered.
    fn run_stages(&mut self, stages: &Vec<PipelineStage>, state_path: &str, dry_run: bool) -> (r: Result<(), WorkflowError>)
        ensures
            r is Ok ==> (final(self).last_state@ matches Some(s) && forall|i: int|
                0 <= i < stages.len() ==> s.completed_stages().contains(#[trigger] stage_key(stages@[i].name))),
            exists|rd: Result<PipelineState, WorkflowError>|
                #[trigger] pipeline_loaded_and_ran(
                    old(self).file_calls@,
                    final(self).file_calls@,
                    old(self).tasks@,
                    final(self).tasks@,
                    stages@,
                    dry_run,
                    rd,
                ) && (r is Ok <==> rd is Ok) && (rd matches Err(e) ==> r == Err::<(), WorkflowError>(e)) && (
                rd matches Ok(s) ==> final(self).last_state@ == Some(s)),
    {
        let rd = self.run_definitions(stages, state_path, dry_run);
        let ghost rdg = rd;
        let r = match rd {
            Ok(s) => {
                self.last_state = Ghost(Some(s));
                Ok(())
            },
            Err(e) => Err(e),
        };
        self.record = Ghost(self.record@.push((stages@, state_path@, dry_run, r)));
        proof {
            assert(pipeline_loaded_and_ran(
                old(self).file_calls@,
                self.file_calls@,
                old(self).tasks@,
                self.tasks@,
                stages@,
                dry_run,
                rdg,
            ));
        }
        r
    }
}

} // verus!
