//! A HAL that records operations instead of running them, for tests and CI.
use crate::hal::error::{HalError, HalResult};
use crate::hal::ops::{
    gated, BtrfsOps, CopyOps, CopySink, FlashOps, FormatOps, HostInfoOps, LoopOps, MountOps,
    PartitionOps, ProbeOps, ProcessOps, SystemOps,
};
use crate::hal::linux::CommandOutput;
use crate::hal::options::{
    gate, CopyOptions, CopyProgress, FlashOptions, FormatOptions, Gate, MountOptions,
    OsReleaseInfo, PartedOp, PartedOptions, WipeFsOptions,
};
use crate::text::{push_str, str_eq};
use vstd::prelude::*;

verus! {

pub open spec fn opt_text(o: Option<String>) -> Option<Seq<char>> {
    match o {
        Some(s) => Some(s@),
        None => None,
    }
}

pub open spec fn texts(v: Seq<String>) -> Seq<Seq<char>> {
    v.map_values(|s: String| s@)
}

fn copy_opt_text(o: &Option<String>) -> (r: Option<String>)
    ensures
        opt_text(r) == opt_text(*o),
{
    match o {
        Some(s) => Some(s.clone()),
        None => None,
    }
}

fn copy_texts(v: &Vec<String>) -> (r: Vec<String>)
    ensures
        texts(r@) == texts(v@),
{
    let mut out: Vec<String> = Vec::new();
    let mut i: usize = 0;
    while i < v.len()
        invariant
            i <= v.len(),
            texts(out@) =~= texts(v@.subrange(0, i as int)),
        decreases v.len() - i,
    {
        let ghost before = texts(out@);
        out.push(v[i].clone());
        assert(texts(v@.subrange(0, i + 1)) =~= texts(v@.subrange(0, i as int)).push(v@[i as int]@));
        assert(texts(out@) =~= before.push(v@[i as int]@));
        i += 1;
    }
    assert(v@.subrange(0, v.len() as int) =~= v@);
    out
}

/// Operation records for testing and verification.
#[derive(Debug)]
pub enum Operation {
    Mount { device: String, target: String, fstype: Option<String> },
    Unmount { target: String },
    FormatExt4 { device: String },
    FormatBtrfs { device: String },
    FormatVfat { device: String, label: String },
    FlashImage { image: String, target: String },
    Sync,
    UdevSettle,
    WipeFsAll { disk: String },
    Parted { disk: String, op: String },
    LosetupAttach { image: String, scan_partitions: bool, loop_device: String },
    LosetupDetach { loop_device: String },
    BtrfsSubvolumeList { mount_point: String },
    BtrfsSubvolumeCreate { path: String },
    CopyTree { src: String, dst: String },
    LsblkMountpoints { disk: String },
    LsblkTable { disk: String },
    BlkidUuid { device: String },
    Command { program: String, args: Vec<String>, timeout_secs: u64 },
}

/// Two records of the same operation with the same arguments.
pub open spec fn same_op(a: Operation, b: Operation) -> bool {
    match (a, b) {
        (Operation::Mount { device: a_device, target: a_target, fstype: a_fstype }, Operation::Mount { device: b_device, target: b_target, fstype: b_fstype }) => a_device@ == b_device@ && a_target@ == b_target@ && opt_text(a_fstype) == opt_text(b_fstype),
        (Operation::Unmount { target: a_target }, Operation::Unmount { target: b_target }) => a_target@ == b_target@,
        (Operation::FormatExt4 { device: a_device }, Operation::FormatExt4 { device: b_device }) => a_device@ == b_device@,
        (Operation::FormatBtrfs { device: a_device }, Operation::FormatBtrfs { device: b_device }) => a_device@ == b_device@,
        (Operation::FormatVfat { device: a_device, label: a_label }, Operation::FormatVfat { device: b_device, label: b_label }) => a_device@ == b_device@ && a_label@ == b_label@,
        (Operation::FlashImage { image: a_image, target: a_target }, Operation::FlashImage { image: b_image, target: b_target }) => a_image@ == b_image@ && a_target@ == b_target@,
        (Operation::Sync, Operation::Sync) => true,
        (Operation::UdevSettle, Operation::UdevSettle) => true,
        (Operation::WipeFsAll { disk: a_disk }, Operation::WipeFsAll { disk: b_disk }) => a_disk@ == b_disk@,
        (Operation::Parted { disk: a_disk, op: a_op }, Operation::Parted { disk: b_disk, op: b_op }) => a_disk@ == b_disk@ && a_op@ == b_op@,
        (Operation::LosetupAttach { image: a_image, scan_partitions: a_scan_partitions, loop_device: a_loop_device }, Operation::LosetupAttach { image: b_image, scan_partitions: b_scan_partitions, loop_device: b_loop_device }) => a_image@ == b_image@ && a_scan_partitions == b_scan_partitions && a_loop_device@ == b_loop_device@,
        (Operation::LosetupDetach { loop_device: a_loop_device }, Operation::LosetupDetach { loop_device: b_loop_device }) => a_loop_device@ == b_loop_device@,
        (Operation::BtrfsSubvolumeList { mount_point: a_mount_point }, Operation::BtrfsSubvolumeList { mount_point: b_mount_point }) => a_mount_point@ == b_mount_point@,
        (Operation::BtrfsSubvolumeCreate { path: a_path }, Operation::BtrfsSubvolumeCreate { path: b_path }) => a_path@ == b_path@,
        (Operation::CopyTree { src: a_src, dst: a_dst }, Operation::CopyTree { src: b_src, dst: b_dst }) => a_src@ == b_src@ && a_dst@ == b_dst@,
        (Operation::LsblkMountpoints { disk: a_disk }, Operation::LsblkMountpoints { disk: b_disk }) => a_disk@ == b_disk@,
        (Operation::LsblkTable { disk: a_disk }, Operation::LsblkTable { disk: b_disk }) => a_disk@ == b_disk@,
        (Operation::BlkidUuid { device: a_device }, Operation::BlkidUuid { device: b_device }) => a_device@ == b_device@,
        (Operation::Command { program: a_program, args: a_args, timeout_secs: a_timeout_secs }, Operation::Command { program: b_program, args: b_args, timeout_secs: b_timeout_secs }) => a_program@ == b_program@ && texts(a_args@) == texts(b_args@) && a_timeout_secs == b_timeout_secs,
        _ => false,
    }
}

fn copy_operation(op: &Operation) -> (r: Operation)
    ensures
        same_op(r, *op),
{
    match op {
        Operation::Mount { device, target, fstype } => Operation::Mount { device: device.clone(), target: target.clone(), fstype: copy_opt_text(fstype) },
        Operation::Unmount { target } => Operation::Unmount { target: target.clone() },
        Operation::FormatExt4 { device } => Operation::FormatExt4 { device: device.clone() },
        Operation::FormatBtrfs { device } => Operation::FormatBtrfs { device: device.clone() },
        Operation::FormatVfat { device, label } => Operation::FormatVfat { device: device.clone(), label: label.clone() },
        Operation::FlashImage { image, target } => Operation::FlashImage { image: image.clone(), target: target.clone() },
        Operation::Sync => Operation::Sync,
        Operation::UdevSettle => Operation::UdevSettle,
        Operation::WipeFsAll { disk } => Operation::WipeFsAll { disk: disk.clone() },
        Operation::Parted { disk, op } => Operation::Parted { disk: disk.clone(), op: op.clone() },
        Operation::LosetupAttach { image, scan_partitions, loop_device } => Operation::LosetupAttach { image: image.clone(), scan_partitions: *scan_partitions, loop_device: loop_device.clone() },
        Operation::LosetupDetach { loop_device } => Operation::LosetupDetach { loop_device: loop_device.clone() },
        Operation::BtrfsSubvolumeList { mount_point } => Operation::BtrfsSubvolumeList { mount_point: mount_point.clone() },
        Operation::BtrfsSubvolumeCreate { path } => Operation::BtrfsSubvolumeCreate { path: path.clone() },
        Operation::CopyTree { src, dst } => Operation::CopyTree { src: src.clone(), dst: dst.clone() },
        Operation::LsblkMountpoints { disk } => Operation::LsblkMountpoints { disk: disk.clone() },
        Operation::LsblkTable { disk } => Operation::LsblkTable { disk: disk.clone() },
        Operation::BlkidUuid { device } => Operation::BlkidUuid { device: device.clone() },
        Operation::Command { program, args, timeout_secs } => Operation::Command { program: program.clone(), args: copy_texts(args), timeout_secs: *timeout_secs },
    }
}

/// What `format!("{:?}", s)` gives for a text: it quoted, with the
/// characters Debug escapes escaped.
pub uninterp spec fn debug_text(s: Seq<char>) -> Seq<char>;

/// `<str as Debug>::fmt`, through `format!`.
#[verifier::external_body]
fn debug_str(s: &str) -> (r: String)
    ensures
        r@ == debug_text(s@),
{
    format!("{:?}", s)
}

/// The record text of a `parted` operation: its `Debug` form.
pub open spec fn parted_op_text(op: PartedOp) -> Seq<char> {
    match op {
        PartedOp::MkLabel { label } => "MkLabel { label: "@ + debug_text(label@) + " }"@,
        PartedOp::MkPart { part_type, fs_type, start, end } => "MkPart { part_type: "@ + debug_text(
            part_type@,
        ) + ", fs_type: "@ + debug_text(fs_type@) + ", start: "@ + debug_text(start@) + ", end: "@
            + debug_text(end@) + " }"@,
        PartedOp::SetFlag { part_num, flag, state } => "SetFlag { part_num: "@ + crate::text::dec_digits(
            part_num as nat,
        ) + ", flag: "@ + debug_text(flag@) + ", state: "@ + debug_text(state@) + " }"@,
        PartedOp::Print => "Print"@,
    }
}

fn parted_op_debug(op: &PartedOp) -> (r: String)
    ensures
        r@ == parted_op_text(*op),
{
    let mut s = String::new();
    match op {
        PartedOp::MkLabel { label } => {
            push_str(&mut s, "MkLabel { label: ");
            push_str(&mut s, debug_str(label.as_str()).as_str());
            push_str(&mut s, " }");
        },
        PartedOp::MkPart { part_type, fs_type, start, end } => {
            push_str(&mut s, "MkPart { part_type: ");
            push_str(&mut s, debug_str(part_type.as_str()).as_str());
            push_str(&mut s, ", fs_type: ");
            push_str(&mut s, debug_str(fs_type.as_str()).as_str());
            push_str(&mut s, ", start: ");
            push_str(&mut s, debug_str(start.as_str()).as_str());
            push_str(&mut s, ", end: ");
            push_str(&mut s, debug_str(end.as_str()).as_str());
            push_str(&mut s, " }");
        },
        PartedOp::SetFlag { part_num, flag, state } => {
            push_str(&mut s, "SetFlag { part_num: ");
            push_str(&mut s, crate::text::u64_to_string(*part_num as u64).as_str());
            push_str(&mut s, ", flag: ");
            push_str(&mut s, debug_str(flag.as_str()).as_str());
            push_str(&mut s, ", state: ");
            push_str(&mut s, debug_str(state.as_str()).as_str());
            push_str(&mut s, " }");
        },
        PartedOp::Print => {
            push_str(&mut s, "Print");
        },
    }
    s
}

/// Fake HAL implementation that records operations without executing them.
pub struct FakeHal {
    operations: Vec<Operation>,
    mounted_paths: Vec<String>,
}

/// `b` is `a` with one more record at the end.
pub open spec fn appended(a: Seq<Operation>, b: Seq<Operation>) -> bool {
    &&& b.len() == a.len() + 1
    &&& forall|i: int| 0 <= i < a.len() ==> #[trigger] b[i] == a[i]
}

impl FakeHal {
    /// The operations recorded so far, oldest first.
    pub closed spec fn ops(self) -> Seq<Operation> {
        self.operations@
    }

    /// The paths the fake considers mounted.
    pub closed spec fn mounted(self) -> Set<Seq<char>> {
        texts(self.mounted_paths@).to_set()
    }

    pub fn new() -> (r: Self)
        ensures
            r.ops() == Seq::<Operation>::empty(),
            r.mounted() == Set::<Seq<char>>::empty(),
    {
        let r = FakeHal { operations: Vec::new(), mounted_paths: Vec::new() };
        assert(texts(r.mounted_paths@).to_set() =~= Set::<Seq<char>>::empty());
        r
    }

    /// Get all recorded operations.
    pub fn operations(&self) -> (r: Vec<Operation>)
        ensures
            r@.len() == self.ops().len(),
            forall|i: int| 0 <= i < r@.len() ==> same_op(#[trigger] r@[i], self.ops()[i]),
    {
        let mut out: Vec<Operation> = Vec::new();
        let mut i: usize = 0;
        while i < self.operations.len()
            invariant
                i <= self.operations.len(),
                out@.len() == i,
                forall|j: int| 0 <= j < i ==> same_op(#[trigger] out@[j], self.operations@[j]),
            decreases self.operations.len() - i,
        {
            out.push(copy_operation(&self.operations[i]));
            i += 1;
        }
        out
    }

    /// Get the number of operations recorded.
    pub fn operation_count(&self) -> (r: usize)
        ensures
            r == self.ops().len(),
    {
        self.operations.len()
    }

    /// Check if a specific operation was recorded: `check` is asked of the
    /// recorded operations in order, up to the first it accepts.
    pub fn has_operation<F: Fn(&Operation) -> bool>(&self, check: F) -> (r: bool)
        requires
            forall|o: &Operation| #[trigger] check.requires((o,)),
        ensures
            r ==> exists|i: int|
                0 <= i < self.ops().len() && check.ensures((&self.ops()[i],), true) && forall|j: int|
                    0 <= j < i ==> check.ensures((&#[trigger] self.ops()[j],), false),
            !r ==> forall|i: int| 0 <= i < self.ops().len() ==> check.ensures((&#[trigger] self.ops()[i],), false),
    {
        let mut i: usize = 0;
        while i < self.operations.len()
            invariant
                i <= self.operations.len(),
                forall|o: &Operation| #[trigger] check.requires((o,)),
                forall|j: int| 0 <= j < i ==> check.ensures((&#[trigger] self.operations@[j],), false),
            decreases self.operations.len() - i,
        {
            let hit = check(&self.operations[i]);
            if hit {
                assert(check.ensures((&self.ops()[i as int],), true));
                return true;
            }
            i += 1;
        }
        false
    }

    /// Clear all recorded operations and mounts.
    pub fn clear(&mut self)
        ensures
            final(self).ops() == Seq::<Operation>::empty(),
            final(self).mounted() == Set::<Seq<char>>::empty(),
    {
        self.operations = Vec::new();
        self.mounted_paths = Vec::new();
        assert(texts(self.mounted_paths@).to_set() =~= Set::<Seq<char>>::empty());
    }

    fn record(&mut self, op: Operation)
        ensures
            final(self).ops() == old(self).ops().push(op),
            final(self).mounted() == old(self).mounted(),
    {
        self.operations.push(op);
    }

    fn record_mount(&mut self, target: &str)
        ensures
            final(self).ops() == old(self).ops(),
            final(self).mounted() == old(self).mounted().insert(target@),
    {
        let mut i: usize = 0;
        while i < self.mounted_paths.len()
            invariant
                i <= self.mounted_paths.len(),
                forall|j: int| 0 <= j < i ==> self.mounted_paths@[j]@ != target@,
            decreases self.mounted_paths.len() - i,
        {
            if str_eq(self.mounted_paths[i].as_str(), target) {
                proof {
                    let t = texts(self.mounted_paths@);
                    assert(t[i as int] == target@);
                    assert(t.to_set().insert(target@) =~= t.to_set());
                }
                return;
            }
            i += 1;
        }
        let ghost before = texts(self.mounted_paths@);
        self.mounted_paths.push(String::from_str(target));
        proof {
            assert(texts(self.mounted_paths@) =~= before.push(target@));
            before.lemma_push_to_set_commute(target@);
        }
    }

    fn record_unmount(&mut self, target: &str)
        ensures
            final(self).ops() == old(self).ops(),
            final(self).mounted() == old(self).mounted().remove(target@),
    {
        let ghost before = texts(self.mounted_paths@);
        let mut kept: Vec<String> = Vec::new();
        let mut i: usize = 0;
        while i < self.mounted_paths.len()
            invariant
                i <= self.mounted_paths.len(),
                before == texts(self.mounted_paths@),
                forall|j: int| 0 <= j < kept@.len() ==> #[trigger] kept@[j]@ != target@,
                texts(kept@).to_set() == texts(self.mounted_paths@.subrange(0, i as int)).to_set().remove(target@),
            decreases self.mounted_paths.len() - i,
        {
            let ghost pre = texts(self.mounted_paths@.subrange(0, i as int));
            let ghost k0 = texts(kept@);
            assert(texts(self.mounted_paths@.subrange(0, i + 1)) =~= pre.push(self.mounted_paths@[i as int]@));
            proof {
                pre.lemma_push_to_set_commute(self.mounted_paths@[i as int]@);
            }
            if !str_eq(self.mounted_paths[i].as_str(), target) {
                let p = self.mounted_paths[i].clone();
                kept.push(p);
                proof {
                    assert(texts(kept@) =~= k0.push(self.mounted_paths@[i as int]@));
                    k0.lemma_push_to_set_commute(self.mounted_paths@[i as int]@);
                    assert(texts(kept@).to_set() =~= pre.push(self.mounted_paths@[i as int]@).to_set().remove(target@));
                }
            } else {
                assert(k0.to_set() =~= pre.push(self.mounted_paths@[i as int]@).to_set().remove(target@));
            }
            i += 1;
        }
        assert(self.mounted_paths@.subrange(0, self.mounted_paths.len() as int) =~= self.mounted_paths@);
        self.mounted_paths = kept;
    }

    /// Whether the fake considers a path mounted.
    fn mounted_contains(&self, path: &str) -> (r: bool)
        ensures
            r == self.mounted().contains(path@),
    {
        let mut i: usize = 0;
        while i < self.mounted_paths.len()
            invariant
                i <= self.mounted_paths.len(),
                forall|j: int| 0 <= j < i ==> #[trigger] self.mounted_paths@[j]@ != path@,
            decreases self.mounted_paths.len() - i,
        {
            if str_eq(self.mounted_paths[i].as_str(), path) {
                assert(texts(self.mounted_paths@)[i as int] == path@);
                return true;
            }
            i += 1;
        }
        assert(!texts(self.mounted_paths@).contains(path@)) by {
            if texts(self.mounted_paths@).contains(path@) {
                let k = choose|k: int| 0 <= k < texts(self.mounted_paths@).len() && texts(self.mounted_paths@)[k] == path@;
                assert(self.mounted_paths@[k]@ == path@);
            }
        }
        false
    }

    /// A destructive format: the safety lock without confirmation outside a
    /// dry run; a dry run records nothing.
    fn format(&mut self, opts: &FormatOptions, op: Operation) -> (r: HalResult<()>)
        ensures
            gate_result(opts.dry_run, opts.confirmed, *old(self), *final(self), op, r),
    {
        match gate(opts.dry_run, opts.confirmed) {
            Gate::Locked => Err(HalError::SafetyLock),
            Gate::DryRun => Ok(()),
            Gate::Proceed => {
                self.record(op);
                Ok(())
            },
        }
    }
}

/// How the fake answers a destructive operation: locked without
/// confirmation outside a dry run, nothing recorded in a dry run, and the
/// operation recorded otherwise; mounts never change.
pub open spec fn gate_result(
    dry_run: bool,
    confirmed: bool,
    old: FakeHal,
    new: FakeHal,
    op: Operation,
    r: HalResult<()>,
) -> bool {
    &&& new.mounted() == old.mounted()
    &&& if !dry_run && !confirmed {
        r matches Err(HalError::SafetyLock) && new.ops() == old.ops()
    } else if dry_run {
        r is Ok && new.ops() == old.ops()
    } else {
        r is Ok && new.ops() == old.ops().push(op)
    }
}

impl ProcessOps for FakeHal {
    /// Records the command and answers with a successful, silent exit.
    fn command_output_with_cwd(
        &mut self,
        program: &str,
        args: &Vec<String>,
        cwd: Option<&str>,
        timeout_secs: u64,
    ) -> (r: HalResult<CommandOutput>)
        ensures
            r matches Ok(o) && o.success && o.code == Some(0i32) && o.stdout@.len() == 0 && o.stderr@.len() == 0,
            appended(old(self).ops(), final(self).ops()),
            final(self).ops().last() matches Operation::Command { program: p, args: a, timeout_secs: t }
                && p@ == program@ && texts(a@) == texts(args@) && t == timeout_secs,
            final(self).mounted() == old(self).mounted(),
    {
        self.record(Operation::Command { program: String::from_str(program), args: copy_texts(args), timeout_secs });
        Ok(CommandOutput { success: true, code: Some(0), stdout: String::new(), stderr: String::new() })
    }

    fn command_status_with_cwd(
        &mut self,
        program: &str,
        args: &Vec<String>,
        cwd: Option<&str>,
        timeout_secs: u64,
    ) -> (r: HalResult<()>)
        ensures
            r is Ok,
            appended(old(self).ops(), final(self).ops()),
            final(self).ops().last() matches Operation::Command { program: p, args: a, timeout_secs: t }
                && p@ == program@ && texts(a@) == texts(args@) && t == timeout_secs,
            final(self).mounted() == old(self).mounted(),
    {
        match self.command_output_with_cwd(program, args, cwd, timeout_secs) {
            Ok(_) => Ok(()),
            Err(e) => Err(e),
        }
    }
}

impl MountOps for FakeHal {
    fn mount_device(
        &mut self,
        device: &str,
        target: &str,
        fstype: Option<&str>,
        options: MountOptions,
        dry_run: bool,
    ) -> (r: HalResult<()>)
        ensures
            r is Ok,
            dry_run ==> final(self).ops() == old(self).ops() && final(self).mounted() == old(self).mounted(),
            !dry_run ==> appended(old(self).ops(), final(self).ops()) && (final(self).ops().last() matches Operation::Mount { device: d, target: t, fstype: f }
                && d@ == device@ && t@ == target@ && opt_text(f) == match fstype {
                Some(s) => Some(s@),
                None => None,
            }) && final(self).mounted() == old(self).mounted().insert(target@),
    {
        if dry_run {
            return Ok(());
        }
        let fstype = match fstype {
            Some(s) => Some(String::from_str(s)),
            None => None,
        };
        let op = Operation::Mount { device: String::from_str(device), target: String::from_str(target), fstype };
        self.record(op);
        self.record_mount(target);
        Ok(())
    }

    fn unmount(&mut self, target: &str, dry_run: bool) -> (r: HalResult<()>)
        ensures
            r is Ok,
            dry_run ==> final(self).ops() == old(self).ops() && final(self).mounted() == old(self).mounted(),
            !dry_run ==> appended(old(self).ops(), final(self).ops()) && (final(self).ops().last() matches Operation::Unmount { target: t }
                && t@ == target@) && final(self).mounted() == old(self).mounted().remove(target@),
    {
        if dry_run {
            return Ok(());
        }
        self.record(Operation::Unmount { target: String::from_str(target) });
        self.record_unmount(target);
        Ok(())
    }

    /// The fake keeps no mount tree: the same as `unmount`.
    fn unmount_recursive(&mut self, target: &str, dry_run: bool) -> (r: HalResult<()>)
        ensures
            r is Ok,
            dry_run ==> final(self).ops() == old(self).ops() && final(self).mounted() == old(self).mounted(),
            !dry_run ==> appended(old(self).ops(), final(self).ops()) && (final(self).ops().last() matches Operation::Unmount { target: t }
                && t@ == target@) && final(self).mounted() == old(self).mounted().remove(target@),
    {
        self.unmount(target, dry_run)
    }

    fn is_mounted(&self, path: &str) -> (r: HalResult<bool>)
        ensures
            r == Ok::<bool, HalError>(self.mounted().contains(path@)),
    {
        Ok(self.mounted_contains(path))
    }
}

impl FormatOps for FakeHal {
    fn format_ext4(&mut self, device: &str, opts: &FormatOptions) -> (r: HalResult<()>)
        ensures
            final(self).mounted() == old(self).mounted(),
            !opts.dry_run && opts.confirmed ==> r is Ok && appended(old(self).ops(), final(self).ops())
                && (final(self).ops().last() matches Operation::FormatExt4 { device: d } && d@ == device@),
            opts.dry_run || !opts.confirmed ==> final(self).ops() == old(self).ops(),
    {
        self.format(opts, Operation::FormatExt4 { device: String::from_str(device) })
    }

    fn format_btrfs(&mut self, device: &str, opts: &FormatOptions) -> (r: HalResult<()>)
        ensures
            final(self).mounted() == old(self).mounted(),
            !opts.dry_run && opts.confirmed ==> r is Ok && appended(old(self).ops(), final(self).ops())
                && (final(self).ops().last() matches Operation::FormatBtrfs { device: d } && d@ == device@),
            opts.dry_run || !opts.confirmed ==> final(self).ops() == old(self).ops(),
    {
        self.format(opts, Operation::FormatBtrfs { device: String::from_str(device) })
    }

    fn format_vfat(&mut self, device: &str, label: &str, opts: &FormatOptions) -> (r: HalResult<()>)
        ensures
            final(self).mounted() == old(self).mounted(),
            !opts.dry_run && opts.confirmed ==> r is Ok && appended(old(self).ops(), final(self).ops())
                && (final(self).ops().last() matches Operation::FormatVfat { device: d, label: l }
                && d@ == device@ && l@ == label@),
            opts.dry_run || !opts.confirmed ==> final(self).ops() == old(self).ops(),
    {
        self.format(opts, Operation::FormatVfat { device: String::from_str(device), label: String::from_str(label) })
    }
}

impl FlashOps for FakeHal {
    fn flash_raw_image(&mut self, image_path: &str, target_disk: &str, opts: &FlashOptions) -> (r: HalResult<()>)
        ensures
            final(self).mounted() == old(self).mounted(),
            !opts.dry_run && opts.confirmed ==> r is Ok && appended(old(self).ops(), final(self).ops())
                && (final(self).ops().last() matches Operation::FlashImage { image: i, target: t }
                && i@ == image_path@ && t@ == target_disk@),
            opts.dry_run || !opts.confirmed ==> final(self).ops() == old(self).ops(),
    {
        match gate(opts.dry_run, opts.confirmed) {
            Gate::Locked => Err(HalError::SafetyLock),
            Gate::DryRun => Ok(()),
            Gate::Proceed => {
                self.record(
                    Operation::FlashImage { image: String::from_str(image_path), target: String::from_str(target_disk) },
                );
                Ok(())
            },
        }
    }
}

impl SystemOps for FakeHal {
    fn sync(&mut self) -> (r: HalResult<()>)
        ensures
            r is Ok,
            final(self).ops() == old(self).ops().push(Operation::Sync),
            final(self).mounted() == old(self).mounted(),
    {
        self.record(Operation::Sync);
        Ok(())
    }

    fn udev_settle(&mut self) -> (r: HalResult<()>)
        ensures
            r is Ok,
            final(self).ops() == old(self).ops().push(Operation::UdevSettle),
            final(self).mounted() == old(self).mounted(),
    {
        self.record(Operation::UdevSettle);
        Ok(())
    }
}

impl ProbeOps for FakeHal {
    fn lsblk_mountpoints(&mut self, disk: &str) -> (r: HalResult<Vec<String>>)
        ensures
            r matches Ok(v) && v@.len() == 0,
            appended(old(self).ops(), final(self).ops()),
            final(self).ops().last() matches Operation::LsblkMountpoints { disk: d } && d@ == disk@,
            final(self).mounted() == old(self).mounted(),
    {
        self.record(Operation::LsblkMountpoints { disk: String::from_str(disk) });
        Ok(Vec::new())
    }

    fn lsblk_table(&mut self, disk: &str) -> (r: HalResult<String>)
        ensures
            r matches Ok(s) && s@.len() == 0,
            appended(old(self).ops(), final(self).ops()),
            final(self).ops().last() matches Operation::LsblkTable { disk: d } && d@ == disk@,
            final(self).mounted() == old(self).mounted(),
    {
        self.record(Operation::LsblkTable { disk: String::from_str(disk) });
        Ok(String::new())
    }

    fn blkid_uuid(&mut self, device: &str) -> (r: HalResult<String>)
        ensures
            r matches Ok(s) && s@ == "FAKE-UUID"@,
            appended(old(self).ops(), final(self).ops()),
            final(self).ops().last() matches Operation::BlkidUuid { device: d } && d@ == device@,
            final(self).mounted() == old(self).mounted(),
    {
        self.record(Operation::BlkidUuid { device: String::from_str(device) });
        Ok(String::from_str("FAKE-UUID"))
    }
}

impl PartitionOps for FakeHal {
    /// Records the wipe (also in a dry run) unless the safety lock answers.
    fn wipefs_all(&mut self, disk: &str, opts: &WipeFsOptions) -> (r: HalResult<()>)
        ensures
            final(self).mounted() == old(self).mounted(),
            opts.dry_run || opts.confirmed ==> r is Ok && appended(old(self).ops(), final(self).ops())
                && (final(self).ops().last() matches Operation::WipeFsAll { disk: d } && d@ == disk@),
            !opts.dry_run && !opts.confirmed ==> final(self).ops() == old(self).ops(),
    {
        if !opts.dry_run && !opts.confirmed {
            return Err(HalError::SafetyLock);
        }
        self.record(Operation::WipeFsAll { disk: String::from_str(disk) });
        Ok(())
    }

    /// Records the operation in its `Debug` form (also in a dry run) unless
    /// the safety lock answers.
    fn parted(&mut self, disk: &str, op: PartedOp, opts: &PartedOptions) -> (r: HalResult<String>)
        ensures
            final(self).mounted() == old(self).mounted(),
            opts.dry_run || opts.confirmed ==> (r matches Ok(s) && s@.len() == 0) && appended(
                old(self).ops(),
                final(self).ops(),
            ) && (final(self).ops().last() matches Operation::Parted { disk: d, op: o } && d@ == disk@
                && o@ == parted_op_text(op)),
            !opts.dry_run && !opts.confirmed ==> final(self).ops() == old(self).ops(),
    {
        if !opts.dry_run && !opts.confirmed {
            return Err(HalError::SafetyLock);
        }
        let text = parted_op_debug(&op);
        self.record(Operation::Parted { disk: String::from_str(disk), op: text });
        Ok(String::new())
    }
}

impl LoopOps for FakeHal {
    fn losetup_attach(&mut self, image: &str, scan_partitions: bool) -> (r: HalResult<String>)
        ensures
            r matches Ok(s) && s@ == "/dev/loop0"@,
            appended(old(self).ops(), final(self).ops()),
            final(self).ops().last() matches Operation::LosetupAttach { image: i, scan_partitions: p, loop_device: l }
                && i@ == image@ && p == scan_partitions && l@ == "/dev/loop0"@,
            final(self).mounted() == old(self).mounted(),
    {
        let loop_device = String::from_str("/dev/loop0");
        self.record(
            Operation::LosetupAttach { image: String::from_str(image), scan_partitions, loop_device: loop_device.clone() },
        );
        Ok(loop_device)
    }

    fn losetup_detach(&mut self, loop_device: &str) -> (r: HalResult<()>)
        ensures
            r is Ok,
            appended(old(self).ops(), final(self).ops()),
            final(self).ops().last() matches Operation::LosetupDetach { loop_device: l } && l@ == loop_device@,
            final(self).mounted() == old(self).mounted(),
    {
        self.record(Operation::LosetupDetach { loop_device: String::from_str(loop_device) });
        Ok(())
    }
}

impl BtrfsOps for FakeHal {
    fn btrfs_subvolume_list(&mut self, mount_point: &str) -> (r: HalResult<String>)
        ensures
            r matches Ok(s) && s@.len() == 0,
            appended(old(self).ops(), final(self).ops()),
            final(self).ops().last() matches Operation::BtrfsSubvolumeList { mount_point: m } && m@ == mount_point@,
            final(self).mounted() == old(self).mounted(),
    {
        self.record(Operation::BtrfsSubvolumeList { mount_point: String::from_str(mount_point) });
        Ok(String::new())
    }

    fn btrfs_subvolume_create(&mut self, path: &str) -> (r: HalResult<()>)
        ensures
            r is Ok,
            appended(old(self).ops(), final(self).ops()),
            final(self).ops().last() matches Operation::BtrfsSubvolumeCreate { path: p } && p@ == path@,
            final(self).mounted() == old(self).mounted(),
    {
        self.record(Operation::BtrfsSubvolumeCreate { path: String::from_str(path) });
        Ok(())
    }
}

impl HostInfoOps for FakeHal {
    fn hostname(&self) -> (r: HalResult<Option<String>>)
        ensures
            r matches Ok(None),
    {
        Ok(None)
    }

    fn kernel_release(&self) -> (r: HalResult<Option<String>>)
        ensures
            r matches Ok(None),
    {
        Ok(None)
    }

    fn os_release(&self) -> (r: HalResult<OsReleaseInfo>)
        ensures
            r matches Ok(i) && i.id is None && i.version_id is None,
    {
        Ok(OsReleaseInfo { id: None, version_id: None })
    }

    fn proc_cmdline(&self) -> (r: HalResult<String>)
        ensures
            r matches Ok(s) && s@.len() == 0,
    {
        Ok(String::new())
    }

    fn proc_cpuinfo(&self) -> (r: HalResult<String>)
        ensures
            r matches Ok(s) && s@.len() == 0,
    {
        Ok(String::new())
    }

    fn proc_meminfo(&self) -> (r: HalResult<String>)
        ensures
            r matches Ok(s) && s@.len() == 0,
    {
        Ok(String::new())
    }

    fn proc_mounts(&self) -> (r: HalResult<String>)
        ensures
            r matches Ok(s) && s@.len() == 0,
    {
        Ok(String::new())
    }

    fn proc_mountinfo(&self) -> (r: HalResult<String>)
        ensures
            r matches Ok(s) && s@.len() == 0,
    {
        Ok(String::new())
    }
}

impl CopyOps for FakeHal {
    /// Records the copy and reports one empty progress update.
    fn copy_tree_native<P: CopySink>(
        &mut self,
        src: &str,
        dst: &str,
        opts: &CopyOptions,
        on_progress: &mut P,
    ) -> (r: HalResult<()>)
        ensures
            r is Ok,
            appended(old(self).ops(), final(self).ops()),
            final(self).ops().last() matches Operation::CopyTree { src: s, dst: d } && s@ == src@ && d@ == dst@,
            final(self).mounted() == old(self).mounted(),
    {
        self.record(Operation::CopyTree { src: String::from_str(src), dst: String::from_str(dst) });
        let _ = on_progress.on_progress(CopyProgress { bytes_copied: 0, bytes_total: 0, files_copied: 0, files_total: 0 });
        Ok(())
    }
}

} // verus!

verus! {

/// On the fake's mount table: mounting a target makes it mounted, and
/// unmounting it again leaves the table as before, without the target.
pub proof fn law_mount_then_unmount(mounted: Set<Seq<char>>, target: Seq<char>)
    ensures
        mounted.insert(target).contains(target),
        !mounted.insert(target).remove(target).contains(target),
        mounted.insert(target).remove(target) == mounted.remove(target),
        !mounted.contains(target) ==> mounted.insert(target).remove(target) == mounted,
{
    assert(mounted.insert(target).remove(target) =~= mounted.remove(target));
    if !mounted.contains(target) {
        assert(mounted.remove(target) =~= mounted);
    }
}

} // verus!
