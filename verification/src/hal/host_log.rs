//! The Linux HAL's view of its host: every request that may change the
//! machine passes through here and is listed in a ghost record, so that the
//! HAL's contracts can say which programs it runs and which mounts and
//! writes it asks for.
use crate::hal::error::HalResult;
use crate::hal::linux::{texts, CommandOutput, Host, RunError};
use crate::hal::ops::{CopySink, LineSink};
use crate::hal::options::{CopyOptions, RsyncOptions};
use vstd::prelude::*;

verus! {

/// A request the Linux HAL makes of its host that may change the machine.
#[derive(Debug, Clone)]
pub enum HostCall {
    Run { program: String, args: Vec<String>, timeout_secs: u64 },
    Mount { device: String, target: String },
    Umount { target: String },
    WriteImage { image: String, target: String },
    CopyTree { src: String, dst: String },
    Rsync { src: String, dst: String },
}

/// `after` is `before` with one more request at the end.
pub open spec fn one_more(before: Seq<HostCall>, after: Seq<HostCall>) -> bool {
    after.len() == before.len() + 1 && after.drop_last() == before
}

/// The request to run `program` with `args` and the timeout.
pub open spec fn is_run(c: HostCall, program: Seq<char>, args: Seq<Seq<char>>, timeout_secs: u64) -> bool {
    c matches HostCall::Run { program: p, args: a, timeout_secs: t } && p@ == program && texts(a@) == args && t
        == timeout_secs
}

fn copy_args(v: &Vec<String>) -> (r: Vec<String>)
    ensures
        texts(r@) == texts(v@),
{
    let mut out: Vec<String> = Vec::new();
    let mut i: usize = 0;
    while i < v.len()
        invariant
            i <= v.len(),
            texts(out@) == texts(v@).take(i as int),
        decreases v.len() - i,
    {
        let ghost before = texts(out@);
        let s = String::from_str(v[i].as_str());
        out.push(s);
        assert(texts(out@) =~= before.push(v@[i as int]@));
        assert(texts(v@).take(i + 1) =~= texts(v@).take(i as int).push(v@[i as int]@));
        i += 1;
    }
    assert(texts(v@).take(v.len() as int) =~= texts(v@));
    out
}

/// A host with the record of the requests made of it.
pub struct HostLog<H: Host> {
    host: H,
    log: Ghost<Seq<HostCall>>,
}

impl<H: Host> HostLog<H> {
    /// The requests that may change the machine, oldest first.
    pub closed spec fn calls(&self) -> Seq<HostCall> {
        self.log@
    }

    pub closed spec fn inner(&self) -> H {
        self.host
    }

    pub fn new(host: H) -> (r: Self)
        ensures
            r.inner() == host,
            r.calls() == Seq::<HostCall>::empty(),
    {
        HostLog { host, log: Ghost(Seq::empty()) }
    }

    /// The host itself, to read from.
    pub fn host(&self) -> (r: &H)
        ensures
            *r == self.inner(),
    {
        &self.host
    }

    /// Runs a program that may change the machine; the request is recorded.
    pub fn run(&mut self, program: &str, args: &Vec<String>, cwd: Option<&str>, timeout_secs: u64) -> (r: Result<CommandOutput, RunError>)
        ensures
            one_more(old(self).calls(), final(self).calls()),
            is_run(final(self).calls().last(), program@, texts(args@), timeout_secs),
            final(self).inner() == old(self).inner(),
    {
        let call = HostCall::Run { program: String::from_str(program), args: copy_args(args), timeout_secs };
        self.log = Ghost(self.log@.push(call));
        proof {
            assert(self.log@.drop_last() =~= old(self).log@);
        }
        self.host.run(program, args, cwd, timeout_secs)
    }

    /// Runs a program that only reads the machine (not recorded).
    pub fn probe(&self, program: &str, args: &Vec<String>, cwd: Option<&str>, timeout_secs: u64) -> Result<CommandOutput, RunError> {
        self.host.run(program, args, cwd, timeout_secs)
    }

    pub fn mount(&mut self, device: &str, target: &str, fstype: Option<&str>, data: Option<&str>) -> (r: Result<(), i32>)
        ensures
            one_more(old(self).calls(), final(self).calls()),
            final(self).calls().last() matches HostCall::Mount { device: d, target: t } && d@ == device@ && t@
                == target@,
            final(self).inner() == old(self).inner(),
    {
        let call = HostCall::Mount { device: String::from_str(device), target: String::from_str(target) };
        self.log = Ghost(self.log@.push(call));
        proof {
            assert(self.log@.drop_last() =~= old(self).log@);
        }
        self.host.mount(device, target, fstype, data)
    }

    pub fn umount(&mut self, target: &str) -> (r: Result<(), i32>)
        ensures
            one_more(old(self).calls(), final(self).calls()),
            final(self).calls().last() matches HostCall::Umount { target: t } && t@ == target@,
            final(self).inner() == old(self).inner(),
    {
        let call = HostCall::Umount { target: String::from_str(target) };
        self.log = Ghost(self.log@.push(call));
        proof {
            assert(self.log@.drop_last() =~= old(self).log@);
        }
        self.host.umount(target)
    }

    /// The text of a file (not recorded).
    pub fn read_file(&self, path: &str) -> Result<String, String> {
        self.host.read_file(path)
    }

    pub fn write_image(&mut self, image: &str, target: &str, xz: bool) -> (r: Result<(), String>)
        ensures
            one_more(old(self).calls(), final(self).calls()),
            final(self).calls().last() matches HostCall::WriteImage { image: i, target: t } && i@ == image@ && t@
                == target@,
            final(self).inner() == old(self).inner(),
    {
        let call = HostCall::WriteImage { image: String::from_str(image), target: String::from_str(target) };
        self.log = Ghost(self.log@.push(call));
        proof {
            assert(self.log@.drop_last() =~= old(self).log@);
        }
        self.host.write_image(image, target, xz)
    }

    pub fn copy_tree<P: CopySink>(&mut self, src: &str, dst: &str, opts: &CopyOptions, on_progress: &mut P) -> (r: HalResult<()>)
        ensures
            one_more(old(self).calls(), final(self).calls()),
            final(self).calls().last() matches HostCall::CopyTree { src: s, dst: d } && s@ == src@ && d@ == dst@,
            final(self).inner() == old(self).inner(),
    {
        let call = HostCall::CopyTree { src: String::from_str(src), dst: String::from_str(dst) };
        self.log = Ghost(self.log@.push(call));
        proof {
            assert(self.log@.drop_last() =~= old(self).log@);
        }
        self.host.copy_tree(src, dst, opts, on_progress)
    }

    pub fn rsync<P: LineSink>(&mut self, src: &str, dst: &str, opts: &RsyncOptions, on_line: &mut P) -> (r: HalResult<()>)
        ensures
            one_more(old(self).calls(), final(self).calls()),
            final(self).calls().last() matches HostCall::Rsync { src: s, dst: d } && s@ == src@ && d@ == dst@,
            final(self).inner() == old(self).inner(),
    {
        let call = HostCall::Rsync { src: String::from_str(src), dst: String::from_str(dst) };
        self.log = Ghost(self.log@.push(call));
        proof {
            assert(self.log@.drop_last() =~= old(self).log@);
        }
        self.host.rsync(src, dst, opts, on_line)
    }
}

} // verus!
