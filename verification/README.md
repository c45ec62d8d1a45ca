# mash

The core of the MASH installer (Fedora and other systems on the Raspberry Pi 4),
written in Verus. The library's logic — parsers, plans, the installer's state
machine, the stage runner, the command lines of the Linux HAL — is stated in
contracts and proved. What comes from outside is not: the answers of the
machine behind the Linux HAL's `Host`, the stage services, and the stores and
backends that callers implement; a few standard-library calls (lowercasing,
`Debug` text, pushing to a `String`) have trusted contracts.

Where a run hands work to such an outside party, its contract says what it
hands over and how each answer decides what follows. The executor, the
execution backend, the install backend, the state stores and the HAL's image
writes offer a ghost record of the requests made of them, with their answers
(`keeps_record` and its kin; an implementation that does not keep one
promises nothing), and the runs' contracts state that record exactly: which
requests, in which order, with which arguments — the run's arming, the
states saved before and after each stage — and the run's result as a function
of the recorded answers (a store error is the answer of the store, a stage
error the answer of a backend, a HAL error the answer of the image write).
The functions that take what a store answered (`StageRunner::run_from`,
`os_install::run_loaded`, `PipelineExecutor::run_definitions_from`) state how
the run resumes from the stored state.

## Layout

- `src/` — the verified library.
  - `text.rs`, `path.rs` — the character-level text model and path helpers.
  - `os_release.rs`, `procfs.rs`, `sysfs/` — parsers for `/etc/os-release`,
    `/proc/meminfo`, `/proc/self/mountinfo` and `/sys/block`.
  - `hal/` — the hardware abstraction layer: the operation traits with the
    safety gate in their contracts, the recording `FakeHal`, the Linux HAL
    (command lines and result handling), and `HostLog`, which keeps a ghost
    record of every request the Linux HAL makes of its `Host`, so that its
    contracts say which commands run (none when locked or in a dry run).
  - `tui/` — the Dojo installer: its steps, its state and transition
    function, the laws that every key press keeps, the flash configuration,
    the form input field and widgets, the decisions of an installation run,
    and the text of each screen (step lines, plan, info panel, step dump).
  - `workflow/` — the install plan and its stage definitions, the preflight
    rules, the stage runner (which resumes from the stored state), the pipeline executor that dispatches
    each stage's task to the library's stage functions, the install state's
    text form, and full-disk OS installs.
- `app/` — ordinary Rust around the library: the real `Host` (processes,
  mounts, image writes, tree copies), the mount and loop-device guards (their
  destructors), the pipeline's stage services and state files, the sysfs
  scan, the preflight reads, the terminal loop of the Dojo.
- `tests/` — tests of the library.
