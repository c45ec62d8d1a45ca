//! The resumable stage runner: the state records which stages completed;
//! a run skips those, records each stage as current before it runs and as
//! completed after it succeeded, and persists the state at both points.
use crate::procfs::views_of;
use crate::text::str_eq;
use crate::workflow::error::WorkflowError;
use vstd::prelude::*;

verus! {

/// The stage bookkeeping of an install state.
pub trait WorkflowState {
    /// Names of the stages recorded as completed.
    spec fn completed_stages(&self) -> Set<Seq<char>>;

    fn is_completed(&self, stage: &str) -> (r: bool)
        ensures
            r == self.completed_stages().contains(stage@),
    ;

    /// Records `stage` as the one running; completion records are kept.
    fn set_current(&mut self, stage: &str)
        ensures
            final(self).completed_stages() == old(self).completed_stages(),
    ;

    /// Records `stage` as completed.
    fn mark_completed(&mut self, stage: &str)
        ensures
            final(self).completed_stages() == old(self).completed_stages().insert(stage@),
    ;
}

/// A request made of a state store, with its answer.
pub enum StoreCall<S> {
    Load { answer: Result<Option<S>, String> },
    Save { state: S, answer: Result<(), String> },
}

/// Where the state is persisted between runs.
pub trait StateStore<S> {
    /// Whether this store keeps the record given by `store_calls`; one that
    /// does not promises nothing about that record.
    open spec fn keeps_record(&self) -> bool {
        false
    }

    /// The requests made of this store so far, with their answers.
    open spec fn store_calls(&self) -> Seq<StoreCall<S>> {
        Seq::empty()
    }

    /// The stored state, if any; an error is the store's message.
    fn load(&mut self) -> (r: Result<Option<S>, String>)
        ensures
            old(self).keeps_record() ==> final(self).keeps_record() && final(self).store_calls() == old(
                self,
            ).store_calls().push(StoreCall::Load { answer: r }),
    ;

    /// Stores `state`; an error is the store's message.
    fn save(&mut self, state: &S) -> (r: Result<(), String>)
        ensures
            old(self).keeps_record() ==> final(self).keeps_record() && final(self).store_calls() == old(
                self,
            ).store_calls().push(StoreCall::Save { state: *state, answer: r }),
    ;
}

/// The work of one stage.  A stage leaves the completion records to the
/// runner.
pub trait StageAction<S: WorkflowState> {
    fn run(&self, state: &mut S, dry_run: bool) -> (r: Result<(), WorkflowError>)
        ensures
            final(state).completed_stages() == old(state).completed_stages(),
    ;
}

/// The work of stages whose tasks share mutable resources (a HAL, outside
/// services): one dispatcher runs the task of each stage.  A task leaves the
/// completion records to the runner.
pub trait StageDispatch<S: WorkflowState, T> {
    /// The tasks run so far, each with the dry-run flag it was given and its
    /// answer.
    spec fn dispatched(&self) -> Seq<(T, bool, Result<(), WorkflowError>)>;

    fn run_task(&mut self, task: &T, state: &mut S, dry_run: bool) -> (r: Result<(), WorkflowError>)
        ensures
            final(state).completed_stages() == old(state).completed_stages(),
            final(self).dispatched() == old(self).dispatched().push((*task, dry_run, r)),
    ;
}

/// The tasks a run dispatches when it starts from the completion records
/// `done`: in order, each stage whose name is not yet recorded (a stage's
/// name is recorded once it ran); with the records after the run.
pub open spec fn run_order<'a, T>(done: Set<Seq<char>>, stages: Seq<StageDefinition<'a, T>>) -> (Seq<T>, Set<Seq<char>>)
    decreases stages.len(),
{
    if stages.len() == 0 {
        (Seq::empty(), done)
    } else {
        let prev = run_order(done, stages.drop_last());
        let s = stages.last();
        if prev.1.contains(s.name@) {
            prev
        } else {
            (prev.0.push(s.run), prev.1.insert(s.name@))
        }
    }
}

/// What a run did, read from the tasks it dispatched (`added`), for a run
/// that started from the completion records `done`: the tasks are a prefix
/// of `run_order`, each given the run's dry-run flag; every task but the last
/// succeeded, and a failed last task is the run's error; a successful run
/// dispatched them all and returns the records `run_order` ends with; any
/// other error is the store's.
pub open spec fn dispatched_as<'a, T, S: WorkflowState>(
    added: Seq<(T, bool, Result<(), WorkflowError>)>,
    done: Set<Seq<char>>,
    stages: Seq<StageDefinition<'a, T>>,
    dry_run: bool,
    r: Result<S, WorkflowError>,
) -> bool {
    let order = run_order(done, stages);
    &&& added.len() <= order.0.len()
    &&& forall|k: int| 0 <= k < added.len() ==> (#[trigger] added[k]).0 == order.0[k] && added[k].1 == dry_run
    &&& forall|k: int| 0 <= k < added.len() - 1 ==> (#[trigger] added[k]).2 is Ok
    &&& (added.len() > 0 && added.last().2 is Err) ==> r == Err::<S, WorkflowError>(added.last().2->Err_0)
    &&& match r {
        Ok(st) => added.len() == order.0.len() && (added.len() > 0 ==> added.last().2 is Ok)
            && st.completed_stages() == order.1,
        Err(e) => e is Store || (added.len() > 0 && added.last().2 == Err::<(), WorkflowError>(e)),
    }
}

/// `c` is a save of a state with the completion records `done`, answered
/// `Ok` when `ok`.
pub open spec fn is_save_of<S: WorkflowState>(c: StoreCall<S>, done: Set<Seq<char>>, ok: bool) -> bool {
    c matches StoreCall::Save { state, answer } && state.completed_stages() == done && (ok ==> answer is Ok)
}

/// `c` is a save that answered `Err(m)`.
pub open spec fn save_failed_with<S>(c: StoreCall<S>, m: String) -> bool {
    c matches StoreCall::Save { answer: Err(a), .. } && a == m
}

/// `c` is a save of `st`, answered `Ok` when `ok`.
pub open spec fn saves_state<S>(c: StoreCall<S>, st: S, ok: bool) -> bool {
    c matches StoreCall::Save { state, answer } && state == st && (ok ==> answer is Ok)
}

/// The completion records of the states a persisting run hands the store,
/// in order, when it starts from the records `done`: for each stage it runs,
/// the records before the stage and then with the stage added.
pub open spec fn run_saves<'a, T>(done: Set<Seq<char>>, stages: Seq<StageDefinition<'a, T>>) -> Seq<Set<Seq<char>>>
    decreases stages.len(),
{
    if stages.len() == 0 {
        Seq::empty()
    } else {
        let prev = run_saves(done, stages.drop_last());
        let d = run_order(done, stages.drop_last()).1;
        let s = stages.last();
        if d.contains(s.name@) {
            prev
        } else {
            prev.push(d).push(d.insert(s.name@))
        }
    }
}

/// What a run handed its store after loading (`added`), for a run that
/// started from the records `done` and dispatched `tasks`: nothing when it
/// does not persist; otherwise a prefix of `run_saves`, one save before each
/// task and one after each that succeeded, every save but the last
/// answered `Ok`; a successful run made them all, the last holding the
/// returned state; a store error is the last save's answer (or a task's).
pub open spec fn saved_as<'a, T, S: WorkflowState>(
    added: Seq<StoreCall<S>>,
    done: Set<Seq<char>>,
    stages: Seq<StageDefinition<'a, T>>,
    persist: bool,
    tasks: Seq<(T, bool, Result<(), WorkflowError>)>,
    r: Result<S, WorkflowError>,
) -> bool {
    saves_follow(added, run_saves(done, stages), persist, tasks, r)
}

/// The saves `added` of a run that dispatched `tasks` follow the plan of
/// completion records `plan` as `saved_as` says.
pub open spec fn saves_follow<T, S: WorkflowState>(
    added: Seq<StoreCall<S>>,
    plan: Seq<Set<Seq<char>>>,
    persist: bool,
    tasks: Seq<(T, bool, Result<(), WorkflowError>)>,
    r: Result<S, WorkflowError>,
) -> bool {
    &&& !persist ==> added.len() == 0
    &&& persist ==> added.len() <= plan.len()
    &&& persist ==> added.len() + 1 >= 2 * tasks.len() && added.len() <= 2 * tasks.len() + 1
    &&& forall|k: int| 0 <= k < added.len() ==> is_save_of(#[trigger] added[k], plan[k], k < added.len() - 1)
    &&& r matches Err(WorkflowError::Store(m)) ==> (added.len() > 0 && save_failed_with(added.last(), m)) || (
    tasks.len() > 0 && tasks.last().2 == Err::<(), WorkflowError>(WorkflowError::Store(m)))
    &&& r matches Ok(st) ==> (persist ==> added.len() == plan.len() && (added.len() > 0 ==> saves_state(
        added.last(),
        st,
        true,
    )))
}

/// The tasks `run_order` gives for a prefix of the stages begin the tasks it
/// gives for all of them.
pub proof fn lemma_run_order_prefix<'a, T>(done: Set<Seq<char>>, stages: Seq<StageDefinition<'a, T>>, j: int)
    requires
        0 <= j <= stages.len(),
    ensures
        run_order(done, stages.take(j)).0.len() <= run_order(done, stages).0.len(),
        forall|k: int| 0 <= k < run_order(done, stages.take(j)).0.len() ==> run_order(done, stages.take(j)).0[k]
            == #[trigger] run_order(done, stages).0[k],
    decreases stages.len(),
{
    if j == stages.len() {
        assert(stages.take(j) =~= stages);
    } else {
        lemma_run_order_prefix(done, stages.drop_last(), j);
        assert(stages.drop_last().take(j) =~= stages.take(j));
    }
}

/// The prefix property of `run_saves`, and its length: two saves for each
/// task `run_order` gives.
pub proof fn lemma_run_saves_prefix<'a, T>(done: Set<Seq<char>>, stages: Seq<StageDefinition<'a, T>>, j: int)
    requires
        0 <= j <= stages.len(),
    ensures
        run_saves(done, stages.take(j)).len() <= run_saves(done, stages).len(),
        forall|k: int| 0 <= k < run_saves(done, stages.take(j)).len() ==> run_saves(done, stages.take(j))[k]
            == #[trigger] run_saves(done, stages)[k],
        run_saves(done, stages).len() == 2 * run_order(done, stages).0.len(),
        run_saves(done, stages.take(j)).len() == 2 * run_order(done, stages.take(j)).0.len(),
    decreases stages.len(),
{
    if stages.len() > 0 {
        if j == stages.len() {
            assert(stages.take(j) =~= stages);
            lemma_run_saves_prefix(done, stages.drop_last(), 0);
        } else {
            lemma_run_saves_prefix(done, stages.drop_last(), j);
            assert(stages.drop_last().take(j) =~= stages.take(j));
        }
    } else {
        assert(stages.take(j) =~= stages);
    }
}

/// A run from the records `done` that dispatched `tasks`, seen from its
/// store: the calls it added to the store's record are what `saved_as` says.
pub open spec fn ran_from<'a, T, S: WorkflowState, St: StateStore<S>>(
    before: St,
    after: St,
    tasks: Seq<(T, bool, Result<(), WorkflowError>)>,
    done: Set<Seq<char>>,
    stages: Seq<StageDefinition<'a, T>>,
    dry_run: bool,
    persist: bool,
    r: Result<S, WorkflowError>,
) -> bool {
    &&& dispatched_as(tasks, done, stages, dry_run, r)
    &&& before.keeps_record() ==> {
        &&& after.keeps_record()
        &&& after.store_calls().len() >= before.store_calls().len()
        &&& after.store_calls().take(before.store_calls().len() as int) == before.store_calls()
        &&& saved_as(after.store_calls().skip(before.store_calls().len() as int), done, stages, persist, tasks, r)
    }
}

/// A run on what the store answered (`loaded`): a store error ends it with
/// that error, dispatching and saving nothing; otherwise it ran from the
/// stored state's records, or from those of a fresh state.
pub open spec fn ran_on<'a, T, S: WorkflowState, St: StateStore<S>, F: Fn(bool) -> S>(
    loaded: Result<Option<S>, String>,
    before: St,
    after: St,
    tasks: Seq<(T, bool, Result<(), WorkflowError>)>,
    stages: Seq<StageDefinition<'a, T>>,
    dry_run: bool,
    persist: bool,
    init_state: F,
    r: Result<S, WorkflowError>,
) -> bool {
    match loaded {
        Err(m) => r == Err::<S, WorkflowError>(WorkflowError::Store(m)) && tasks.len() == 0 && (before.keeps_record()
            ==> after.keeps_record() && after.store_calls() == before.store_calls()),
        Ok(Some(s)) => ran_from(before, after, tasks, s.completed_stages(), stages, dry_run, persist, r),
        Ok(None) => exists|s0: S|
            call_ensures(init_state, (dry_run,), s0) && #[trigger] ran_from(
                before,
                after,
                tasks,
                s0.completed_stages(),
                stages,
                dry_run,
                persist,
                r,
            ),
    }
}

proof fn lemma_ran_on_from<'a, T, S: WorkflowState, St: StateStore<S>, F: Fn(bool) -> S>(
    loaded: Result<Option<S>, String>,
    before: St,
    after: St,
    tasks: Seq<(T, bool, Result<(), WorkflowError>)>,
    start: S,
    stages: Seq<StageDefinition<'a, T>>,
    dry_run: bool,
    persist: bool,
    init_state: F,
    r: Result<S, WorkflowError>,
)
    requires
        loaded is Ok,
        loaded matches Ok(Some(st)) ==> start == st,
        loaded is Ok && loaded->Ok_0 is None ==> call_ensures(init_state, (dry_run,), start),
        ran_from(before, after, tasks, start.completed_stages(), stages, dry_run, persist, r),
    ensures
        ran_on(loaded, before, after, tasks, stages, dry_run, persist, init_state, r),
{
}

/// A run that first loaded from its store: the store's record grew by that
/// load and then by what `ran_on` says of a run on its answer.
pub open spec fn loaded_and_ran<'a, T, S: WorkflowState, St: StateStore<S>, F: Fn(bool) -> S>(
    before: St,
    after: St,
    tasks: Seq<(T, bool, Result<(), WorkflowError>)>,
    stages: Seq<StageDefinition<'a, T>>,
    dry_run: bool,
    persist: bool,
    init_state: F,
    r: Result<S, WorkflowError>,
) -> bool {
    &&& after.store_calls().len() > before.store_calls().len()
    &&& after.store_calls()[before.store_calls().len() as int] matches StoreCall::Load { answer } && exists|mid: St|
        #![trigger mid.store_calls()]
        mid.keeps_record() && mid.store_calls() == before.store_calls().push(StoreCall::Load { answer })
            && ran_on(answer, mid, after, tasks, stages, dry_run, persist, init_state, r)
}

proof fn lemma_loaded_and_ran<'a, T, S: WorkflowState, St: StateStore<S>, F: Fn(bool) -> S>(
    before: St,
    mid: St,
    after: St,
    answer: Result<Option<S>, String>,
    tasks: Seq<(T, bool, Result<(), WorkflowError>)>,
    stages: Seq<StageDefinition<'a, T>>,
    dry_run: bool,
    persist: bool,
    init_state: F,
    r: Result<S, WorkflowError>,
)
    requires
        before.keeps_record(),
        mid.keeps_record(),
        mid.store_calls() == before.store_calls().push((StoreCall::Load { answer })),
        ran_on(answer, mid, after, tasks, stages, dry_run, persist, init_state, r),
    ensures
        loaded_and_ran(before, after, tasks, stages, dry_run, persist, init_state, r),
{
    let cm = mid.store_calls();
    let n = before.store_calls().len();
    match answer {
        Err(_) => {
            assert(after.store_calls() == cm);
        },
        Ok(Some(s)) => {
            assert(ran_from(mid, after, tasks, s.completed_stages(), stages, dry_run, persist, r));
            assert(after.store_calls().take(cm.len() as int) == cm);
            assert(after.store_calls()[n as int] == after.store_calls().take(cm.len() as int)[n as int]);
        },
        Ok(None) => {
            let s0 = choose|s0: S|
                call_ensures(init_state, (dry_run,), s0) && #[trigger] ran_from(
                    mid,
                    after,
                    tasks,
                    s0.completed_stages(),
                    stages,
                    dry_run,
                    persist,
                    r,
                );
            assert(after.store_calls().take(cm.len() as int) == cm);
            assert(after.store_calls()[n as int] == after.store_calls().take(cm.len() as int)[n as int]);
        },
    }
    assert(after.store_calls()[n as int] == (StoreCall::Load { answer }));
}

/// A named stage and its work.
pub struct StageDefinition<'a, A> {
    pub name: &'a str,
    pub run: A,
}

/// Runs stages in order against a persisted state.
pub struct StageRunner<Store, F> {
    pub store: Store,
    pub dry_run: bool,
    pub persist: bool,
    /// Makes the initial state when the store holds none; it is told
    /// whether the run is a dry run.
    pub init_state: F,
}

impl<S: WorkflowState, Store: StateStore<S>, F: Fn(bool) -> S> StageRunner<Store, F> {
    pub fn new(store: Store, dry_run: bool, init_state: F) -> (r: Self)
        ensures
            r.store == store,
            r.dry_run == dry_run,
            r.persist,
            r.init_state == init_state,
    {
        Self { store, dry_run, persist: true, init_state }
    }

    pub fn new_with_persist(store: Store, dry_run: bool, persist: bool, init_state: F) -> (r: Self)
        ensures
            r.store == store,
            r.dry_run == dry_run,
            r.persist == persist,
            r.init_state == init_state,
    {
        Self { store, dry_run, persist, init_state }
    }

    /// Runs every stage not yet recorded as completed; on success every
    /// stage is recorded as completed in the returned state.  What it asks
    /// of the store is `loaded_and_ran` says: one load, then the saves of a
    /// run from what the load answered.
    pub fn run<A: StageAction<S>>(&mut self, stages: &Vec<StageDefinition<'_, A>>) -> (r: Result<S, WorkflowError>)
        requires
            forall|b: bool| #[trigger] old(self).init_state.requires((b,)),
        ensures
            final(self).dry_run == old(self).dry_run && final(self).persist == old(self).persist
                && final(self).init_state == old(self).init_state,
            r matches Ok(state) ==> forall|i: int|
                0 <= i < stages.len() ==> state.completed_stages().contains(#[trigger] stages@[i].name@),
            old(self).store.keeps_record() ==> exists|tasks: Seq<(A, bool, Result<(), WorkflowError>)>|
                #[trigger] loaded_and_ran(old(self).store, final(self).store, tasks, stages@, old(self).dry_run, old(self).persist, old(self).init_state, r),
    {
        let loaded = self.store.load();
        let ghost mid = self.store;
        let ghost lg = loaded;
        let out = self.run_logged(loaded, stages);
        proof {
            if old(self).store.keeps_record() {
                lemma_loaded_and_ran(old(self).store, mid, self.store, lg, out.1@, stages@, old(self).dry_run, old(self).persist, old(self).init_state, out.0);
            }
        }
        out.0
    }

    /// `run` on what the store answered (`loaded`), with a record of the
    /// actions it ran: each with the dry-run flag it was given and its
    /// answer.  A store error ends the run before any stage; otherwise the
    /// run starts from the stored state, or a fresh one when the store holds
    /// none, runs what `run_order` gives from its completion records, and
    /// hands the store what `saved_as` says.
    pub fn run_logged<A: StageAction<S>>(
        &mut self,
        loaded: Result<Option<S>, String>,
        stages: &Vec<StageDefinition<'_, A>>,
    ) -> (out: (Result<S, WorkflowError>, Ghost<Seq<(A, bool, Result<(), WorkflowError>)>>))
        requires
            forall|b: bool| #[trigger] old(self).init_state.requires((b,)),
        ensures
            final(self).dry_run == old(self).dry_run && final(self).persist == old(self).persist
                && final(self).init_state == old(self).init_state,
            out.0 matches Ok(state) ==> forall|i: int|
                0 <= i < stages.len() ==> state.completed_stages().contains(#[trigger] stages@[i].name@),
            ran_on(loaded, old(self).store, final(self).store, out.1@, stages@, old(self).dry_run, old(self).persist, old(self).init_state, out.0),
    {
        let mut actions = ActionLog { log: Ghost(Seq::empty()) };
        proof {
            assert(actions.dispatched().len() == 0);
        }
        let r = self.run_from(loaded, stages, &mut actions);
        let log: Ghost<Seq<(A, bool, Result<(), WorkflowError>)>> = Ghost(actions.log@);
        let out = (r, log);
        proof {
            assert(actions.dispatched().skip(0) =~= actions.log@);
        }
        out
    }

    /// Like `run`, with each stage's task run by `dispatch`.
    pub fn run_dispatch<T, D: StageDispatch<S, T>>(
        &mut self,
        stages: &Vec<StageDefinition<'_, T>>,
        dispatch: &mut D,
    ) -> (r: Result<S, WorkflowError>)
        requires
            forall|b: bool| #[trigger] old(self).init_state.requires((b,)),
        ensures
            final(self).dry_run == old(self).dry_run && final(self).persist == old(self).persist
                && final(self).init_state == old(self).init_state,
            r matches Ok(state) ==> forall|i: int|
                0 <= i < stages.len() ==> state.completed_stages().contains(#[trigger] stages@[i].name@),
            final(dispatch).dispatched().len() >= old(dispatch).dispatched().len(),
            final(dispatch).dispatched().take(old(dispatch).dispatched().len() as int) == old(dispatch).dispatched(),
            old(self).store.keeps_record() ==> loaded_and_ran(
                old(self).store,
                final(self).store,
                final(dispatch).dispatched().skip(old(dispatch).dispatched().len() as int),
                stages@,
                old(self).dry_run,
                old(self).persist,
                old(self).init_state,
                r,
            ),
            exists|done: Set<Seq<char>>|
                #[trigger] dispatched_as(
                    final(dispatch).dispatched().skip(old(dispatch).dispatched().len() as int),
                    done,
                    stages@,
                    old(self).dry_run,
                    r,
                ),
    {
        let loaded = self.store.load();
        let ghost mid = self.store;
        let ghost lg = loaded;
        let r = self.run_from(loaded, stages, dispatch);
        proof {
            let added = dispatch.dispatched().skip(old(dispatch).dispatched().len() as int);
            if old(self).store.keeps_record() {
                lemma_loaded_and_ran(old(self).store, mid, self.store, lg, added, stages@, old(self).dry_run, old(self).persist, old(self).init_state, r);
            }
            match lg {
                Err(m) => {
                    assert(added =~= Seq::empty());
                    assert(dispatched_as(added, Set::empty(), stages@, old(self).dry_run, r));
                },
                Ok(Some(s)) => {
                    assert(dispatched_as(added, s.completed_stages(), stages@, old(self).dry_run, r));
                },
                Ok(None) => {
                    let s0 = choose|s0: S|
                        call_ensures(old(self).init_state, (old(self).dry_run,), s0) && #[trigger] ran_from(
                            mid,
                            self.store,
                            added,
                            s0.completed_stages(),
                            stages@,
                            old(self).dry_run,
                            old(self).persist,
                            r,
                        );
                    assert(dispatched_as(added, s0.completed_stages(), stages@, old(self).dry_run, r));
                },
            }
        }
        r
    }

    /// A run on what the store answered (`loaded`), with each stage's task
    /// run by `dispatch`: a store error ends it before any stage; otherwise it
    /// starts from the stored state, or from a fresh one when the store holds
    /// none, runs what `run_order` gives from that state's completion records
    /// and hands the store what `saved_as` says.
    pub fn run_from<T, D: StageDispatch<S, T>>(
        &mut self,
        loaded: Result<Option<S>, String>,
        stages: &Vec<StageDefinition<'_, T>>,
        dispatch: &mut D,
    ) -> (r: Result<S, WorkflowError>)
        requires
            forall|b: bool| #[trigger] old(self).init_state.requires((b,)),
        ensures
            final(self).dry_run == old(self).dry_run && final(self).persist == old(self).persist
                && final(self).init_state == old(self).init_state,
            r matches Ok(state) ==> forall|i: int|
                0 <= i < stages.len() ==> state.completed_stages().contains(#[trigger] stages@[i].name@),
            final(dispatch).dispatched().len() >= old(dispatch).dispatched().len(),
            final(dispatch).dispatched().take(old(dispatch).dispatched().len() as int) == old(dispatch).dispatched(),
            ran_on(
                loaded,
                old(self).store,
                final(self).store,
                final(dispatch).dispatched().skip(old(dispatch).dispatched().len() as int),
                stages@,
                old(self).dry_run,
                old(self).persist,
                old(self).init_state,
                r,
            ),
    {
        let ghost log0 = dispatch.dispatched();
        let ghost sc0 = self.store.store_calls();
        let ghost keeps = self.store.keeps_record();
        let stored = match loaded {
            Ok(s) => s,
            Err(m) => {
                proof {
                    assert(dispatch.dispatched().skip(log0.len() as int) =~= Seq::empty());
                    assert(self.store.store_calls().take(sc0.len() as int) =~= sc0);
                }
                return Err(WorkflowError::Store(m));
            },
        };
        let mut state = match stored {
            Some(s) => s,
            None => {
                let init = &self.init_state;
                init(self.dry_run)
            },
        };
        let ghost start = state;
        let ghost done0 = state.completed_stages();
        proof {
            assert(stages@.take(0) =~= Seq::<StageDefinition<'_, T>>::empty());
            assert(dispatch.dispatched().take(log0.len() as int) =~= log0);
            assert(self.store.store_calls().take(sc0.len() as int) =~= sc0);
        }
        let mut i: usize = 0;
        while i < stages.len()
            invariant
                i <= stages.len(),
                self.dry_run == old(self).dry_run && self.persist == old(self).persist && self.init_state
                    == old(self).init_state,
                forall|j: int| 0 <= j < i ==> state.completed_stages().contains(#[trigger] stages@[j].name@),
                state.completed_stages() == run_order(done0, stages@.take(i as int)).1,
                dispatch.dispatched().len() == log0.len() + run_order(done0, stages@.take(i as int)).0.len(),
                dispatch.dispatched().take(log0.len() as int) == log0,
                log0 == old(dispatch).dispatched(),
                done0 == start.completed_stages(),
                loaded is Ok,
                loaded matches Ok(Some(st)) ==> start == st,
                loaded is Ok && loaded->Ok_0 is None ==> call_ensures(self.init_state, (self.dry_run,), start),
                forall|k: int| 0 <= k < run_order(done0, stages@.take(i as int)).0.len() ==>
                    (#[trigger] dispatch.dispatched()[log0.len() + k]).0 == run_order(done0, stages@.take(i as int)).0[k]
                        && dispatch.dispatched()[log0.len() + k].1 == self.dry_run
                        && dispatch.dispatched()[log0.len() + k].2 is Ok,
                sc0 == old(self).store.store_calls(),
                keeps == old(self).store.keeps_record(),
                keeps ==> self.store.keeps_record(),
                keeps ==> self.store.store_calls().len() >= sc0.len(),
                keeps ==> self.store.store_calls().take(sc0.len() as int) == sc0,
                keeps && !self.persist ==> self.store.store_calls() == sc0,
                keeps && self.persist ==> self.store.store_calls().len() == sc0.len() + run_saves(done0, stages@.take(i as int)).len(),
                keeps && self.persist ==> forall|k: int| 0 <= k < run_saves(done0, stages@.take(i as int)).len() ==>
                    is_save_of(#[trigger] self.store.store_calls()[sc0.len() + k], run_saves(done0, stages@.take(i as int))[k], true),
                keeps && self.persist && run_saves(done0, stages@.take(i as int)).len() > 0 ==> saves_state(
                    self.store.store_calls().last(),
                    state,
                    true,
                ),
                run_saves(done0, stages@.take(i as int)).len() == 2 * run_order(done0, stages@.take(i as int)).0.len(),
            decreases stages.len() - i,
        {
            let stage = &stages[i];
            let ghost pre = run_order(done0, stages@.take(i as int));
            let ghost pre_saves = run_saves(done0, stages@.take(i as int));
            proof {
                assert(stages@.take(i + 1).drop_last() =~= stages@.take(i as int));
                assert(stages@.take(i + 1).last() == stages@[i as int]);
                lemma_run_order_prefix(done0, stages@, i + 1);
                lemma_run_saves_prefix(done0, stages@, i + 1);
                lemma_run_saves_prefix(done0, stages@, i as int);
            }
            if !state.is_completed(stage.name) {
                state.set_current(stage.name);
                if self.persist {
                    let ghost calls_before = self.store.store_calls();
                    let saved = self.store.save(&state);
                    proof {
                        if keeps {
                            assert(self.store.store_calls() == calls_before.push(StoreCall::Save { state, answer: saved }));
                            assert(self.store.store_calls().take(sc0.len() as int) =~= sc0);
                        }
                    }
                    match saved {
                        Ok(()) => {},
                        Err(m) => {
                            proof {
                                let added = dispatch.dispatched().skip(log0.len() as int);
                                assert(added.len() == pre.0.len());
                                assert forall|k: int| 0 <= k < added.len() implies (#[trigger] added[k]).2 is Ok
                                    && added[k].0 == run_order(done0, stages@).0[k] && added[k].1 == self.dry_run by {
                                    assert(added[k] == dispatch.dispatched()[log0.len() + k]);
                                    assert(pre.0[k] == run_order(done0, stages@).0[k]);
                                }
                                assert(dispatched_as(added, done0, stages@, self.dry_run, Err::<S, WorkflowError>(WorkflowError::Store(m))));
                                if keeps {
                                    let sadded = self.store.store_calls().skip(sc0.len() as int);
                                    assert(sadded.len() == pre_saves.len() + 1);
                                    assert forall|k: int| 0 <= k < sadded.len() implies is_save_of(#[trigger] sadded[k], run_saves(done0, stages@)[k], k < sadded.len() - 1) by {
                                        assert(sadded[k] == self.store.store_calls()[sc0.len() + k]);
                                        if k < pre_saves.len() {
                                            assert(self.store.store_calls()[sc0.len() + k] == calls_before[sc0.len() + k]);
                                            assert(pre_saves[k] == run_saves(done0, stages@)[k]);
                                        } else {
                                            assert(run_saves(done0, stages@.take(i + 1))[k] == run_saves(done0, stages@)[k]);
                                        }
                                    }
                                    assert(saved_as(sadded, done0, stages@, self.persist, added, Err::<S, WorkflowError>(WorkflowError::Store(m))));
                                }
                                assert(ran_from(old(self).store, self.store, added, done0, stages@, old(self).dry_run, old(self).persist, Err::<S, WorkflowError>(WorkflowError::Store(m))));
                                lemma_ran_on_from(loaded, old(self).store, self.store, added, start, stages@, old(self).dry_run, old(self).persist, old(self).init_state, Err::<S, WorkflowError>(WorkflowError::Store(m)));
                            }
                            return Err(WorkflowError::Store(m));
                        },
                    }
                }
                let ghost log_before = dispatch.dispatched();
                let ghost calls_mid = self.store.store_calls();
                let res = dispatch.run_task(&stage.run, &mut state, self.dry_run);
                proof {
                    let added = dispatch.dispatched().skip(log0.len() as int);
                    assert(dispatch.dispatched() == log_before.push((stage.run, self.dry_run, res)));
                    assert(dispatch.dispatched().take(log0.len() as int) =~= log0);
                    assert(run_order(done0, stages@.take(i + 1)).0 == pre.0.push(stage.run));
                    assert(added.len() == pre.0.len() + 1);
                    assert forall|k: int| 0 <= k < added.len() - 1 implies (#[trigger] added[k]).2 is Ok by {
                        assert(added[k] == dispatch.dispatched()[log0.len() + k]);
                        assert(dispatch.dispatched()[log0.len() + k] == log_before[log0.len() + k]);
                    }
                    assert forall|k: int| 0 <= k < added.len() implies (#[trigger] added[k]).0 == run_order(done0, stages@).0[k]
                        && added[k].1 == self.dry_run by {
                        assert(added[k] == dispatch.dispatched()[log0.len() + k]);
                        if k < added.len() - 1 {
                            assert(dispatch.dispatched()[log0.len() + k] == log_before[log0.len() + k]);
                        }
                        assert(run_order(done0, stages@.take(i + 1)).0[k] == run_order(done0, stages@).0[k]);
                    }
                    assert(added.last() == (stage.run, self.dry_run, res));
                }
                if let Err(e) = res {
                    proof {
                        let added = dispatch.dispatched().skip(log0.len() as int);
                        assert(dispatched_as(added, done0, stages@, self.dry_run, Err::<S, WorkflowError>(e)));
                        if keeps {
                            let sadded = self.store.store_calls().skip(sc0.len() as int);
                            assert forall|k: int| 0 <= k < sadded.len() implies is_save_of(#[trigger] sadded[k], run_saves(done0, stages@)[k], k < sadded.len() - 1) by {
                                assert(sadded[k] == self.store.store_calls()[sc0.len() + k]);
                                if k < pre_saves.len() {
                                    assert(pre_saves[k] == run_saves(done0, stages@)[k]);
                                } else {
                                    assert(run_saves(done0, stages@.take(i + 1))[k] == run_saves(done0, stages@)[k]);
                                }
                            }
                            assert(saved_as(sadded, done0, stages@, self.persist, added, Err::<S, WorkflowError>(e)));
                        }
                        assert(ran_from(old(self).store, self.store, added, done0, stages@, old(self).dry_run, old(self).persist, Err::<S, WorkflowError>(e)));
                        lemma_ran_on_from(loaded, old(self).store, self.store, added, start, stages@, old(self).dry_run, old(self).persist, old(self).init_state, Err::<S, WorkflowError>(e));
                    }
                    return Err(e);
                }
                proof {
                    assert(res is Ok);
                }
                state.mark_completed(stage.name);
                proof {
                    let added = dispatch.dispatched().skip(log0.len() as int);
                    assert forall|k: int| 0 <= k < run_order(done0, stages@.take(i + 1)).0.len() implies
                        (#[trigger] dispatch.dispatched()[log0.len() + k]).0 == run_order(done0, stages@.take(i + 1)).0[k]
                            && dispatch.dispatched()[log0.len() + k].1 == self.dry_run
                            && dispatch.dispatched()[log0.len() + k].2 is Ok by {
                        if k < pre.0.len() {
                            assert(dispatch.dispatched()[log0.len() + k] == log_before[log0.len() + k]);
                            assert(run_order(done0, stages@.take(i + 1)).0[k] == pre.0[k]);
                        } else {
                            assert(k == pre.0.len());
                            assert(dispatch.dispatched()[log0.len() + k] == (stage.run, self.dry_run, res));
                            assert(run_order(done0, stages@.take(i + 1)).0[k] == stage.run);
                        }
                    }
                    assert forall|k: int| 0 <= k < added.len() implies (#[trigger] added[k]).2 is Ok by {
                        assert(added[k] == dispatch.dispatched()[log0.len() + k]);
                    }
                }
                if self.persist {
                    let ghost calls_before = self.store.store_calls();
                    let saved = self.store.save(&state);
                    proof {
                        if keeps {
                            assert(self.store.store_calls() == calls_before.push(StoreCall::Save { state, answer: saved }));
                            assert(self.store.store_calls().take(sc0.len() as int) =~= sc0);
                        }
                    }
                    match saved {
                        Ok(()) => {},
                        Err(m) => {
                            proof {
                                let added = dispatch.dispatched().skip(log0.len() as int);
                                assert(dispatched_as(added, done0, stages@, self.dry_run, Err::<S, WorkflowError>(WorkflowError::Store(m))));
                                if keeps {
                                    let sadded = self.store.store_calls().skip(sc0.len() as int);
                                    assert(sadded.len() == pre_saves.len() + 2);
                                    assert forall|k: int| 0 <= k < sadded.len() implies is_save_of(#[trigger] sadded[k], run_saves(done0, stages@)[k], k < sadded.len() - 1) by {
                                        assert(sadded[k] == self.store.store_calls()[sc0.len() + k]);
                                        if k < pre_saves.len() {
                                            assert(pre_saves[k] == run_saves(done0, stages@)[k]);
                                        } else {
                                            assert(run_saves(done0, stages@.take(i + 1))[k] == run_saves(done0, stages@)[k]);
                                        }
                                    }
                                    assert(saved_as(sadded, done0, stages@, self.persist, added, Err::<S, WorkflowError>(WorkflowError::Store(m))));
                                }
                                assert(ran_from(old(self).store, self.store, added, done0, stages@, old(self).dry_run, old(self).persist, Err::<S, WorkflowError>(WorkflowError::Store(m))));
                                lemma_ran_on_from(loaded, old(self).store, self.store, added, start, stages@, old(self).dry_run, old(self).persist, old(self).init_state, Err::<S, WorkflowError>(WorkflowError::Store(m)));
                            }
                            return Err(WorkflowError::Store(m));
                        },
                    }
                }
            }
            i += 1;
        }
        proof {
            assert(stages@.take(stages.len() as int) =~= stages@);
            let added = dispatch.dispatched().skip(log0.len() as int);
            assert forall|k: int| 0 <= k < added.len() implies (#[trigger] added[k]).0 == run_order(done0, stages@).0[k]
                && added[k].1 == self.dry_run && added[k].2 is Ok by {
                assert(added[k] == dispatch.dispatched()[log0.len() + k]);
            }
            assert(dispatched_as(added, done0, stages@, self.dry_run, Ok::<S, WorkflowError>(state)));
            if keeps {
                let sadded = self.store.store_calls().skip(sc0.len() as int);
                if self.persist {
                    assert forall|k: int| 0 <= k < sadded.len() implies is_save_of(#[trigger] sadded[k], run_saves(done0, stages@)[k], k < sadded.len() - 1) by {
                        assert(sadded[k] == self.store.store_calls()[sc0.len() + k]);
                    }
                } else {
                    assert(sadded =~= Seq::empty());
                }
                assert(saved_as(sadded, done0, stages@, self.persist, added, Ok::<S, WorkflowError>(state)));
            }
            assert(ran_from(old(self).store, self.store, added, done0, stages@, old(self).dry_run, old(self).persist, Ok::<S, WorkflowError>(state)));
            lemma_ran_on_from(loaded, old(self).store, self.store, added, start, stages@, old(self).dry_run, old(self).persist, old(self).init_state, Ok::<S, WorkflowError>(state));
        }
        Ok(state)
    }
}

/// Runs each stage's own action, keeping a record of the calls.
struct ActionLog<A> {
    log: Ghost<Seq<(A, bool, Result<(), WorkflowError>)>>,
}

impl<S: WorkflowState, A: StageAction<S>> StageDispatch<S, A> for ActionLog<A> {
    closed spec fn dispatched(&self) -> Seq<(A, bool, Result<(), WorkflowError>)> {
        self.log@
    }

    fn run_task(&mut self, task: &A, state: &mut S, dry_run: bool) -> (r: Result<(), WorkflowError>) {
        let r = task.run(state, dry_run);
        self.log = Ghost(self.log@.push((*task, dry_run, r)));
        r
    }
}

/// Stage bookkeeping kept in memory: the running stage, the completed
/// stages in completion order, and whether the run is a dry run.
#[derive(Debug, Clone)]
pub struct StageProgress {
    pub current: Option<String>,
    pub completed: Vec<String>,
    pub dry_run: bool,
}

impl StageProgress {
    pub fn new(dry_run: bool) -> (r: Self)
        ensures
            r.current is None,
            r.completed@.len() == 0,
            r.dry_run == dry_run,
    {
        StageProgress { current: None, completed: Vec::new(), dry_run }
    }
}

impl WorkflowState for StageProgress {
    open spec fn completed_stages(&self) -> Set<Seq<char>> {
        views_of(self.completed@).to_set()
    }

    fn is_completed(&self, stage: &str) -> (r: bool) {
        let mut i: usize = 0;
        while i < self.completed.len()
            invariant
                i <= self.completed.len(),
                forall|j: int| 0 <= j < i ==> self.completed@[j]@ != stage@,
            decreases self.completed.len() - i,
        {
            if str_eq(self.completed[i].as_str(), stage) {
                proof {
                    assert(views_of(self.completed@)[i as int] == stage@);
                }
                return true;
            }
            i += 1;
        }
        proof {
            if views_of(self.completed@).to_set().contains(stage@) {
                let k = choose|k: int| 0 <= k < views_of(self.completed@).len() && views_of(self.completed@)[k] == stage@;
                assert(self.completed@[k]@ == stage@);
            }
        }
        false
    }

    fn set_current(&mut self, stage: &str) {
        self.current = Some(String::from_str(stage));
    }

    fn mark_completed(&mut self, stage: &str) {
        if !self.is_completed(stage) {
            let ghost before = views_of(self.completed@);
            self.completed.push(String::from_str(stage));
            proof {
                assert(views_of(self.completed@) =~= before.push(stage@));
                before.lemma_push_to_set_commute(stage@);
            }
        } else {
            assert(self.completed_stages().insert(stage@) =~= self.completed_stages());
        }
    }
}

} // verus!
