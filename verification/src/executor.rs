use vstd::prelude::*;

use crate::conflict::ConflictRequest;
use crate::conflict::ReplaceResult;
use crate::conflict::StickyResolution;
use crate::controller::Controller;
use crate::operation::Operation;
use crate::operation::OperationSelection;
use crate::operation::TrashEntry;
use crate::paths::alt_name;
use crate::paths::alt_name_of;
use crate::paths::dest_path;
use crate::paths::transfer_dest;

verus! {

/// The kind of work one executor performs; fixed at construction from the
/// `Operation` variant.
#[derive(Clone, Copy, Debug, Eq, PartialEq, Structural)]
pub enum OpKind {
    Copy,
    Move,
    Delete,
    Restore,
    EmptyTrash,
    Compress,
    Extract,
    NewFile,
    NewFolder,
    Rename,
    SetExecutableAndLaunch,
}

/// The kinds that can meet destination-naming conflicts and therefore
/// drive the conflict protocol before each item.
pub open spec fn conflict_capable(k: OpKind) -> bool {
    k == OpKind::Copy || k == OpKind::Move || k == OpKind::Restore || k == OpKind::Extract
}

/// The kinds whose successfully written destinations the UI should
/// highlight afterwards. Deleting writes nothing to highlight.
pub open spec fn selects(k: OpKind) -> bool {
    !(k == OpKind::Delete || k == OpKind::EmptyTrash)
}

/// One planned item of work: the source it reads and the destination it
/// writes. For deletions both are the doomed path; for restores the
/// source is the trash-entry handle; for one-shot kinds the plan holds a
/// single item.
#[derive(Clone, Debug, Eq, PartialEq)]
pub struct WorkItem {
    pub src: String,
    pub dst: String,
}

/// The failures an operation can terminate with.
#[derive(Clone, Debug, Eq, PartialEq)]
pub enum OpError {
    /// The archive needs a password the operation was not given, or the
    /// given one was wrong. Distinguished from plain failure so the
    /// issuer can prompt and resubmit the operation with a password.
    PasswordRequired,
    /// Any other I/O or codec error, carrying the offending path and the
    /// underlying error text.
    Failure { path: String, message: String },
}

/// How an operation ended. User cancellation is not a failure: it must
/// not produce error dialogs or retry logic.
#[derive(Clone, Debug, Eq, PartialEq)]
pub enum Termination {
    Completed,
    Cancelled,
    Failed { error: OpError },
}

/// Where the executor stands between two events: its explicit
/// suspend/resume state.
#[derive(Debug)]
pub enum Phase {
    /// About to checkpoint the controller and start the next item.
    Ready,
    /// Asked whether the planned destination of the current item exists.
    AwaitExists { dst: String },
    /// Asked the issuer how to resolve a conflict on `dst`. At most one
    /// request is ever outstanding: the executor asks again only after
    /// the previous answer arrived.
    AwaitConflict { dst: String },
    /// Keep-both: probing whether the `n`th synthesized alternate name
    /// for `dst` is itself free.
    AwaitAltExists { dst: String, alt: String, n: u64 },
    /// The work primitive for the current item is running; it writes
    /// `dst`.
    AwaitPerform { dst: String },
    /// Terminal. Terminal states are sinks: every further event is
    /// answered with `Finish` and no state change.
    Finished { term: Termination },
}

/// The work primitives the runner performs on behalf of the executor.
/// The runner owns the `Operation` and resolves indices against it.
#[derive(Debug)]
pub enum Work {
    /// Write plan item `index` to `dst`: copy bytes, rename, restore the
    /// trash entry, or unpack the archive, according to the kind.
    Transfer { index: usize, dst: String },
    /// Move plan item `index` to the OS trash; report the entry handle.
    TrashPath { index: usize },
    /// The single bulk step of a one-shot kind: empty the trash, pack
    /// the archive, create the file or folder, rename, or mark
    /// executable and launch.
    Single,
}

/// What the executor asks the runner to do next.
#[derive(Debug)]
pub enum Action {
    /// Report whether `path` currently exists.
    CheckExists { path: String },
    /// Deliver this request to the issuer; come back with the response.
    AskConflict { request: ConflictRequest },
    /// Run a work primitive; come back with its result.
    Perform { work: Work },
    /// Paused: come back later with another `Tick`.
    Wait,
    /// The state advanced without outside work; call `step` again.
    Advance,
    /// The operation reached a terminal state.
    Finish,
}

/// What the outside world reports back into `step`.
#[derive(Debug)]
pub enum Event {
    /// Nothing to report; lets the executor re-read the controller.
    Tick,
    /// Answer to `CheckExists`.
    ExistsChecked { exists: bool },
    /// Answer to `AskConflict`.
    Decided { response: ReplaceResult },
    /// Answer to `Perform`. A trash step reports the entry handle it
    /// received back.
    Performed { result: Result<Option<TrashEntry>, OpError> },
}

/// The per-operation execution state machine. Built once from an
/// `Operation`, then driven by `step`: each call reads the controller,
/// consumes one event and says what the runner must do next. All
/// filesystem work, all waiting and the conflict rendezvous happen
/// outside, in the runner.
pub struct Executor {
    pub kind: OpKind,
    pub plan: Vec<WorkItem>,
    pub idx: usize,
    pub sticky: Option<StickyResolution>,
    pub conflicts: u64,
    pub requests: u64,
    pub selected: Vec<String>,
    pub ignored: Vec<String>,
    pub trashed: Vec<TrashEntry>,
    pub phase: Phase,
}

impl Executor {
    /// The destinations the plan will write, in item order.
    pub open spec fn planned_dsts(self) -> Seq<String> {
        self.plan@.map(|i: int, w: WorkItem| w.dst)
    }

    /// At most one conflict can have been met per started item.
    pub open spec fn conflict_bound(self) -> int {
        match self.phase {
            Phase::Ready => self.idx as int,
            Phase::AwaitExists { .. } => self.idx as int,
            _ => self.idx + 1,
        }
    }

    /// What each phase implies about the rest of the state.
    pub open spec fn phase_wf(self) -> bool {
        match self.phase {
            Phase::Ready => true,
            Phase::AwaitExists { dst } => self.idx < self.plan.len() && conflict_capable(self.kind)
                && dst == self.plan@[self.idx as int].dst,
            Phase::AwaitConflict { dst } => self.idx < self.plan.len() && conflict_capable(
                self.kind,
            ) && dst == self.plan@[self.idx as int].dst && self.conflicts > 0 && self.sticky
                is None,
            Phase::AwaitAltExists { dst, alt, n } => self.idx < self.plan.len()
                && conflict_capable(self.kind) && dst == self.plan@[self.idx as int].dst && alt@
                == alt_name_of(dst@, n as int) && n >= 2 && self.conflicts > 0,
            Phase::AwaitPerform { dst } => self.idx < self.plan.len() && (self.conflicts == 0
                ==> dst == self.plan@[self.idx as int].dst),
            Phase::Finished { term } => term == Termination::Completed ==> self.idx
                == self.plan.len(),
        }
    }

    /// Until the first conflict is met, nothing is skipped, no choice is
    /// cached, and exactly the planned destinations of the finished items
    /// have been recorded for selection.
    pub open spec fn no_conflict_state(self) -> bool {
        self.conflicts == 0 ==> {
            &&& self.sticky is None
            &&& self.ignored@ == Seq::<String>::empty()
            &&& selects(self.kind) ==> self.selected@ == self.planned_dsts().take(self.idx as int)
            &&& !selects(self.kind) ==> self.selected@ == Seq::<String>::empty()
        }
    }

    pub open spec fn wf(self) -> bool {
        &&& self.idx <= self.plan.len()
        &&& self.conflicts <= self.conflict_bound()
        &&& self.requests <= self.conflicts
        &&& self.phase_wf()
        &&& self.no_conflict_state()
    }

    /// The executor and its controller agree on the progress counters.
    pub open spec fn coupled(self, ctl: Controller) -> bool {
        ctl.items_total == self.plan.len() as u64 && ctl.items_done == self.idx as u64
    }

    /// How many items the plan holds; the progress denominator.
    pub fn items_total(&self) -> (r: u64)
        ensures
            r == self.plan.len() as u64,
    {
        self.plan.len() as u64
    }
}

/// Everything but the phase is unchanged.
pub open spec fn same_but_phase(pre: Executor, post: Executor) -> bool {
    &&& post.kind == pre.kind
    &&& post.plan == pre.plan
    &&& post.idx == pre.idx
    &&& post.sticky == pre.sticky
    &&& post.conflicts == pre.conflicts
    &&& post.requests == pre.requests
    &&& post.selected == pre.selected
    &&& post.ignored == pre.ignored
    &&& post.trashed == pre.trashed
}

/// The plan and kind never change while an operation runs.
pub open spec fn same_core(pre: Executor, post: Executor) -> bool {
    post.kind == pre.kind && post.plan == pre.plan
}

/// Transition relation of `Executor::step`, split by the phase the
/// executor was in. `pre`/`cpre` are the states before the call,
/// `post`/`cpost` after, `action` its result.
pub open spec fn step_post(
    pre: Executor,
    cpre: Controller,
    event: Event,
    post: Executor,
    cpost: Controller,
    action: Action,
) -> bool {
    if pre.phase is Finished {
        // Terminal states are sinks.
        post == pre && cpost == cpre && action is Finish
    } else if cpre.cancelled {
        // Cancellation has highest priority: it overrides pause and
        // short-circuits any pending conflict wait, and nothing further
        // is performed.
        same_but_phase(pre, post) && post.phase == (Phase::Finished {
            term: Termination::Cancelled,
        }) && cpost == cpre && action is Finish
    } else if cpre.paused {
        // Pausing is cooperative and holds the machine exactly where it
        // is; no filesystem step is taken while paused.
        post == pre && cpost == cpre && action is Wait
    } else {
        match pre.phase {
            Phase::Ready => step_post_ready(pre, cpre, post, cpost, action),
            Phase::AwaitExists { dst } => step_post_exists(pre, cpre, event, post, cpost, action, dst),
            Phase::AwaitConflict { dst } => step_post_conflict(pre, cpre, event, post, cpost, action, dst),
            Phase::AwaitAltExists { dst, alt, n } => step_post_alt(
                pre, cpre, event, post, cpost, action, dst, alt, n,
            ),
            Phase::AwaitPerform { dst } => step_post_perform(pre, cpre, event, post, cpost, action, dst),
            Phase::Finished { .. } => false,
        }
    }
}

/// From `Ready` the executor finishes when the plan is exhausted, probes
/// the destination first for conflict-capable kinds, and otherwise starts
/// the work primitive directly.
pub open spec fn step_post_ready(
    pre: Executor,
    cpre: Controller,
    post: Executor,
    cpost: Controller,
    action: Action,
) -> bool {
    if pre.idx == pre.plan.len() {
        same_but_phase(pre, post) && post.phase == (Phase::Finished {
            term: Termination::Completed,
        }) && cpost == cpre && action is Finish
    } else if conflict_capable(pre.kind) {
        &&& same_but_phase(pre, post)
        &&& post.phase matches Phase::AwaitExists { dst } && dst == pre.plan@[pre.idx as int].dst
        &&& cpost == cpre
        &&& action matches Action::CheckExists { path } && path == pre.plan@[pre.idx as int].dst
    } else {
        &&& same_but_phase(pre, post)
        &&& post.phase matches Phase::AwaitPerform { dst } && dst == pre.plan@[pre.idx as int].dst
        &&& cpost == cpre
        &&& action matches Action::Perform { work } && (if pre.kind == OpKind::Delete {
            work matches Work::TrashPath { index } && index == pre.idx
        } else {
            work is Single
        })
    }
}

/// Answer to the destination probe. A free destination starts the
/// transfer. An occupied one is a conflict: a cached sticky choice
/// resolves it silently, otherwise the issuer is asked.
pub open spec fn step_post_exists(
    pre: Executor,
    cpre: Controller,
    event: Event,
    post: Executor,
    cpost: Controller,
    action: Action,
    dst: String,
) -> bool {
    match event {
        Event::ExistsChecked { exists } => {
            if !exists {
                &&& same_but_phase(pre, post)
                &&& post.phase matches Phase::AwaitPerform { dst: d } && d == dst
                &&& cpost == cpre
                &&& action matches Action::Perform { work } && work matches Work::Transfer {
                    index,
                    dst: d,
                } && index == pre.idx && d == dst
            } else {
                match pre.sticky {
                    Some(StickyResolution::Replace) => {
                        &&& same_core(pre, post)
                        &&& post.idx == pre.idx
                        &&& post.sticky == pre.sticky
                        &&& post.conflicts == pre.conflicts + 1
                        &&& post.requests == pre.requests
                        &&& post.selected == pre.selected
                        &&& post.ignored == pre.ignored
                        &&& post.trashed == pre.trashed
                        &&& post.phase matches Phase::AwaitPerform { dst: d } && d == dst
                        &&& cpost == cpre
                        &&& action matches Action::Perform { work } && work
                            matches Work::Transfer { index, dst: d } && index == pre.idx && d
                            == dst
                    },
                    Some(StickyResolution::Skip) => {
                        &&& same_core(pre, post)
                        &&& post.idx == pre.idx + 1
                        &&& post.sticky == pre.sticky
                        &&& post.conflicts == pre.conflicts + 1
                        &&& post.requests == pre.requests
                        &&& post.selected == pre.selected
                        &&& post.ignored@ == pre.ignored@.push(dst)
                        &&& post.trashed == pre.trashed
                        &&& post.phase is Ready
                        &&& cpost == (Controller { items_done: (pre.idx + 1) as u64, ..cpre })
                        &&& action is Advance
                    },
                    None => {
                        &&& same_core(pre, post)
                        &&& post.idx == pre.idx
                        &&& post.sticky == pre.sticky
                        &&& post.conflicts == pre.conflicts + 1
                        &&& post.requests == pre.requests + 1
                        &&& post.selected == pre.selected
                        &&& post.ignored == pre.ignored
                        &&& post.trashed == pre.trashed
                        &&& post.phase matches Phase::AwaitConflict { dst: d } && d == dst
                        &&& cpost == cpre
                        &&& action matches Action::AskConflict { request } && request.existing
                            == dst && request.incoming == pre.plan@[pre.idx as int].src
                            && request.multiple == (pre.idx + 1 < pre.plan.len())
                    },
                }
            }
        },
        _ => post == pre && cpost == cpre && action is Wait,
    }
}

/// The issuer's answer to a conflict request. `apply_to_all` caches the
/// choice; `KeepBoth` starts probing alternate names; `Cancel` is
/// treated exactly like user cancellation.
pub open spec fn step_post_conflict(
    pre: Executor,
    cpre: Controller,
    event: Event,
    post: Executor,
    cpost: Controller,
    action: Action,
    dst: String,
) -> bool {
    match event {
        Event::Decided { response } => match response {
            ReplaceResult::Replace(all) => {
                &&& same_core(pre, post)
                &&& post.idx == pre.idx
                &&& post.sticky == (if all {
                    Some(StickyResolution::Replace)
                } else {
                    pre.sticky
                })
                &&& post.conflicts == pre.conflicts
                &&& post.requests == pre.requests
                &&& post.selected == pre.selected
                &&& post.ignored == pre.ignored
                &&& post.trashed == pre.trashed
                &&& post.phase matches Phase::AwaitPerform { dst: d } && d == dst
                &&& cpost == cpre
                &&& action matches Action::Perform { work } && work matches Work::Transfer {
                    index,
                    dst: d,
                } && index == pre.idx && d == dst
            },
            ReplaceResult::Skip(all) => {
                &&& same_core(pre, post)
                &&& post.idx == pre.idx + 1
                &&& post.sticky == (if all {
                    Some(StickyResolution::Skip)
                } else {
                    pre.sticky
                })
                &&& post.conflicts == pre.conflicts
                &&& post.requests == pre.requests
                &&& post.selected == pre.selected
                &&& post.ignored@ == pre.ignored@.push(dst)
                &&& post.trashed == pre.trashed
                &&& post.phase is Ready
                &&& cpost == (Controller { items_done: (pre.idx + 1) as u64, ..cpre })
                &&& action is Advance
            },
            ReplaceResult::KeepBoth => {
                &&& same_but_phase(pre, post)
                &&& post.phase matches Phase::AwaitAltExists { dst: d, alt, n } && d == dst && alt@
                    == alt_name_of(dst@, 2) && n == 2u64
                &&& cpost == cpre
                &&& action matches Action::CheckExists { path } && path@ == alt_name_of(dst@, 2)
            },
            ReplaceResult::Cancel => {
                &&& same_but_phase(pre, post)
                &&& post.phase == (Phase::Finished { term: Termination::Cancelled })
                &&& cpost == cpre
                &&& action is Finish
            },
        },
        _ => post == pre && cpost == cpre && action is Wait,
    }
}

/// Keep-both probing: the transfer is only started towards a name the
/// runner just reported as free, so a keep-both resolution never
/// overwrites an existing file. An occupied candidate bumps the suffix.
pub open spec fn step_post_alt(
    pre: Executor,
    cpre: Controller,
    event: Event,
    post: Executor,
    cpost: Controller,
    action: Action,
    dst: String,
    alt: String,
    n: u64,
) -> bool {
    match event {
        Event::ExistsChecked { exists } => {
            if !exists {
                &&& same_but_phase(pre, post)
                &&& post.phase matches Phase::AwaitPerform { dst: d } && d == alt
                &&& cpost == cpre
                &&& action matches Action::Perform { work } && work matches Work::Transfer {
                    index,
                    dst: d,
                } && index == pre.idx && d == alt
            } else if n < u64::MAX {
                &&& same_but_phase(pre, post)
                &&& post.phase matches Phase::AwaitAltExists { dst: d, alt: a2, n: n2 } && d == dst
                    && a2@ == alt_name_of(dst@, n as int + 1) && n2 == n + 1
                &&& cpost == cpre
                &&& action matches Action::CheckExists { path } && path@ == alt_name_of(
                    dst@,
                    n as int + 1,
                )
            } else {
                &&& same_but_phase(pre, post)
                &&& post.phase matches Phase::Finished { term } && term matches Termination::Failed {
                    error,
                } && error matches OpError::Failure { path, message } && path == dst
                &&& cpost == cpre
                &&& action is Finish
            }
        },
        _ => post == pre && cpost == cpre && action is Wait,
    }
}

/// Result of the work primitive. Success records the written destination
/// (and, for deletions, the received trash handle) and moves to the next
/// item; any error is a hard failure that ends the whole operation.
pub open spec fn step_post_perform(
    pre: Executor,
    cpre: Controller,
    event: Event,
    post: Executor,
    cpost: Controller,
    action: Action,
    dst: String,
) -> bool {
    match event {
        Event::Performed { result } => match result {
            Ok(entry_opt) => {
                &&& same_core(pre, post)
                &&& post.idx == pre.idx + 1
                &&& post.sticky == pre.sticky
                &&& post.conflicts == pre.conflicts
                &&& post.requests == pre.requests
                &&& (if selects(pre.kind) {
                    post.selected@ == pre.selected@.push(dst)
                } else {
                    post.selected == pre.selected
                })
                &&& post.ignored == pre.ignored
                &&& (match entry_opt {
                    Some(entry) => post.trashed@ == pre.trashed@.push(entry),
                    None => post.trashed == pre.trashed,
                })
                &&& post.phase is Ready
                &&& cpost == (Controller { items_done: (pre.idx + 1) as u64, ..cpre })
                &&& action is Advance
            },
            Err(error) => {
                &&& same_but_phase(pre, post)
                &&& post.phase matches Phase::Finished { term } && term
                    matches Termination::Failed { error: e } && e == error
                &&& cpost == cpre
                &&& action is Finish
            },
        },
        _ => post == pre && cpost == cpre && action is Wait,
    }
}

/// The executor kind that performs each operation variant.
pub open spec fn kind_of(op: Operation) -> OpKind {
    match op {
        Operation::Copy { .. } => OpKind::Copy,
        Operation::Move { .. } => OpKind::Move,
        Operation::Delete { .. } => OpKind::Delete,
        Operation::Restore { .. } => OpKind::Restore,
        Operation::EmptyTrash => OpKind::EmptyTrash,
        Operation::Compress { .. } => OpKind::Compress,
        Operation::Extract { .. } => OpKind::Extract,
        Operation::NewFile { .. } => OpKind::NewFile,
        Operation::NewFolder { .. } => OpKind::NewFolder,
        Operation::Rename { .. } => OpKind::Rename,
        Operation::SetExecutableAndLaunch { .. } => OpKind::SetExecutableAndLaunch,
    }
}

/// A transfer plan: one item per source path, each writing into the
/// directory `to` under the source's final path component.
pub open spec fn plan_transfers(plan: Seq<WorkItem>, paths: Seq<String>, to: Seq<char>) -> bool {
    &&& plan.len() == paths.len()
    &&& forall|i: int|
        0 <= i < paths.len() ==> (#[trigger] plan[i]).src == paths[i] && plan[i].dst@ == dest_path(
            to,
            paths[i]@,
        )
}

/// A deletion plan: each item reads and "writes" the doomed path itself.
pub open spec fn plan_identity(plan: Seq<WorkItem>, paths: Seq<String>) -> bool {
    &&& plan.len() == paths.len()
    &&& forall|i: int|
        0 <= i < paths.len() ==> (#[trigger] plan[i]).src == paths[i] && plan[i].dst == paths[i]
}

/// A restore plan: each item reads a trash-entry handle and writes back
/// to the entry's recorded original path.
pub open spec fn plan_restore(plan: Seq<WorkItem>, items: Seq<TrashEntry>) -> bool {
    &&& plan.len() == items.len()
    &&& forall|i: int|
        0 <= i < items.len() ==> (#[trigger] plan[i]).src == items[i].id && plan[i].dst
            == items[i].original_path
}

/// A one-shot plan: a single item with the given source and destination.
pub open spec fn plan_one(plan: Seq<WorkItem>, src: Seq<char>, dst: String) -> bool {
    plan.len() == 1 && plan[0].src@ == src && plan[0].dst == dst
}

fn build_transfer_plan(paths: &Vec<String>, to: &String) -> (plan: Vec<WorkItem>)
    ensures
        plan_transfers(plan@, paths@, to@),
{
    let mut plan: Vec<WorkItem> = Vec::new();
    let mut i: usize = 0;
    while i < paths.len()
        invariant
            i <= paths.len(),
            plan@.len() == i,
            forall|j: int|
                0 <= j < i ==> (#[trigger] plan@[j]).src == paths@[j] && plan@[j].dst@
                    == dest_path(to@, paths@[j]@),
        decreases paths.len() - i,
    {
        let src = paths[i].clone();
        let dst = transfer_dest(to.as_str(), src.as_str());
        plan.push(WorkItem { src, dst });
        i += 1;
    }
    plan
}

fn build_identity_plan(paths: &Vec<String>) -> (plan: Vec<WorkItem>)
    ensures
        plan_identity(plan@, paths@),
{
    let mut plan: Vec<WorkItem> = Vec::new();
    let mut i: usize = 0;
    while i < paths.len()
        invariant
            i <= paths.len(),
            plan@.len() == i,
            forall|j: int|
                0 <= j < i ==> (#[trigger] plan@[j]).src == paths@[j] && plan@[j].dst
                    == paths@[j],
        decreases paths.len() - i,
    {
        let src = paths[i].clone();
        let dst = paths[i].clone();
        plan.push(WorkItem { src, dst });
        i += 1;
    }
    plan
}

fn build_restore_plan(items: &Vec<TrashEntry>) -> (plan: Vec<WorkItem>)
    ensures
        plan_restore(plan@, items@),
{
    let mut plan: Vec<WorkItem> = Vec::new();
    let mut i: usize = 0;
    while i < items.len()
        invariant
            i <= items.len(),
            plan@.len() == i,
            forall|j: int|
                0 <= j < i ==> (#[trigger] plan@[j]).src == items@[j].id && plan@[j].dst
                    == items@[j].original_path,
        decreases items.len() - i,
    {
        let src = items[i].id.clone();
        let dst = items[i].original_path.clone();
        plan.push(WorkItem { src, dst });
        i += 1;
    }
    plan
}

fn build_one_plan(src: String, dst: String) -> (plan: Vec<WorkItem>)
    ensures
        plan@.len() == 1,
        plan@[0].src == src,
        plan@[0].dst == dst,
{
    let mut plan: Vec<WorkItem> = Vec::new();
    plan.push(WorkItem { src, dst });
    plan
}

/// Executable mirror of [`conflict_capable`].
fn kind_conflict_capable(k: OpKind) -> (r: bool)
    ensures
        r == conflict_capable(k),
{
    match k {
        OpKind::Copy => true,
        OpKind::Move => true,
        OpKind::Restore => true,
        OpKind::Extract => true,
        _ => false,
    }
}

/// Executable mirror of [`selects`].
fn kind_selects(k: OpKind) -> (r: bool)
    ensures
        r == selects(k),
{
    match k {
        OpKind::Delete => false,
        OpKind::EmptyTrash => false,
        _ => true,
    }
}

/// What `Executor::new` promises of a fresh executor for `op`: the
/// initial state with the plan the operation variant calls for.
pub open spec fn initial_executor_for(r: Executor, op: Operation) -> bool {
    &&& r.wf()
    &&& r.kind == kind_of(op)
    &&& r.idx == 0
    &&& r.sticky is None
    &&& r.conflicts == 0
    &&& r.requests == 0
    &&& r.selected@ == Seq::<String>::empty()
    &&& r.ignored@ == Seq::<String>::empty()
    &&& r.trashed@ == Seq::<TrashEntry>::empty()
    &&& r.phase is Ready
    &&& op matches Operation::Copy { paths, to } ==> plan_transfers(r.plan@, paths@, to@)
    &&& op matches Operation::Move { paths, to } ==> plan_transfers(r.plan@, paths@, to@)
    &&& op matches Operation::Delete { paths } ==> plan_identity(r.plan@, paths@)
    &&& op matches Operation::Restore { items } ==> plan_restore(r.plan@, items@)
    &&& op == Operation::EmptyTrash ==> r.plan@.len() == 1 && r.plan@[0].src@
        == Seq::<char>::empty() && r.plan@[0].dst@ == Seq::<char>::empty()
    &&& op matches Operation::Compress { paths, to, archive_type, password } ==> plan_one(
        r.plan@,
        Seq::<char>::empty(),
        to,
    )
    &&& op matches Operation::Extract { paths, to, password } ==> plan_transfers(
        r.plan@,
        paths@,
        to@,
    )
    &&& op matches Operation::NewFile { path } ==> plan_one(r.plan@, Seq::<char>::empty(), path)
    &&& op matches Operation::NewFolder { path } ==> plan_one(r.plan@, Seq::<char>::empty(), path)
    &&& op matches Operation::Rename { from, to } ==> r.plan@.len() == 1 && r.plan@[0].src == from
        && r.plan@[0].dst == to
    &&& op matches Operation::SetExecutableAndLaunch { path } ==> plan_one(
        r.plan@,
        Seq::<char>::empty(),
        path,
    )
}

impl Executor {
    /// A fresh executor for `op`, in its initial state: nothing done,
    /// nothing cached, nothing recorded. The plan fixes the stable item
    /// order the operation will follow.
    pub fn new(op: &Operation) -> (r: Executor)
        ensures
            initial_executor_for(r, *op),
    {
        let (kind, plan) = match op {
            Operation::Copy { paths, to } => (OpKind::Copy, build_transfer_plan(paths, to)),
            Operation::Move { paths, to } => (OpKind::Move, build_transfer_plan(paths, to)),
            Operation::Delete { paths } => (OpKind::Delete, build_identity_plan(paths)),
            Operation::Restore { items } => (OpKind::Restore, build_restore_plan(items)),
            Operation::EmptyTrash => (OpKind::EmptyTrash, build_one_plan(String::new(), String::new())),
            Operation::Compress { to, .. } => (
                OpKind::Compress,
                build_one_plan(String::new(), to.clone()),
            ),
            Operation::Extract { paths, to, .. } => (
                OpKind::Extract,
                build_transfer_plan(paths, to),
            ),
            Operation::NewFile { path } => (OpKind::NewFile, build_one_plan(String::new(), path.clone())),
            Operation::NewFolder { path } => (
                OpKind::NewFolder,
                build_one_plan(String::new(), path.clone()),
            ),
            Operation::Rename { from, to } => (
                OpKind::Rename,
                build_one_plan(from.clone(), to.clone()),
            ),
            Operation::SetExecutableAndLaunch { path } => (
                OpKind::SetExecutableAndLaunch,
                build_one_plan(String::new(), path.clone()),
            ),
        };
        let r = Executor {
            kind,
            plan,
            idx: 0,
            sticky: None,
            conflicts: 0,
            requests: 0,
            selected: Vec::new(),
            ignored: Vec::new(),
            trashed: Vec::new(),
            phase: Phase::Ready,
        };
        proof {
            assert(r.planned_dsts().take(0) =~= Seq::<String>::empty());
        }
        r
    }

    /// Drive the state machine by one transition: read the controller,
    /// consume `event`, and say what the runner must do next. The full
    /// transition relation is [`step_post`]; on top of it this contract
    /// states the protocol laws directly:
    ///
    /// - cancellation, once observed, terminates the operation at the
    ///   next checkpoint whatever else is going on — it overrides pause
    ///   and short-circuits a pending conflict wait — and no further
    ///   work is handed to the runner;
    /// - a cached `apply_to_all` choice persists for the remainder of
    ///   the operation and suppresses every further conflict request;
    ///   no other executor's state is involved in this transition at
    ///   all, so the cache cannot leak across operations;
    /// - a keep-both transfer is only started towards an alternate name
    ///   the runner reported free in the very event being consumed;
    /// - progress never runs backwards, and the flags are never written
    ///   here: the issuer owns them.
    pub fn step(&mut self, ctl: &mut Controller, event: Event) -> (action: Action)
        requires
            old(self).wf(),
            old(ctl).wf(),
            old(self).coupled(*old(ctl)),
        ensures
            final(self).wf(),
            final(ctl).wf(),
            final(self).coupled(*final(ctl)),
            final(ctl).paused == old(ctl).paused,
            final(ctl).cancelled == old(ctl).cancelled,
            final(ctl).items_done >= old(ctl).items_done,
            final(ctl).items_total == old(ctl).items_total,
            step_post(*old(self), *old(ctl), event, *final(self), *final(ctl), action),
            old(ctl).cancelled && !(old(self).phase is Finished) ==> action is Finish
                && final(self).phase == (Phase::Finished { term: Termination::Cancelled }),
            old(self).sticky is Some ==> final(self).sticky == old(self).sticky && !(action
                is AskConflict) && final(self).requests == old(self).requests,
            old(self).phase matches Phase::AwaitAltExists { dst, alt, n } ==> (action
                matches Action::Perform { work } ==> (event matches Event::ExistsChecked { exists }
                && exists == false) && (work matches Work::Transfer { index, dst: d } && d == alt)),
    {
        if let Phase::Finished { .. } = &self.phase {
            return Action::Finish;
        }
        if ctl.is_cancelled() {
            self.phase = Phase::Finished { term: Termination::Cancelled };
            return Action::Finish;
        }
        if ctl.is_paused() {
            return Action::Wait;
        }
        let mut ph = Phase::Ready;
        core::mem::swap(&mut ph, &mut self.phase);
        match ph {
            Phase::Ready => {
                if self.idx == self.plan.len() {
                    self.phase = Phase::Finished { term: Termination::Completed };
                    Action::Finish
                } else if kind_conflict_capable(self.kind) {
                    let dst = self.plan[self.idx].dst.clone();
                    let path = dst.clone();
                    self.phase = Phase::AwaitExists { dst };
                    Action::CheckExists { path }
                } else {
                    let dst = self.plan[self.idx].dst.clone();
                    let work = if let OpKind::Delete = self.kind {
                        Work::TrashPath { index: self.idx }
                    } else {
                        Work::Single
                    };
                    self.phase = Phase::AwaitPerform { dst };
                    Action::Perform { work }
                }
            },
            Phase::AwaitExists { dst } => {
                match event {
                    Event::ExistsChecked { exists } => {
                        if !exists {
                            let d = dst.clone();
                            self.phase = Phase::AwaitPerform { dst };
                            Action::Perform { work: (Work::Transfer { index: self.idx, dst: d }) }
                        } else {
                            self.conflicts = self.conflicts + 1;
                            match self.sticky {
                                Some(StickyResolution::Replace) => {
                                    let d = dst.clone();
                                    self.phase = Phase::AwaitPerform { dst };
                                    Action::Perform {
                                        work: (Work::Transfer { index: self.idx, dst: d }),
                                    }
                                },
                                Some(StickyResolution::Skip) => {
                                    self.ignored.push(dst);
                                    self.idx = self.idx + 1;
                                    ctl.set_progress(self.idx as u64, self.plan.len() as u64);
                                    Action::Advance
                                },
                                None => {
                                    self.requests = self.requests + 1;
                                    let incoming = self.plan[self.idx].src.clone();
                                    let multiple = self.idx + 1 < self.plan.len();
                                    let existing = dst.clone();
                                    self.phase = Phase::AwaitConflict { dst };
                                    Action::AskConflict {
                                        request: (ConflictRequest { existing, incoming, multiple }),
                                    }
                                },
                            }
                        }
                    },
                    _ => {
                        self.phase = Phase::AwaitExists { dst };
                        Action::Wait
                    },
                }
            },
            Phase::AwaitConflict { dst } => {
                match event {
                    Event::Decided { response } => {
                        match response {
                            ReplaceResult::Replace(all) => {
                                if all {
                                    self.sticky = Some(StickyResolution::Replace);
                                }
                                let d = dst.clone();
                                self.phase = Phase::AwaitPerform { dst };
                                Action::Perform {
                                    work: (Work::Transfer { index: self.idx, dst: d }),
                                }
                            },
                            ReplaceResult::Skip(all) => {
                                if all {
                                    self.sticky = Some(StickyResolution::Skip);
                                }
                                self.ignored.push(dst);
                                self.idx = self.idx + 1;
                                ctl.set_progress(self.idx as u64, self.plan.len() as u64);
                                Action::Advance
                            },
                            ReplaceResult::KeepBoth => {
                                let alt = alt_name(dst.as_str(), 2);
                                let path = alt.clone();
                                self.phase = Phase::AwaitAltExists { dst, alt, n: 2 };
                                Action::CheckExists { path }
                            },
                            ReplaceResult::Cancel => {
                                self.phase = Phase::Finished { term: Termination::Cancelled };
                                Action::Finish
                            },
                        }
                    },
                    _ => {
                        self.phase = Phase::AwaitConflict { dst };
                        Action::Wait
                    },
                }
            },
            Phase::AwaitAltExists { dst, alt, n } => {
                match event {
                    Event::ExistsChecked { exists } => {
                        if !exists {
                            let d = alt.clone();
                            self.phase = Phase::AwaitPerform { dst: alt };
                            Action::Perform { work: (Work::Transfer { index: self.idx, dst: d }) }
                        } else if n < u64::MAX {
                            let alt2 = alt_name(dst.as_str(), n + 1);
                            let path = alt2.clone();
                            self.phase = Phase::AwaitAltExists { dst, alt: alt2, n: n + 1 };
                            Action::CheckExists { path }
                        } else {
                            self.phase = Phase::Finished {
                                term: Termination::Failed {
                                    error: OpError::Failure {
                                        path: dst,
                                        message: String::from_str("no free alternate name"),
                                    },
                                },
                            };
                            Action::Finish
                        }
                    },
                    _ => {
                        self.phase = Phase::AwaitAltExists { dst, alt, n };
                        Action::Wait
                    },
                }
            },
            Phase::AwaitPerform { dst } => {
                match event {
                    Event::Performed { result } => {
                        match result {
                            Ok(entry_opt) => {
                                proof {
                                    if old(self).conflicts == 0 && selects(old(self).kind) {
                                        let dsts = old(self).planned_dsts();
                                        assert(dsts.take(old(self).idx + 1) =~= dsts.take(
                                            old(self).idx as int,
                                        ).push(dsts[old(self).idx as int]));
                                    }
                                }
                                if kind_selects(self.kind) {
                                    self.selected.push(dst);
                                }
                                if let Some(entry) = entry_opt {
                                    self.trashed.push(entry);
                                }
                                self.idx = self.idx + 1;
                                ctl.set_progress(self.idx as u64, self.plan.len() as u64);
                                Action::Advance
                            },
                            Err(error) => {
                                self.phase = Phase::Finished {
                                    term: Termination::Failed { error },
                                };
                                Action::Finish
                            },
                        }
                    },
                    _ => {
                        self.phase = Phase::AwaitPerform { dst };
                        Action::Wait
                    },
                }
            },
            Phase::Finished { term } => {
                self.phase = Phase::Finished { term };
                Action::Finish
            },
        }
    }

    /// The descriptive state the issuer displays, derived from the
    /// controller's flags and the execution phase. Cancellation
    /// dominates pausing; a working machine reports which item of how
    /// many it stands at, and a machine waiting on the issuer says so.
    pub open spec fn state_text_spec(self, ctl: Controller) -> Seq<char> {
        if ctl.cancelled {
            "cancelled"@
        } else if ctl.paused {
            "paused"@
        } else {
            match self.phase {
                Phase::Finished { term } => match term {
                    Termination::Completed => "complete"@,
                    Termination::Cancelled => "cancelled"@,
                    Termination::Failed { .. } => "failed"@,
                },
                Phase::AwaitConflict { .. } => "waiting for conflict decision"@,
                Phase::AwaitAltExists { .. } => "waiting for conflict decision"@,
                _ => {
                    if self.idx == self.plan.len() {
                        "finishing"@
                    } else {
                        "item "@ + crate::paths::decimal_digits(self.idx + 1) + " of "@
                            + crate::paths::decimal_digits(self.plan.len() as int)
                    }
                },
            }
        }
    }

    /// Executable mirror of [`Self::state_text_spec`].
    pub fn state_text(&self, ctl: &Controller) -> (r: String)
        requires
            self.wf(),
        ensures
            r@ == self.state_text_spec(*ctl),
    {
        if ctl.is_cancelled() {
            return String::from_str("cancelled");
        }
        if ctl.is_paused() {
            return String::from_str("paused");
        }
        match &self.phase {
            Phase::Finished { term } => match term {
                Termination::Completed => String::from_str("complete"),
                Termination::Cancelled => String::from_str("cancelled"),
                Termination::Failed { .. } => String::from_str("failed"),
            },
            Phase::AwaitConflict { .. } => String::from_str("waiting for conflict decision"),
            Phase::AwaitAltExists { .. } => String::from_str("waiting for conflict decision"),
            _ => {
                if self.idx == self.plan.len() {
                    String::from_str("finishing")
                } else {
                    let mut s = String::from_str("item ");
                    let n = crate::paths::decimal_string((self.idx + 1) as u64);
                    s.append(n.as_str());
                    s.append(" of ");
                    let m = crate::paths::decimal_string(self.plan.len() as u64);
                    s.append(m.as_str());
                    proof {
                        assert(s@ =~= self.state_text_spec(*ctl));
                    }
                    s
                }
            },
        }
    }

    /// Whether the machine reached a terminal state.
    pub fn is_finished(&self) -> (r: bool)
        ensures
            r == (self.phase is Finished),
    {
        match self.phase {
            Phase::Finished { .. } => true,
            _ => false,
        }
    }

    /// Consume a terminated executor and hand the issuer its final
    /// result. Cancellation is its own outcome, not a failure.
    pub fn into_outcome(self) -> (r: Outcome)
        requires
            self.phase is Finished,
        ensures
            (match self.phase {
                Phase::Finished { term } => match term {
                    Termination::Completed => r matches Outcome::Completed { selection, trashed }
                        && selection.selected == self.selected && selection.ignored == self.ignored
                        && trashed == self.trashed,
                    Termination::Cancelled => r is Cancelled,
                    Termination::Failed { error } => r matches Outcome::Failed { error: e } && e
                        == error,
                },
                _ => false,
            }),
    {
        let Executor { selected, ignored, trashed, phase, .. } = self;
        match phase {
            Phase::Finished { term } => match term {
                Termination::Completed => Outcome::Completed {
                    selection: OperationSelection { selected, ignored },
                    trashed,
                },
                Termination::Cancelled => Outcome::Cancelled,
                Termination::Failed { error } => Outcome::Failed { error },
            },
            _ => Outcome::Cancelled,
        }
    }
}

/// The final result of one operation, delivered to the issuer exactly
/// once.
#[derive(Debug)]
pub enum Outcome {
    /// Every item went through; `selection` drives the post-operation
    /// rescan, `trashed` holds the handles a deletion received (the
    /// input of a later undo).
    Completed { selection: OperationSelection, trashed: Vec<TrashEntry> },
    /// Stopped by the user; must not be reported as an error.
    Cancelled,
    /// Stopped by the first hard failure, carrying it.
    Failed { error: OpError },
}

/// Cancellation is absolute: whatever phase the machine is in —
/// including waiting for a conflict answer — and whatever the event, a
/// step taken under a cancelled controller hands the runner no
/// filesystem work, no probe and no conflict request, and leaves the
/// machine terminal. So a cancel issued before any item was processed
/// reaches the terminal state without a single filesystem mutation.
pub proof fn lemma_cancelled_step_performs_nothing(
    pre: Executor,
    cpre: Controller,
    event: Event,
    post: Executor,
    cpost: Controller,
    action: Action,
)
    requires
        cpre.cancelled,
        step_post(pre, cpre, event, post, cpost, action),
    ensures
        action is Finish,
        !(action is Perform),
        !(action is CheckExists),
        !(action is AskConflict),
        post.phase is Finished,
        post.idx == pre.idx,
        post.selected == pre.selected,
        post.ignored == pre.ignored,
        post.trashed == pre.trashed,
{
}

/// Cancellation dominates pausing: a machine whose controller is both
/// paused and cancelled resolves to the cancelled terminal state, not
/// to a wait.
pub proof fn lemma_cancel_dominates_pause(
    pre: Executor,
    cpre: Controller,
    event: Event,
    post: Executor,
    cpost: Controller,
    action: Action,
)
    requires
        cpre.cancelled,
        cpre.paused,
        !(pre.phase is Finished),
        step_post(pre, cpre, event, post, cpost, action),
    ensures
        post.phase == (Phase::Finished { term: Termination::Cancelled }),
        action is Finish,
{
}

/// A cached apply-to-all choice is sticky for the remainder of its one
/// operation: no step of a machine that holds one ever raises another
/// conflict request, and the cache survives every step. It can touch no
/// other operation, because a step relates one machine and one
/// controller and nothing else.
pub proof fn lemma_sticky_suppresses_requests(
    pre: Executor,
    cpre: Controller,
    event: Event,
    post: Executor,
    cpost: Controller,
    action: Action,
)
    requires
        pre.wf(),
        pre.sticky is Some,
        step_post(pre, cpre, event, post, cpost, action),
    ensures
        !(action is AskConflict),
        post.sticky == pre.sticky,
        post.requests == pre.requests,
{
}

/// Keep-both never overwrites: while probing alternate names, the only
/// transfer a step can start is towards the candidate name, and only in
/// answer to the report that this very name does not exist.
pub proof fn lemma_keep_both_writes_only_free_names(
    pre: Executor,
    cpre: Controller,
    event: Event,
    post: Executor,
    cpost: Controller,
    action: Action,
    dst: String,
    alt: String,
    n: u64,
)
    requires
        pre.phase == (Phase::AwaitAltExists { dst, alt, n }),
        step_post(pre, cpre, event, post, cpost, action),
        action matches Action::Perform { .. },
    ensures
        event matches Event::ExistsChecked { exists } && !exists,
        action matches Action::Perform { work } && work matches Work::Transfer { index, dst: d }
            && d == alt && index == pre.idx,
{
}

/// The conflict channel needs room for exactly one outstanding request:
/// while a request waits for its answer, no step raises a second one —
/// the machine either consumes the answer, idles, or is cancelled.
pub proof fn lemma_one_outstanding_request(
    pre: Executor,
    cpre: Controller,
    event: Event,
    post: Executor,
    cpost: Controller,
    action: Action,
    dst: String,
)
    requires
        pre.phase == (Phase::AwaitConflict { dst }),
        step_post(pre, cpre, event, post, cpost, action),
    ensures
        !(action is AskConflict),
{
}

/// An operation that terminated successfully without meeting a single
/// destination conflict selected exactly the destinations its plan
/// promised to write, in plan order, and ignored nothing; nothing was
/// ever asked of the issuer.
pub proof fn lemma_no_conflict_selection(s: Executor)
    requires
        s.wf(),
        s.phase == (Phase::Finished { term: Termination::Completed }),
        s.conflicts == 0,
    ensures
        selects(s.kind) ==> s.selected@ == s.planned_dsts(),
        !selects(s.kind) ==> s.selected@ == Seq::<String>::empty(),
        s.ignored@ == Seq::<String>::empty(),
        s.requests == 0,
        s.sticky is None,
{
    assert(s.idx == s.plan.len());
    assert(s.planned_dsts().take(s.idx as int) =~= s.planned_dsts());
}

} // verus!
