//! The protocol as a whole: a controller and its slot driven by any sequence of
//! calls from both sides, and the laws that hold of every such run.
use vstd::prelude::*;

use crate::controller::{ControllerView, TaskState};
use crate::progress::Progress;
use crate::slot::SlotView;

verus! {

/// One call on a task, by the controller's side or by the worker's.
pub enum Call<P, D, E> {
    /// [`crate::TaskController::trigger`]
    Trigger,
    /// [`crate::TaskController::poll`]
    Poll,
    /// [`crate::TaskController::cancel`]
    Cancel,
    /// [`crate::TaskSlot::publish`], by the worker
    Publish(Progress<P, D, E>),
    /// [`crate::TaskSlot::is_canceled`], by the worker
    Check,
}

/// What one call returned.
pub enum Reply<P, D, E> {
    /// Of a trigger: whether the worker is to be started.
    Start(bool),
    /// Of a poll: the report handed out, if any.
    Report(Option<Progress<P, D, E>>),
    /// Of a cancel.
    Unit,
    /// Of a publish: whether the report was stored.
    Stored(bool),
    /// Of a check: whether cancellation was requested.
    Flag(bool),
}

/// A controller together with the slot it shares with its worker.
pub struct TaskModel<P, D, E> {
    pub controller: ControllerView,
    pub slot: SlotView<P, D, E>,
}

impl<P, D, E> TaskModel<P, D, E> {
    /// A task just built for work of kind `id`, with a fresh slot.
    pub open spec fn spawned(id: usize) -> Self {
        TaskModel { controller: ControllerView::spawned(id), slot: SlotView::empty() }
    }
}

impl<P, D, E> Reply<P, D, E> {
    /// The reply hands out a terminal report.
    pub open spec fn delivers_terminal(self) -> bool {
        self matches Reply::Report(Some(p)) && p.is_terminal()
    }
}

/// The effect of one call, exactly as the contracts of the called function state it.
pub open spec fn step<P, D, E>(m: TaskModel<P, D, E>, c: Call<P, D, E>) -> (TaskModel<P, D, E>, Reply<P, D, E>) {
    match c {
        Call::Trigger => (
            TaskModel { controller: m.controller.triggered(), slot: m.slot },
            Reply::Start(m.controller.state == TaskState::Pending),
        ),
        Call::Poll => (
            TaskModel { controller: m.controller.polled(m.slot), slot: m.controller.slot_after_poll(m.slot) },
            Reply::Report(m.controller.poll_reply(m.slot)),
        ),
        Call::Cancel => (
            TaskModel { controller: m.controller, slot: m.controller.slot_after_cancel(m.slot) },
            Reply::Unit,
        ),
        Call::Publish(p) => (
            TaskModel { controller: m.controller, slot: m.slot.published(p) },
            Reply::Stored(!m.slot.finished),
        ),
        Call::Check => (m, Reply::Flag(m.slot.cancel_requested)),
    }
}

/// The state after making `calls` in order, starting from `m`.
pub open spec fn state_after<P, D, E>(m: TaskModel<P, D, E>, calls: Seq<Call<P, D, E>>) -> TaskModel<P, D, E>
    decreases calls.len(),
{
    if calls.len() == 0 {
        m
    } else {
        step(state_after(m, calls.drop_last()), calls.last()).0
    }
}

/// What call `i` of `calls` returned, starting from `m`.
pub open spec fn reply_at<P, D, E>(m: TaskModel<P, D, E>, calls: Seq<Call<P, D, E>>, i: int) -> Reply<P, D, E> {
    step(state_after(m, calls.take(i)), calls[i]).1
}

/// The first terminal report that the worker published in `calls`, if any.
pub open spec fn first_terminal<P, D, E>(calls: Seq<Call<P, D, E>>) -> Option<Progress<P, D, E>>
    decreases calls.len(),
{
    if calls.len() == 0 {
        None
    } else {
        match first_terminal(calls.drop_last()) {
            Some(t) => Some(t),
            None => match calls.last() {
                Call::Publish(p) => if p.is_terminal() { Some(p) } else { None },
                _ => None,
            },
        }
    }
}

proof fn lemma_take_step<P, D, E>(m: TaskModel<P, D, E>, calls: Seq<Call<P, D, E>>, i: int)
    requires
        0 <= i < calls.len(),
    ensures
        state_after(m, calls.take(i + 1)) == step(state_after(m, calls.take(i)), calls[i]).0,
{
    assert(calls.take(i + 1).drop_last() =~= calls.take(i));
    assert(calls.take(i + 1).last() == calls[i]);
}

/// A property that every call keeps holds from the point it first holds on.
proof fn lemma_kept<P, D, E>(
    m: TaskModel<P, D, E>,
    calls: Seq<Call<P, D, E>>,
    inv: spec_fn(TaskModel<P, D, E>) -> bool,
    i: int,
    j: int,
)
    requires
        0 <= i <= j <= calls.len(),
        inv(state_after(m, calls.take(i))),
        forall|s: TaskModel<P, D, E>, c: Call<P, D, E>| inv(s) ==> inv(#[trigger] step(s, c).0),
    ensures
        inv(state_after(m, calls.take(j))),
    decreases j - i,
{
    if i < j {
        lemma_kept(m, calls, inv, i, j - 1);
        lemma_take_step(m, calls, j - 1);
        assert(inv(step(state_after(m, calls.take(j - 1)), calls[j - 1]).0));
    }
}

/// However many times a task is polled, at most one poll hands out a terminal report.
pub proof fn lemma_terminal_delivered_at_most_once<P, D, E>(id: usize, calls: Seq<Call<P, D, E>>, i: int, j: int)
    requires
        0 <= i < calls.len(),
        0 <= j < calls.len(),
        reply_at(TaskModel::spawned(id), calls, i).delivers_terminal(),
        reply_at(TaskModel::spawned(id), calls, j).delivers_terminal(),
    ensures
        i == j,
{
    let m = TaskModel::<P, D, E>::spawned(id);
    let done = |s: TaskModel<P, D, E>| s.controller.state == TaskState::Done;
    if i != j {
        let (a, b) = if i < j { (i, j) } else { (j, i) };
        lemma_take_step(m, calls, a);
        lemma_kept(m, calls, done, a + 1, b);
    }
}

/// However many times a task is triggered, the worker is started once at most.
pub proof fn lemma_started_at_most_once<P, D, E>(id: usize, calls: Seq<Call<P, D, E>>, i: int, j: int)
    requires
        0 <= i < calls.len(),
        0 <= j < calls.len(),
        reply_at(TaskModel::spawned(id), calls, i) == Reply::<P, D, E>::Start(true),
        reply_at(TaskModel::spawned(id), calls, j) == Reply::<P, D, E>::Start(true),
    ensures
        i == j,
{
    let m = TaskModel::<P, D, E>::spawned(id);
    let started = |s: TaskModel<P, D, E>| s.controller.state != TaskState::Pending;
    if i != j {
        let (a, b) = if i < j { (i, j) } else { (j, i) };
        lemma_take_step(m, calls, a);
        lemma_kept(m, calls, started, a + 1, b);
    }
}

/// Once cancellation was requested of a task that was not done, every later
/// check by the worker sees it.
pub proof fn lemma_cancel_is_seen<P, D, E>(id: usize, calls: Seq<Call<P, D, E>>, i: int, j: int)
    requires
        0 <= i < j < calls.len(),
        calls[i] is Cancel,
        calls[j] is Check,
        state_after(TaskModel::<P, D, E>::spawned(id), calls.take(i)).controller.state != TaskState::Done,
    ensures
        reply_at(TaskModel::spawned(id), calls, j) == Reply::<P, D, E>::Flag(true),
{
    let m = TaskModel::<P, D, E>::spawned(id);
    let raised = |s: TaskModel<P, D, E>| s.slot.cancel_requested;
    lemma_take_step(m, calls, i);
    lemma_kept(m, calls, raised, i + 1, j);
}

/// Cancelling never rewrites what the worker reports: a task that completes
/// after being cancelled still hands out its completion.
pub proof fn lemma_cancel_keeps_completion<P, D, E>(m: TaskModel<P, D, E>, d: D)
    requires
        m.controller.state == TaskState::Running,
        !m.slot.finished,
    ensures
        ({
            let m1 = step(m, Call::Cancel).0;
            let m2 = step(m1, Call::Publish(Progress::Completed(d))).0;
            step(m2, Call::Poll).1 == Reply::<P, D, E>::Report(Some(Progress::Completed(d)))
        }),
{
}

/// A task keeps the tag it was spawned with through any sequence of calls.
pub proof fn lemma_id_kept<P, D, E>(id: usize, calls: Seq<Call<P, D, E>>)
    ensures
        state_after(TaskModel::<P, D, E>::spawned(id), calls).controller.id == id,
{
    let m = TaskModel::<P, D, E>::spawned(id);
    let tagged = |s: TaskModel<P, D, E>| s.controller.id == id;
    assert(calls.take(0) =~= Seq::<Call<P, D, E>>::empty());
    lemma_kept(m, calls, tagged, 0, calls.len() as int);
    assert(calls.take(calls.len() as int) =~= calls);
}

proof fn lemma_pending_until_trigger<P, D, E>(id: usize, calls: Seq<Call<P, D, E>>, n: int)
    requires
        0 <= n <= calls.len(),
        forall|k: int| 0 <= k < n ==> !(#[trigger] calls[k] is Trigger),
    ensures
        state_after(TaskModel::<P, D, E>::spawned(id), calls.take(n)).controller.state == TaskState::Pending,
    decreases n,
{
    if n == 0 {
        assert(calls.take(0) =~= Seq::<Call<P, D, E>>::empty());
    } else {
        lemma_pending_until_trigger(id, calls, n - 1);
        lemma_take_step(TaskModel::<P, D, E>::spawned(id), calls, n - 1);
        assert(!(calls[n - 1] is Trigger));
    }
}

/// Until a task is triggered, polling it hands out nothing, and never a terminal report.
pub proof fn lemma_nothing_before_trigger<P, D, E>(id: usize, calls: Seq<Call<P, D, E>>, j: int)
    requires
        0 <= j < calls.len(),
        calls[j] is Poll,
        forall|k: int| 0 <= k < j ==> !(#[trigger] calls[k] is Trigger),
    ensures
        reply_at(TaskModel::spawned(id), calls, j) == Reply::<P, D, E>::Report(None),
{
    lemma_pending_until_trigger(id, calls, j);
}

proof fn lemma_slot_tracks_first<P, D, E>(id: usize, calls: Seq<Call<P, D, E>>, n: int)
    requires
        0 <= n <= calls.len(),
    ensures
        ({
            let s = state_after(TaskModel::<P, D, E>::spawned(id), calls.take(n)).slot;
            let c = state_after(TaskModel::<P, D, E>::spawned(id), calls.take(n)).controller;
            &&& s.finished == (first_terminal(calls.take(n)) is Some)
            &&& (s.latest is Some && s.latest->0.is_terminal()) ==> first_terminal(calls.take(n)) == s.latest
            &&& (s.finished && c.state != TaskState::Done) ==> s.latest == first_terminal(calls.take(n))
        }),
    decreases n,
{
    if n == 0 {
        assert(calls.take(0) =~= Seq::<Call<P, D, E>>::empty());
    } else {
        lemma_slot_tracks_first(id, calls, n - 1);
        lemma_first_terminal_is_terminal(calls.take(n - 1));
        lemma_take_step(TaskModel::<P, D, E>::spawned(id), calls, n - 1);
        assert(calls.take(n).drop_last() =~= calls.take(n - 1));
    }
}

/// The terminal report that a poll hands out is the first terminal report the
/// worker published, whatever was published or cancelled around it.
pub proof fn lemma_delivers_first_terminal<P, D, E>(id: usize, calls: Seq<Call<P, D, E>>, j: int)
    requires
        0 <= j < calls.len(),
        reply_at(TaskModel::spawned(id), calls, j).delivers_terminal(),
    ensures
        reply_at(TaskModel::spawned(id), calls, j) == Reply::<P, D, E>::Report(first_terminal(calls.take(j))),
{
    lemma_slot_tracks_first(id, calls, j);
}

/// Once the worker has published a terminal report, the next poll of the running
/// task hands it out: together with the law above, it is handed out exactly once.
pub proof fn lemma_terminal_delivered_by_next_poll<P, D, E>(id: usize, calls: Seq<Call<P, D, E>>, j: int)
    requires
        0 <= j < calls.len(),
        calls[j] is Poll,
        state_after(TaskModel::<P, D, E>::spawned(id), calls.take(j)).controller.state == TaskState::Running,
        first_terminal(calls.take(j)) is Some,
    ensures
        reply_at(TaskModel::spawned(id), calls, j) == Reply::<P, D, E>::Report(first_terminal(calls.take(j))),
        reply_at(TaskModel::spawned(id), calls, j).delivers_terminal(),
{
    lemma_slot_tracks_first(id, calls, j);
    lemma_first_terminal_is_terminal(calls.take(j));
}

proof fn lemma_first_terminal_is_terminal<P, D, E>(calls: Seq<Call<P, D, E>>)
    ensures
        first_terminal(calls) is Some ==> first_terminal(calls)->0.is_terminal(),
    decreases calls.len(),
{
    if calls.len() > 0 {
        lemma_first_terminal_is_terminal(calls.drop_last());
    }
}

/// No call among `calls` publishes a terminal report.
pub open spec fn no_terminal_published<P, D, E>(calls: Seq<Call<P, D, E>>) -> bool {
    forall|m: int| 0 <= m < calls.len() ==> !(#[trigger] calls[m] matches Call::Publish(p) && p.is_terminal())
}

proof fn lemma_first_terminal_at<P, D, E>(calls: Seq<Call<P, D, E>>, k: int, n: int)
    requires
        0 <= k < calls.len(),
        0 <= n <= calls.len(),
        no_terminal_published(calls.take(k)),
        calls[k] matches Call::Publish(t) && t.is_terminal(),
    ensures
        n <= k ==> first_terminal(calls.take(n)) is None,
        n > k ==> first_terminal(calls.take(n)) == Some(calls[k]->Publish_0),
    decreases n,
{
    if n > 0 {
        lemma_first_terminal_at(calls, k, n - 1);
        assert(calls.take(n).drop_last() =~= calls.take(n - 1));
        if n - 1 < k {
            assert(calls.take(k)[n - 1] == calls[n - 1]);
        }
    } else {
        assert(calls.take(0) =~= Seq::<Call<P, D, E>>::empty());
    }
}

/// A payload that looks at the flag after cancellation was requested, and then
/// ends with `Canceled` if it saw the request and `Completed` otherwise, is only
/// ever seen to end canceled: no poll hands out anything else terminal.
pub proof fn lemma_cooperative_payload_ends_canceled<P, D, E>(
    id: usize,
    calls: Seq<Call<P, D, E>>,
    i: int,
    j: int,
    k: int,
    d: D,
    n: int,
)
    requires
        0 <= i < j < k < calls.len(),
        calls[i] is Cancel,
        state_after(TaskModel::<P, D, E>::spawned(id), calls.take(i)).controller.state != TaskState::Done,
        calls[j] is Check,
        calls[k] == Call::Publish(
            if reply_at(TaskModel::<P, D, E>::spawned(id), calls, j) == Reply::<P, D, E>::Flag(true) {
                Progress::<P, D, E>::Canceled
            } else {
                Progress::<P, D, E>::Completed(d)
            },
        ),
        no_terminal_published(calls.take(k)),
        0 <= n < calls.len(),
        reply_at(TaskModel::<P, D, E>::spawned(id), calls, n).delivers_terminal(),
    ensures
        reply_at(TaskModel::spawned(id), calls, n) == Reply::<P, D, E>::Report(Some(Progress::Canceled)),
{
    lemma_cancel_is_seen(id, calls, i, j);
    lemma_delivers_first_terminal(id, calls, n);
    lemma_first_terminal_at(calls, k, n);
}

} // verus!
