//! Several tasks in flight at once, one entry per item of a collection (a
//! gallery of loads, say). The index tells entries apart; each controller's id
//! tells a shared handler which kind of work an entry holds.
use vstd::prelude::*;

use crate::controller::{ControllerView, TaskController, TaskState};
use crate::progress::Progress;
use crate::slot::{SlotView, TaskSlot};

verus! {

/// The abstract state of one entry of a [`TaskBoard`].
pub struct EntryView {
    /// The task in flight for this item, if any.
    pub task: Option<ControllerView>,
    /// How many intermediate reports the current task has handed out.
    pub ticks: u64,
    /// The caller asked for the current task to stop.
    pub cancel_wanted: bool,
}

impl EntryView {
    pub open spec fn idle() -> Self {
        EntryView { task: None, ticks: 0, cancel_wanted: false }
    }

    /// After a poll of the held task `c` that handed out `r`: an intermediate
    /// report counts a tick (saturating), a terminal one empties the entry.
    pub open spec fn after_report<P, D, E>(self, c: ControllerView, r: Option<Progress<P, D, E>>) -> Self {
        match r {
            Some(p) => if p.is_terminal() {
                EntryView::idle()
            } else {
                EntryView {
                    task: Some(c),
                    ticks: if self.ticks < u64::MAX { (self.ticks + 1) as u64 } else { self.ticks },
                    cancel_wanted: self.cancel_wanted,
                }
            },
            None => self,
        }
    }

    /// The slot after polling the held task `c`: drained, then flagged when an
    /// intermediate report came while a cancel was wanted.
    pub open spec fn slot_after_poll<P, D, E>(self, c: ControllerView, slot: SlotView<P, D, E>) -> SlotView<P, D, E> {
        let drained = c.slot_after_poll(slot);
        let r = c.poll_reply(slot);
        if self.cancel_wanted && (r matches Some(p) && !p.is_terminal()) {
            c.polled(slot).slot_after_cancel(drained)
        } else {
            drained
        }
    }
}

struct Entry {
    task: Option<TaskController>,
    ticks: u64,
    cancel_wanted: bool,
}

impl View for Entry {
    type V = EntryView;

    closed spec fn view(&self) -> EntryView {
        EntryView {
            task: match self.task {
                Some(c) => Some(c@),
                None => None,
            },
            ticks: self.ticks,
            cancel_wanted: self.cancel_wanted,
        }
    }
}

/// A fixed number of entries, each holding at most one task in flight.
pub struct TaskBoard {
    entries: Vec<Entry>,
}

impl View for TaskBoard {
    type V = Seq<EntryView>;

    closed spec fn view(&self) -> Seq<EntryView> {
        self.entries@.map_values(|e: Entry| e@)
    }
}

/// A report tagged with the id of the task that made it.
pub open spec fn tagged<P, D, E>(id: usize, r: Option<Progress<P, D, E>>) -> Option<(usize, Progress<P, D, E>)> {
    match r {
        Some(p) => Some((id, p)),
        None => None,
    }
}

/// How many entries hold a task.
pub open spec fn count_busy(s: Seq<EntryView>) -> nat
    decreases s.len(),
{
    if s.len() == 0 {
        0
    } else {
        count_busy(s.drop_last()) + if s.last().task is Some { 1nat } else { 0nat }
    }
}

impl TaskBoard {
    /// A board of `n` idle entries.
    pub fn new(n: usize) -> (r: Self)
        ensures
            r@.len() == n,
            forall|i: int| 0 <= i < n ==> #[trigger] r@[i] == EntryView::idle(),
    {
        let mut entries: Vec<Entry> = Vec::new();
        let mut k: usize = 0;
        while k < n
            invariant
                k <= n,
                entries@.len() == k,
                forall|i: int| 0 <= i < k ==> #[trigger] entries@[i]@ == EntryView::idle(),
            decreases n - k,
        {
            entries.push(Entry { task: None, ticks: 0, cancel_wanted: false });
            k = k + 1;
        }
        let r = TaskBoard { entries };
        assert forall|i: int| 0 <= i < n implies #[trigger] r@[i] == EntryView::idle() by {
            assert(r@[i] == r.entries@[i]@);
        }
        r
    }

    pub fn len(&self) -> (r: usize)
        ensures
            r == self@.len(),
    {
        self.entries.len()
    }

    /// Puts `c` in entry `i` with a fresh count and no cancel wanted, and hands
    /// back the task it held before, which the caller should cancel and drop.
    pub fn install(&mut self, i: usize, c: TaskController) -> (prev: Option<TaskController>)
        requires
            i < old(self)@.len(),
        ensures
            final(self)@ == old(self)@.update(i as int, EntryView { task: Some(c@), ticks: 0, cancel_wanted: false }),
            match prev {
                Some(p) => old(self)@[i as int].task == Some(p@),
                None => old(self)@[i as int].task is None,
            },
    {
        let mut e = Entry { task: Some(c), ticks: 0, cancel_wanted: false };
        std::mem::swap(&mut self.entries[i], &mut e);
        proof {
            assert(self@ =~= old(self)@.update(i as int, EntryView { task: Some(c@), ticks: 0, cancel_wanted: false }));
        }
        e.task
    }

    /// Polls the task of entry `i`, if it holds one, and keeps the entry's books:
    /// an intermediate report counts a tick and, where a cancel is wanted, asks
    /// the payload to stop; a terminal report empties the entry. Hands back the
    /// report for the caller to show, tagged with the id of the task that made
    /// it, so that one handler can serve every kind of work.
    pub fn poll_entry<P, D, E>(&mut self, i: usize, slot: &mut TaskSlot<P, D, E>) -> (r: Option<(usize, Progress<P, D, E>)>)
        requires
            i < old(self)@.len(),
        ensures
            match old(self)@[i as int].task {
                None => {
                    &&& r is None
                    &&& final(self)@ == old(self)@
                    &&& final(slot)@ == old(slot)@
                },
                Some(c) => {
                    &&& r == tagged(c.id, c.poll_reply(old(slot)@))
                    &&& final(self)@ == old(self)@.update(i as int, old(self)@[i as int].after_report(c, c.poll_reply(old(slot)@)))
                    &&& final(slot)@ == old(self)@[i as int].slot_after_poll(c, old(slot)@)
                },
            },
    {
        let mut e = Entry { task: None, ticks: 0, cancel_wanted: false };
        std::mem::swap(&mut self.entries[i], &mut e);
        let Entry { task, ticks, cancel_wanted } = e;
        let (r, mut back) = match task {
            None => (None, Entry { task: None, ticks, cancel_wanted }),
            Some(mut c) => {
                let id = c.id();
                let r = c.poll(slot);
                let (terminal, current) = match &r {
                    Some(p) => {
                        let t = p.is_terminal();
                        (t, !t)
                    },
                    None => (false, false),
                };
                let r = match r {
                    Some(p) => Some((id, p)),
                    None => None,
                };
                if terminal {
                    (r, Entry { task: None, ticks: 0, cancel_wanted: false })
                } else if current {
                    if cancel_wanted {
                        c.cancel(slot);
                    }
                    let n: u64 = if ticks < u64::MAX { ticks + 1 } else { ticks };
                    (r, Entry { task: Some(c), ticks: n, cancel_wanted })
                } else {
                    (r, Entry { task: Some(c), ticks, cancel_wanted })
                }
            },
        };
        std::mem::swap(&mut self.entries[i], &mut back);
        proof {
            match old(self)@[i as int].task {
                None => {
                    assert(self@ =~= old(self)@);
                },
                Some(c) => {
                    assert(self@ =~= old(self)@.update(i as int, old(self)@[i as int].after_report(c, c.poll_reply(old(slot)@))));
                },
            }
        }
        r
    }

    /// Marks the task of entry `i` to be cancelled at its next intermediate
    /// report; no effect on an idle entry.
    pub fn want_cancel(&mut self, i: usize)
        requires
            i < old(self)@.len(),
        ensures
            old(self)@[i as int].task is None ==> final(self)@ == old(self)@,
            old(self)@[i as int].task is Some ==> final(self)@ == old(self)@.update(
                i as int,
                EntryView { task: old(self)@[i as int].task, ticks: old(self)@[i as int].ticks, cancel_wanted: true },
            ),
    {
        if self.entries[i].task.is_some() {
            self.entries[i].cancel_wanted = true;
        }
        proof {
            if old(self)@[i as int].task is None {
                assert(self@ =~= old(self)@);
            } else {
                assert(self@ =~= old(self)@.update(
                    i as int,
                    EntryView { task: old(self)@[i as int].task, ticks: old(self)@[i as int].ticks, cancel_wanted: true },
                ));
            }
        }
    }

    /// How many entries hold a task; none means there is nothing to poll.
    pub fn busy_count(&self) -> (r: usize)
        ensures
            r == count_busy(self@),
    {
        let mut n: usize = 0;
        let mut k: usize = 0;
        while k < self.entries.len()
            invariant
                k <= self@.len(),
                self@.len() == self.entries@.len(),
                n == count_busy(self@.take(k as int)),
                n <= k,
            decreases self.entries.len() - k,
        {
            proof {
                assert(self@.take(k + 1).drop_last() =~= self@.take(k as int));
            }
            if self.entries[k].task.is_some() {
                n = n + 1;
            }
            k = k + 1;
        }
        proof {
            assert(self@.take(k as int) =~= self@);
        }
        n
    }

    /// The id of the task that entry `i` holds, if any.
    pub fn task_id(&self, i: usize) -> (r: Option<usize>)
        requires
            i < self@.len(),
        ensures
            match self@[i as int].task {
                Some(c) => r == Some(c.id),
                None => r is None,
            },
    {
        match &self.entries[i].task {
            Some(c) => Some(c.id()),
            None => None,
        }
    }

    pub fn ticks(&self, i: usize) -> (r: u64)
        requires
            i < self@.len(),
        ensures
            r == self@[i as int].ticks,
    {
        self.entries[i].ticks
    }

    pub fn cancel_wanted(&self, i: usize) -> (r: bool)
        requires
            i < self@.len(),
        ensures
            r == self@[i as int].cancel_wanted,
    {
        self.entries[i].cancel_wanted
    }
}

} // verus!
