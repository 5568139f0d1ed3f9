use vstd::prelude::*;

use crate::progress::Progress;
use crate::slot::{SlotView, TaskSlot};

verus! {

/// Where a controller is in its life.
#[derive(PartialEq, Eq, Structural, Clone, Copy, Debug)]
pub enum TaskState {
    /// Built, the worker not started yet.
    Pending,
    /// The worker was started and no terminal report has been handed out.
    Running,
    /// The terminal report was handed out; the controller has nothing more to give.
    Done,
}

/// The abstract state of a [`TaskController`].
pub struct ControllerView {
    /// The caller's tag for the kind of work; it never changes.
    pub id: usize,
    pub state: TaskState,
}

impl ControllerView {
    pub open spec fn spawned(id: usize) -> Self {
        ControllerView { id, state: TaskState::Pending }
    }

    /// Triggering starts a pending task and leaves any other as it is.
    pub open spec fn triggered(self) -> Self {
        if self.state == TaskState::Pending {
            ControllerView { id: self.id, state: TaskState::Running }
        } else {
            self
        }
    }

    /// What a poll hands back: the drained report of a running task, else nothing.
    pub open spec fn poll_reply<P, D, E>(self, slot: SlotView<P, D, E>) -> Option<Progress<P, D, E>> {
        if self.state == TaskState::Running {
            slot.latest
        } else {
            None
        }
    }

    /// A running task is done once a poll has handed out a terminal report.
    pub open spec fn polled<P, D, E>(self, slot: SlotView<P, D, E>) -> Self {
        if self.state == TaskState::Running && (slot.latest matches Some(p) && p.is_terminal()) {
            ControllerView { id: self.id, state: TaskState::Done }
        } else {
            self
        }
    }

    /// A poll drains the slot of a running task and leaves any other slot alone.
    pub open spec fn slot_after_poll<P, D, E>(self, slot: SlotView<P, D, E>) -> SlotView<P, D, E> {
        if self.state == TaskState::Running {
            slot.taken()
        } else {
            slot
        }
    }

    /// Cancelling raises the flag unless the task is already done.
    pub open spec fn slot_after_cancel<P, D, E>(self, slot: SlotView<P, D, E>) -> SlotView<P, D, E> {
        if self.state == TaskState::Done {
            slot
        } else {
            slot.canceled()
        }
    }
}

/// The caller's side of one unit of background work.
pub struct TaskController {
    id: usize,
    state: TaskState,
}

impl View for TaskController {
    type V = ControllerView;

    closed spec fn view(&self) -> ControllerView {
        ControllerView { id: self.id, state: self.state }
    }
}

impl TaskController {
    /// A controller for work of kind `id`; nothing runs until [`Self::trigger`].
    pub fn new(id: usize) -> (r: Self)
        ensures
            r@ == ControllerView::spawned(id),
    {
        TaskController { id, state: TaskState::Pending }
    }

    pub fn id(&self) -> (r: usize)
        ensures
            r == self@.id,
    {
        self.id
    }

    pub fn state(&self) -> (r: TaskState)
        ensures
            r == self@.state,
    {
        self.state
    }

    pub fn is_done(&self) -> (r: bool)
        ensures
            r == (self@.state == TaskState::Done),
    {
        match self.state {
            TaskState::Done => true,
            _ => false,
        }
    }

    /// Returns whether the caller must start the worker now: true exactly once,
    /// on the first trigger of a pending controller.
    pub fn trigger(&mut self) -> (start: bool)
        ensures
            start == (old(self)@.state == TaskState::Pending),
            final(self)@ == old(self)@.triggered(),
    {
        match self.state {
            TaskState::Pending => {
                self.state = TaskState::Running;
                true
            },
            _ => false,
        }
    }

    /// Drains the report that the worker left in `slot`, without waiting.
    ///
    /// `None` means there is nothing to hand out: the task was not triggered, no
    /// report came since the last poll, or the terminal report was handed out
    /// already. A terminal report is handed out once, and the task is then done.
    pub fn poll<P, D, E>(&mut self, slot: &mut TaskSlot<P, D, E>) -> (r: Option<Progress<P, D, E>>)
        ensures
            r == old(self)@.poll_reply(old(slot)@),
            final(self)@ == old(self)@.polled(old(slot)@),
            final(slot)@ == old(self)@.slot_after_poll(old(slot)@),
            old(self)@.state != TaskState::Running ==> r is None,
            (r matches Some(p) && p.is_terminal()) ==> final(self)@.state == TaskState::Done,
    {
        match self.state {
            TaskState::Running => {
                let r = slot.take();
                let terminal = match &r {
                    Some(p) => p.is_terminal(),
                    None => false,
                };
                if terminal {
                    self.state = TaskState::Done;
                }
                r
            },
            _ => None,
        }
    }

    /// Asks the payload to stop at its next safe point. Advisory only: a payload
    /// that never looks at the flag runs to its own end. No effect on a done task.
    pub fn cancel<P, D, E>(&self, slot: &mut TaskSlot<P, D, E>)
        ensures
            final(slot)@ == self@.slot_after_cancel(old(slot)@),
    {
        match self.state {
            TaskState::Done => {},
            _ => slot.request_cancel(),
        }
    }
}

} // verus!
