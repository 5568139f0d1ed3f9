use vstd::prelude::*;

use crate::progress::Progress;

verus! {

/// The abstract contents of a [`TaskSlot`].
pub struct SlotView<P, D, E> {
    /// The latest report not yet taken by the controller.
    pub latest: Option<Progress<P, D, E>>,
    /// A terminal report was accepted; the slot takes no more.
    pub finished: bool,
    /// The controller asked the payload to stop.
    pub cancel_requested: bool,
}

impl<P, D, E> SlotView<P, D, E> {
    pub open spec fn empty() -> Self {
        SlotView { latest: None, finished: false, cancel_requested: false }
    }

    /// A report overwrites the one before it, until a terminal one has been accepted.
    pub open spec fn published(self, p: Progress<P, D, E>) -> Self {
        if self.finished {
            self
        } else {
            SlotView { latest: Some(p), finished: p.is_terminal(), cancel_requested: self.cancel_requested }
        }
    }

    pub open spec fn taken(self) -> Self {
        SlotView { latest: None, finished: self.finished, cancel_requested: self.cancel_requested }
    }

    pub open spec fn canceled(self) -> Self {
        SlotView { latest: self.latest, finished: self.finished, cancel_requested: true }
    }
}

/// The state that a worker and its controller share: the latest report and the
/// cancellation flag. Whoever holds it across threads keeps each call under
/// one short critical section.
pub struct TaskSlot<P, D, E> {
    latest: Option<Progress<P, D, E>>,
    finished: bool,
    cancel_requested: bool,
}

impl<P, D, E> View for TaskSlot<P, D, E> {
    type V = SlotView<P, D, E>;

    closed spec fn view(&self) -> SlotView<P, D, E> {
        SlotView { latest: self.latest, finished: self.finished, cancel_requested: self.cancel_requested }
    }
}

impl<P, D, E> TaskSlot<P, D, E> {
    pub fn new() -> (r: Self)
        ensures
            r@ == SlotView::<P, D, E>::empty(),
    {
        TaskSlot { latest: None, finished: false, cancel_requested: false }
    }

    /// Called by the worker: stores `p` as the latest report unless a terminal
    /// report was accepted before, and says whether it was stored.
    pub fn publish(&mut self, p: Progress<P, D, E>) -> (accepted: bool)
        ensures
            accepted == !old(self)@.finished,
            final(self)@ == old(self)@.published(p),
    {
        if self.finished {
            false
        } else {
            self.finished = p.is_terminal();
            self.latest = Some(p);
            true
        }
    }

    /// Called by the worker at its safe points.
    pub fn is_canceled(&self) -> (r: bool)
        ensures
            r == self@.cancel_requested,
    {
        self.cancel_requested
    }

    /// Whether a terminal report has been accepted.
    pub fn is_finished(&self) -> (r: bool)
        ensures
            r == self@.finished,
    {
        self.finished
    }

    /// Drains the latest report; only the controller reads the slot.
    pub(crate) fn take(&mut self) -> (r: Option<Progress<P, D, E>>)
        ensures
            r == old(self)@.latest,
            final(self)@ == old(self)@.taken(),
    {
        self.latest.take()
    }

    /// Raises the cancellation flag; only the controller writes it.
    pub(crate) fn request_cancel(&mut self)
        ensures
            final(self)@ == old(self)@.canceled(),
    {
        self.cancel_requested = true;
    }
}

} // verus!
