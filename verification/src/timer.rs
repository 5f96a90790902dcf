//! The single-slot timer: an owner of at most one scheduled callback.

use vstd::prelude::*;
use crate::calls::CallLog;
use crate::calls::Schedule;
use crate::slot::after_cancelling;
use crate::slot::lemma_rescheduled_wf;
use crate::slot::lemma_vacated_wf;
use crate::slot::SlotModel;
use crate::slot::TimerEvent;

verus! {

/// A cancellable token for one scheduled callback.
pub trait TimerHandle: Sized {
    /// Cancels the callback that this handle refers to. Cancelling a
    /// callback that has already fired has no effect.
    fn cancel(self);
}

/// What the slot holds, together with the record of its calls.
struct Slot<H> {
    held: Option<H>,
    calls: CallLog<H>,
}

impl<H: TimerHandle> Slot<H> {
    /// A slot that holds nothing and has made no call.
    fn empty() -> (slot: Self)
        ensures
            slot.held is None,
            slot.calls@ == Seq::<TimerEvent<H>>::empty(),
    {
        Slot { held: None, calls: CallLog::new() }
    }

    /// Cancels the held handle, if any, and leaves the slot empty.
    fn vacate(&mut self)
        ensures
            final(self).held is None,
            final(self).calls@ == after_cancelling(old(self).calls@, old(self).held),
    {
        match self.held.take() {
            Some(handle) => {
                self.calls.cancel(handle);
            },
            None => {},
        }
    }
}

/// Owns the handle of at most one scheduled callback.
///
/// The timer does not decide when a callback is due: the schedule function
/// it is built with does, and hands back the handle of what it scheduled, or
/// `None` where there is nothing to schedule. Every reschedule cancels the
/// handle of the one before it; teardown cancels the last and closes the
/// slot for good.
///
/// The timer's view holds every call of the schedule function and of
/// `cancel` that it has made, in order. The timer makes these calls through
/// its call log alone, so its history is the list of the calls made.
///
/// The timer is not told when a callback fires. The handle of a callback
/// that has fired stays in the slot until the next reschedule or teardown
/// cancels it, which by then has no effect.
///
/// Dropping the timer cancels nothing: the owner calls `teardown` when it is
/// done with the slot.
#[verifier::reject_recursive_types(H)]
pub struct SingleSlotTimer<H: TimerHandle, F: Fn() -> Option<H>> {
    slot: Slot<H>,
    closed: bool,
    schedule: Schedule<F>,
}

impl<H: TimerHandle, F: Fn() -> Option<H>> View for SingleSlotTimer<H, F> {
    type V = SlotModel<H>;

    closed spec fn view(&self) -> SlotModel<H> {
        SlotModel { held: self.slot.held, closed: self.closed, history: self.slot.calls@ }
    }
}

impl<H: TimerHandle, F: Fn() -> Option<H>> SingleSlotTimer<H, F> {
    /// The slot keeps its discipline, and the schedule function may be
    /// called at any time.
    #[verifier::type_invariant]
    spec fn inv(self) -> bool {
        &&& self@.wf()
        &&& call_requires(self.schedule.func(), ())
    }

    /// The schedule function that the timer was built with.
    pub closed spec fn schedule_fn(&self) -> F {
        self.schedule.func()
    }

    /// A timer with an empty slot. The schedule function is not called
    /// until the first `reschedule`.
    pub fn new(schedule: F) -> (timer: Self)
        requires
            call_requires(schedule, ()),
        ensures
            timer@ == SlotModel::<H>::empty(),
            timer@.wf(),
            timer.schedule_fn() == schedule,
    {
        SingleSlotTimer { slot: Slot::empty(), closed: false, schedule: Schedule::new(schedule) }
    }

    /// Takes the slot out of the timer, which is left with an empty one
    /// until the slot is put back.
    fn take_slot(&mut self) -> (slot: Slot<H>)
        ensures
            slot.held == old(self)@.held,
            slot.calls@ == old(self)@.history,
            final(self).closed == old(self).closed,
            final(self).schedule == old(self).schedule,
    {
        proof {
            use_type_invariant(&*self);
        }
        let mut slot = Slot::empty();
        core::mem::swap(&mut self.slot, &mut slot);
        slot
    }

    /// Cancels the callback scheduled by the previous call, then calls the
    /// schedule function, once, and holds the handle it returns.
    ///
    /// The cancellation comes first, so the old and the new callback are
    /// never outstanding together. Where the schedule function returns
    /// `None`, the slot is left empty. On a timer that was torn down this
    /// does nothing: the schedule function is not called.
    pub fn reschedule(&mut self)
        ensures
            final(self)@.wf(),
            final(self).schedule_fn() == old(self).schedule_fn(),
            old(self)@.closed ==> final(self)@ == old(self)@,
            !old(self)@.closed ==> exists|next: Option<H>|
                call_ensures(old(self).schedule_fn(), (), next) && final(self)@ == #[trigger] old(
                    self,
                )@.rescheduled(next),
    {
        proof {
            use_type_invariant(&*self);
        }
        if !self.closed {
            let mut slot = self.take_slot();
            slot.vacate();
            let next = slot.calls.issue(&self.schedule);
            proof {
                lemma_rescheduled_wf(old(self)@, next);
            }
            slot.held = next;
            self.slot = slot;
        }
    }

    /// Cancels the held handle, if any, and closes the slot for good. The
    /// schedule function is not called.
    ///
    /// Tearing down a timer that is already torn down makes no call and
    /// changes nothing.
    pub fn teardown(&mut self)
        ensures
            final(self)@.wf(),
            final(self).schedule_fn() == old(self).schedule_fn(),
            final(self)@ == old(self)@.torn_down(),
            old(self)@.closed ==> final(self)@ == old(self)@,
    {
        proof {
            use_type_invariant(&*self);
            lemma_vacated_wf(self@);
        }
        let mut slot = self.take_slot();
        slot.vacate();
        self.slot = slot;
        self.closed = true;
    }

    /// Whether the slot holds a handle.
    pub fn is_scheduled(&self) -> (scheduled: bool)
        ensures
            scheduled == (self@.held is Some),
    {
        self.slot.held.is_some()
    }

    /// Whether the timer was torn down.
    pub fn is_closed(&self) -> (closed: bool)
        ensures
            closed == self@.closed,
    {
        self.closed
    }
}

} // verus!
