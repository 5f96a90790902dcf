//! The record of the calls that a slot makes.
//!
//! The two calls that matter, `cancel` on a handle and the schedule
//! function, are made here, and each is written into the log as it is made.
//! The log's events and the sealed schedule function are private to this
//! module. Code outside it cannot write a record without making the call,
//! and cannot call a sealed schedule function without a record. It can
//! cancel a handle of its own without the log, but the handle is then gone
//! and no log can record its cancellation any more.

use vstd::prelude::*;
use crate::slot::after_scheduling;
use crate::slot::TimerEvent;
use crate::timer::TimerHandle;

verus! {

/// The calls made so far, oldest first.
pub struct CallLog<H> {
    events: Ghost<Seq<TimerEvent<H>>>,
}

impl<H> View for CallLog<H> {
    type V = Seq<TimerEvent<H>>;

    closed spec fn view(&self) -> Seq<TimerEvent<H>> {
        self.events@
    }
}

/// A schedule function that can be called only through a log.
pub struct Schedule<F> {
    func: F,
}

impl<F> Schedule<F> {
    /// The function inside.
    pub closed spec fn func(&self) -> F {
        self.func
    }

    /// Seals `func`. It is not called.
    pub fn new(func: F) -> (schedule: Self)
        ensures
            schedule.func() == func,
    {
        Schedule { func }
    }
}

impl<H: TimerHandle> CallLog<H> {
    /// A log without calls.
    pub fn new() -> (log: Self)
        ensures
            log@ == Seq::<TimerEvent<H>>::empty(),
    {
        CallLog { events: Ghost(Seq::empty()) }
    }

    /// Calls `cancel` on `handle`, once, and records the call. Nothing is
    /// known here of what `cancel` ensures, so only the call itself can meet
    /// the first clause.
    pub fn cancel(&mut self, handle: H)
        ensures
            call_ensures(H::cancel, (handle,), ()),
            final(self)@ == old(self)@.push(TimerEvent::Cancelled(handle)),
    {
        proof {
            self.events@ = self.events@.push(TimerEvent::Cancelled(handle));
        }
        handle.cancel();
    }

    /// Calls the schedule function, once, records the call with what it
    /// returned, and hands that back. What comes back is a result of the
    /// schedule function, which only a call of it can produce.
    pub fn issue<F: Fn() -> Option<H>>(&mut self, schedule: &Schedule<F>) -> (next: Option<H>)
        requires
            call_requires(schedule.func(), ()),
        ensures
            call_ensures(schedule.func(), (), next),
            final(self)@ == after_scheduling(old(self)@, next),
    {
        let next = (schedule.func)();
        proof {
            self.events@ = after_scheduling(self.events@, next);
        }
        next
    }
}

} // verus!
