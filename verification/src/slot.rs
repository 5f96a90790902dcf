//! The mathematical model of a timer slot.
//!
//! A slot makes two kinds of call: it calls the schedule function, which
//! returns the handle of a callback it has scheduled or `None`, and it calls
//! `cancel` on a handle. Its history is the sequence of these calls, each
//! with what it returned or was given. The slot's discipline is that every
//! handle returned by the schedule function is cancelled before the schedule
//! function is called again, and that nothing else is ever cancelled.
//!
//! Replaying a history tells which handles are outstanding: returned by the
//! schedule function, and not cancelled since. The slot is not told when a
//! callback fires, so the handle of a callback that can still fire is always
//! among the outstanding ones. Under the discipline at most one handle is
//! outstanding at any moment, and it is the one that the slot holds.
//!
//! What is proved here is proved of histories. A history says what calls
//! were made; what a call does to the timer facility is up to the schedule
//! function and to the handle's `cancel`.

use vstd::prelude::*;
use vstd::multiset::Multiset;

verus! {

/// One call that a slot has made.
pub enum TimerEvent<H> {
    /// The schedule function was called and returned this.
    Scheduled(Option<H>),
    /// `cancel` was called on this handle.
    Cancelled(H),
}

/// The handles that are outstanding after the calls of `history`: each
/// handle returned by the schedule function is added, each cancellation
/// takes one instance of its handle away, and cancelling a handle that is
/// not outstanding changes nothing.
pub open spec fn outstanding<H>(history: Seq<TimerEvent<H>>) -> Multiset<H>
    decreases history.len(),
{
    if history.len() == 0 {
        Multiset::empty()
    } else {
        let before = outstanding(history.drop_last());
        match history.last() {
            TimerEvent::Scheduled(Some(handle)) => before.insert(handle),
            TimerEvent::Scheduled(None) => before,
            TimerEvent::Cancelled(handle) => before.remove(handle),
        }
    }
}

/// At no moment of `history` were two handles outstanding together.
pub open spec fn never_overlapping<H>(history: Seq<TimerEvent<H>>) -> bool {
    forall|n: int| 0 <= n <= history.len() ==> #[trigger] outstanding(history.take(n)).len() <= 1
}

/// The handle that `history` ends on without having cancelled it: the one
/// that its last call returned, if that was a call of the schedule function
/// and returned one.
pub open spec fn pending<H>(history: Seq<TimerEvent<H>>) -> Option<H> {
    if history.len() == 0 {
        None
    } else {
        match history.last() {
            TimerEvent::Scheduled(next) => next,
            TimerEvent::Cancelled(_) => None,
        }
    }
}

/// The call at position `i` of `history` comes in its turn: the schedule
/// function is called only when the call before has left no handle pending,
/// and a cancellation comes right after the call of the schedule function
/// that returned its handle.
pub open spec fn in_turn<H>(history: Seq<TimerEvent<H>>, i: int) -> bool {
    match history[i] {
        TimerEvent::Scheduled(_) => pending(history.take(i)) is None,
        TimerEvent::Cancelled(handle) => pending(history.take(i)) == Some(handle),
    }
}

/// Every call in `history` comes in its turn.
pub open spec fn orderly<H>(history: Seq<TimerEvent<H>>) -> bool {
    forall|i: int| 0 <= i < history.len() ==> #[trigger] in_turn(history, i)
}

/// The handles that a slot with `held` in it accounts for.
pub open spec fn holding<H>(held: Option<H>) -> Multiset<H> {
    match held {
        Some(handle) => Multiset::singleton(handle),
        None => Multiset::empty(),
    }
}

/// `history` followed by the cancellation of `held`, if there is one.
pub open spec fn after_cancelling<H>(history: Seq<TimerEvent<H>>, held: Option<H>) -> Seq<
    TimerEvent<H>,
> {
    match held {
        Some(handle) => history.push(TimerEvent::Cancelled(handle)),
        None => history,
    }
}

/// `history` followed by one call of the schedule function that returned
/// `next`.
pub open spec fn after_scheduling<H>(history: Seq<TimerEvent<H>>, next: Option<H>) -> Seq<
    TimerEvent<H>,
> {
    history.push(TimerEvent::Scheduled(next))
}

/// The state of a slot: what it holds, whether it was torn down, and all
/// the calls it has made.
pub struct SlotModel<H> {
    /// The handle in the slot.
    pub held: Option<H>,
    /// Whether the slot was torn down. A closed slot stays empty for good.
    pub closed: bool,
    /// Every call so far, oldest first.
    pub history: Seq<TimerEvent<H>>,
}

impl<H> SlotModel<H> {
    /// A fresh slot: open, empty, without a past.
    pub open spec fn empty() -> Self {
        SlotModel { held: None, closed: false, history: Seq::empty() }
    }

    /// The slot's discipline: its calls came each in its turn, it holds the
    /// handle that they have left pending, and it holds nothing once it is
    /// closed.
    pub open spec fn wf(self) -> bool {
        &&& orderly(self.history)
        &&& self.held == pending(self.history)
        &&& self.closed ==> self.held is None
    }

    /// The slot after it has cancelled and let go of what it held.
    pub open spec fn vacated(self) -> Self {
        SlotModel {
            held: None,
            closed: self.closed,
            history: after_cancelling(self.history, self.held),
        }
    }

    /// The slot after a reschedule in which the schedule function returned
    /// `next`: the handle held before is cancelled first, and nothing else
    /// is; then the schedule function is called, once; then `next` is held.
    /// A closed slot ignores the request and makes no call.
    pub open spec fn rescheduled(self, next: Option<H>) -> Self {
        if self.closed {
            self
        } else {
            SlotModel {
                held: next,
                closed: false,
                history: after_scheduling(after_cancelling(self.history, self.held), next),
            }
        }
    }

    /// The slot after teardown: what it held is cancelled, nothing else is
    /// called, and the slot is closed.
    pub open spec fn torn_down(self) -> Self {
        SlotModel {
            held: None,
            closed: true,
            history: after_cancelling(self.history, self.held),
        }
    }

    /// The slot after one reschedule for each entry of `outcomes`, in order,
    /// where the entry is what the schedule function returned.
    pub open spec fn rescheduled_all(self, outcomes: Seq<Option<H>>) -> Self
        decreases outcomes.len(),
    {
        if outcomes.len() == 0 {
            self
        } else {
            self.rescheduled_all(outcomes.drop_last()).rescheduled(outcomes.last())
        }
    }
}

/// Every start of an orderly history is orderly.
pub proof fn lemma_orderly_prefix<H>(history: Seq<TimerEvent<H>>, n: int)
    requires
        orderly(history),
        0 <= n <= history.len(),
    ensures
        orderly(history.take(n)),
{
    assert forall|i: int| 0 <= i < n implies #[trigger] in_turn(history.take(n), i) by {
        assert(in_turn(history, i));
    }
}

/// An orderly history is still orderly after one more call that comes in its
/// turn.
pub proof fn lemma_orderly_push<H>(history: Seq<TimerEvent<H>>, event: TimerEvent<H>)
    requires
        orderly(history),
        match event {
            TimerEvent::Scheduled(_) => pending(history) is None,
            TimerEvent::Cancelled(handle) => pending(history) == Some(handle),
        },
    ensures
        orderly(history.push(event)),
{
    let longer = history.push(event);
    assert forall|i: int| 0 <= i < longer.len() implies #[trigger] in_turn(longer, i) by {
        if i < history.len() {
            assert(in_turn(history, i));
        }
    }
}

/// After an orderly history the handles outstanding are exactly the one it
/// has left pending, if any.
pub proof fn lemma_orderly_outstanding<H>(history: Seq<TimerEvent<H>>)
    requires
        orderly(history),
    ensures
        outstanding(history) == holding(pending(history)),
        outstanding(history).len() <= 1,
    decreases history.len(),
{
    if history.len() > 0 {
        let earlier = history.drop_last();
        lemma_orderly_prefix(history, earlier.len() as int);
        lemma_orderly_outstanding(earlier);
        assert(in_turn(history, history.len() - 1));
    }
}

/// An orderly history never had two handles outstanding together.
pub proof fn lemma_orderly_never_overlapping<H>(history: Seq<TimerEvent<H>>)
    requires
        orderly(history),
    ensures
        never_overlapping(history),
{
    assert forall|n: int| 0 <= n <= history.len() implies #[trigger] outstanding(
        history.take(n),
    ).len() <= 1 by {
        lemma_orderly_prefix(history, n);
        lemma_orderly_outstanding(history.take(n));
    }
}

/// In an orderly history the call that follows one in which the schedule
/// function returned a handle is the cancellation of that handle.
pub proof fn lemma_orderly_handle_is_cancelled_next<H>(
    history: Seq<TimerEvent<H>>,
    i: int,
    handle: H,
)
    requires
        orderly(history),
        0 <= i < history.len() - 1,
        history[i] == TimerEvent::Scheduled(Some(handle)),
    ensures
        history[i + 1] == TimerEvent::Cancelled(handle),
{
    assert(in_turn(history, i + 1));
}

/// A slot that keeps its discipline accounts for every outstanding handle:
/// what it holds is all that is outstanding, and no two handles were ever
/// outstanding together.
pub proof fn lemma_wf_one_outstanding<H>(slot: SlotModel<H>)
    requires
        slot.wf(),
    ensures
        outstanding(slot.history) == holding(slot.held),
        outstanding(slot.history).len() == (if slot.held is Some { 1nat } else { 0nat }),
        never_overlapping(slot.history),
{
    lemma_orderly_outstanding(slot.history);
    lemma_orderly_never_overlapping(slot.history);
}

/// Letting go of the held handle keeps the discipline.
pub proof fn lemma_vacated_wf<H>(slot: SlotModel<H>)
    requires
        slot.wf(),
    ensures
        slot.vacated().wf(),
{
    match slot.held {
        Some(handle) => {
            lemma_orderly_push(slot.history, TimerEvent::Cancelled(handle));
        },
        None => {},
    }
}

/// A reschedule keeps the discipline, whatever the schedule function
/// returned, and an open slot then holds what it returned.
pub proof fn lemma_rescheduled_wf<H>(slot: SlotModel<H>, next: Option<H>)
    requires
        slot.wf(),
    ensures
        slot.rescheduled(next).wf(),
        slot.rescheduled(next).closed == slot.closed,
        !slot.closed ==> slot.rescheduled(next).held == next,
{
    lemma_vacated_wf(slot);
    if !slot.closed {
        lemma_orderly_push(slot.vacated().history, TimerEvent::Scheduled(next));
    }
}

/// Teardown keeps the discipline and leaves a closed, empty slot.
pub proof fn lemma_torn_down_wf<H>(slot: SlotModel<H>)
    requires
        slot.wf(),
    ensures
        slot.torn_down().wf(),
        slot.torn_down().closed,
        slot.torn_down().held is None,
{
    lemma_vacated_wf(slot);
}

/// A run of reschedules keeps the discipline, whatever the schedule function
/// returned each time. On an open slot with at least one reschedule, the slot
/// ends up holding what the last call returned.
pub proof fn lemma_rescheduled_all_wf<H>(slot: SlotModel<H>, outcomes: Seq<Option<H>>)
    requires
        slot.wf(),
    ensures
        slot.rescheduled_all(outcomes).wf(),
        slot.rescheduled_all(outcomes).closed == slot.closed,
        !slot.closed && outcomes.len() >= 1 ==> slot.rescheduled_all(outcomes).held
            == outcomes.last(),
    decreases outcomes.len(),
{
    if outcomes.len() > 0 {
        lemma_rescheduled_all_wf(slot, outcomes.drop_last());
        lemma_rescheduled_wf(slot.rescheduled_all(outcomes.drop_last()), outcomes.last());
    }
}

/// After any number of consecutive reschedules of an open slot, one at
/// least, in each of which the schedule function returned a handle, the
/// history leaves exactly one handle outstanding: the one returned last,
/// which the slot holds. `cancel` has been called on every handle returned
/// before it.
pub proof fn lemma_reschedules_leave_one_outstanding<H>(slot: SlotModel<H>, handles: Seq<H>)
    requires
        slot.wf(),
        !slot.closed,
        handles.len() >= 1,
    ensures
        ({
            let end = slot.rescheduled_all(handles.map_values(|handle: H| Some(handle)));
            &&& end.wf()
            &&& end.held == Some(handles.last())
            &&& outstanding(end.history) == Multiset::singleton(handles.last())
            &&& outstanding(end.history).len() == 1
            &&& forall|i: int|
                0 <= i < handles.len() - 1 ==> end.history.contains(
                    TimerEvent::Cancelled(#[trigger] handles[i]),
                )
        }),
    decreases handles.len(),
{
    let outcomes = handles.map_values(|handle: H| Some(handle));
    let end = slot.rescheduled_all(outcomes);
    lemma_rescheduled_all_wf(slot, outcomes);
    lemma_wf_one_outstanding(end);
    if handles.len() >= 2 {
        let earlier = handles.drop_last();
        let before = slot.rescheduled_all(outcomes.drop_last());
        assert(outcomes.drop_last() =~= earlier.map_values(|handle: H| Some(handle)));
        lemma_reschedules_leave_one_outstanding(slot, earlier);
        assert forall|i: int| 0 <= i < handles.len() - 1 implies end.history.contains(
            TimerEvent::Cancelled(#[trigger] handles[i]),
        ) by {
            if i < earlier.len() - 1 {
                assert(earlier[i] == handles[i]);
                let at = choose|at: int|
                    0 <= at < before.history.len() && before.history[at] == TimerEvent::Cancelled(
                        handles[i],
                    );
                assert(end.history[at] == TimerEvent::Cancelled(handles[i]));
            } else {
                assert(end.history[before.history.len() as int] == TimerEvent::Cancelled(
                    handles[i],
                ));
            }
        }
    }
}

/// A reschedule of an open slot makes these calls and no others, in this
/// order: `cancel` on the handle that the slot held, if it held one, then
/// the schedule function, once.
pub proof fn lemma_reschedule_calls<H>(slot: SlotModel<H>, next: Option<H>)
    requires
        !slot.closed,
    ensures
        slot.held is None ==> slot.rescheduled(next).history == slot.history.push(
            TimerEvent::Scheduled(next),
        ),
        slot.held is Some ==> slot.rescheduled(next).history == slot.history.push(
            TimerEvent::Cancelled(slot.held.unwrap()),
        ).push(TimerEvent::Scheduled(next)),
{
}

/// Teardown calls `cancel` on the handle that the slot held, if it held
/// one, and makes no other call: it never calls the schedule function, and
/// on an empty or a closed slot it makes no call at all.
pub proof fn lemma_teardown_calls<H>(slot: SlotModel<H>)
    ensures
        slot.held is None ==> slot.torn_down().history == slot.history,
        slot.held is Some ==> slot.torn_down().history == slot.history.push(
            TimerEvent::Cancelled(slot.held.unwrap()),
        ),
        slot.wf() && slot.closed ==> slot.torn_down() == slot,
{
}

/// Tearing a slot down twice leaves it as tearing it down once does: the
/// second teardown makes no call.
pub proof fn lemma_teardown_idempotent<H>(slot: SlotModel<H>)
    ensures
        slot.torn_down().torn_down() == slot.torn_down(),
{
}

/// Once a slot is torn down, `cancel` has been called on every handle that
/// the schedule function ever returned to it, so its history leaves nothing
/// outstanding; and a later reschedule makes no call and changes nothing.
pub proof fn lemma_torn_down_stays_empty<H>(slot: SlotModel<H>, outcomes: Seq<Option<H>>)
    requires
        slot.wf(),
    ensures
        outstanding(slot.torn_down().history) == Multiset::<H>::empty(),
        forall|handle: H| #[trigger]
            slot.torn_down().history.contains(TimerEvent::Scheduled(Some(handle)))
                ==> slot.torn_down().history.contains(TimerEvent::Cancelled(handle)),
        slot.torn_down().rescheduled_all(outcomes) == slot.torn_down(),
    decreases outcomes.len(),
{
    let closed = slot.torn_down();
    lemma_torn_down_wf(slot);
    lemma_wf_one_outstanding(closed);
    assert forall|handle: H| #[trigger]
        closed.history.contains(TimerEvent::Scheduled(Some(handle)))
        implies closed.history.contains(TimerEvent::Cancelled(handle)) by {
        let i = choose|i: int|
            0 <= i < closed.history.len() && closed.history[i] == TimerEvent::Scheduled(
                Some(handle),
            );
        lemma_orderly_handle_is_cancelled_next(closed.history, i, handle);
    }
    if outcomes.len() > 0 {
        lemma_torn_down_stays_empty(slot, outcomes.drop_last());
    }
}

} // verus!
