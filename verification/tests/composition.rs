use std::cell::Cell;
use std::cell::RefCell;
use std::rc::Rc;

use stale_timer::instant::Duration;
use stale_timer::instant::Instant;
use stale_timer::staleness::maybe_time_until_stale_at;
use stale_timer::timer::SingleSlotTimer;
use stale_timer::timer::TimerHandle;

/// A timeout of a simulated timer queue: cancelling it unless it has fired
/// takes it off the queue.
struct Timeout {
    id: usize,
    queue: Rc<RefCell<Vec<Entry>>>,
}

#[derive(Clone, Copy, Debug, PartialEq, Eq)]
enum State {
    Pending,
    Fired,
    Cancelled,
}

#[derive(Clone, Copy, Debug, PartialEq, Eq)]
struct Entry {
    delay: u64,
    state: State,
}

impl TimerHandle for Timeout {
    fn cancel(self) {
        let mut queue = self.queue.borrow_mut();
        if queue[self.id].state == State::Pending {
            queue[self.id].state = State::Cancelled;
        }
    }
}

fn set_timeout(queue: &Rc<RefCell<Vec<Entry>>>, delay: u64) -> Timeout {
    let id = queue.borrow().len();
    queue.borrow_mut().push(Entry { delay, state: State::Pending });
    Timeout { id, queue: queue.clone() }
}

fn fire(queue: &Rc<RefCell<Vec<Entry>>>, id: usize) {
    let mut queue = queue.borrow_mut();
    if queue[id].state == State::Pending {
        queue[id].state = State::Fired;
    }
}

fn pending(queue: &Rc<RefCell<Vec<Entry>>>) -> usize {
    queue.borrow().iter().filter(|entry| entry.state == State::Pending).count()
}

#[test]
fn timeout_is_set_for_the_time_left_until_stale() {
    let queue = Rc::new(RefCell::new(Vec::new()));
    let updated_at = Rc::new(Cell::new(Some(Instant::from_millis(1000))));
    let ttl = Rc::new(Cell::new(Some(Duration::from_millis(500))));
    let now = Rc::new(Cell::new(Instant::from_millis(1200)));
    let (q, u, t, n) = (queue.clone(), updated_at.clone(), ttl.clone(), now.clone());
    let mut timer = SingleSlotTimer::new(move || {
        maybe_time_until_stale_at(u.get(), t.get(), n.get())
            .map(|left| set_timeout(&q, left.as_millis()))
    });

    timer.reschedule();
    assert_eq!(*queue.borrow(), vec![Entry { delay: 300, state: State::Pending }]);

    now.set(Instant::from_millis(1600));
    timer.reschedule();
    assert_eq!(
        *queue.borrow(),
        vec![
            Entry { delay: 300, state: State::Cancelled },
            Entry { delay: 0, state: State::Pending },
        ]
    );
    assert_eq!(pending(&queue), 1);
}

#[test]
fn no_timeout_is_set_while_staleness_is_undefined() {
    let queue = Rc::new(RefCell::new(Vec::new()));
    let updated_at = Rc::new(Cell::new(None));
    let ttl = Rc::new(Cell::new(Some(Duration::from_millis(500))));
    let (q, u, t) = (queue.clone(), updated_at.clone(), ttl.clone());
    let mut timer = SingleSlotTimer::new(move || {
        maybe_time_until_stale_at(u.get(), t.get(), Instant::from_millis(1200))
            .map(|left| set_timeout(&q, left.as_millis()))
    });

    timer.reschedule();
    assert!(!timer.is_scheduled());
    assert_eq!(queue.borrow().len(), 0);

    updated_at.set(Some(Instant::from_millis(1000)));
    timer.reschedule();
    assert!(timer.is_scheduled());
    assert_eq!(*queue.borrow(), vec![Entry { delay: 300, state: State::Pending }]);

    ttl.set(None);
    timer.reschedule();
    assert!(!timer.is_scheduled());
    assert_eq!(*queue.borrow(), vec![Entry { delay: 300, state: State::Cancelled }]);
    assert_eq!(pending(&queue), 0);
}

#[test]
fn only_the_second_of_two_timeouts_fires() {
    let queue = Rc::new(RefCell::new(Vec::new()));
    let q = queue.clone();
    let mut timer = SingleSlotTimer::new(move || Some(set_timeout(&q, 10)));

    timer.reschedule();
    timer.reschedule();
    assert!(timer.is_scheduled());
    assert_eq!(pending(&queue), 1);
    fire(&queue, 0);
    fire(&queue, 1);
    assert_eq!(
        *queue.borrow(),
        vec![
            Entry { delay: 10, state: State::Cancelled },
            Entry { delay: 10, state: State::Fired },
        ]
    );
}

#[test]
fn cancelling_a_fired_timeout_changes_nothing() {
    let queue = Rc::new(RefCell::new(Vec::new()));
    let q = queue.clone();
    let mut timer = SingleSlotTimer::new(move || Some(set_timeout(&q, 10)));

    timer.reschedule();
    fire(&queue, 0);
    timer.reschedule();
    assert_eq!(
        *queue.borrow(),
        vec![Entry { delay: 10, state: State::Fired }, Entry { delay: 10, state: State::Pending }]
    );
    fire(&queue, 1);
    timer.teardown();
    timer.teardown();
    assert_eq!(
        *queue.borrow(),
        vec![Entry { delay: 10, state: State::Fired }, Entry { delay: 10, state: State::Fired }]
    );
    assert!(timer.is_closed());
}

#[test]
fn nothing_fires_after_teardown() {
    let queue = Rc::new(RefCell::new(Vec::new()));
    let q = queue.clone();
    let mut timer = SingleSlotTimer::new(move || Some(set_timeout(&q, 10)));

    timer.reschedule();
    timer.reschedule();
    timer.reschedule();
    timer.teardown();
    assert_eq!(pending(&queue), 0);
    fire(&queue, 0);
    fire(&queue, 1);
    fire(&queue, 2);
    assert!(queue.borrow().iter().all(|entry| entry.state == State::Cancelled));
    timer.reschedule();
    assert_eq!(queue.borrow().len(), 3);
}
