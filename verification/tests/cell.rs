use std::sync::{Arc, Mutex};
use std::task::{Wake, Waker};

use one_shot_channel::{Chan, Polled};

struct Bell {
    rings: Mutex<u32>,
}

impl Wake for Bell {
    fn wake(self: Arc<Self>) {
        *self.rings.lock().unwrap() += 1;
    }
}

fn bell() -> (Arc<Bell>, Arc<Waker>) {
    let bell = Arc::new(Bell { rings: Mutex::new(0) });
    (bell.clone(), Arc::new(Waker::from(bell)))
}

fn rings(bell: &Arc<Bell>) -> u32 {
    *bell.rings.lock().unwrap()
}

#[test]
fn new_cell_is_open() {
    let cell = Chan::<i32>::new();
    assert!(!cell.is_set());
    assert!(!cell.is_dropped());
}

#[test]
fn new_cell_has_nothing_to_take() {
    let mut cell = Chan::<i32>::new();
    assert_eq!(cell.take(), None);
    assert!(!cell.is_set());
}

#[test]
fn first_set_succeeds_and_later_ones_get_their_value_back() {
    let mut cell = Chan::<i32>::new();
    let (first, woken) = cell.set(12999);
    assert_eq!(first, Ok(()));
    assert!(woken.is_none());
    assert!(cell.is_set());

    let (second, woken) = cell.set(-1122);
    assert_eq!(second, Err(-1122));
    assert!(woken.is_none());

    let (third, woken) = cell.set(6555);
    assert_eq!(third, Err(6555));
    assert!(woken.is_none());

    assert_eq!(cell.take(), Some(12999));
}

#[test]
fn rejected_set_gives_the_very_value_back() {
    let mut cell = Chan::<String>::new();
    assert_eq!(cell.set(String::from("first")).0, Ok(()));
    assert_eq!(cell.set(String::from("second")).0, Err(String::from("second")));
    assert_eq!(cell.take(), Some(String::from("first")));
}

#[test]
fn take_gives_the_value_once() {
    let mut cell = Chan::<i32>::new();
    assert_eq!(cell.set(65).0, Ok(()));
    assert_eq!(cell.take(), Some(65));
    assert_eq!(cell.take(), None);
    assert_eq!(cell.take(), None);
    assert!(cell.is_set());
}

#[test]
fn set_after_take_is_still_rejected() {
    let mut cell = Chan::<i32>::new();
    assert_eq!(cell.set(1).0, Ok(()));
    assert_eq!(cell.take(), Some(1));
    assert_eq!(cell.set(2).0, Err(2));
    assert_eq!(cell.take(), None);
}

#[test]
fn first_waiter_is_kept_and_later_ones_are_handed_back() {
    let mut cell = Chan::<i32>::new();
    let (_a, first) = bell();
    let (_b, second) = bell();

    assert!(cell.register_waiter(first.clone()).is_none());
    let back = cell.register_waiter(second.clone()).unwrap();
    assert!(Arc::ptr_eq(&back, &second));

    let (sent, woken) = cell.set(3);
    assert_eq!(sent, Ok(()));
    assert!(Arc::ptr_eq(&woken.unwrap(), &first));
}

#[test]
fn waiter_stays_registered_after_the_write_woke_it() {
    let mut cell = Chan::<i32>::new();
    let (_a, first) = bell();
    let (_b, second) = bell();
    assert!(cell.register_waiter(first.clone()).is_none());
    let held_before = Arc::strong_count(&first);

    let (sent, woken) = cell.set(3);
    assert_eq!(sent, Ok(()));
    assert!(Arc::ptr_eq(&woken.unwrap(), &first));

    // the cell still holds its share, and still turns other offers away
    assert_eq!(Arc::strong_count(&first), held_before);
    let back = cell.register_waiter(second.clone()).unwrap();
    assert!(Arc::ptr_eq(&back, &second));
}

#[test]
fn waiter_stays_registered_after_the_last_departure_woke_it() {
    let mut cell = Chan::<i32>::new();
    let (_a, first) = bell();
    let (_b, second) = bell();
    assert!(cell.register_waiter(first.clone()).is_none());
    let held_before = Arc::strong_count(&first);

    let woken = cell.release_producer();
    assert!(Arc::ptr_eq(&woken.unwrap(), &first));

    assert_eq!(Arc::strong_count(&first), held_before);
    let back = cell.register_waiter(second.clone()).unwrap();
    assert!(Arc::ptr_eq(&back, &second));
}

#[test]
fn write_leaves_the_count_of_senders_alone() {
    let mut cell = Chan::<i32>::new();
    cell.add_producer();
    assert_eq!(cell.set(1).0, Ok(()));
    assert!(cell.release_producer().is_none());
    assert!(!cell.is_dropped());
    assert!(cell.release_producer().is_none());
    assert!(cell.is_dropped());
}

#[test]
fn waiter_is_handed_out_by_the_successful_set_only() {
    let mut cell = Chan::<i32>::new();
    let (_a, waker) = bell();
    assert!(cell.register_waiter(waker.clone()).is_none());

    let (_, woken) = cell.set(1);
    assert!(woken.is_some());
    let (_, woken) = cell.set(2);
    assert!(woken.is_none());
    assert!(cell.release_producer().is_none());
}

#[test]
fn first_waiter_offered_to_a_written_cell_is_kept() {
    let mut cell = Chan::<i32>::new();
    let (_a, first) = bell();
    let (_b, second) = bell();
    assert_eq!(cell.set(1).0, Ok(()));
    assert!(cell.register_waiter(first.clone()).is_none());
    assert!(Arc::ptr_eq(&cell.register_waiter(second.clone()).unwrap(), &second));
    assert!(cell.set(2).1.is_none());
    assert!(cell.release_producer().is_none());
}

#[test]
fn first_waiter_offered_to_an_abandoned_cell_is_kept() {
    let mut cell = Chan::<i32>::new();
    let (_a, first) = bell();
    let (_b, second) = bell();
    assert!(cell.release_producer().is_none());
    assert!(cell.is_dropped());
    assert!(cell.register_waiter(first.clone()).is_none());
    assert!(Arc::ptr_eq(&cell.register_waiter(second.clone()).unwrap(), &second));
    assert!(cell.release_producer().is_none());
}

#[test]
fn last_release_without_a_write_hands_out_the_waiter() {
    let mut cell = Chan::<i32>::new();
    let (_a, waker) = bell();
    assert!(cell.register_waiter(waker.clone()).is_none());
    cell.add_producer();

    assert!(cell.release_producer().is_none());
    assert!(!cell.is_dropped());

    let woken = cell.release_producer();
    assert!(Arc::ptr_eq(&woken.unwrap(), &waker));
    assert!(cell.is_dropped());
}

#[test]
fn last_release_after_a_write_hands_out_nothing() {
    let mut cell = Chan::<i32>::new();
    let (_a, waker) = bell();
    assert!(cell.register_waiter(waker).is_none());
    assert!(cell.set(8).1.is_some());
    assert!(cell.release_producer().is_none());
    assert!(cell.is_dropped());
    assert_eq!(cell.poll_ready(), Polled::Ready(Some(8)));
}

#[test]
fn release_stops_at_zero() {
    let mut cell = Chan::<i32>::new();
    assert!(cell.release_producer().is_none());
    assert!(cell.is_dropped());
    assert!(cell.release_producer().is_none());
    assert!(cell.is_dropped());
}

#[test]
fn abandoned_cell_stays_abandoned() {
    let mut cell = Chan::<i32>::new();
    assert!(cell.release_producer().is_none());
    cell.add_producer();
    assert!(cell.is_dropped());
    assert_eq!(cell.poll_ready(), Polled::Ready(None));
}

#[test]
fn producers_are_counted() {
    let mut cell = Chan::<i32>::new();
    cell.add_producer();
    cell.add_producer();
    assert!(cell.release_producer().is_none());
    assert!(!cell.is_dropped());
    assert!(cell.release_producer().is_none());
    assert!(!cell.is_dropped());
    assert!(cell.release_producer().is_none());
    assert!(cell.is_dropped());
}

#[test]
fn poll_ready_on_an_open_cell_is_pending_and_changes_nothing() {
    let mut cell = Chan::<i32>::new();
    assert_eq!(cell.poll_ready(), Polled::Pending);
    assert!(!cell.is_set());
    assert!(!cell.is_dropped());
    assert_eq!(cell.set(4).0, Ok(()));
    assert_eq!(cell.poll_ready(), Polled::Ready(Some(4)));
    assert_eq!(cell.poll_ready(), Polled::Ready(None));
}

#[test]
fn poll_ready_on_an_abandoned_cell_is_ready_with_nothing() {
    let mut cell = Chan::<i32>::new();
    assert!(cell.release_producer().is_none());
    assert_eq!(cell.poll_ready(), Polled::Ready(None));
    assert_eq!(cell.poll_ready(), Polled::Ready(None));
}

#[test]
fn poll_register_on_an_open_cell_keeps_the_waiter() {
    let mut cell = Chan::<i32>::new();
    let (_a, waker) = bell();
    let (polled, back) = cell.poll_register(waker.clone());
    assert_eq!(polled, Polled::Pending);
    assert!(back.is_none());

    let (sent, woken) = cell.set(77);
    assert_eq!(sent, Ok(()));
    assert!(Arc::ptr_eq(&woken.unwrap(), &waker));
}

#[test]
fn poll_register_sees_a_write_that_came_after_the_first_step() {
    let mut cell = Chan::<i32>::new();
    let (_a, waker) = bell();
    assert_eq!(cell.poll_ready(), Polled::Pending);
    assert_eq!(cell.set(21).0, Ok(()));

    let (polled, back) = cell.poll_register(waker.clone());
    assert_eq!(polled, Polled::Ready(Some(21)));
    assert!(back.is_none());
    assert_eq!(cell.poll_ready(), Polled::Ready(None));
}

#[test]
fn poll_register_sees_an_abandonment_that_came_after_the_first_step() {
    let mut cell = Chan::<i32>::new();
    let (_a, waker) = bell();
    assert_eq!(cell.poll_ready(), Polled::Pending);
    assert!(cell.release_producer().is_none());

    let (polled, back) = cell.poll_register(waker.clone());
    assert_eq!(polled, Polled::Ready(None));
    assert!(back.is_none());
    assert_eq!(cell.poll_ready(), Polled::Ready(None));
}

#[test]
fn second_poll_register_keeps_the_first_waiter() {
    let mut cell = Chan::<i32>::new();
    let (_a, first) = bell();
    let (_b, second) = bell();
    assert_eq!(cell.poll_register(first.clone()).0, Polled::Pending);
    let (polled, back) = cell.poll_register(second.clone());
    assert_eq!(polled, Polled::Pending);
    assert!(Arc::ptr_eq(&back.unwrap(), &second));
    assert!(Arc::ptr_eq(&cell.release_producer().unwrap(), &first));
}

#[test]
fn write_counts_for_more_than_abandonment() {
    let mut cell = Chan::<i32>::new();
    assert_eq!(cell.set(5).0, Ok(()));
    assert!(cell.release_producer().is_none());
    assert!(cell.is_set());
    assert!(cell.is_dropped());
    assert_eq!(cell.poll_ready(), Polled::Ready(Some(5)));
}

#[test]
fn handed_out_waiter_rings_once() {
    let mut cell = Chan::<i32>::new();
    let (counter, waker) = bell();
    assert!(cell.register_waiter(waker).is_none());
    let (_, woken) = cell.set(1);
    woken.unwrap().wake_by_ref();
    assert_eq!(rings(&counter), 1);
    assert!(cell.release_producer().is_none());
    assert_eq!(rings(&counter), 1);
}
