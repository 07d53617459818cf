use shared_future::future::{Async, Future, Poll};
use shared_future::shared::Shared;
use shared_future::task::Task;
use std::cell::{Cell, RefCell};
use std::rc::Rc;
use std::sync::atomic::{AtomicUsize, Ordering};
use std::sync::Arc;
use std::task::{Wake, Waker};

/// Counts the signals it gets.
struct Signals(AtomicUsize);

impl Wake for Signals {
    fn wake(self: Arc<Self>) {
        self.0.fetch_add(1, Ordering::SeqCst);
    }

    fn wake_by_ref(self: &Arc<Self>) {
        self.0.fetch_add(1, Ordering::SeqCst);
    }
}

fn counted_task() -> (Task, Arc<Signals>) {
    let signals = Arc::new(Signals(AtomicUsize::new(0)));
    (Task::new(Waker::from(signals.clone())), signals)
}

fn signals(counter: &Arc<Signals>) -> usize {
    counter.0.load(Ordering::SeqCst)
}

/// Answers not-ready `pending` times, then `last`. Counts its polls.
struct Countdown {
    pending: usize,
    last: Option<Result<u32, &'static str>>,
    polls: Rc<Cell<usize>>,
}

impl Countdown {
    fn new(pending: usize, last: Result<u32, &'static str>) -> (Countdown, Rc<Cell<usize>>) {
        let polls = Rc::new(Cell::new(0));
        (Countdown { pending, last: Some(last), polls: polls.clone() }, polls)
    }
}

impl Future for Countdown {
    type Item = u32;
    type Error = &'static str;

    fn poll(&mut self, _task: &Task) -> Poll<u32, &'static str> {
        self.polls.set(self.polls.get() + 1);
        if self.pending > 0 {
            self.pending -= 1;
            return Ok(Async::NotReady);
        }
        match self.last.take().expect("polled after completion") {
            Ok(item) => Ok(Async::Ready(item)),
            Err(error) => Err(error),
        }
    }
}

/// Never finishes. Counts its polls and tells when it is dropped.
struct Never {
    polls: Rc<Cell<usize>>,
    dropped: Rc<Cell<usize>>,
}

impl Future for Never {
    type Item = u32;
    type Error = &'static str;

    fn poll(&mut self, _task: &Task) -> Poll<u32, &'static str> {
        self.polls.set(self.polls.get() + 1);
        Ok(Async::NotReady)
    }
}

impl Drop for Never {
    fn drop(&mut self) {
        self.dropped.set(self.dropped.get() + 1);
    }
}

type Peers = Rc<RefCell<Vec<(Shared<Contended>, Task)>>>;

/// While it is being polled, which is while the drive slot is held, it polls
/// the handles in `peers`: they stand for callers on other threads that come
/// in while the driver is at work. It answers not-ready `pending` times, then
/// `last`.
struct Contended {
    pending: usize,
    last: Option<Result<u32, &'static str>>,
    polls: Rc<Cell<usize>>,
    peers: Peers,
    peers_not_ready: Rc<Cell<usize>>,
}

impl Future for Contended {
    type Item = u32;
    type Error = &'static str;

    fn poll(&mut self, _task: &Task) -> Poll<u32, &'static str> {
        self.polls.set(self.polls.get() + 1);
        let mut peers = self.peers.borrow_mut();
        for (peer, task) in peers.iter_mut() {
            match peer.poll(task) {
                Ok(Async::NotReady) => self.peers_not_ready.set(self.peers_not_ready.get() + 1),
                _ => panic!("a peer got an outcome while the driver was still polling"),
            }
        }
        drop(peers);
        if self.pending > 0 {
            self.pending -= 1;
            return Ok(Async::NotReady);
        }
        match self.last.take().expect("polled after completion") {
            Ok(item) => Ok(Async::Ready(item)),
            Err(error) => Err(error),
        }
    }
}

fn expect_item(poll: Poll<shared_future::cell::SharedItem<u32>, shared_future::cell::SharedError<&'static str>>) -> shared_future::cell::SharedItem<u32> {
    match poll {
        Ok(Async::Ready(item)) => item,
        Ok(Async::NotReady) => panic!("not ready"),
        Err(_) => panic!("failed"),
    }
}

fn expect_error(poll: Poll<shared_future::cell::SharedItem<u32>, shared_future::cell::SharedError<&'static str>>) -> shared_future::cell::SharedError<&'static str> {
    match poll {
        Ok(Async::Ready(_)) => panic!("ready with a value"),
        Ok(Async::NotReady) => panic!("not ready"),
        Err(error) => error,
    }
}

fn is_not_ready(poll: &Poll<shared_future::cell::SharedItem<u32>, shared_future::cell::SharedError<&'static str>>) -> bool {
    matches!(poll, Ok(Async::NotReady))
}

#[test]
fn immediate_value_is_shared_by_clones() {
    let (future, polls) = Countdown::new(0, Ok(6));
    let mut handle = Shared::new(future);
    let (task, _) = counted_task();
    let first = expect_item(handle.poll(&task));
    assert_eq!(*first, 6);
    let second = expect_item(handle.clone().poll(&task));
    assert_eq!(*second, 6);
    assert!(std::ptr::eq(&*first, &*second));
    assert_eq!(polls.get(), 1);
}

#[test]
fn error_after_one_not_ready_reaches_both_clones() {
    let peers: Peers = Rc::new(RefCell::new(Vec::new()));
    let polls = Rc::new(Cell::new(0));
    let peers_not_ready = Rc::new(Cell::new(0));
    let future = Contended {
        pending: 1,
        last: Some(Err("boom")),
        polls: polls.clone(),
        peers: peers.clone(),
        peers_not_ready: peers_not_ready.clone(),
    };
    let mut driver = Shared::new(future);
    let mut second = driver.clone();
    let (driver_task, driver_signals) = counted_task();
    let (peer_task, peer_signals) = counted_task();
    peers.borrow_mut().push((driver.clone(), peer_task));

    // The peer polls while the driver is inside the computation; both end up
    // registered.
    assert!(is_not_ready(&driver.poll(&driver_task)));
    assert_eq!(peers_not_ready.get(), 1);
    assert_eq!(signals(&driver_signals), 0);
    assert_eq!(signals(&peer_signals), 0);
    peers.borrow_mut().clear();

    // The driver's second poll surfaces the error and signals both.
    let first = expect_error(driver.poll(&driver_task));
    assert_eq!(*first, "boom");
    assert_eq!(polls.get(), 2);
    assert_eq!(signals(&driver_signals), 1);
    assert_eq!(signals(&peer_signals), 1);

    let other = expect_error(second.poll(&driver_task));
    assert_eq!(*other, "boom");
    assert!(std::ptr::eq(&*first, &*other));
    assert_eq!(polls.get(), 2);
}

#[test]
fn never_completing_computation_keeps_every_clone_waiting() {
    let polls = Rc::new(Cell::new(0));
    let dropped = Rc::new(Cell::new(0));
    let handle = Shared::new(Never { polls: polls.clone(), dropped: dropped.clone() });
    let mut clones: Vec<Shared<Never>> = (0..100).map(|_| handle.clone()).collect();
    let (task, task_signals) = counted_task();
    for round in 0..3 {
        for (index, clone) in clones.iter_mut().enumerate() {
            assert!(is_not_ready(&clone.poll(&task)));
            assert_eq!(polls.get(), round * 100 + index + 1);
        }
    }
    assert_eq!(signals(&task_signals), 0);
    assert_eq!(dropped.get(), 0);
}

#[test]
fn callers_that_come_in_during_a_drive_do_not_drive() {
    // A hundred callers poll while the driver is inside the computation:
    // none of them polls it, all of them wait.
    let peers: Peers = Rc::new(RefCell::new(Vec::new()));
    let polls = Rc::new(Cell::new(0));
    let peers_not_ready = Rc::new(Cell::new(0));
    let mut driver = Shared::new(Contended {
        pending: usize::MAX,
        last: None,
        polls: polls.clone(),
        peers: peers.clone(),
        peers_not_ready: peers_not_ready.clone(),
    });
    let mut counters = Vec::new();
    for _ in 0..100 {
        let (task, counter) = counted_task();
        peers.borrow_mut().push((driver.clone(), task));
        counters.push(counter);
    }
    let (task, _) = counted_task();
    for round in 1..=3 {
        assert!(is_not_ready(&driver.poll(&task)));
        assert_eq!(polls.get(), round);
        assert_eq!(peers_not_ready.get(), round * 100);
    }
    for counter in counters.iter() {
        assert_eq!(signals(counter), 0);
    }
    peers.borrow_mut().clear();
}

#[test]
fn computation_is_polled_exactly_until_it_completes() {
    // Completes at its third poll. Five clones take turns, and three more
    // come in during every drive.
    let peers: Peers = Rc::new(RefCell::new(Vec::new()));
    let polls = Rc::new(Cell::new(0));
    let peers_not_ready = Rc::new(Cell::new(0));
    let handle = Shared::new(Contended {
        pending: 2,
        last: Some(Ok(9)),
        polls: polls.clone(),
        peers: peers.clone(),
        peers_not_ready: peers_not_ready.clone(),
    });
    for _ in 0..3 {
        let (task, _) = counted_task();
        peers.borrow_mut().push((handle.clone(), task));
    }
    let mut clones: Vec<Shared<Contended>> = (0..5).map(|_| handle.clone()).collect();
    let (task, _) = counted_task();

    assert!(is_not_ready(&clones[0].poll(&task)));
    assert_eq!(polls.get(), 1);
    assert!(is_not_ready(&clones[1].poll(&task)));
    assert_eq!(polls.get(), 2);
    assert_eq!(peers_not_ready.get(), 6);
    assert_eq!(*expect_item(clones[2].poll(&task)), 9);
    assert_eq!(polls.get(), 3);
    assert_eq!(peers_not_ready.get(), 9);

    for _ in 0..4 {
        for clone in clones.iter_mut() {
            assert_eq!(*expect_item(clone.poll(&task)), 9);
        }
    }
    let mut peers = peers.borrow_mut();
    for (peer, task) in peers.iter_mut() {
        assert_eq!(*expect_item(peer.poll(task)), 9);
    }
    assert_eq!(polls.get(), 3);
}

#[test]
fn every_poll_after_the_first_ready_returns_the_same_allocation() {
    let (future, polls) = Countdown::new(1, Ok(41));
    let mut first = Shared::new(future);
    let mut early_clone = first.clone();
    let (task, _) = counted_task();
    assert!(is_not_ready(&early_clone.poll(&task)));
    let outcome = expect_item(first.poll(&task));
    assert_eq!(*outcome, 41);

    let again = expect_item(first.poll(&task));
    let early = expect_item(early_clone.poll(&task));
    let late = expect_item(first.clone().poll(&task));
    let later = expect_item(early_clone.clone().clone().poll(&task));
    for other in [&again, &early, &late, &later] {
        assert_eq!(**other, 41);
        assert!(std::ptr::eq(&*outcome, &**other));
    }
    assert_eq!(polls.get(), 2);
}

#[test]
fn every_registered_task_is_signalled_once_on_completion() {
    let peers: Peers = Rc::new(RefCell::new(Vec::new()));
    let polls = Rc::new(Cell::new(0));
    let handle = Shared::new(Contended {
        pending: 1,
        last: Some(Ok(3)),
        polls: polls.clone(),
        peers: peers.clone(),
        peers_not_ready: Rc::new(Cell::new(0)),
    });
    let mut counters = Vec::new();
    for _ in 0..4 {
        let (task, counter) = counted_task();
        peers.borrow_mut().push((handle.clone(), task));
        counters.push(counter);
    }
    let mut driver = handle.clone();
    let (driver_task, driver_counter) = counted_task();

    // Four peers register while the driver polls, then the driver itself.
    assert!(is_not_ready(&driver.poll(&driver_task)));
    peers.borrow_mut().clear();
    for counter in counters.iter() {
        assert_eq!(signals(counter), 0);
    }
    assert_eq!(signals(&driver_counter), 0);

    // Completion signals each of the five once.
    assert_eq!(*expect_item(driver.poll(&driver_task)), 3);
    for counter in counters.iter() {
        assert_eq!(signals(counter), 1);
    }
    assert_eq!(signals(&driver_counter), 1);

    // Nobody is signalled again, and nobody registers any more.
    let (late_task, late_counter) = counted_task();
    assert_eq!(*expect_item(handle.clone().poll(&late_task)), 3);
    assert_eq!(*expect_item(driver.poll(&driver_task)), 3);
    for counter in counters.iter() {
        assert_eq!(signals(counter), 1);
    }
    assert_eq!(signals(&driver_counter), 1);
    assert_eq!(signals(&late_counter), 0);
}

#[test]
fn a_task_that_registers_twice_is_signalled_twice() {
    let (future, _) = Countdown::new(2, Ok(1));
    let mut handle = Shared::new(future);
    let (task, counter) = counted_task();
    assert!(is_not_ready(&handle.poll(&task)));
    assert!(is_not_ready(&handle.poll(&task)));
    assert_eq!(signals(&counter), 0);
    assert_eq!(*expect_item(handle.poll(&task)), 1);
    assert_eq!(signals(&counter), 2);
}

#[test]
fn clone_after_completion_does_not_touch_the_computation() {
    let (future, polls) = Countdown::new(0, Ok(12));
    let mut handle = Shared::new(future);
    let (task, counter) = counted_task();
    let first = expect_item(handle.poll(&task));
    assert_eq!(polls.get(), 1);

    let mut late = handle.clone();
    let second = expect_item(late.poll(&task));
    assert_eq!(*second, 12);
    assert!(std::ptr::eq(&*first, &*second));
    assert_eq!(polls.get(), 1);
    assert_eq!(signals(&counter), 0);
}

/// Answers not-ready once, then 77.
struct Flip {
    polls: Arc<AtomicUsize>,
}

impl Future for Flip {
    type Item = u32;
    type Error = &'static str;

    fn poll(&mut self, _task: &Task) -> Poll<u32, &'static str> {
        if self.polls.fetch_add(1, Ordering::SeqCst) == 0 {
            Ok(Async::NotReady)
        } else {
            Ok(Async::Ready(77))
        }
    }
}

/// Polls its handle the moment it is signalled, and keeps what it got.
struct PollOnSignal {
    handle: std::sync::Mutex<Option<Shared<Flip>>>,
    seen: AtomicUsize,
}

impl Wake for PollOnSignal {
    fn wake(self: Arc<Self>) {
        self.wake_by_ref();
    }

    fn wake_by_ref(self: &Arc<Self>) {
        let mut handle = self.handle.lock().unwrap();
        if let Some(handle) = handle.as_mut() {
            let (task, _) = counted_task();
            if let Ok(Async::Ready(item)) = handle.poll(&task) {
                self.seen.store(*item as usize, Ordering::SeqCst);
            }
        }
    }
}

#[test]
fn a_poll_made_while_being_signalled_finds_the_outcome() {
    let polls = Arc::new(AtomicUsize::new(0));
    let mut handle = Shared::new(Flip { polls: polls.clone() });
    let waker = Arc::new(PollOnSignal {
        handle: std::sync::Mutex::new(Some(handle.clone())),
        seen: AtomicUsize::new(0),
    });
    let task = Task::new(Waker::from(waker.clone()));
    assert!(matches!(handle.poll(&task), Ok(Async::NotReady)));
    assert_eq!(waker.seen.load(Ordering::SeqCst), 0);
    // The driver stores the outcome and signals; the signalled task polls
    // its own clone while the driver still holds the drive slot.
    match handle.poll(&task) {
        Ok(Async::Ready(item)) => assert_eq!(*item, 77),
        _ => panic!("not ready"),
    }
    assert_eq!(waker.seen.load(Ordering::SeqCst), 77);
    assert_eq!(polls.load(Ordering::SeqCst), 2);
    waker.handle.lock().unwrap().take();
}

#[test]
fn dropping_every_clone_releases_a_pending_computation() {
    let polls = Rc::new(Cell::new(0));
    let dropped = Rc::new(Cell::new(0));
    let mut handle = Shared::new(Never { polls: polls.clone(), dropped: dropped.clone() });
    let mut second = handle.clone();
    let third = second.clone();
    let (task, counter) = counted_task();
    assert!(is_not_ready(&handle.poll(&task)));
    assert!(is_not_ready(&second.poll(&task)));
    assert_eq!(polls.get(), 2);

    drop(handle);
    assert_eq!(dropped.get(), 0);
    drop(third);
    assert_eq!(dropped.get(), 0);
    drop(second);
    assert_eq!(dropped.get(), 1);
    assert_eq!(signals(&counter), 0);
}

#[test]
fn dropping_an_unpolled_handle_releases_the_computation() {
    let dropped = Rc::new(Cell::new(0));
    let handle = Shared::new(Never { polls: Rc::new(Cell::new(0)), dropped: dropped.clone() });
    drop(handle);
    assert_eq!(dropped.get(), 1);
}

#[test]
fn a_finished_computation_is_released_at_once() {
    struct Once {
        dropped: Rc<Cell<usize>>,
    }
    impl Future for Once {
        type Item = u32;
        type Error = &'static str;

        fn poll(&mut self, _task: &Task) -> Poll<u32, &'static str> {
            Ok(Async::Ready(5))
        }
    }
    impl Drop for Once {
        fn drop(&mut self) {
            self.dropped.set(self.dropped.get() + 1);
        }
    }
    let dropped = Rc::new(Cell::new(0));
    let mut handle = Shared::new(Once { dropped: dropped.clone() });
    let (task, _) = counted_task();
    match handle.poll(&task) {
        Ok(Async::Ready(item)) => assert_eq!(*item, 5),
        _ => panic!("not ready"),
    }
    assert_eq!(dropped.get(), 1);
    drop(handle);
    assert_eq!(dropped.get(), 1);
}

#[test]
fn an_error_is_kept_for_every_clone_and_every_poll() {
    let (future, polls) = Countdown::new(0, Err("boom"));
    let mut handle = Shared::new(future);
    let (task, _) = counted_task();
    let first = expect_error(handle.poll(&task));
    assert_eq!(*first, "boom");
    for _ in 0..5 {
        let mut clone = handle.clone();
        for _ in 0..3 {
            let error = expect_error(clone.poll(&task));
            assert_eq!(*error, "boom");
            assert!(std::ptr::eq(&*first, &*error));
        }
    }
    assert_eq!(polls.get(), 1);
}

#[test]
fn a_value_that_cannot_be_cloned_is_shared() {
    struct Token(u8);
    struct Yield(Option<Token>);
    impl Future for Yield {
        type Item = Token;
        type Error = Token;

        fn poll(&mut self, _task: &Task) -> Poll<Token, Token> {
            Ok(Async::Ready(self.0.take().expect("polled after completion")))
        }
    }
    let mut handle = Shared::new(Yield(Some(Token(8))));
    let mut clone = handle.clone();
    let (task, _) = counted_task();
    let first = match handle.poll(&task) {
        Ok(Async::Ready(item)) => item,
        _ => panic!("not ready"),
    };
    let second = match clone.poll(&task) {
        Ok(Async::Ready(item)) => item,
        _ => panic!("not ready"),
    };
    assert_eq!(first.0, 8);
    assert!(std::ptr::eq(&*first, &*second));
}

#[test]
fn a_shared_future_can_itself_be_shared() {
    let (future, polls) = Countdown::new(1, Ok(2));
    let inner = Shared::new(future);
    let mut outer = Shared::new(inner.clone());
    let (task, counter) = counted_task();
    assert!(matches!(outer.poll(&task), Ok(Async::NotReady)));
    let item = match outer.clone().poll(&task) {
        Ok(Async::Ready(item)) => item,
        _ => panic!("not ready"),
    };
    assert_eq!(**item, 2);
    assert_eq!(polls.get(), 2);
    // Registered once with the inner and once with the outer handle.
    assert_eq!(signals(&counter), 2);
    let direct = expect_item(inner.clone().poll(&task));
    assert!(std::ptr::eq(&**item, &*direct));
}

/// Polls its handle when it is let go, and keeps what it got.
struct PollOnDrop {
    handle: std::sync::Mutex<Option<Shared<Flip>>>,
    seen: Arc<AtomicUsize>,
}

impl Wake for PollOnDrop {
    fn wake(self: Arc<Self>) {}
}

impl Drop for PollOnDrop {
    fn drop(&mut self) {
        if let Some(mut handle) = self.handle.lock().unwrap().take() {
            let (task, _) = counted_task();
            if let Ok(Async::Ready(item)) = handle.poll(&task) {
                self.seen.store(*item as usize, Ordering::SeqCst);
            }
        }
    }
}

#[test]
fn a_task_that_polls_when_it_is_let_go_finds_the_outcome() {
    let polls = Arc::new(AtomicUsize::new(0));
    let mut handle = Shared::new(Flip { polls: polls.clone() });
    let seen = Arc::new(AtomicUsize::new(0));
    let waker = Arc::new(PollOnDrop {
        handle: std::sync::Mutex::new(Some(handle.clone())),
        seen: seen.clone(),
    });
    let task = Task::new(Waker::from(waker));
    assert!(matches!(handle.poll(&task), Ok(Async::NotReady)));
    // From here on the registered clone is the only one left.
    drop(task);
    assert_eq!(seen.load(Ordering::SeqCst), 0);

    // The driver stores the outcome, signals the registered task and lets it
    // go; the task polls the same core while it goes.
    let (plain, _) = counted_task();
    match handle.poll(&plain) {
        Ok(Async::Ready(item)) => assert_eq!(*item, 77),
        _ => panic!("not ready"),
    }
    assert_eq!(seen.load(Ordering::SeqCst), 77);
    assert_eq!(polls.load(Ordering::SeqCst), 2);
}
