use sigq::PollOutcome;
use sigq::Queue;

#[test]
fn fifo_order() {
    let q: Queue<i32> = Queue::new();
    q.push(1);
    q.push(2);
    q.push(3);
    assert_eq!(q.pop(), 1);
    assert_eq!(q.pop(), 2);
    assert_eq!(q.pop(), 3);
}

#[test]
fn probe_cycle() {
    let q: Queue<u8> = Queue::new();
    assert!(q.was_empty());
    q.push(9);
    assert!(!q.was_empty());
    assert_eq!(q.pop(), 9);
    assert!(q.was_empty());
}

#[test]
fn pop_takes_oldest_first_across_probes() {
    let q: Queue<&str> = Queue::new();
    q.push("first");
    q.push("second");
    assert!(!q.was_empty());
    assert_eq!(q.pop(), "first");
    assert!(!q.was_empty());
    assert_eq!(q.pop(), "second");
    assert!(q.was_empty());
}

#[test]
fn async_pop_of_buffered_item_resolves_at_once() {
    let q: Queue<String> = Queue::new();
    q.push("hello".to_string());
    assert_eq!(q.was_empty(), false);
    let handle = q.apop();
    match handle.poll_step() {
        PollOutcome::Ready(node) => assert_eq!(node, "hello"),
        PollOutcome::Pending => panic!("an item was buffered, so the poll must resolve"),
    }
    assert_eq!(q.was_empty(), true);
}

#[test]
fn async_resolution_after_push() {
    let q: Queue<i32> = Queue::new();
    let handle = q.apop();
    assert!(matches!(handle.poll_step(), PollOutcome::Pending));
    assert!(matches!(handle.poll_step(), PollOutcome::Pending));
    q.push(42);
    match handle.poll_step() {
        PollOutcome::Ready(node) => assert_eq!(node, 42),
        PollOutcome::Pending => panic!("the pushed item must resolve the pending pop"),
    }
}

#[test]
fn wait_hint_returns_once_an_item_is_buffered() {
    let q: Queue<i32> = Queue::new();
    let handle = q.apop();
    let watcher = handle.watcher();
    q.push(5);
    watcher.wait_for_item();
    match handle.poll_step() {
        PollOutcome::Ready(node) => assert_eq!(node, 5),
        PollOutcome::Pending => panic!("the observed item must still be there: no rival consumer ran"),
    }
}

#[test]
fn grows_without_bound_until_drained() {
    let q: Queue<usize> = Queue::new();
    for i in 0..500 {
        q.push(i);
    }
    assert!(!q.was_empty());
    for i in 0..500 {
        assert_eq!(q.pop(), i);
    }
    assert!(q.was_empty());
}

#[test]
fn conservation_under_mixed_consumption() {
    let q: Queue<u32> = Queue::new();
    let mut popped: Vec<u32> = Vec::new();
    q.push(1);
    q.push(2);
    popped.push(q.pop());
    q.push(3);
    let handle = q.apop();
    match handle.poll_step() {
        PollOutcome::Ready(node) => popped.push(node),
        PollOutcome::Pending => panic!("two items were buffered, so the poll must resolve"),
    }
    q.push(4);
    popped.push(q.pop());
    popped.push(q.pop());
    assert!(q.was_empty());
    assert_eq!(popped, vec![1, 2, 3, 4]);
}
