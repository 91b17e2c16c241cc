use winter::event_queue::EventQueue;
use winter::state::{Event, TimeSpan};

#[test]
fn queue_is_first_in_first_out() {
    let mut queue = EventQueue::new();
    assert!(queue.is_empty());
    assert_eq!(queue.dequeue(), None);
    let first = Event::SetKeyState { id: 0x41, state: true };
    let second = Event::AdvanceTime(TimeSpan { secs: 1, nanos: 5 });
    let third = Event::Idle;
    queue.enqueue(first);
    queue.enqueue(second);
    assert!(!queue.is_empty());
    assert_eq!(queue.dequeue(), Some((first, false)));
    queue.enqueue(third);
    assert_eq!(queue.dequeue(), Some((second, false)));
    assert_eq!(queue.dequeue(), Some((third, true)));
    assert!(queue.is_empty());
    assert_eq!(queue.dequeue(), None);
}

#[test]
fn default_queue_is_empty() {
    let mut queue = EventQueue::default();
    assert!(queue.is_empty());
    assert_eq!(queue.dequeue(), None);
}
