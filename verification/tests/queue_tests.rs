use bulb_core::queue::CommandQueue;
use bulb_core::ColorCommand;

fn cmd(hue: u16) -> ColorCommand {
    ColorCommand::new(hue, 1000, 1000, true)
}

#[test]
fn bounded_queue_drops_newest_when_full() {
    let mut q = CommandQueue::new_bounded(3);
    let mut accepted: u32 = 0;
    for hue in 0..5u16 {
        if q.enqueue(cmd(hue)) {
            accepted += 1;
        }
    }
    // the consumer was stalled the whole time: at most capacity commands
    // can ever be delivered, the oldest ones, in enqueue order
    assert_eq!(accepted, 3);
    assert_eq!(q.len(), 3);
    assert_eq!(q.dequeue(), Some(cmd(0)));
    assert_eq!(q.dequeue(), Some(cmd(1)));
    assert_eq!(q.dequeue(), Some(cmd(2)));
    assert_eq!(q.dequeue(), None);
}

#[test]
fn bounded_queue_accepts_again_after_dequeue() {
    let mut q = CommandQueue::new_bounded(1);
    assert!(q.enqueue(cmd(1)));
    assert!(!q.enqueue(cmd(2)));
    assert_eq!(q.dequeue(), Some(cmd(1)));
    assert!(q.enqueue(cmd(3)));
    assert_eq!(q.dequeue(), Some(cmd(3)));
}

#[test]
fn zero_capacity_queue_accepts_nothing() {
    let mut q = CommandQueue::new_bounded(0);
    assert!(!q.enqueue(cmd(1)));
    assert_eq!(q.len(), 0);
    assert_eq!(q.dequeue(), None);
}

#[test]
fn unbounded_queue_accepts_everything_in_order() {
    let mut q = CommandQueue::new_unbounded();
    for hue in 0..100u16 {
        assert!(q.enqueue(cmd(hue)));
    }
    assert_eq!(q.len(), 100);
    for hue in 0..100u16 {
        assert_eq!(q.dequeue(), Some(cmd(hue)));
    }
    assert_eq!(q.dequeue(), None);
}
