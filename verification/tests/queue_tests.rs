use firmware::{Command, CommandQueue, QueueFull, System};

fn set_gpio(pin: u8, state: bool) -> Command {
    Command::SetGpio { pin, state }
}

#[test]
fn dequeue_returns_commands_in_fifo_order() {
    let mut q = CommandQueue::new();
    assert_eq!(q.len(), 0);
    q.enqueue(set_gpio(1, true)).unwrap();
    q.enqueue(set_gpio(2, false)).unwrap();
    q.enqueue(Command::Reset).unwrap();
    assert_eq!(q.len(), 3);

    assert!(matches!(q.dequeue(), Some(Command::SetGpio { pin: 1, state: true })));
    assert!(matches!(q.dequeue(), Some(Command::SetGpio { pin: 2, state: false })));
    assert!(matches!(q.dequeue(), Some(Command::Reset)));
    assert!(q.dequeue().is_none());
}

#[test]
fn fifo_order_over_a_long_run() {
    // one enqueue and one dequeue per round: the ring wraps several times
    let mut q = CommandQueue::new();
    for i in 0u8..100 {
        q.enqueue(set_gpio(i % 32, true)).unwrap();
        match q.dequeue() {
            Some(Command::SetGpio { pin, state: true }) => assert_eq!(pin, i % 32),
            other => panic!("expected SetGpio, got {:?}", other.is_some()),
        }
    }
    assert_eq!(q.len(), 0);
}

#[test]
fn seventeenth_enqueue_fails_and_queue_is_unchanged() {
    let mut q = CommandQueue::new();
    for i in 0u8..16 {
        assert!(q.enqueue(set_gpio(i, true)).is_ok());
    }
    assert_eq!(q.len(), 16);
    assert_eq!(q.enqueue(Command::Reset), Err(QueueFull));
    assert_eq!(q.len(), 16);

    // the pending commands are exactly the 16 that were taken, in order
    for i in 0u8..16 {
        match q.dequeue() {
            Some(Command::SetGpio { pin, state: true }) => assert_eq!(pin, i),
            _ => panic!("queue content changed by the failed enqueue"),
        }
    }
    assert!(q.dequeue().is_none());
}

#[test]
fn dequeue_on_empty_is_none_and_nonblocking() {
    let mut q = CommandQueue::new();
    assert!(q.dequeue().is_none());
    assert!(q.dequeue().is_none());
    assert_eq!(q.len(), 0);
}

#[test]
fn system_surfaces_queue_full_to_the_producer() {
    let mut sys = System::new();
    sys.init();
    for _ in 0..16 {
        assert!(sys.enqueue_command(Command::Reset).is_ok());
    }
    assert_eq!(sys.pending_count(), 16);
    assert_eq!(sys.enqueue_command(Command::Reset), Err(QueueFull));
    assert_eq!(sys.pending_count(), 16);
}
