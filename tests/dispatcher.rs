use venta::dispatcher::{QUEUE_CAPACITY, RETRY_DELAY_MILLIS};
use venta::{Action, Dispatcher, QueueError};

/// Polls once and, when a send is asked for, reports whether `deliver`
/// accepts the current message; returns the action taken.
fn step(d: &mut Dispatcher<u32>, now: u64, sent: &mut Vec<u32>, ok: bool) -> Action {
    let action = d.poll(now);
    if action == Action::Send {
        let m = *d.current().expect("a message is in flight");
        if ok {
            sent.push(m);
            d.send_succeeded();
        } else {
            d.send_failed(now);
        }
    }
    action
}

#[test]
fn fifo_order_without_failures() {
    let mut d = Dispatcher::new();
    for i in 0..10u32 {
        assert_eq!(d.enqueue(i), Ok(()));
    }
    let mut sent = Vec::new();
    while step(&mut d, 0, &mut sent, true) == Action::Send {}
    assert_eq!(sent, (0..10).collect::<Vec<u32>>());
    assert!(!d.has_pending_messages());
}

#[test]
fn first_send_fails_then_all_delivered_in_order() {
    let mut d = Dispatcher::new();
    for id in [1u32, 2, 3] {
        assert_eq!(d.enqueue(id), Ok(()));
    }
    let mut sent = Vec::new();
    let mut waits = Vec::new();
    // First attempt for 1 fails at t = 0.
    assert_eq!(step(&mut d, 0, &mut sent, false), Action::Send);
    assert!(sent.is_empty());
    let mut now = 0u64;
    loop {
        match d.poll(now) {
            Action::WaitUntil(t) => {
                waits.push(t);
                now = t;
            }
            Action::Connect => d.connection_created(),
            Action::Send => {
                sent.push(*d.current().unwrap());
                d.send_succeeded();
            }
            Action::Receive => break,
            Action::Stop => panic!("queue was not closed"),
        }
    }
    assert_eq!(sent, vec![1, 2, 3]);
    assert_eq!(waits, vec![RETRY_DELAY_MILLIS]);
}

#[test]
fn full_queue_refuses_until_a_slot_frees() {
    let mut d = Dispatcher::with_capacity(2, true);
    assert_eq!(d.enqueue(1u32), Ok(()));
    assert_eq!(d.enqueue(2), Ok(()));
    assert_eq!(d.enqueue(3), Err((QueueError::QueueFull, 3)));
    assert_eq!(d.queued(), 2);
    assert_eq!(d.poll(0), Action::Send);
    assert_eq!(d.queued(), 1);
    assert_eq!(d.enqueue(3), Ok(()));
    assert_eq!(d.queued(), 2);
}

#[test]
fn default_capacity_is_one_thousand() {
    let mut d = Dispatcher::new();
    for i in 0..QUEUE_CAPACITY as u32 {
        assert_eq!(d.enqueue(i), Ok(()));
    }
    assert_eq!(QUEUE_CAPACITY, 1000);
    assert_eq!(d.enqueue(0), Err((QueueError::QueueFull, 0)));
}

#[test]
fn timeout_drops_connection_and_reconnects_before_resend() {
    let mut d = Dispatcher::new();
    d.enqueue(7u32).unwrap();
    assert_eq!(d.poll(100), Action::Send);
    // The send ran past the timeout: reported like any failure.
    d.send_failed(100);
    assert_eq!(d.poll(100), Action::WaitUntil(100 + RETRY_DELAY_MILLIS));
    assert_eq!(d.poll(1099), Action::WaitUntil(1100));
    assert_eq!(d.poll(1100), Action::Connect);
    assert_eq!(d.current(), Some(&7));
    d.connection_created();
    assert_eq!(d.poll(1100), Action::Send);
    assert_eq!(d.current(), Some(&7));
}

#[test]
fn repeated_failures_keep_the_message() {
    let mut d = Dispatcher::new();
    d.enqueue(5u32).unwrap();
    d.enqueue(6u32).unwrap();
    let mut now = 0u64;
    assert_eq!(d.poll(now), Action::Send);
    for _ in 0..5 {
        d.send_failed(now);
        assert!(d.has_pending_messages());
        assert_eq!(d.poll(now), Action::WaitUntil(now + RETRY_DELAY_MILLIS));
        now += RETRY_DELAY_MILLIS;
        assert_eq!(d.poll(now), Action::Connect);
        d.connection_created();
        assert_eq!(d.poll(now), Action::Send);
        assert_eq!(d.current(), Some(&5));
    }
    d.send_succeeded();
    assert_eq!(d.poll(now), Action::Send);
    assert_eq!(d.current(), Some(&6));
}

#[test]
fn no_send_without_connection() {
    let mut d = Dispatcher::with_capacity(4, false);
    d.enqueue(1u32).unwrap();
    for t in [0u64, 10, 5000] {
        assert_eq!(d.poll(t), Action::Connect);
    }
    d.connection_created();
    assert_eq!(d.poll(0), Action::Send);
}

#[test]
fn factory_failure_waits_the_retry_delay() {
    let mut d = Dispatcher::with_capacity(4, false);
    d.enqueue(9u32).unwrap();
    assert_eq!(d.poll(2000), Action::Connect);
    d.connection_failed(2000);
    assert!(d.has_pending_messages());
    assert_eq!(d.current(), None);
    assert_eq!(d.poll(2500), Action::WaitUntil(3000));
    assert_eq!(d.poll(2999), Action::WaitUntil(3000));
    assert_eq!(d.poll(3000), Action::Connect);
    assert_eq!(d.current(), Some(&9));
}

#[test]
fn retry_takes_priority_over_new_arrivals() {
    let mut d = Dispatcher::new();
    d.enqueue(1u32).unwrap();
    assert_eq!(d.poll(0), Action::Send);
    d.send_failed(0);
    d.enqueue(2).unwrap();
    assert_eq!(d.poll(10), Action::WaitUntil(1000));
    assert_eq!(d.poll(1000), Action::Connect);
    assert_eq!(d.current(), Some(&1));
}

#[test]
fn closed_queue_drains_then_stops() {
    let mut d = Dispatcher::new();
    d.enqueue(1u32).unwrap();
    d.close();
    assert_eq!(d.enqueue(2), Err((QueueError::QueueClosed, 2)));
    let mut sent = Vec::new();
    assert_eq!(step(&mut d, 0, &mut sent, true), Action::Send);
    assert_eq!(sent, vec![1]);
    assert_eq!(d.poll(0), Action::Stop);
}

#[test]
fn empty_open_queue_asks_to_receive() {
    let mut d: Dispatcher<u32> = Dispatcher::new();
    assert!(!d.has_pending_messages());
    assert_eq!(d.poll(0), Action::Receive);
}

#[test]
fn deadline_saturates_at_the_end_of_time() {
    let mut d = Dispatcher::new();
    d.enqueue(1u32).unwrap();
    assert_eq!(d.poll(u64::MAX - 10), Action::Send);
    d.send_failed(u64::MAX - 10);
    assert_eq!(d.poll(u64::MAX - 10), Action::WaitUntil(u64::MAX));
}
