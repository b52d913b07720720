use elastic_pool::fsm::{Fsm, State, Task, SLEEP_INTERVAL_MS};
use elastic_pool::handle::{Handle, Notifier};
use elastic_pool::queue::{Operation, Queue};

#[test]
fn fifo_claim_order() {
    let mut q = Queue::new();
    q.push(Operation { msg: vec![1], sink: None });
    q.push(Operation { msg: vec![2], sink: None });
    q.push(Operation { msg: vec![3], sink: None });
    assert_eq!(q.try_pop().expect("first").msg, vec![1]);
    assert_eq!(q.try_pop().expect("second").msg, vec![2]);
    assert_eq!(q.try_pop().expect("third").msg, vec![3]);
    assert!(q.try_pop().is_none());
}

#[test]
fn at_most_one_claim() {
    let mut q = Queue::new();
    for i in 0..6u8 {
        q.push(Operation { msg: vec![i], sink: None });
    }
    // Two claimants alternate; every operation goes to exactly one of them.
    let mut first: Vec<Vec<u8>> = Vec::new();
    let mut second: Vec<Vec<u8>> = Vec::new();
    loop {
        match q.try_pop() {
            Some(op) => first.push(op.msg),
            None => break,
        }
        match q.try_pop() {
            Some(op) => second.push(op.msg),
            None => break,
        }
    }
    let mut seen: Vec<Vec<u8>> = Vec::new();
    for m in first.iter().chain(second.iter()) {
        assert!(!seen.contains(m), "an operation was claimed twice");
        seen.push(m.clone());
    }
    assert_eq!(seen.len(), 6, "an operation was lost");
}

#[test]
fn completion_delivery() {
    let mut h = Handle::new(Queue::new());
    let p = h.req(vec![7]);
    let m = Fsm::create();
    let t = m.connection_idle(h.queue_mut(), 0);
    match t {
        Task::Request(m2, api) => {
            assert_eq!(m2.state, State::Requesting);
            assert_eq!(api.msg, vec![7]);
            let sink = api.sink.expect("a submission with result carries a sink");
            sink.sender.send(vec![42]).expect("the receiver is alive");
        }
        Task::Sleep(_, _) => panic!("the queued operation was not claimed"),
    }
    let got = futures::executor::block_on(p.receiver).expect("the future resolves");
    assert_eq!(got, vec![42]);
}

#[test]
fn dropped_sink_resolves_to_cancellation() {
    let mut h = Handle::new(Queue::new());
    let p = h.req(vec![1]);
    let m = Fsm::create();
    match m.connection_idle(h.queue_mut(), 0) {
        Task::Request(_, api) => drop(api.sink),
        Task::Sleep(_, _) => panic!("the queued operation was not claimed"),
    }
    // The caller observes an explicit cancellation, not a hang.
    assert!(futures::executor::block_on(p.receiver).is_err());
}

#[test]
fn fire_and_forget_has_no_completion_channel() {
    let mut h = Handle::new(Queue::new());
    h.send(vec![9]);
    let op = h.queue_mut().try_pop().expect("the message was queued");
    assert_eq!(op.msg, vec![9]);
    assert!(op.sink.is_none());
}

#[test]
fn missed_signal_is_covered_by_timeout() {
    let mut q = Queue::new();
    let m = Fsm::create();
    let (m, deadline) = match m.connection_idle(&mut q, 1000) {
        Task::Sleep(m, d) => (m, d),
        Task::Request(_, _) => panic!("an empty queue cannot be claimed from"),
    };
    assert_eq!(m.state, State::Sleeping);
    assert_eq!(deadline, 1000 + SLEEP_INTERVAL_MS);
    // Work arrives during the wait and every wakeup signal is lost.
    q.push(Operation { msg: vec![5], sink: None });
    match m.timeout(true, &mut q, deadline) {
        Task::Request(m2, api) => {
            assert_eq!(m2.state, State::Requesting);
            assert_eq!(api.msg, vec![5]);
        }
        Task::Sleep(_, _) => panic!("the timer re-check must claim the waiting operation"),
    }
}

#[test]
fn idle_connection_dispatches_on_wakeup() {
    let mut q = Queue::new();
    q.push(Operation { msg: vec![3], sink: None });
    let m = Fsm::create();
    match m.wakeup(true, &mut q, 50) {
        Task::Request(m2, api) => {
            assert_eq!(m2.state, State::Requesting);
            assert_eq!(api.msg, vec![3]);
        }
        Task::Sleep(_, _) => panic!("an idle connection must claim at once on wakeup"),
    }
}

#[test]
fn busy_connection_keeps_waiting_on_wakeup() {
    let mut q = Queue::new();
    q.push(Operation { msg: vec![4], sink: None });
    let m = Fsm { state: State::Requesting };
    match m.wakeup(false, &mut q, 50) {
        Task::Sleep(m2, d) => {
            assert_eq!(m2.state, State::Requesting);
            assert_eq!(d, 50 + SLEEP_INTERVAL_MS);
        }
        Task::Request(_, _) => panic!("a busy connection cannot claim"),
    }
    assert_eq!(q.len(), 1);
}

#[test]
fn connection_error_closes_the_machine() {
    let m = Fsm::create();
    let m = m.connection_error();
    assert_eq!(m.state, State::Closed);
}

#[test]
fn every_listener_is_woken_once_per_push() {
    let (n1, rx1) = Notifier::new();
    let (n2, rx2) = Notifier::new();
    let mut h = Handle::new(Queue::new());
    h.add_listener(n1);
    h.add_listener(n2);
    h.send(vec![1]);
    assert!(rx1.try_recv().is_ok());
    assert!(rx2.try_recv().is_ok());
    assert!(rx1.try_recv().is_err());
    assert!(rx2.try_recv().is_err());
}

#[test]
fn wakeup_delivery_is_best_effort() {
    let (n, rx) = Notifier::new();
    let mut h = Handle::new(Queue::new());
    h.add_listener(n);
    drop(rx);
    // The listener's driver is gone; submission still succeeds.
    h.send(vec![2]);
    assert_eq!(h.queue_mut().len(), 1);
}

#[test]
fn submissions_from_several_producers_stay_ordered() {
    let mut h = Handle::new(Queue::new());
    let _p1 = h.req(vec![1]);
    h.send(vec![2]);
    let _p2 = h.req(vec![3]);
    let q = h.queue_mut();
    assert_eq!(q.try_pop().expect("first").msg, vec![1]);
    assert_eq!(q.try_pop().expect("second").msg, vec![2]);
    assert_eq!(q.try_pop().expect("third").msg, vec![3]);
}
