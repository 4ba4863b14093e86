use reverse_internet::inside::{link_broken_message, InsideState};
use reverse_internet::queue::{PendingQueue, QUEUE_CAPACITY};

#[test]
fn queue_fifo_order() {
    let mut q = PendingQueue::new();
    assert!(q.is_empty());
    assert!(q.push_back(1));
    assert!(q.push_back(2));
    assert!(q.push_back(3));
    assert_eq!(q.len(), 3);
    assert_eq!(q.pop_front(), Some(1));
    assert_eq!(q.pop_front(), Some(2));
    assert_eq!(q.pop_front(), Some(3));
    assert_eq!(q.pop_front(), None);
}

#[test]
fn queue_backpressure_at_capacity() {
    let mut q = PendingQueue::new();
    for id in 0..QUEUE_CAPACITY as u64 {
        assert!(q.push_back(id));
    }
    assert!(q.is_full());
    assert!(!q.push_back(999));
    assert_eq!(q.len(), QUEUE_CAPACITY);
    assert_eq!(q.pop_front(), Some(0));
    assert!(q.push_back(999));
}

#[test]
fn coordinator_pairs_fifo() {
    let mut st = InsideState::new();
    assert!(st.accept_client());
    assert!(st.accept_client());
    assert!(st.accept_client());
    assert_eq!(st.clients_accepted, 3);
    assert_eq!(st.take_signal_for_write(), Some(1));
    assert_eq!(st.take_signal_for_write(), Some(2));
    assert_eq!(st.take_signal_for_write(), Some(3));
    assert_eq!(st.take_signal_for_write(), None);
    assert_eq!(st.signals_sent, 3);
    assert!(st.data_conn_arrived(10));
    assert!(st.data_conn_arrived(20));
    assert!(st.data_conn_arrived(30));
    assert_eq!(st.pair_next(), Some(10));
    assert_eq!(st.pair_next(), Some(20));
    assert_eq!(st.pair_next(), Some(30));
    assert_eq!(st.paired, 3);
}

#[test]
fn coordinator_signal_backpressure() {
    let mut st = InsideState::new();
    for _ in 0..QUEUE_CAPACITY {
        assert!(st.accept_client());
    }
    // The signal queue is at its bound: the accept loop must block.
    assert!(!st.accept_client());
    assert_eq!(st.clients_accepted, QUEUE_CAPACITY as u64);
    // Draining one signal makes room for one more client.
    assert_eq!(st.take_signal_for_write(), Some(1));
    assert!(st.accept_client());
    assert_eq!(st.clients_accepted, QUEUE_CAPACITY as u64 + 1);
}

#[test]
fn coordinator_counts_one_signal_per_client() {
    let mut st = InsideState::new();
    for _ in 0..5 {
        assert!(st.accept_client());
    }
    assert_eq!(st.take_signal_for_write(), Some(1));
    assert_eq!(st.take_signal_for_write(), Some(2));
    assert_eq!(st.queued_signals + st.signals_sent, st.clients_accepted);
    assert!(st.accept_client());
    assert_eq!(st.queued_signals + st.signals_sent, st.clients_accepted);
}

#[test]
fn pairing_waits_when_no_data_connection() {
    let mut st = InsideState::new();
    assert!(st.accept_client());
    assert_eq!(st.pair_next(), None);
    assert!(st.data_conn_arrived(7));
    assert_eq!(st.pair_next(), Some(7));
}

#[test]
fn data_queue_bound_refuses_overflow() {
    let mut st = InsideState::new();
    for id in 0..QUEUE_CAPACITY as u64 {
        assert!(st.data_conn_arrived(id));
    }
    assert!(!st.data_conn_arrived(12345));
}

#[test]
fn control_failure_is_fatal_but_keeps_pairs() {
    let mut st = InsideState::new();
    assert!(st.accept_client());
    assert_eq!(st.take_signal_for_write(), Some(1));
    assert!(st.data_conn_arrived(42));
    assert_eq!(st.pair_next(), Some(42));
    st.control_failed();
    assert!(st.link_broken);
    // The pairing made before the failure is untouched; its relay runs on.
    assert_eq!(st.paired, 1);
    assert_eq!(st.signals_sent, 1);
    assert_eq!(link_broken_message(), "control link broken; restart both nodes");
}
