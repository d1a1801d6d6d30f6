use tunstack::control::{
    EngineTcpState, ReadOutcome, ShutdownOutcome, TcpSocketControl, WriteOutcome,
};
use tunstack::fifo::ByteFifo;
use smoltcp::storage::RingBuffer;

#[test]
fn fifo_keeps_order_and_bound() {
    let mut f = ByteFifo::new(4);
    assert!(f.is_empty());
    assert_eq!(f.enqueue_slice(&[1, 2, 3]), 3);
    assert_eq!(f.enqueue_slice(&[4, 5, 6]), 1); // only one byte fits
    assert!(f.is_full());
    assert_eq!(f.dequeue(2), vec![1, 2]);
    assert_eq!(f.free_space(), 2);
    assert_eq!(f.enqueue_slice(&[7]), 1);
    assert_eq!(f.dequeue(10), vec![3, 4, 7]);
    assert!(f.is_empty());
}

#[test]
fn write_then_drain_preserves_bytes() {
    let mut c = TcpSocketControl::new(4, 4);
    match c.write(&[1, 2, 3, 4, 5, 6]) {
        WriteOutcome::Accepted(n) => assert_eq!(n, 4),
        _ => panic!("expected acceptance"),
    }
    // Buffer full now: a second write must block, not drop.
    assert!(matches!(c.write(&[7]), WriteOutcome::WouldBlock));
    // Driver drains for the engine, in order.
    assert_eq!(c.take_send(2), vec![1, 2]);
    assert_eq!(c.take_send(10), vec![3, 4]);
    // Freed capacity: the writer goes again; nothing was lost in between.
    match c.write(&[5, 6]) {
        WriteOutcome::Accepted(n) => assert_eq!(n, 2),
        _ => panic!("expected acceptance"),
    }
    assert_eq!(c.take_send(10), vec![5, 6]);
}

#[test]
fn deliver_then_read_preserves_bytes() {
    let mut c = TcpSocketControl::new(8, 4);
    assert_eq!(c.accept_recv(&[10, 20, 30, 40, 50]), 4); // engine keeps the 50
    match c.read(2) {
        ReadOutcome::Data(v) => assert_eq!(v, vec![10, 20]),
        _ => panic!("expected data"),
    }
    assert_eq!(c.accept_recv(&[50]), 1); // redelivered on the next tick
    match c.read(100) {
        ReadOutcome::Data(v) => assert_eq!(v, vec![30, 40, 50]),
        _ => panic!("expected data"),
    }
    assert!(matches!(c.read(100), ReadOutcome::WouldBlock));
}

#[test]
fn read_eof_only_after_close_and_drain() {
    let mut c = TcpSocketControl::new(8, 8);
    assert_eq!(c.accept_recv(&[1]), 1);
    c.on_engine_closed();
    // A byte still waits: it is readable before the EOF shows.
    match c.read(8) {
        ReadOutcome::Data(v) => assert_eq!(v, vec![1]),
        _ => panic!("expected data"),
    }
    assert!(matches!(c.read(8), ReadOutcome::Eof));
}

#[test]
fn shutdown_walks_the_write_half_lifecycle() {
    let mut c = TcpSocketControl::new(8, 8);
    // Close requested by the handle.
    assert!(matches!(c.shutdown(), ShutdownOutcome::Pending));
    // Writes now fail: the half is no longer Normal.
    assert!(matches!(c.write(&[1]), WriteOutcome::BrokenPipe));
    // The driver observes the request exactly once and closes via the engine.
    assert!(c.request_engine_close());
    assert!(!c.request_engine_close());
    // Engine done: terminal; shutdown completes.
    c.on_engine_closed();
    assert!(matches!(c.shutdown(), ShutdownOutcome::Done));
}

#[test]
fn drop_closes_both_open_halves() {
    let mut c = TcpSocketControl::new(8, 8);
    c.close_both();
    assert!(matches!(c.write(&[1]), WriteOutcome::BrokenPipe));
    assert!(c.request_engine_close());
}

#[test]
fn engine_error_closes_the_half() {
    let mut c = TcpSocketControl::new(8, 8);
    c.on_recv_error();
    assert!(matches!(c.read(8), ReadOutcome::Eof));
    c.on_send_error();
    assert!(matches!(c.write(&[1]), WriteOutcome::BrokenPipe));
}

#[test]
fn eof_marking_follows_engine_state() {
    let mut c = TcpSocketControl::new(8, 8);
    // Peer still establishing or established: no EOF.
    assert!(!c.mark_recv_eof(false, EngineTcpState::Established));
    assert!(!c.mark_recv_eof(false, EngineTcpState::FinWait2));
    // Engine can still hand bytes out: no EOF.
    assert!(!c.mark_recv_eof(true, EngineTcpState::CloseWait));
    // Peer FIN seen and drained: EOF, exactly once.
    assert!(c.mark_recv_eof(false, EngineTcpState::CloseWait));
    assert!(!c.mark_recv_eof(false, EngineTcpState::CloseWait));
    assert!(matches!(c.read(8), ReadOutcome::Eof));
}

#[test]
fn fifo_agrees_with_the_engine_ring() {
    // The same operation script against this buffer and against the
    // engine's own byte ring must give the same counts, bytes and fill
    // state.
    let mut ours = ByteFifo::new(8);
    let mut theirs: RingBuffer<u8> = RingBuffer::new(vec![0u8; 8]);
    let script: Vec<(bool, usize)> = vec![
        (true, 5),
        (true, 6),
        (false, 3),
        (true, 4),
        (false, 10),
        (true, 8),
        (false, 2),
        (false, 10),
        (true, 1),
        (false, 4),
    ];
    let mut counter = 0u8;
    for (is_enqueue, n) in script {
        if is_enqueue {
            let data: Vec<u8> = (0..n)
                .map(|_| {
                    counter = counter.wrapping_add(1);
                    counter
                })
                .collect();
            assert_eq!(ours.enqueue_slice(&data), theirs.enqueue_slice(&data));
        } else {
            let mut buf = vec![0u8; n];
            let m = theirs.dequeue_slice(&mut buf);
            let got = ours.dequeue(n);
            assert_eq!(got.len(), m);
            assert_eq!(got, buf[..m].to_vec());
        }
        assert_eq!(ours.is_empty(), theirs.is_empty());
        assert_eq!(ours.is_full(), theirs.is_full());
        assert_eq!(ours.len(), theirs.len());
    }
}
