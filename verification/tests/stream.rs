use ntex_http_core::stream::{
    BoxedSocket, DuplexStream, IoErrorKind, MemoryStream, ReadOutcome, SecureStream, Socket,
    Transport, WriteOutcome,
};

fn pattern(n: usize) -> Vec<u8> {
    let mut v = Vec::with_capacity(n);
    for i in 0..n {
        v.push((i % 251) as u8);
    }
    v
}

fn round_trip_over(mut s: BoxedSocket, n: usize) {
    let bytes = pattern(n);
    assert_eq!(s.write(&bytes), WriteOutcome::Accepted(n));
    if n == 0 {
        assert_eq!(s.read(0), ReadOutcome::Pending);
    } else {
        match s.read(n) {
            ReadOutcome::Data(v) => assert_eq!(v, bytes),
            other => panic!("expected the written bytes back, got {:?}", other),
        }
        assert_eq!(s.read(n), ReadOutcome::Pending);
    }
}

#[test]
fn round_trip_zero_bytes() {
    round_trip_over(BoxedSocket::new(Transport::plain(MemoryStream::new())), 0);
}

#[test]
fn round_trip_one_byte() {
    round_trip_over(BoxedSocket::new(Transport::plain(MemoryStream::new())), 1);
}

#[test]
fn round_trip_four_kibibytes() {
    round_trip_over(BoxedSocket::new(Transport::plain(MemoryStream::new())), 4096);
}

#[test]
fn round_trip_one_mebibyte() {
    round_trip_over(BoxedSocket::new(Transport::plain(MemoryStream::new())), 1 << 20);
}

#[test]
fn plain_and_secure_transports_are_interchangeable() {
    // A tunnel over either transport presents the identical erased type and
    // the identical behaviour.
    let over_plain = BoxedSocket::new(Transport::plain(MemoryStream::new()));
    let over_secure =
        BoxedSocket::new(Transport::secure(SecureStream { inner: MemoryStream::new() }));
    let mut streams = [over_plain, over_secure];
    for s in streams.iter_mut() {
        let bytes = pattern(100);
        assert_eq!(s.write(&bytes), WriteOutcome::Accepted(100));
        match s.read(100) {
            ReadOutcome::Data(v) => assert_eq!(v, bytes),
            other => panic!("expected the written bytes back, got {:?}", other),
        }
    }
}

#[test]
fn partial_reads_deliver_the_front_in_order() {
    let mut s = BoxedSocket::new(Transport::plain(MemoryStream::new()));
    let bytes: Vec<u8> = vec![1, 2, 3, 4, 5, 6, 7, 8, 9, 10];
    assert_eq!(s.write(&bytes), WriteOutcome::Accepted(10));
    match s.read(4) {
        ReadOutcome::Data(v) => assert_eq!(v, vec![1, 2, 3, 4]),
        other => panic!("expected the first four bytes, got {:?}", other),
    }
    match s.read(100) {
        ReadOutcome::Data(v) => assert_eq!(v, vec![5, 6, 7, 8, 9, 10]),
        other => panic!("expected the remaining bytes, got {:?}", other),
    }
    assert_eq!(s.read(1), ReadOutcome::Pending);
}

#[test]
fn shutdown_drains_then_closes_and_rejects_writes() {
    let mut s = BoxedSocket::new(Transport::plain(MemoryStream::new()));
    assert_eq!(s.write(&[9, 9]), WriteOutcome::Accepted(2));
    assert_eq!(s.shutdown(), WriteOutcome::Accepted(0));
    assert_eq!(s.write(&[1]), WriteOutcome::Failed(IoErrorKind::BrokenPipe));
    match s.read(10) {
        ReadOutcome::Data(v) => assert_eq!(v, vec![9, 9]),
        other => panic!("expected the bytes written before shutdown, got {:?}", other),
    }
    assert_eq!(s.read(10), ReadOutcome::Closed);
}

#[test]
fn flush_changes_nothing() {
    let mut s = BoxedSocket::new(Transport::plain(MemoryStream::new()));
    assert_eq!(s.write(&[5]), WriteOutcome::Accepted(1));
    assert_eq!(s.flush(), WriteOutcome::Accepted(0));
    match s.read(1) {
        ReadOutcome::Data(v) => assert_eq!(v, vec![5]),
        other => panic!("a flush must not disturb pending bytes, got {:?}", other),
    }
}

#[test]
fn faults_pass_through_the_erasure_layer_unchanged() {
    let mut inner = MemoryStream::new();
    inner.plant_fault(IoErrorKind::ConnectionReset);
    let mut s = BoxedSocket::new(Transport::plain(inner));
    assert_eq!(s.read(10), ReadOutcome::Failed(IoErrorKind::ConnectionReset));
    // The fault is surfaced once; afterwards the stream works again.
    assert_eq!(s.read(10), ReadOutcome::Pending);
    assert_eq!(s.write(&[1]), WriteOutcome::Accepted(1));
}

#[test]
fn adapter_adds_no_state_of_its_own() {
    let mut adapted = Socket(MemoryStream::new());
    let bytes = pattern(17);
    assert_eq!(adapted.write(&bytes), WriteOutcome::Accepted(17));
    match adapted.read(17) {
        ReadOutcome::Data(v) => assert_eq!(v, bytes),
        other => panic!("expected the written bytes back, got {:?}", other),
    }
}

#[test]
fn read_buffers_stay_zero_initialized() {
    let s = BoxedSocket::new(Transport::plain(MemoryStream::new()));
    assert!(s.needs_zeroed_read_buffer());
}
