use async_async_io::write::{EmptyStart, PollWrite, WriteStart};

/// An inner writer that collects what it is given.
struct Sink {
    written: Vec<u8>,
    flushes: usize,
    shut: bool,
    max_chunk: usize,
}

impl Sink {
    fn new() -> Sink {
        Sink { written: Vec::new(), flushes: 0, shut: false, max_chunk: usize::MAX }
    }
}

/// Stands for the boxed future of one write.
struct WriteJob {
    running: Option<(Sink, Vec<u8>)>,
    serial: u32,
}

/// Stands for the boxed future of one flush or shutdown.
struct EmptyJob {
    running: Option<Sink>,
    serial: u32,
}

type Writer = PollWrite<Sink, WriteJob, EmptyJob>;

fn poll_write(p: &mut Writer, data: &[u8], ready: bool, serial: &mut u32) -> Option<Result<usize, String>> {
    let mut fut = match p.write_start(data) {
        WriteStart::Fresh { inner, buf, spare } => {
            let mut fut = spare.unwrap_or_else(|| {
                *serial += 1;
                WriteJob { running: None, serial: *serial }
            });
            fut.running = Some((inner, buf));
            fut
        }
        WriteStart::Resume { fut } => fut,
    };
    let outcome = if ready {
        let (mut inner, buf) = fut.running.take().unwrap();
        let n = std::cmp::min(buf.len(), inner.max_chunk);
        inner.written.extend_from_slice(&buf[..n]);
        Some((inner, buf, Ok(n)))
    } else {
        None
    };
    p.write_end(fut, outcome)
}

fn poll_flush(p: &mut Writer, ready: bool, serial: &mut u32) -> Option<Result<(), String>> {
    let mut fut = match p.flush_start() {
        EmptyStart::Fresh { inner, spare } => {
            let mut fut = spare.unwrap_or_else(|| {
                *serial += 1;
                EmptyJob { running: None, serial: *serial }
            });
            fut.running = Some(inner);
            fut
        }
        EmptyStart::Resume { fut } => fut,
    };
    let outcome = if ready {
        let mut inner = fut.running.take().unwrap();
        inner.flushes += 1;
        Some((inner, Ok(())))
    } else {
        None
    };
    p.flush_end(fut, outcome)
}

fn poll_shutdown(p: &mut Writer, ready: bool, fail: bool, serial: &mut u32) -> Option<Result<(), String>> {
    let mut fut = match p.shutdown_start() {
        EmptyStart::Fresh { inner, spare } => {
            let mut fut = spare.unwrap_or_else(|| {
                *serial += 1;
                EmptyJob { running: None, serial: *serial }
            });
            fut.running = Some(inner);
            fut
        }
        EmptyStart::Resume { fut } => fut,
    };
    let outcome = if ready {
        let mut inner = fut.running.take().unwrap();
        if fail {
            Some((inner, Err("refused".to_string())))
        } else {
            inner.shut = true;
            Some((inner, Ok(())))
        }
    } else {
        None
    };
    p.shutdown_end(fut, outcome)
}

/// Writes all of `data`, as `write_all` does.
fn write_all(p: &mut Writer, mut data: &[u8], serial: &mut u32) {
    while !data.is_empty() {
        match poll_write(p, data, true, serial) {
            Some(Ok(n)) => data = &data[n..],
            other => panic!("unexpected answer {:?}", other),
        }
    }
}

fn pseudo_random_bytes(n: usize) -> Vec<u8> {
    let mut x: u64 = 0x9e37_79b9_7f4a_7c15;
    let mut v = Vec::with_capacity(n);
    for _ in 0..n {
        x ^= x << 13;
        x ^= x >> 7;
        x ^= x << 17;
        v.push((x >> 32) as u8);
    }
    v
}

#[test]
fn test_poll_write() {
    let writer = Sink::new();
    let mut poll_write = PollWrite::new(writer);
    let mut serial = 0;

    write_all(&mut poll_write, b"hello", &mut serial);
    write_all(&mut poll_write, b" ", &mut serial);
    write_all(&mut poll_write, b"world", &mut serial);
    assert_eq!(poll_write.into_inner().written, b"hello world");
}

#[test]
fn test_poll_write_many() {
    let mut writer = Sink::new();
    writer.max_chunk = 4096;
    let mut poll_write = PollWrite::new(writer);
    let mut serial = 0;

    let bytes = pseudo_random_bytes(1024 * 1204 + 1);
    write_all(&mut poll_write, &bytes, &mut serial);
    assert_eq!(poll_write.into_inner().written, bytes);
    assert_eq!(serial, 1);
}

#[test]
fn pending_write_ignores_new_bytes_on_resume() {
    let mut p: Writer = PollWrite::new(Sink::new());
    let mut serial = 0;
    assert_eq!(poll_write(&mut p, b"first", false, &mut serial), None);
    // The caller comes back with other bytes: the pending write goes on.
    assert_eq!(poll_write(&mut p, b"second", true, &mut serial), Some(Ok(5)));
    assert_eq!(p.inner().written, b"first");
}

#[test]
fn write_start_hands_over_exact_bytes() {
    let mut p: Writer = PollWrite::new(Sink::new());
    let mut serial = 0;
    assert_eq!(poll_write(&mut p, b"a long first message", true, &mut serial), Some(Ok(20)));
    match p.write_start(b"ok") {
        WriteStart::Fresh { inner, buf, spare } => {
            assert_eq!(buf, b"ok".to_vec());
            assert_eq!(inner.written, b"a long first message".to_vec());
            assert_eq!(spare.map(|f| f.serial), Some(1));
        }
        WriteStart::Resume { .. } => panic!("an idle writer starts a fresh write"),
    }
}

#[test]
fn partial_write_reports_its_count() {
    let mut sink = Sink::new();
    sink.max_chunk = 3;
    let mut p: Writer = PollWrite::new(sink);
    let mut serial = 0;
    assert_eq!(poll_write(&mut p, b"abcdef", true, &mut serial), Some(Ok(3)));
    assert_eq!(p.inner().written, b"abc");
}

#[test]
fn flush_and_shutdown_cycle() {
    let mut p: Writer = PollWrite::new(Sink::new());
    let mut serial = 0;
    write_all(&mut p, b"bye", &mut serial);
    assert_eq!(poll_flush(&mut p, false, &mut serial), None);
    assert_eq!(poll_flush(&mut p, true, &mut serial), Some(Ok(())));
    assert_eq!(poll_flush(&mut p, true, &mut serial), Some(Ok(())));
    assert_eq!(p.inner().flushes, 2);
    assert_eq!(poll_shutdown(&mut p, true, true, &mut serial), Some(Err("refused".to_string())));
    assert!(!p.inner().shut);
    assert_eq!(poll_shutdown(&mut p, false, false, &mut serial), None);
    assert_eq!(poll_shutdown(&mut p, true, false, &mut serial), Some(Ok(())));
    let sink = p.into_inner();
    assert!(sink.shut);
    assert_eq!(sink.written, b"bye");
    // One box for the write, one for the flushes, one for the shutdowns.
    assert_eq!(serial, 3);
}

#[test]
fn writer_inner_accessors() {
    let mut p: Writer = PollWrite::new(Sink::new());
    p.inner_mut().written.extend_from_slice(b"pre");
    assert_eq!(p.inner().written, b"pre");
    let mut serial = 0;
    write_all(&mut p, b"+post", &mut serial);
    assert_eq!(p.into_inner().written, b"pre+post");
}

#[test]
fn running_operation_holds_the_writer() {
    let mut p: Writer = PollWrite::new(Sink::new());
    let mut serial = 0;
    assert!(p.has_inner());
    assert!(p.can_start_write() && p.can_start_flush() && p.can_start_shutdown());
    assert_eq!(poll_flush(&mut p, false, &mut serial), None);
    // The pending flush holds the inner writer: no fresh write or shutdown can start,
    // but the flush itself can be polled again.
    assert!(!p.has_inner());
    assert!(!p.can_start_write());
    assert!(!p.can_start_shutdown());
    assert!(p.can_start_flush());
    assert_eq!(poll_flush(&mut p, true, &mut serial), Some(Ok(())));
    assert!(p.has_inner());
    assert!(p.can_start_write() && p.can_start_flush() && p.can_start_shutdown());
}

#[test]
fn write_in_flight_cannot_start_again() {
    let mut p: Writer = PollWrite::new(Sink::new());
    let fut = match p.write_start(b"x") {
        WriteStart::Fresh { inner, buf, spare } => {
            assert!(spare.is_none());
            WriteJob { running: Some((inner, buf)), serial: 1 }
        }
        WriteStart::Resume { .. } => panic!("an idle writer starts a fresh write"),
    };
    assert!(!p.can_start_write());
    assert!(!p.has_inner());
    let mut fut = fut;
    let (inner, buf) = fut.running.take().unwrap();
    assert_eq!(p.write_end(fut, Some((inner, buf, Err::<usize, String>("full".to_string())))), Some(Err("full".to_string())));
    assert!(p.can_start_write());
    assert_eq!(p.inner().written, b"");
}

#[test]
fn stream_write_with_pending_polls_loses_nothing() {
    let mut sink = Sink::new();
    sink.max_chunk = 1000;
    let mut p: Writer = PollWrite::new(sink);
    let mut serial = 0;
    let bytes = pseudo_random_bytes(30_001);
    let mut rest: &[u8] = &bytes;
    let mut turn = 0u32;
    while !rest.is_empty() {
        turn += 1;
        match poll_write(&mut p, rest, turn % 4 != 0, &mut serial) {
            Some(Ok(n)) => rest = &rest[n..],
            None => {}
            other => panic!("unexpected answer {:?}", other),
        }
    }
    assert_eq!(p.into_inner().written, bytes);
}
