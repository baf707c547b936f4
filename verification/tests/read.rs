use async_async_io::read::{PollRead, ReadStart};
use tokio::io::ReadBuf;

/// An inner reader over a byte string, like a cursor.
struct Source {
    data: Vec<u8>,
    pos: usize,
    reads: usize,
}

impl Source {
    fn new(data: &[u8]) -> Source {
        Source { data: data.to_vec(), pos: 0, reads: 0 }
    }

    fn read(&mut self, buf: &mut [u8]) -> usize {
        self.reads += 1;
        let n = std::cmp::min(buf.len(), self.data.len() - self.pos);
        buf[..n].copy_from_slice(&self.data[self.pos..self.pos + n]);
        self.pos += n;
        n
    }
}

/// Stands for a boxed future of one read: it holds the job while it runs.
struct Job {
    running: Option<(Source, Vec<u8>)>,
    serial: u32,
}

type Reader = PollRead<Source, Job>;

/// One `poll_read`, driven the way the runtime glue drives it. When `ready`
/// is false the future stays pending on this poll.
fn poll_read(p: &mut Reader, buf: &mut ReadBuf<'_>, ready: bool, next_serial: &mut u32) -> Option<Result<(), String>> {
    let mut fut = match p.read_start(buf) {
        ReadStart::Fresh { inner, buf: scratch, spare } => {
            let mut fut = match spare {
                Some(f) => f,
                None => {
                    *next_serial += 1;
                    Job { running: None, serial: *next_serial }
                }
            };
            fut.running = Some((inner, scratch));
            fut
        }
        ReadStart::Resume { fut } => fut,
    };
    let outcome = if ready {
        let (mut inner, mut scratch) = fut.running.take().unwrap();
        let n = inner.read(&mut scratch[..]);
        Some((inner, scratch, Ok(n)))
    } else {
        None
    };
    p.read_end(fut, outcome, buf)
}

/// Reads exactly `out.len()` bytes, as `read_exact` does.
fn read_exact(p: &mut Reader, out: &mut [u8], serial: &mut u32) {
    let mut rb = ReadBuf::new(out);
    while rb.remaining() > 0 {
        let before = rb.filled().len();
        let answer = poll_read(p, &mut rb, true, serial);
        assert_eq!(answer, Some(Ok(())));
        assert!(rb.filled().len() > before, "early end of stream");
    }
}

/// Reads until a read brings no bytes, as `read_to_end` does.
fn read_to_end(p: &mut Reader, out: &mut Vec<u8>, serial: &mut u32) {
    loop {
        let mut chunk = [0u8; 8192];
        let mut rb = ReadBuf::new(&mut chunk);
        let answer = poll_read(p, &mut rb, true, serial);
        assert_eq!(answer, Some(Ok(())));
        if rb.filled().is_empty() {
            return;
        }
        out.extend_from_slice(rb.filled());
    }
}

fn pseudo_random_bytes(n: usize) -> Vec<u8> {
    let mut x: u64 = 0x2545_f491_4f6c_dd1d;
    let mut v = Vec::with_capacity(n);
    for _ in 0..n {
        x ^= x << 13;
        x ^= x >> 7;
        x ^= x << 17;
        v.push((x >> 24) as u8);
    }
    v
}

#[test]
fn test_poll_read() {
    let stream = Source::new(b"hello world");
    let mut poll_read = PollRead::new(stream);
    let mut serial = 0;

    let mut writer = [0; 5];
    read_exact(&mut poll_read, &mut writer, &mut serial);
    assert_eq!(&writer, b"hello");

    let mut writer = [0; 1];
    read_exact(&mut poll_read, &mut writer, &mut serial);
    assert_eq!(&writer, b" ");

    let mut writer = [0; 5];
    read_exact(&mut poll_read, &mut writer, &mut serial);
    assert_eq!(&writer, b"world");
}

#[test]
fn test_poll_read_many() {
    let bytes = pseudo_random_bytes(1024 * 1024 + 1);
    let stream = Source::new(&bytes);
    let mut poll_read = PollRead::new(stream);
    let mut serial = 0;

    let mut writer = Vec::new();
    read_to_end(&mut poll_read, &mut writer, &mut serial);
    assert_eq!(writer, bytes);
}

#[test]
fn pending_read_is_resumed_not_restarted() {
    let mut p: Reader = PollRead::new(Source::new(b"abcdef"));
    let mut serial = 0;
    let mut backing = [0u8; 4];
    let mut rb = ReadBuf::new(&mut backing);
    assert_eq!(poll_read(&mut p, &mut rb, false, &mut serial), None);
    assert!(rb.filled().is_empty());
    assert_eq!(poll_read(&mut p, &mut rb, false, &mut serial), None);
    assert_eq!(poll_read(&mut p, &mut rb, true, &mut serial), Some(Ok(())));
    assert_eq!(rb.filled(), b"abcd");
    // One read reached the inner reader, through one future box.
    assert_eq!(p.inner().reads, 1);
    assert_eq!(serial, 1);
}

#[test]
fn read_scratch_is_sized_to_the_room_left() {
    let mut p: Reader = PollRead::new(Source::new(b"0123456789"));
    let mut backing = [9u8; 7];
    let mut rb = ReadBuf::new(&mut backing);
    rb.put_slice(&[1, 2, 3]);
    match p.read_start(&rb) {
        ReadStart::Fresh { inner, buf, spare } => {
            assert_eq!(buf, vec![0u8; 4]);
            assert!(spare.is_none());
            assert_eq!(inner.pos, 0);
        }
        ReadStart::Resume { .. } => panic!("an idle reader starts a fresh read"),
    }
}

#[test]
fn read_appends_after_what_is_filled() {
    let mut p: Reader = PollRead::new(Source::new(b"xyz"));
    let mut serial = 0;
    let mut backing = [0u8; 8];
    let mut rb = ReadBuf::new(&mut backing);
    rb.put_slice(b"ab");
    assert_eq!(poll_read(&mut p, &mut rb, true, &mut serial), Some(Ok(())));
    assert_eq!(rb.filled(), b"abxyz");
    assert_eq!(rb.capacity(), 8);
}

#[test]
fn read_error_is_answered_and_buffer_left_alone() {
    let mut p: Reader = PollRead::new(Source::new(b"data"));
    let mut serial = 0;
    let mut backing = [0u8; 4];
    let mut rb = ReadBuf::new(&mut backing);
    // Start a read that stays pending, then let it fail.
    assert_eq!(poll_read(&mut p, &mut rb, false, &mut serial), None);
    let mut fut = match p.read_start(&rb) {
        ReadStart::Resume { fut } => fut,
        ReadStart::Fresh { .. } => panic!("a pending read is resumed"),
    };
    let (inner, scratch) = fut.running.take().unwrap();
    assert_eq!(scratch.len(), 4);
    let answer = p.read_end(fut, Some((inner, scratch, Err::<usize, String>("broken".to_string()))), &mut rb);
    assert_eq!(answer, Some(Err("broken".to_string())));
    assert!(rb.filled().is_empty());
    // The reader is idle again with the inner reader that the read gave back.
    assert_eq!(p.inner().pos, 0);
    // The next read starts afresh and reuses the future box.
    assert_eq!(poll_read(&mut p, &mut rb, true, &mut serial), Some(Ok(())));
    assert_eq!(rb.filled(), b"data");
    assert_eq!(serial, 1);
}

#[test]
fn finished_read_reuses_its_future_box() {
    let mut p: Reader = PollRead::new(Source::new(b"hello world"));
    let mut serial = 0;
    let mut out = [0u8; 11];
    let mut rb = ReadBuf::new(&mut out);
    for _ in 0..3 {
        let mut chunk = [0u8; 4];
        let mut small = ReadBuf::new(&mut chunk);
        assert_eq!(poll_read(&mut p, &mut small, true, &mut serial), Some(Ok(())));
        rb.put_slice(small.filled());
    }
    assert_eq!(rb.filled(), b"hello world");
    assert_eq!(serial, 1);
    match p.read_start(&rb) {
        ReadStart::Fresh { spare, .. } => assert_eq!(spare.map(|f| f.serial), Some(1)),
        ReadStart::Resume { .. } => panic!("an idle reader starts a fresh read"),
    }
}

#[test]
fn reader_inner_accessors() {
    let mut p: Reader = PollRead::new(Source::new(b"q"));
    assert_eq!(p.inner().data, b"q".to_vec());
    p.inner_mut().data.push(b'r');
    assert_eq!(p.inner().data, b"qr".to_vec());
    let s = p.into_inner();
    assert_eq!(s.data, b"qr".to_vec());
    assert_eq!(s.reads, 0);
}

#[test]
fn outcome_fits_checks_scratch_and_room() {
    let mut backing = [0u8; 3];
    let rb = ReadBuf::new(&mut backing);
    let ok2: Option<(Source, Vec<u8>, Result<usize, String>)> = Some((Source::new(b""), vec![0; 4], Ok(2)));
    assert!(Reader::outcome_fits(&ok2, &rb));
    let too_long_for_room: Option<(Source, Vec<u8>, Result<usize, String>)> = Some((Source::new(b""), vec![0; 8], Ok(4)));
    assert!(!Reader::outcome_fits(&too_long_for_room, &rb));
    let too_long_for_scratch: Option<(Source, Vec<u8>, Result<usize, String>)> = Some((Source::new(b""), vec![0; 1], Ok(2)));
    assert!(!Reader::outcome_fits(&too_long_for_scratch, &rb));
    let failed: Option<(Source, Vec<u8>, Result<usize, String>)> = Some((Source::new(b""), vec![], Err("e".to_string())));
    assert!(Reader::outcome_fits(&failed, &rb));
    let pending: Option<(Source, Vec<u8>, Result<usize, String>)> = None;
    assert!(Reader::outcome_fits(&pending, &rb));
}

#[test]
fn pending_read_ignores_a_new_buffer_size() {
    let mut p: Reader = PollRead::new(Source::new(b"abcdefgh"));
    let mut serial = 0;
    let mut first = [0u8; 2];
    let mut rb = ReadBuf::new(&mut first);
    assert_eq!(poll_read(&mut p, &mut rb, false, &mut serial), None);
    assert!(!p.is_idle());
    // The caller comes back with a larger buffer: the pending read, sized for two
    // bytes, goes on.
    let mut second = [0u8; 6];
    let mut rb2 = ReadBuf::new(&mut second);
    assert_eq!(poll_read(&mut p, &mut rb2, true, &mut serial), Some(Ok(())));
    assert_eq!(rb2.filled(), b"ab");
    assert!(p.is_idle());
}

#[test]
fn stream_read_with_pending_polls_loses_nothing() {
    let bytes = pseudo_random_bytes(50_000);
    let mut p: Reader = PollRead::new(Source::new(&bytes));
    let mut serial = 0;
    let mut out = Vec::new();
    let mut turn = 0u32;
    loop {
        let mut chunk = [0u8; 777];
        let mut rb = ReadBuf::new(&mut chunk);
        let answer = loop {
            turn += 1;
            // Every third poll stays pending; the next one resumes the same read.
            let a = poll_read(&mut p, &mut rb, turn % 3 != 0, &mut serial);
            if a.is_some() {
                break a;
            }
        };
        assert_eq!(answer, Some(Ok(())));
        if rb.filled().is_empty() {
            break;
        }
        out.extend_from_slice(rb.filled());
    }
    assert_eq!(out, bytes);
    assert_eq!(serial, 1);
}
