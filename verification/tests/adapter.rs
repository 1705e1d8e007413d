use readiness_bridge::adapter::{
    after_probe, after_transfer, Condition, PollRequest, PollStep, Polled, Probe, StreamOp,
};
use readiness_bridge::attempt::Attempt;
use readiness_bridge::cursor::ReadCursor;

/// A fake socket and engine for one poll: the probes come from `probes`,
/// the engine's answers from `answers`. Returns what the poll tells its
/// caller, with the conditions checked and the number of engine calls.
fn poll(
    op: StreamOp,
    probes: Vec<Probe<&'static str>>,
    answers: Vec<Attempt<usize, &'static str>>,
) -> (Polled<usize, &'static str>, Vec<Condition>, usize) {
    let mut probes = probes.into_iter();
    let mut answers = answers.into_iter();
    let mut checked = Vec::new();
    let mut transfers = 0;
    let mut request = op.begin();
    loop {
        let step = match request {
            PollRequest::Check(condition) => {
                checked.push(condition);
                after_probe(probes.next().expect("a probe is scripted"))
            }
            PollRequest::Transfer => {
                transfers += 1;
                after_transfer(op.engine_op(), answers.next().expect("an answer is scripted"))
            }
        };
        match step {
            PollStep::Continue(next) => request = next,
            PollStep::Finished(polled) => return (polled, checked, transfers),
        }
    }
}

#[test]
fn read_checks_readable_and_the_others_writable() {
    assert_eq!(StreamOp::Read.condition(), Condition::Readable);
    assert_eq!(StreamOp::Write.condition(), Condition::Writable);
    assert_eq!(StreamOp::Flush.condition(), Condition::Writable);
    assert_eq!(StreamOp::Shutdown.condition(), Condition::Writable);
    assert_eq!(StreamOp::Read.begin(), PollRequest::Check(Condition::Readable));
    assert_eq!(StreamOp::Write.begin(), PollRequest::Check(Condition::Writable));
}

#[test]
fn shutdown_is_a_flush() {
    assert_eq!(StreamOp::Shutdown.engine_op(), StreamOp::Flush);
    assert_eq!(StreamOp::Flush.engine_op(), StreamOp::Flush);
    assert_eq!(StreamOp::Read.engine_op(), StreamOp::Read);
    assert_eq!(StreamOp::Write.engine_op(), StreamOp::Write);
}

#[test]
fn socket_not_ready_is_pending_without_an_engine_call() {
    let (polled, checked, transfers) = poll(StreamOp::Read, vec![Probe::NotYet], vec![]);
    assert_eq!(polled, Polled::Pending);
    assert_eq!(checked, vec![Condition::Readable]);
    assert_eq!(transfers, 0);
}

#[test]
fn ready_socket_gives_one_engine_call() {
    let (polled, checked, transfers) =
        poll(StreamOp::Write, vec![Probe::Ready], vec![Attempt::Success(3)]);
    assert_eq!(polled, Polled::Ready(Ok(3)));
    assert_eq!(checked, vec![Condition::Writable]);
    assert_eq!(transfers, 1);
}

#[test]
fn engine_not_ready_goes_back_to_the_check() {
    let (polled, checked, transfers) = poll(
        StreamOp::Read,
        vec![Probe::Ready, Probe::Ready, Probe::NotYet],
        vec![Attempt::NotReady, Attempt::NotReady],
    );
    assert_eq!(polled, Polled::Pending);
    assert_eq!(checked, vec![Condition::Readable, Condition::Readable, Condition::Readable]);
    assert_eq!(transfers, 2);
    let (polled, checked, transfers) = poll(
        StreamOp::Read,
        vec![Probe::Ready, Probe::Ready],
        vec![Attempt::NotReady, Attempt::Success(0)],
    );
    assert_eq!(polled, Polled::Ready(Ok(0)));
    assert_eq!(checked.len(), 2);
    assert_eq!(transfers, 2);
}

#[test]
fn hard_error_ends_the_poll() {
    let (polled, _, transfers) =
        poll(StreamOp::Flush, vec![Probe::Ready], vec![Attempt::HardError("closed")]);
    assert_eq!(polled, Polled::Ready(Err("closed")));
    assert_eq!(transfers, 1);
}

#[test]
fn failed_check_ends_the_poll() {
    let (polled, _, transfers) = poll(StreamOp::Write, vec![Probe::Failed("reset")], vec![]);
    assert_eq!(polled, Polled::Ready(Err("reset")));
    assert_eq!(transfers, 0);
}

#[test]
fn single_decisions() {
    assert_eq!(
        after_probe::<usize, &str>(Probe::Ready),
        PollStep::Continue(PollRequest::Transfer)
    );
    assert_eq!(after_probe::<usize, &str>(Probe::NotYet), PollStep::Finished(Polled::Pending));
    assert_eq!(
        after_transfer::<usize, &str>(StreamOp::Write, Attempt::NotReady),
        PollStep::Continue(PollRequest::Check(Condition::Writable))
    );
    assert_eq!(
        after_transfer::<usize, &str>(StreamOp::Read, Attempt::NotReady),
        PollStep::Continue(PollRequest::Check(Condition::Readable))
    );
}

#[test]
fn cursor_of_a_fresh_buffer() {
    let cursor = ReadCursor::new(16);
    assert_eq!(cursor.capacity(), 16);
    assert_eq!(cursor.filled(), 0);
    assert_eq!(cursor.initialized(), 0);
    assert_eq!(cursor.remaining(), 16);
}

#[test]
fn cursor_needs_filled_within_initialized_within_capacity() {
    assert!(ReadCursor::at(8, 2, 4).is_some());
    assert!(ReadCursor::at(8, 8, 8).is_some());
    assert!(ReadCursor::at(0, 0, 0).is_some());
    assert!(ReadCursor::at(8, 5, 4).is_none());
    assert!(ReadCursor::at(8, 2, 9).is_none());
    let cursor = ReadCursor::at(8, 2, 4).expect("a cursor");
    assert_eq!((cursor.capacity(), cursor.filled(), cursor.initialized()), (8, 2, 4));
    assert_eq!(cursor.remaining(), 6);
}

#[test]
fn commit_marks_only_what_the_engine_wrote() {
    let mut cursor = ReadCursor::at(10, 2, 4).expect("a cursor");
    cursor.commit(1);
    assert_eq!((cursor.filled(), cursor.initialized(), cursor.capacity()), (3, 4, 10));
    cursor.commit(5);
    assert_eq!((cursor.filled(), cursor.initialized(), cursor.capacity()), (8, 8, 10));
    cursor.commit(0);
    assert_eq!((cursor.filled(), cursor.initialized()), (8, 8));
    cursor.commit(2);
    assert_eq!((cursor.filled(), cursor.initialized(), cursor.remaining()), (10, 10, 0));
}

#[test]
fn read_poll_records_the_count() {
    let mut cursor = ReadCursor::new(4096);
    let step = cursor.after_read::<&str>(Attempt::Success(100));
    assert_eq!(step, PollStep::Finished(Polled::Ready(Ok(()))));
    assert_eq!((cursor.filled(), cursor.initialized()), (100, 100));
    let step = cursor.after_read::<&str>(Attempt::Success(0));
    assert_eq!(step, PollStep::Finished(Polled::Ready(Ok(()))));
    assert_eq!(cursor.filled(), 100);
}

#[test]
fn read_poll_leaves_the_cursor_on_not_ready_and_on_error() {
    let mut cursor = ReadCursor::at(64, 10, 20).expect("a cursor");
    let step = cursor.after_read::<&str>(Attempt::NotReady);
    assert_eq!(step, PollStep::Continue(PollRequest::Check(Condition::Readable)));
    assert_eq!((cursor.capacity(), cursor.filled(), cursor.initialized()), (64, 10, 20));
    let step = cursor.after_read(Attempt::HardError("eof"));
    assert_eq!(step, PollStep::Finished(Polled::Ready(Err("eof"))));
    assert_eq!((cursor.capacity(), cursor.filled(), cursor.initialized()), (64, 10, 20));
}

/// A fake peer behind a fake engine: it takes at most `room` bytes for each
/// call, and every third call it is not ready.
struct FakePeer {
    received: Vec<u8>,
    room: usize,
    calls: usize,
}

impl FakePeer {
    fn write(&mut self, data: &[u8]) -> Attempt<usize, &'static str> {
        self.calls += 1;
        if self.calls % 3 == 0 {
            return Attempt::NotReady;
        }
        let count = data.len().min(self.room);
        self.received.extend_from_slice(&data[..count]);
        Attempt::Success(count)
    }
}

fn poll_write(peer: &mut FakePeer, data: &[u8]) -> Polled<usize, &'static str> {
    let mut request = StreamOp::Write.begin();
    loop {
        let step = match request {
            PollRequest::Check(_) => after_probe(Probe::Ready),
            PollRequest::Transfer => after_transfer(StreamOp::Write, peer.write(data)),
        };
        match step {
            PollStep::Continue(next) => request = next,
            PollStep::Finished(polled) => return polled,
        }
    }
}

#[test]
fn partial_writes_hand_over_every_byte_once_and_in_order() {
    let data: Vec<u8> = (0..4096u32).map(|i| (i % 251) as u8).collect();
    let mut peer = FakePeer { received: Vec::new(), room: 100, calls: 0 };
    let mut sent = 0;
    while sent < data.len() {
        match poll_write(&mut peer, &data[sent..]) {
            Polled::Ready(Ok(count)) => {
                assert!(count <= data.len() - sent);
                sent += count;
            }
            other => panic!("a count was due, not {:?}", other),
        }
    }
    assert_eq!(sent, 4096);
    assert_eq!(peer.received, data);
}

#[test]
fn reads_fill_the_buffer_with_what_the_engine_delivers() {
    let source: Vec<u8> = (0..4096u32).map(|i| (i % 241) as u8).collect();
    let mut delivered = 0;
    let mut collected: Vec<u8> = Vec::new();
    loop {
        let mut buffer = vec![0u8; 300];
        let mut cursor = ReadCursor::new(buffer.len());
        let count = (source.len() - delivered).min(cursor.remaining()).min(128);
        buffer[..count].copy_from_slice(&source[delivered..delivered + count]);
        delivered += count;
        let step = cursor.after_read::<&str>(Attempt::Success(count));
        assert_eq!(step, PollStep::Finished(Polled::Ready(Ok(()))));
        assert_eq!(cursor.filled(), count);
        if cursor.filled() == 0 {
            break;
        }
        collected.extend_from_slice(&buffer[..cursor.filled()]);
    }
    assert_eq!(collected.len(), 4096);
    assert_eq!(collected, source);
}

#[test]
fn two_reads_add_up() {
    let mut twice = ReadCursor::at(64, 4, 10).expect("a cursor");
    twice.commit(3);
    twice.commit(9);
    let mut once = ReadCursor::at(64, 4, 10).expect("a cursor");
    once.commit(12);
    assert_eq!(
        (twice.capacity(), twice.filled(), twice.initialized()),
        (once.capacity(), once.filled(), once.initialized())
    );
    assert_eq!((once.filled(), once.initialized()), (16, 16));
}
