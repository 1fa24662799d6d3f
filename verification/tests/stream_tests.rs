use v4l_stream::arena::Arena;
use v4l_stream::buffer::BufType;
use v4l_stream::buffer::Metadata;
use v4l_stream::buffer::MEMORY_USERPTR;
use v4l_stream::error::classify_errno;
use v4l_stream::error::StreamError;
use v4l_stream::stream::CmdOutcome;
use v4l_stream::stream::Completion;
use v4l_stream::stream::Stream;
use v4l_stream::stream::WaitOutcome;
use v4l_stream::stream::DEFAULT_BUFFER_COUNT;

fn completion(index: u32, bytesused: u32, flags: u32, sequence: u32) -> Completion {
    Completion {
        index,
        bytesused,
        flags,
        field: 0,
        sec: 0,
        usec: 0,
        sequence,
    }
}

#[test]
fn allocate_grants_addressable_buffers() {
    let mut arena = Arena::new(BufType::VideoCapture);
    let actual = arena.allocate(3, 8).unwrap();
    assert_eq!(actual, 3);
    assert!(actual >= 1);
    assert_eq!(arena.len(), 3);
    for i in 0..arena.len() {
        let buf = arena.buffer_at(i);
        assert_eq!(buf.len(), 8);
        assert!(buf.iter().all(|b| *b == 0));
    }
}

#[test]
fn allocate_zero_grant_is_rejected() {
    let mut arena = Arena::new(BufType::VideoCapture);
    assert_eq!(arena.allocate(0, 8), Err(StreamError::DeviceRejected));
    assert_eq!(arena.len(), 0);
}

#[test]
fn with_buffers_zero_grant_fails() {
    match Stream::with_buffers(3, BufType::VideoCapture, 0, 64) {
        Err(StreamError::DeviceRejected) => {}
        _ => panic!("a zero grant must be rejected"),
    }
}

#[test]
fn fresh_stream_state() {
    let s = Stream::with_buffers(3, BufType::VideoCapture, 2, 16).unwrap();
    assert_eq!(s.handle(), 3);
    assert_eq!(s.buffer_count(), 2);
    assert!(!s.is_active());
    assert!(!s.is_queued(0));
    assert!(!s.is_queued(1));
    assert_eq!(s.wait_timeout_ms(), -1);
    let (buf, meta) = s.get(1).unwrap();
    assert_eq!(buf.len(), 16);
    assert_eq!(meta, Metadata::default());
}

#[test]
fn queued_slot_is_not_accepted_twice() {
    let mut s = Stream::with_buffers(3, BufType::VideoCapture, 2, 16).unwrap();
    assert!(s.queue(0, CmdOutcome::Accepted).is_ok());
    assert!(s.is_queued(0));
    // A second enqueue of the same slot is refused before any command is
    // issued, both at the descriptor and at the state machine.
    assert_eq!(s.queue_desc(0), Err(StreamError::DeviceError(22)));
    assert_eq!(
        s.queue(0, CmdOutcome::Accepted),
        Err(StreamError::DeviceError(22))
    );
    assert!(s.is_queued(0));
    // Once a dequeue returns the slot, it is accepted again.
    let got = s.dequeue_done(&completion(0, 100, 0, 1));
    assert_eq!(got, 0);
    assert!(!s.is_queued(0));
    assert!(s.queue(0, CmdOutcome::Accepted).is_ok());
}

#[test]
fn queue_out_of_range_fails() {
    let mut s = Stream::with_buffers(3, BufType::VideoCapture, 2, 16).unwrap();
    assert_eq!(s.queue_desc(2), Err(StreamError::DeviceError(22)));
    assert_eq!(
        s.queue(2, CmdOutcome::Accepted),
        Err(StreamError::DeviceError(22))
    );
}

#[test]
fn queue_device_rejection_leaves_slot_unqueued() {
    let mut s = Stream::with_buffers(3, BufType::VideoCapture, 2, 16).unwrap();
    assert_eq!(
        s.queue(0, CmdOutcome::Rejected(5)),
        Err(StreamError::DeviceError(5))
    );
    assert!(!s.is_queued(0));
}

#[test]
fn stop_on_idle_stream_applies_outcome_without_state_change() {
    let mut s = Stream::with_buffers(3, BufType::VideoCapture, 2, 16).unwrap();
    assert!(!s.is_active());
    // The command payload is defined in the idle state too: no
    // short-circuit before the device call.
    assert_eq!(s.stream_command(), 1);
    assert!(s.stop(CmdOutcome::Accepted).is_ok());
    assert!(!s.is_active());
}

#[test]
fn start_and_stop_toggle_active() {
    let mut s = Stream::with_buffers(3, BufType::VideoCapture, 2, 16).unwrap();
    assert!(s.start(CmdOutcome::Accepted).is_ok());
    assert!(s.is_active());
    assert_eq!(
        s.stop(CmdOutcome::Rejected(5)),
        Err(StreamError::DeviceError(5))
    );
    assert!(s.is_active());
    assert!(s.stop(CmdOutcome::Accepted).is_ok());
    assert!(!s.is_active());
}

#[test]
fn start_rejected_stays_idle() {
    let mut s = Stream::with_buffers(3, BufType::VideoCapture, 2, 16).unwrap();
    assert_eq!(
        s.start(CmdOutcome::Rejected(22)),
        Err(StreamError::DeviceError(22))
    );
    assert!(!s.is_active());
}

#[test]
fn first_cycle_plans_every_slot() {
    let s = Stream::with_buffers(3, BufType::VideoCapture, 4, 16).unwrap();
    assert_eq!(s.cycle_plan(), vec![0, 1, 2, 3]);
}

#[test]
fn later_cycles_plan_only_last_returned_slot() {
    let mut s = Stream::with_buffers(3, BufType::VideoCapture, 4, 16).unwrap();
    for i in s.cycle_plan() {
        s.queue(i, CmdOutcome::Accepted).unwrap();
    }
    s.start(CmdOutcome::Accepted).unwrap();
    s.dequeue_done(&completion(2, 64, 0, 1));
    assert_eq!(s.cycle_plan(), vec![2]);
}

#[test]
fn bounded_wait_with_nothing_ready_is_a_timeout() {
    let mut s = Stream::with_buffers(3, BufType::VideoCapture, 2, 16).unwrap();
    s.set_timeout(100);
    assert_eq!(s.wait_timeout_ms(), 100);
    assert_eq!(
        Stream::check_wait(WaitOutcome::Woke(0)),
        Err(StreamError::Timeout)
    );
    s.clear_timeout();
    assert_eq!(s.wait_timeout_ms(), -1);
}

#[test]
fn wait_outcomes_classify() {
    assert!(Stream::check_wait(WaitOutcome::Woke(1)).is_ok());
    assert_eq!(
        Stream::check_wait(WaitOutcome::Failed(5)),
        Err(StreamError::DeviceError(5))
    );
    assert_eq!(
        Stream::check_wait(WaitOutcome::Failed(19)),
        Err(StreamError::DeviceGone)
    );
}

#[test]
fn metadata_is_stored_exactly_and_kept_until_next_dequeue() {
    let mut s = Stream::with_buffers(3, BufType::VideoCapture, 4, 16).unwrap();
    let c = Completion {
        index: 3,
        bytesused: 4096,
        flags: 4,
        field: 1,
        sec: 12,
        usec: 500,
        sequence: 77,
    };
    assert_eq!(s.dequeue_done(&c), 3);
    let (_, meta) = s.get(3).unwrap();
    assert_eq!(meta.bytesused, 4096);
    assert_eq!(meta.flags, 4);
    assert_eq!(meta.field, 1);
    assert_eq!(meta.sec, 12);
    assert_eq!(meta.usec, 500);
    assert_eq!(meta.sequence, 77);
    // Another slot completing leaves slot 3's record untouched.
    s.dequeue_done(&completion(1, 9, 0, 78));
    let (_, unchanged) = s.get(3).unwrap();
    assert_eq!(unchanged, meta);
    // The next dequeue of slot 3 overwrites it.
    s.dequeue_done(&completion(3, 10, 0, 79));
    let (_, rewritten) = s.get(3).unwrap();
    assert_eq!(rewritten.bytesused, 10);
    assert_eq!(rewritten.sequence, 79);
}

#[test]
fn get_out_of_range_fails() {
    let s = Stream::with_buffers(3, BufType::VideoCapture, 2, 16).unwrap();
    assert!(s.get(2).is_err());
}

#[test]
fn teardown_absorbs_device_gone_only() {
    let mut s = Stream::with_buffers(3, BufType::VideoCapture, 2, 16).unwrap();
    s.start(CmdOutcome::Accepted).unwrap();
    // The device vanished during the implicit stop: considered stopped.
    assert!(s.teardown(CmdOutcome::Rejected(19)).is_ok());
    assert!(!s.is_active());
    // Any other failure during teardown is surfaced as fatal.
    let mut t = Stream::with_buffers(3, BufType::VideoCapture, 2, 16).unwrap();
    t.start(CmdOutcome::Accepted).unwrap();
    assert_eq!(
        t.teardown(CmdOutcome::Rejected(5)),
        Err(StreamError::DeviceError(5))
    );
    assert!(t.teardown(CmdOutcome::Accepted).is_ok());
    assert!(!t.is_active());
}

#[test]
fn errno_classification() {
    assert_eq!(classify_errno(19), StreamError::DeviceGone);
    assert_eq!(classify_errno(7), StreamError::DeviceError(7));
    assert!(StreamError::DeviceGone.ignorable_on_teardown());
    assert!(!StreamError::Timeout.ignorable_on_teardown());
    assert!(!StreamError::DeviceError(19).ignorable_on_teardown());
}

#[test]
fn buffer_type_codes() {
    assert_eq!(BufType::VideoCapture.code(), 1);
    assert_eq!(BufType::VideoOutput.code(), 2);
    assert_eq!(BufType::VideoCaptureMplane.code(), 9);
    assert_eq!(BufType::VideoOutputMplane.code(), 10);
    assert_eq!(MEMORY_USERPTR, 2);
}

#[test]
fn end_to_end_two_cycles() {
    // Construct against a device that grants the conventional request of
    // four buffers.
    let mut s = Stream::new(3, BufType::VideoCapture, DEFAULT_BUFFER_COUNT, 4096).unwrap();
    assert_eq!(s.buffer_count(), 4);

    // First cycle: queue indices 0..=3, then start.
    let plan = s.cycle_plan();
    assert_eq!(plan, vec![0, 1, 2, 3]);
    for i in plan {
        let desc = s.queue_desc(i).unwrap();
        assert_eq!(desc.index, i as u32);
        assert_eq!(desc.typ, 1);
        assert_eq!(desc.memory, MEMORY_USERPTR);
        assert_eq!(desc.length, 4096);
        s.queue(i, CmdOutcome::Accepted).unwrap();
    }
    assert!(!s.is_active());
    s.start(CmdOutcome::Accepted).unwrap();
    assert!(s.is_active());

    // Device reports completion of index 2 with 4096 bytes used.
    Stream::check_wait(WaitOutcome::Woke(1)).unwrap();
    let k = s.dequeue_done(&completion(2, 4096, 0, 1));
    assert_eq!(k, 2);
    let (data, meta) = s.get(k).unwrap();
    assert_eq!(data.len(), 4096);
    assert_eq!(meta.bytesused, 4096);

    // Second cycle: only index 2 is re-queued; index 0 completes.
    assert_eq!(s.cycle_plan(), vec![2]);
    s.queue(2, CmdOutcome::Accepted).unwrap();
    Stream::check_wait(WaitOutcome::Woke(1)).unwrap();
    let k2 = s.dequeue_done(&completion(0, 128, 0, 2));
    assert_eq!(k2, 0);
    let (data0, meta0) = s.get(k2).unwrap();
    assert_eq!(data0.len(), 4096);
    assert_eq!(meta0.bytesused, 128);
}
